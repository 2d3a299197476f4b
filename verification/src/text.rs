//! Character-level text handling: Unicode whitespace, trimming, splitting
//! into whitespace-separated tokens and string comparison.

use vstd::prelude::*;
use vstd::string::*;

verus! {

/// The Unicode `White_Space` property (PropList.txt): the characters that
/// `char::is_whitespace` reports as whitespace.
pub open spec fn is_unicode_white_space(c: char) -> bool {
    let v = c as u32;
    ||| 0x9 <= v && v <= 0xD
    ||| v == 0x20
    ||| v == 0x85
    ||| v == 0xA0
    ||| v == 0x1680
    ||| 0x2000 <= v && v <= 0x200A
    ||| v == 0x2028
    ||| v == 0x2029
    ||| v == 0x202F
    ||| v == 0x205F
    ||| v == 0x3000
}

/// Whether `c` has the Unicode `White_Space` property (what
/// `char::is_whitespace` reports).
pub fn char_is_whitespace(c: char) -> (r: bool)
    ensures
        r == is_unicode_white_space(c),
{
    let v = c as u32;
    (0x9 <= v && v <= 0xD) || v == 0x20 || v == 0x85 || v == 0xA0 || v == 0x1680 || (0x2000 <= v
        && v <= 0x200A) || v == 0x2028 || v == 0x2029 || v == 0x202F || v == 0x205F || v == 0x3000
}

/// A set of characters that trimming removes from the ends of a string.
#[derive(Clone, Copy, Debug, PartialEq, Eq)]
pub enum CharSet {
    /// Every character with the Unicode `White_Space` property.
    Whitespace,
    /// Exactly one character.
    Only(char),
}

pub open spec fn in_set(set: CharSet, c: char) -> bool {
    match set {
        CharSet::Whitespace => is_unicode_white_space(c),
        CharSet::Only(d) => c == d,
    }
}

/// Tests membership of `c` in `set`.
pub fn set_contains(set: CharSet, c: char) -> (r: bool)
    ensures
        r == in_set(set, c),
{
    match set {
        CharSet::Whitespace => char_is_whitespace(c),
        CharSet::Only(d) => c == d,
    }
}

/// `s` without its longest prefix of characters from `set`.
pub open spec fn trim_start_set(s: Seq<char>, set: CharSet) -> Seq<char>
    decreases s.len(),
{
    if s.len() > 0 && in_set(set, s[0]) {
        trim_start_set(s.drop_first(), set)
    } else {
        s
    }
}

/// `s` without its longest suffix of characters from `set`.
pub open spec fn trim_end_set(s: Seq<char>, set: CharSet) -> Seq<char>
    decreases s.len(),
{
    if s.len() > 0 && in_set(set, s.last()) {
        trim_end_set(s.drop_last(), set)
    } else {
        s
    }
}

/// `s` with characters from `set` removed from both ends.
pub open spec fn trim_set(s: Seq<char>, set: CharSet) -> Seq<char> {
    trim_end_set(trim_start_set(s, set), set)
}

/// `s` with leading and trailing Unicode whitespace removed (what `str::trim` gives).
pub open spec fn trim_ws(s: Seq<char>) -> Seq<char> {
    trim_set(s, CharSet::Whitespace)
}

/// Returns the slice of `s` with every leading and trailing character from
/// `set` removed.
pub fn trim_matching<'a>(s: &'a str, set: CharSet) -> (r: &'a str)
    ensures
        r@ == trim_set(s@, set),
{
    let n = s.unicode_len();
    let mut i: usize = 0;
    assert(s@.subrange(0, n as int) =~= s@);
    while i < n && set_contains(set, s.get_char(i))
        invariant
            i <= n,
            n == s@.len(),
            trim_start_set(s@, set) == trim_start_set(s@.subrange(i as int, n as int), set),
        decreases n - i,
    {
        assert(s@.subrange(i as int, n as int).drop_first() =~= s@.subrange(i + 1, n as int));
        i = i + 1;
    }
    let mut j: usize = n;
    while j > i && set_contains(set, s.get_char(j - 1))
        invariant
            i <= j <= n,
            n == s@.len(),
            trim_start_set(s@, set) == s@.subrange(i as int, n as int),
            trim_set(s@, set) == trim_end_set(s@.subrange(i as int, j as int), set),
        decreases j - i,
    {
        assert(s@.subrange(i as int, j as int).drop_last() =~= s@.subrange(i as int, j - 1));
        j = j - 1;
    }
    s.substring_char(i, j)
}

/// Returns `s` with leading and trailing Unicode whitespace removed.
pub fn trim(s: &str) -> (r: &str)
    ensures
        r@ == trim_ws(s@),
{
    trim_matching(s, CharSet::Whitespace)
}

/// Compares two strings character by character.
pub fn str_equal(a: &str, b: &str) -> (r: bool)
    ensures
        r == (a@ == b@),
{
    let n = a.unicode_len();
    if n != b.unicode_len() {
        return false;
    }
    let mut i: usize = 0;
    while i < n
        invariant
            i <= n,
            n == a@.len(),
            n == b@.len(),
            forall|k: int| 0 <= k < i ==> a@[k] == b@[k],
        decreases n - i,
    {
        if a.get_char(i) != b.get_char(i) {
            return false;
        }
        i = i + 1;
    }
    assert(a@ =~= b@);
    true
}


/// One past the last index of the run of non-whitespace characters that
/// starts at `i` (or `i` itself when `s[i]` is whitespace or out of range).
pub open spec fn word_end(s: Seq<char>, i: int) -> int
    decreases s.len() - i,
{
    if 0 <= i < s.len() && !is_unicode_white_space(s[i]) {
        word_end(s, i + 1)
    } else {
        i
    }
}

pub proof fn lemma_word_end(s: Seq<char>, i: int)
    requires
        0 <= i <= s.len(),
    ensures
        i <= word_end(s, i) <= s.len(),
        forall|k: int| i <= k < word_end(s, i) ==> !is_unicode_white_space(#[trigger] s[k]),
        word_end(s, i) < s.len() ==> is_unicode_white_space(s[word_end(s, i)]),
    decreases s.len() - i,
{
    if i < s.len() && !is_unicode_white_space(s[i]) {
        lemma_word_end(s, i + 1);
    }
}

/// The whitespace-separated tokens of `s` from index `i` on.
pub open spec fn tokens_from(s: Seq<char>, i: int) -> Seq<Seq<char>>
    decreases s.len() - i,
{
    if i < 0 || i >= s.len() {
        seq![]
    } else if is_unicode_white_space(s[i]) {
        tokens_from(s, i + 1)
    } else {
        proof {
            lemma_word_end(s, i + 1);
        }
        seq![s.subrange(i, word_end(s, i + 1))] + tokens_from(s, word_end(s, i + 1))
    }
}

/// The maximal runs of non-whitespace characters of `s`, in order (what
/// `str::split_whitespace` yields).
pub open spec fn ws_tokens(s: Seq<char>) -> Seq<Seq<char>> {
    tokens_from(s, 0)
}

/// The views of a sequence of string slices.
pub open spec fn str_views(v: Seq<&str>) -> Seq<Seq<char>> {
    Seq::new(v.len(), |k: int| v[k]@)
}

/// Splits `s` into its whitespace-separated tokens.
pub fn split_whitespace<'a>(s: &'a str) -> (r: Vec<&'a str>)
    ensures
        str_views(r@) == ws_tokens(s@),
{
    let n = s.unicode_len();
    let mut out: Vec<&'a str> = Vec::new();
    let mut i: usize = 0;
    assert(str_views(out@) =~= seq![]);
    while i < n
        invariant
            i <= n,
            n == s@.len(),
            str_views(out@) + tokens_from(s@, i as int) == tokens_from(s@, 0),
        decreases n - i,
    {
        if char_is_whitespace(s.get_char(i)) {
            i = i + 1;
        } else {
            let mut j: usize = i + 1;
            while j < n && !char_is_whitespace(s.get_char(j))
                invariant
                    i < j <= n,
                    n == s@.len(),
                    word_end(s@, i + 1) == word_end(s@, j as int),
                decreases n - j,
            {
                j = j + 1;
            }
            let piece = s.substring_char(i, j);
            let ghost before = str_views(out@);
            out.push(piece);
            assert(str_views(out@) =~= before.push(piece@));
            assert(tokens_from(s@, i as int) == seq![piece@] + tokens_from(s@, j as int));
            assert(before.push(piece@) + tokens_from(s@, j as int) =~= before + (seq![piece@]
                + tokens_from(s@, j as int)));
            i = j;
        }
    }
    assert(tokens_from(s@, n as int) =~= seq![]);
    assert(str_views(out@) + seq![] =~= str_views(out@));
    out
}


pub proof fn lemma_trim_start_shape(s: Seq<char>, set: CharSet)
    ensures
        trim_start_set(s, set).len() <= s.len(),
        trim_start_set(s, set) =~= s.subrange(s.len() - trim_start_set(s, set).len(), s.len() as int),
        trim_start_set(s, set).len() > 0 ==> !in_set(set, trim_start_set(s, set)[0]),
    decreases s.len(),
{
    if s.len() > 0 && in_set(set, s[0]) {
        lemma_trim_start_shape(s.drop_first(), set);
    }
}

pub proof fn lemma_trim_end_shape(s: Seq<char>, set: CharSet)
    ensures
        trim_end_set(s, set).len() <= s.len(),
        trim_end_set(s, set) =~= s.subrange(0, trim_end_set(s, set).len() as int),
        trim_end_set(s, set).len() > 0 ==> !in_set(set, trim_end_set(s, set).last()),
    decreases s.len(),
{
    if s.len() > 0 && in_set(set, s.last()) {
        lemma_trim_end_shape(s.drop_last(), set);
    }
}

/// A trimmed string neither starts nor ends with a character of the set.
pub proof fn lemma_trim_ends(s: Seq<char>, set: CharSet)
    ensures
        trim_set(s, set).len() > 0 ==> !in_set(set, trim_set(s, set)[0]) && !in_set(
            set,
            trim_set(s, set).last(),
        ),
{
    let r = trim_start_set(s, set);
    lemma_trim_start_shape(s, set);
    lemma_trim_end_shape(r, set);
    let e = trim_end_set(r, set);
    if e.len() > 0 {
        assert(e[0] == r[0]);
    }
}

/// Trimming twice by the same set is trimming once.
pub proof fn lemma_trim_idempotent(s: Seq<char>, set: CharSet)
    ensures
        trim_set(trim_set(s, set), set) == trim_set(s, set),
{
    let t = trim_set(s, set);
    lemma_trim_ends(s, set);
    assert(trim_start_set(t, set) == t);
    assert(trim_end_set(t, set) == t);
}

/// A string with no set character at either end is its own trimmed form.
pub proof fn lemma_trim_noop(s: Seq<char>, set: CharSet)
    requires
        s.len() > 0 ==> !in_set(set, s[0]) && !in_set(set, s.last()),
    ensures
        trim_set(s, set) == s,
{
    assert(trim_start_set(s, set) == s);
    assert(trim_end_set(s, set) == s);
}

} // verus!
