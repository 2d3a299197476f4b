//! Path-safety decisions: whether a path lies inside one of the allowed
//! directories, and whether a transcript file name names a plain file.

use vstd::prelude::*;
use vstd::utf8::{
    char_is_scalar, char_u32_cast, encode_scalar, encode_utf8, encode_utf8_valid_utf8, has_width_1_encoding,
    is_scalar, valid_utf8,
};
use vstd::string::StringSliceAdditionalSpecFns;

verus! {

/// A Windows path prefix in the parsed form that `std::path::Prefix` gives,
/// with each name as the bytes of its platform encoding. A drive letter is
/// held as parsed, in upper case, so `c:` and `C:` are the same prefix.
pub enum WindowsPrefix {
    /// `\\?\name`
    Verbatim(Vec<u8>),
    /// `\\?\UNC\server\share`
    VerbatimUnc(Vec<u8>, Vec<u8>),
    /// `\\?\C:`
    VerbatimDisk(u8),
    /// `\\.\device`
    DeviceNs(Vec<u8>),
    /// `\\server\share`
    Unc(Vec<u8>, Vec<u8>),
    /// `C:`
    Disk(u8),
}

/// The abstract value of a [`WindowsPrefix`].
pub enum PrefixView {
    Verbatim(Seq<u8>),
    VerbatimUnc(Seq<u8>, Seq<u8>),
    VerbatimDisk(u8),
    DeviceNs(Seq<u8>),
    Unc(Seq<u8>, Seq<u8>),
    Disk(u8),
}

impl View for WindowsPrefix {
    type V = PrefixView;

    open spec fn view(&self) -> PrefixView {
        match self {
            WindowsPrefix::Verbatim(a) => PrefixView::Verbatim(a@),
            WindowsPrefix::VerbatimUnc(a, b) => PrefixView::VerbatimUnc(a@, b@),
            WindowsPrefix::VerbatimDisk(d) => PrefixView::VerbatimDisk(*d),
            WindowsPrefix::DeviceNs(a) => PrefixView::DeviceNs(a@),
            WindowsPrefix::Unc(a, b) => PrefixView::Unc(a@, b@),
            WindowsPrefix::Disk(d) => PrefixView::Disk(*d),
        }
    }
}

/// One component of a path, with the bytes of its platform encoding.
pub enum PathPart {
    /// A Windows prefix such as a drive letter.
    Prefix(WindowsPrefix),
    /// The root directory.
    Root,
    /// `.`
    Current,
    /// `..`
    Parent,
    /// An ordinary name.
    Normal(Vec<u8>),
}

/// The abstract value of a [`PathPart`].
pub enum PartView {
    Prefix(PrefixView),
    Root,
    Current,
    Parent,
    Normal(Seq<u8>),
}

impl View for PathPart {
    type V = PartView;

    open spec fn view(&self) -> PartView {
        match self {
            PathPart::Prefix(b) => PartView::Prefix(b@),
            PathPart::Root => PartView::Root,
            PathPart::Current => PartView::Current,
            PathPart::Parent => PartView::Parent,
            PathPart::Normal(b) => PartView::Normal(b@),
        }
    }
}

pub open spec fn part_views(parts: Seq<PathPart>) -> Seq<PartView> {
    Seq::new(parts.len(), |i: int| parts[i]@)
}

fn bytes_equal(a: &Vec<u8>, b: &Vec<u8>) -> (r: bool)
    ensures
        r == (a@ == b@),
{
    let n = a.len();
    if n != b.len() {
        return false;
    }
    let mut i: usize = 0;
    while i < n
        invariant
            i <= n,
            n == a@.len(),
            n == b@.len(),
            forall|k: int| 0 <= k < i ==> a@[k] == b@[k],
        decreases n - i,
    {
        if a[i] != b[i] {
            return false;
        }
        i = i + 1;
    }
    assert(a@ =~= b@);
    true
}

fn prefix_equal(a: &WindowsPrefix, b: &WindowsPrefix) -> (r: bool)
    ensures
        r == (a@ == b@),
{
    match (a, b) {
        (WindowsPrefix::Verbatim(x), WindowsPrefix::Verbatim(y)) => bytes_equal(x, y),
        (WindowsPrefix::VerbatimUnc(x1, x2), WindowsPrefix::VerbatimUnc(y1, y2)) => bytes_equal(
            x1,
            y1,
        ) && bytes_equal(x2, y2),
        (WindowsPrefix::VerbatimDisk(x), WindowsPrefix::VerbatimDisk(y)) => *x == *y,
        (WindowsPrefix::DeviceNs(x), WindowsPrefix::DeviceNs(y)) => bytes_equal(x, y),
        (WindowsPrefix::Unc(x1, x2), WindowsPrefix::Unc(y1, y2)) => bytes_equal(x1, y1)
            && bytes_equal(x2, y2),
        (WindowsPrefix::Disk(x), WindowsPrefix::Disk(y)) => *x == *y,
        _ => false,
    }
}

fn part_equal(a: &PathPart, b: &PathPart) -> (r: bool)
    ensures
        r == (a@ == b@),
{
    match (a, b) {
        (PathPart::Prefix(x), PathPart::Prefix(y)) => prefix_equal(x, y),
        (PathPart::Root, PathPart::Root) => true,
        (PathPart::Current, PathPart::Current) => true,
        (PathPart::Parent, PathPart::Parent) => true,
        (PathPart::Normal(x), PathPart::Normal(y)) => bytes_equal(x, y),
        _ => false,
    }
}

/// `base` is a prefix of `path`, whole components at a time.
pub open spec fn has_prefix(path: Seq<PartView>, base: Seq<PartView>) -> bool {
    base.len() <= path.len() && path.subrange(0, base.len() as int) == base
}

/// Whether the components of `base` begin the components of `path`.
pub fn path_starts_with(path: &Vec<PathPart>, base: &Vec<PathPart>) -> (r: bool)
    ensures
        r == has_prefix(part_views(path@), part_views(base@)),
{
    let n = base.len();
    if n > path.len() {
        return false;
    }
    let mut i: usize = 0;
    while i < n
        invariant
            i <= n,
            n == base@.len(),
            n <= path@.len(),
            forall|k: int| 0 <= k < i ==> path@[k]@ == base@[k]@,
        decreases n - i,
    {
        if !part_equal(&path[i], &base[i]) {
            assert(part_views(path@).subrange(0, n as int)[i as int] != part_views(base@)[i as int]);
            return false;
        }
        i = i + 1;
    }
    assert(part_views(path@).subrange(0, n as int) =~= part_views(base@));
    true
}

/// `dir` was resolved and begins `path`.
pub open spec fn dir_admits(dir: Option<Vec<PathPart>>, path: Seq<PartView>) -> bool {
    match dir {
        Some(d) => has_prefix(path, part_views(d@)),
        None => false,
    }
}

/// Some resolved directory of `dirs` begins `path`.
pub open spec fn allowed_by(path: Seq<PartView>, dirs: Seq<Option<Vec<PathPart>>>) -> bool {
    exists|i: int| 0 <= i < dirs.len() && dir_admits(#[trigger] dirs[i], path)
}

/// Decides whether a resolved path lies inside one of the allowed
/// directories. An unresolved path (`None`) is never allowed; an allowed
/// directory that could not be resolved (`None`) allows nothing.
pub fn path_within_allowed(
    canonical: &Option<Vec<PathPart>>,
    allowed_dirs: &Vec<Option<Vec<PathPart>>>,
) -> (r: bool)
    ensures
        r == match canonical {
            Some(p) => allowed_by(part_views(p@), allowed_dirs@),
            None => false,
        },
{
    match canonical {
        None => false,
        Some(path) => {
            let n = allowed_dirs.len();
            let mut i: usize = 0;
            while i < n
                invariant
                    i <= n,
                    n == allowed_dirs@.len(),
                    match canonical {
                        Some(p) => p@ == path@,
                        None => false,
                    },
                    forall|k: int|
                        0 <= k < i ==> !dir_admits(#[trigger] allowed_dirs@[k], part_views(path@)),
                decreases n - i,
            {
                match &allowed_dirs[i] {
                    Some(dir) => {
                        if path_starts_with(path, dir) {
                            assert(dir_admits(allowed_dirs@[i as int], part_views(path@)));
                            assert(allowed_by(part_views(path@), allowed_dirs@));
                            return true;
                        }
                    },
                    None => {},
                }
                i = i + 1;
            }
            false
        },
    }
}

/// A path inside an allowed directory stays allowed however deep it goes.
pub proof fn allowed_paths_are_closed_under_descent(
    path: Seq<PartView>,
    more: Seq<PartView>,
    dirs: Seq<Option<Vec<PathPart>>>,
)
    requires
        allowed_by(path, dirs),
    ensures
        allowed_by(path + more, dirs),
{
    let i = choose|i: int| 0 <= i < dirs.len() && dir_admits(#[trigger] dirs[i], path);
    let d = dirs[i]->0;
    let base = part_views(d@);
    assert((path + more).subrange(0, base.len() as int) =~= path.subrange(0, base.len() as int));
    assert(dir_admits(dirs[i], path + more));
}

/// The message that refuses a transcript file name that is not a plain name.
pub const INVALID_FILE_NAME: &'static str =
    "Invalid filename: path traversal or absolute paths not allowed";

/// The components of a transcript file name that names a plain file: a single
/// ordinary name that is valid UTF-8 and holds neither `/` nor `\`.
pub open spec fn is_plain_file_name(parts: Seq<PartView>) -> bool {
    &&& parts.len() == 1
    &&& parts[0] matches PartView::Normal(n)
    &&& valid_utf8(n)
    &&& !n.contains(0x2Fu8)
    &&& !n.contains(0x5Cu8)
}

/// Calls `std::str::from_utf8`, whose documentation says it fails exactly
/// when the bytes are not UTF-8.
#[verifier::external_body]
fn bytes_are_utf8(bytes: &[u8]) -> (r: bool)
    ensures
        r == valid_utf8(bytes@),
{
    std::str::from_utf8(bytes).is_ok()
}

fn holds_byte(bytes: &Vec<u8>, b: u8) -> (r: bool)
    ensures
        r == bytes@.contains(b),
{
    let n = bytes.len();
    let mut i: usize = 0;
    while i < n
        invariant
            i <= n,
            n == bytes@.len(),
            forall|k: int| 0 <= k < i ==> bytes@[k] != b,
        decreases n - i,
    {
        if bytes[i] == b {
            return true;
        }
        i = i + 1;
    }
    false
}

/// Accepts the components of a transcript file name only when they name a
/// plain file; otherwise refuses them with [`INVALID_FILE_NAME`].
pub fn check_file_name_parts(parts: &Vec<PathPart>) -> (r: Result<(), String>)
    ensures
        r is Ok <==> is_plain_file_name(part_views(parts@)),
        r matches Err(e) ==> e@ == INVALID_FILE_NAME@,
{
    let plain = if parts.len() == 1 {
        match &parts[0] {
            PathPart::Normal(n) => bytes_are_utf8(n.as_slice()) && !holds_byte(n, 0x2F)
                && !holds_byte(n, 0x5C),
            _ => false,
        }
    } else {
        false
    };
    if plain {
        Ok(())
    } else {
        Err(String::from_str(INVALID_FILE_NAME))
    }
}

/// A name that splits into one ordinary component on every platform: not
/// empty, not `.` or `..`, and free of `/` and `\` (the separators of Unix
/// and Windows) and of `:` (which Windows drive prefixes use).
pub open spec fn is_bare_name(s: Seq<char>) -> bool {
    &&& s.len() > 0
    &&& !s.contains('/')
    &&& !s.contains('\\')
    &&& !s.contains(':')
    &&& s != seq!['.']
    &&& s != seq!['.', '.']
}

/// A path that begins with a single separator `/` (not `//`, which Windows
/// reads as a network prefix): it starts at the root on every platform.
pub open spec fn starts_at_root(s: Seq<char>) -> bool {
    &&& s.len() > 0
    &&& s[0] == '/'
    &&& (s.len() == 1 || (s[1] != '/' && s[1] != '\\'))
}

/// A path that is `..` or begins with `../`: it starts at the parent directory.
pub open spec fn starts_at_parent(s: Seq<char>) -> bool {
    ||| s == seq!['.', '.']
    ||| (s.len() >= 3 && s[0] == '.' && s[1] == '.' && s[2] == '/')
}

/// A path that begins with `\` or with `..\`. On Windows `\` is a separator,
/// so such a path begins with a prefix, the root directory or the parent
/// directory; on Unix `\` is an ordinary character, so its first component is
/// an ordinary name that holds the byte of `\`.
pub open spec fn starts_with_backslash_form(s: Seq<char>) -> bool {
    ||| (s.len() > 0 && s[0] == '\\')
    ||| (s.len() >= 3 && s[0] == '.' && s[1] == '.' && s[2] == '\\')
}

/// The first of `parts` is a prefix, the root or parent directory, or an
/// ordinary name holding the byte of `\`.
pub open spec fn begins_outside_or_with_backslash(parts: Seq<PartView>) -> bool {
    &&& parts.len() > 0
    &&& match parts[0] {
        PartView::Prefix(_) => true,
        PartView::Root => true,
        PartView::Parent => true,
        PartView::Normal(n) => n.contains(0x5Cu8),
        PartView::Current => false,
    }
}

/// A path written only with `/` separators and without Windows prefix
/// syntax: no `\`, no `:`, and no leading `//` (which Windows reads as a
/// network prefix). Such a path splits into the same components on Unix and
/// on Windows.
pub open spec fn has_plain_syntax(s: Seq<char>) -> bool {
    &&& !s.contains('\\')
    &&& !s.contains(':')
    &&& !(s.len() >= 2 && s[0] == '/' && s[1] == '/')
}

/// One past the last index of the `/`-free run that starts at `i`.
pub open spec fn segment_end(s: Seq<char>, i: int) -> int
    decreases s.len() - i,
{
    if 0 <= i < s.len() && s[i] != '/' {
        segment_end(s, i + 1)
    } else {
        i
    }
}

pub proof fn lemma_segment_end(s: Seq<char>, i: int)
    requires
        0 <= i <= s.len(),
    ensures
        i <= segment_end(s, i) <= s.len(),
    decreases s.len() - i,
{
    if i < s.len() && s[i] != '/' {
        lemma_segment_end(s, i + 1);
    }
}

/// The component that one `/`-separated segment contributes: none for an
/// empty segment or `.`, the parent directory for `..`, and otherwise an
/// ordinary name holding the segment's UTF-8 bytes.
pub open spec fn segment_part(seg: Seq<char>) -> Seq<PartView> {
    if seg.len() == 0 || seg == seq!['.'] {
        seq![]
    } else if seg == seq!['.', '.'] {
        seq![PartView::Parent]
    } else {
        seq![PartView::Normal(encode_utf8(seg))]
    }
}

/// The components contributed by the segments of `s` from index `i` on.
pub open spec fn segment_parts_from(s: Seq<char>, i: int) -> Seq<PartView>
    decreases s.len() - i,
{
    if i < 0 || i > s.len() {
        seq![]
    } else {
        proof {
            lemma_segment_end(s, i);
        }
        if segment_end(s, i) >= s.len() {
            segment_part(s.subrange(i, segment_end(s, i)))
        } else {
            segment_part(s.subrange(i, segment_end(s, i))) + segment_parts_from(
                s,
                segment_end(s, i) + 1,
            )
        }
    }
}

/// The components of a `/`-separated path: the root directory when it starts
/// with `/`; the current directory when it starts with `.` followed by `/` or
/// nothing; then one component per segment (see [`segment_part`]).
pub open spec fn separated_components(s: Seq<char>) -> Seq<PartView> {
    let root = s.len() > 0 && s[0] == '/';
    let current = !root && s.len() > 0 && s[0] == '.' && (s.len() == 1 || s[1] == '/');
    (if root {
        seq![PartView::Root]
    } else {
        seq![]
    }) + (if current {
        seq![PartView::Current]
    } else {
        seq![]
    }) + segment_parts_from(s, 0)
}

#[verifier::external_type_specification]
#[verifier::external_body]
pub struct ExPrefix<'a>(std::path::Prefix<'a>);

/// Records a `std::path::Prefix` (the parsed prefix that
/// `PrefixComponent::kind` gives) field by field; nothing is computed.
#[verifier::external_body]
fn windows_prefix(p: std::path::Prefix) -> WindowsPrefix {
    match p {
        std::path::Prefix::Verbatim(a) => WindowsPrefix::Verbatim(a.as_encoded_bytes().to_vec()),
        std::path::Prefix::VerbatimUNC(a, b) => WindowsPrefix::VerbatimUnc(
            a.as_encoded_bytes().to_vec(),
            b.as_encoded_bytes().to_vec(),
        ),
        std::path::Prefix::VerbatimDisk(d) => WindowsPrefix::VerbatimDisk(d),
        std::path::Prefix::DeviceNS(a) => WindowsPrefix::DeviceNs(a.as_encoded_bytes().to_vec()),
        std::path::Prefix::UNC(a, b) => WindowsPrefix::Unc(
            a.as_encoded_bytes().to_vec(),
            b.as_encoded_bytes().to_vec(),
        ),
        std::path::Prefix::Disk(d) => WindowsPrefix::Disk(d),
    }
}

/// Calls `std::path::Path::components` on `s` and records each component.
/// How a string splits into components depends on the platform's path syntax;
/// the contract states what holds on every platform: a path of plain syntax
/// splits as [`separated_components`] describes (separators, repeated or
/// trailing, are ignored; `.` is kept only at the start; `..` is the parent
/// directory); a bare name is one ordinary component holding the name's
/// bytes; a path that begins with a lone `/` begins with the root directory;
/// a path that begins with `..` followed by `/`, or is `..`, begins with
/// the parent directory; and a path that begins with `\` or `..\` begins with
/// a prefix, the root or parent directory (Windows) or with an ordinary name
/// holding `\` (Unix). Nothing is said of other strings.
#[verifier::external_body]
fn path_components(s: &str) -> (r: Vec<PathPart>)
    ensures
        is_bare_name(s@) ==> part_views(r@) == seq![PartView::Normal(s.spec_bytes())],
        starts_at_root(s@) ==> r@.len() > 0 && r@[0]@ == PartView::Root,
        starts_at_parent(s@) ==> r@.len() > 0 && r@[0]@ == PartView::Parent,
        has_plain_syntax(s@) ==> part_views(r@) == separated_components(s@),
        starts_with_backslash_form(s@) ==> begins_outside_or_with_backslash(part_views(r@)),
{
    let mut parts = Vec::new();
    for c in std::path::Path::new(s).components() {
        parts.push(
            match c {
                std::path::Component::Prefix(p) => PathPart::Prefix(windows_prefix(p.kind())),
                std::path::Component::RootDir => PathPart::Root,
                std::path::Component::CurDir => PathPart::Current,
                std::path::Component::ParentDir => PathPart::Parent,
                std::path::Component::Normal(n) => PathPart::Normal(n.as_encoded_bytes().to_vec()),
            },
        );
    }
    parts
}

/// The UTF-8 encoding of a character that is not the ASCII character `b`
/// does not hold the byte `b`.
proof fn lemma_scalar_lacks_ascii_byte(v: u32, b: u8)
    requires
        b < 0x80,
        v != b as u32,
        is_scalar(v),
    ensures
        !encode_scalar(v).contains(b),
{
    let e = encode_scalar(v);
    if has_width_1_encoding(v) {
        assert(v <= 0x7F ==> (v & 0x7F) as u8 as u32 == v) by (bit_vector);
        assert(e[0] != b);
    } else {
        assert(b < 0x80 ==> (0xC0u8 | ((v >> 6) & 0x1F) as u8) != b) by (bit_vector);
        assert(b < 0x80 ==> (0xE0u8 | ((v >> 12) & 0x0F) as u8) != b) by (bit_vector);
        assert(b < 0x80 ==> (0xF0u8 | ((v >> 18) & 0x7) as u8) != b) by (bit_vector);
        assert(b < 0x80 ==> (0x80u8 | (v & 0x3F) as u8) != b) by (bit_vector);
        assert(b < 0x80 ==> (0x80u8 | ((v >> 6) & 0x3F) as u8) != b) by (bit_vector);
        assert(b < 0x80 ==> (0x80u8 | ((v >> 12) & 0x3F) as u8) != b) by (bit_vector);
        assert forall|i: int| 0 <= i < e.len() implies e[i] != b by {}
    }
}

/// The UTF-8 encoding of a string without the ASCII character `c` does not
/// hold the byte of `c`.
proof fn lemma_encoding_lacks_ascii_byte(chars: Seq<char>, c: char, b: u8)
    requires
        b < 0x80,
        c as u32 == b as u32,
        !chars.contains(c),
    ensures
        !encode_utf8(chars).contains(b),
    decreases chars.len(),
{
    if chars.len() > 0 {
        let v = chars[0] as u32;
        assert(chars[0] != c);
        char_is_scalar(chars[0]);
        char_u32_cast(chars[0], v);
        char_u32_cast(c, c as u32);
        lemma_scalar_lacks_ascii_byte(v, b);
        assert(!chars.drop_first().contains(c)) by {
            if chars.drop_first().contains(c) {
                let k = choose|k: int| 0 <= k < chars.drop_first().len() && chars.drop_first()[k]
                    == c;
                assert(chars[k + 1] == c);
            }
        }
        lemma_encoding_lacks_ascii_byte(chars.drop_first(), c, b);
        let e1 = encode_scalar(v);
        let e2 = encode_utf8(chars.drop_first());
        assert(encode_utf8(chars) == e1 + e2);
        assert forall|i: int| 0 <= i < (e1 + e2).len() implies (e1 + e2)[i] != b by {
            if i < e1.len() {
                assert((e1 + e2)[i] == e1[i]);
            } else {
                assert((e1 + e2)[i] == e2[i - e1.len()]);
            }
        }
    }
}

/// Checks that a transcript file name, as given, names a plain file inside
/// the transcripts directory. A bare name (one ordinary component on every
/// platform) is accepted; a name that starts at the root directory or at the
/// parent directory, or with `\` or `..\`, is refused; a name of plain syntax is accepted exactly
/// when its components are a single plain name; a refusal always carries
/// [`INVALID_FILE_NAME`].
pub fn validate_transcript_filename(filename: &str) -> (r: Result<(), String>)
    ensures
        is_bare_name(filename@) ==> r is Ok,
        starts_at_root(filename@) ==> r is Err,
        starts_at_parent(filename@) ==> r is Err,
        starts_with_backslash_form(filename@) ==> r is Err,
        has_plain_syntax(filename@) ==> (r is Ok <==> is_plain_file_name(
            separated_components(filename@),
        )),
        r matches Err(e) ==> e@ == INVALID_FILE_NAME@,
{
    let parts = path_components(filename);
    proof {
        if is_bare_name(filename@) {
            let bytes = filename.spec_bytes();
            encode_utf8_valid_utf8(filename@);
            lemma_encoding_lacks_ascii_byte(filename@, '/', 0x2Fu8);
            lemma_encoding_lacks_ascii_byte(filename@, '\\', 0x5Cu8);
            assert(part_views(parts@)[0] == PartView::Normal(bytes));
        }
        if starts_at_root(filename@) || starts_at_parent(filename@) || starts_with_backslash_form(
            filename@,
        ) {
            assert(part_views(parts@)[0] == parts@[0]@);
        }
    }
    check_file_name_parts(&parts)
}

/// A plain file name appended to a directory names a direct child of that
/// directory: the directory begins the joined path, which is one ordinary
/// component longer.
pub proof fn plain_name_stays_in_directory(dir: Seq<PartView>, parts: Seq<PartView>)
    requires
        is_plain_file_name(parts),
    ensures
        has_prefix(dir + parts, dir),
        (dir + parts).len() == dir.len() + 1,
        (dir + parts).last() is Normal,
{
    assert((dir + parts).subrange(0, dir.len() as int) =~= dir);
}

} // verus!
