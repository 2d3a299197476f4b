//! Decimal rendering of numbers and SubRip (`.srt`) documents.

use vstd::prelude::*;
use vstd::string::*;
use crate::text::{trim, trim_ws};

verus! {

/// The decimal digit character for `d` (`0`..=`9`).
pub open spec fn digit_char(d: nat) -> char {
    if d == 0 {
        '0'
    } else if d == 1 {
        '1'
    } else if d == 2 {
        '2'
    } else if d == 3 {
        '3'
    } else if d == 4 {
        '4'
    } else if d == 5 {
        '5'
    } else if d == 6 {
        '6'
    } else if d == 7 {
        '7'
    } else if d == 8 {
        '8'
    } else {
        '9'
    }
}

/// The value of a decimal digit character; `None` for any other character.
pub open spec fn digit_value(c: char) -> Option<nat> {
    if c == '0' {
        Some(0)
    } else if c == '1' {
        Some(1)
    } else if c == '2' {
        Some(2)
    } else if c == '3' {
        Some(3)
    } else if c == '4' {
        Some(4)
    } else if c == '5' {
        Some(5)
    } else if c == '6' {
        Some(6)
    } else if c == '7' {
        Some(7)
    } else if c == '8' {
        Some(8)
    } else if c == '9' {
        Some(9)
    } else {
        None
    }
}

/// The decimal representation of `n`, without leading zeros (`"0"` for zero).
pub open spec fn decimal(n: nat) -> Seq<char>
    decreases n,
{
    if n < 10 {
        seq![digit_char(n)]
    } else {
        decimal(n / 10).push(digit_char(n % 10))
    }
}

/// `s` padded on the left with `'0'` up to `width` characters.
pub open spec fn pad_zeros(s: Seq<char>, width: nat) -> Seq<char> {
    if s.len() >= width {
        s
    } else {
        Seq::new((width - s.len()) as nat, |_i: int| '0') + s
    }
}

/// The decimal representation of `n` padded with zeros to at least `width`
/// characters (what `format!("{:0width$}", n)` gives).
pub open spec fn zero_padded(n: nat, width: nat) -> Seq<char> {
    pad_zeros(decimal(n), width)
}

/// The number that a string of decimal digits denotes; `None` when some
/// character is not a digit.
pub open spec fn digits_value(s: Seq<char>) -> Option<nat>
    decreases s.len(),
{
    if s.len() == 0 {
        Some(0)
    } else {
        match (digits_value(s.drop_last()), digit_value(s.last())) {
            (Some(v), Some(d)) => Some(v * 10 + d),
            _ => None,
        }
    }
}

fn digit_str(d: u64) -> (r: &'static str)
    requires
        d < 10,
    ensures
        r@ == seq![digit_char(d as nat)],
{
    proof {
        reveal_strlit("0");
        reveal_strlit("1");
        reveal_strlit("2");
        reveal_strlit("3");
        reveal_strlit("4");
        reveal_strlit("5");
        reveal_strlit("6");
        reveal_strlit("7");
        reveal_strlit("8");
        reveal_strlit("9");
    }
    if d == 0 {
        "0"
    } else if d == 1 {
        "1"
    } else if d == 2 {
        "2"
    } else if d == 3 {
        "3"
    } else if d == 4 {
        "4"
    } else if d == 5 {
        "5"
    } else if d == 6 {
        "6"
    } else if d == 7 {
        "7"
    } else if d == 8 {
        "8"
    } else {
        "9"
    }
}

/// Appends the decimal representation of `n` to `out`.
pub fn push_decimal(out: &mut String, n: u64)
    ensures
        final(out)@ == old(out)@ + decimal(n as nat),
    decreases n,
{
    if n >= 10 {
        push_decimal(out, n / 10);
        out.append(digit_str(n % 10));
        assert(decimal(n as nat) == decimal((n / 10) as nat).push(digit_char((n % 10) as nat)));
    } else {
        out.append(digit_str(n));
    }
}

/// Appends the decimal representation of `n`, padded with zeros to at least
/// `width` characters, to `out`.
pub fn push_zero_padded(out: &mut String, n: u64, width: usize)
    ensures
        final(out)@ == old(out)@ + zero_padded(n as nat, width as nat),
{
    let mut digits = String::new();
    push_decimal(&mut digits, n);
    let len = digits.as_str().unicode_len();
    let ghost start = out@;
    if len < width {
        let mut k: usize = 0;
        while k < width - len
            invariant
                k <= width - len,
                out@ == start + Seq::new(k as nat, |_i: int| '0'),
            decreases width - len - k,
        {
            out.append(digit_str(0));
            assert(Seq::new(k as nat, |_i: int| '0').push('0') =~= Seq::new(
                (k + 1) as nat,
                |_i: int| '0',
            ));
            k = k + 1;
        }
    }
    out.append(digits.as_str());
    assert(out@ =~= start + zero_padded(n as nat, width as nat));
}

/// Returns the decimal representation of `n`.
pub fn decimal_string(n: u64) -> (r: String)
    ensures
        r@ == decimal(n as nat),
{
    let mut out = String::new();
    push_decimal(&mut out, n);
    assert(out@ =~= decimal(n as nat));
    out
}


/// A subtitle timestamp, split into its fields.
#[derive(Clone, Copy, Debug, PartialEq, Eq)]
pub struct SrtTime {
    pub hours: u32,
    pub minutes: u32,
    pub seconds: u32,
    pub millis: u32,
}

/// The SubRip form of a timestamp: `HH:MM:SS,mmm`, each field zero-padded.
pub open spec fn srt_time_text(t: SrtTime) -> Seq<char> {
    zero_padded(t.hours as nat, 2) + ":"@ + zero_padded(t.minutes as nat, 2) + ":"@
        + zero_padded(t.seconds as nat, 2) + ","@ + zero_padded(t.millis as nat, 3)
}

/// Renders a timestamp as SubRip `HH:MM:SS,mmm`.
pub fn format_srt_time(t: SrtTime) -> (r: String)
    ensures
        r@ == srt_time_text(t),
{
    let mut out = String::new();
    push_zero_padded(&mut out, t.hours as u64, 2);
    out.append(":");
    push_zero_padded(&mut out, t.minutes as u64, 2);
    out.append(":");
    push_zero_padded(&mut out, t.seconds as u64, 2);
    out.append(",");
    push_zero_padded(&mut out, t.millis as u64, 3);
    assert(out@ =~= srt_time_text(t));
    out
}

/// One subtitle: its time span and its text.
pub struct SrtCue {
    pub start: SrtTime,
    pub end: SrtTime,
    pub text: String,
}

/// The SubRip block of the cue numbered `number`: the number, the time span,
/// the trimmed text and a blank line.
pub open spec fn srt_cue_text(number: nat, cue: SrtCue) -> Seq<char> {
    decimal(number) + "\n"@ + srt_time_text(cue.start) + " --> "@ + srt_time_text(cue.end)
        + "\n"@ + trim_ws(cue.text@) + "\n\n"@
}

/// A SubRip document: the blocks of the cues, numbered from 1, in order.
pub open spec fn srt_document(cues: Seq<SrtCue>) -> Seq<char>
    decreases cues.len(),
{
    if cues.len() == 0 {
        seq![]
    } else {
        srt_document(cues.drop_last()) + srt_cue_text(cues.len() as nat, cues.last())
    }
}

/// Renders cues as a SubRip document.
pub fn build_srt(cues: &Vec<SrtCue>) -> (r: String)
    ensures
        r@ == srt_document(cues@),
{
    let mut out = String::new();
    let n = cues.len();
    let mut i: usize = 0;
    assert(cues@.take(0) =~= seq![]);
    while i < n
        invariant
            i <= n,
            n == cues@.len(),
            out@ == srt_document(cues@.take(i as int)),
        decreases n - i,
    {
        let ghost before = out@;
        let cue = &cues[i];
        push_decimal(&mut out, (i as u64) + 1);
        out.append("\n");
        let start = format_srt_time(cue.start);
        out.append(start.as_str());
        out.append(" --> ");
        let end = format_srt_time(cue.end);
        out.append(end.as_str());
        out.append("\n");
        out.append(trim(cue.text.as_str()));
        out.append("\n\n");
        assert(cues@.take(i + 1).drop_last() =~= cues@.take(i as int));
        assert(out@ =~= before + srt_cue_text((i + 1) as nat, cues@[i as int]));
        i = i + 1;
    }
    assert(cues@.take(n as int) =~= cues@);
    out
}

pub proof fn lemma_digit_round_trip(d: nat)
    requires
        d < 10,
    ensures
        digit_value(digit_char(d)) == Some(d),
{
}

/// Reading back the decimal representation of a number gives the number.
pub proof fn decimal_round_trip(n: nat)
    ensures
        digits_value(decimal(n)) == Some(n),
        decimal(n).len() >= 1,
    decreases n,
{
    if n < 10 {
        lemma_digit_round_trip(n);
        assert(decimal(n).drop_last() =~= seq![]);
        assert(digits_value(decimal(n).drop_last()) == Some(0nat));
    } else {
        decimal_round_trip(n / 10);
        lemma_digit_round_trip(n % 10);
        assert(decimal(n).drop_last() =~= decimal(n / 10));
        assert(decimal(n).last() == digit_char(n % 10));
        assert(n == (n / 10) * 10 + n % 10) by (nonlinear_arith);
        assert(digits_value(decimal(n).drop_last()) == Some((n / 10) as nat));
        assert(digit_value(decimal(n).last()) == Some((n % 10) as nat));
    }
}

pub proof fn lemma_zeros_value(k: nat)
    ensures
        digits_value(Seq::new(k, |_i: int| '0')) == Some(0nat),
    decreases k,
{
    if k > 0 {
        lemma_zeros_value((k - 1) as nat);
        assert(Seq::new(k, |_i: int| '0').drop_last() =~= Seq::new((k - 1) as nat, |_i: int| '0'));
    }
}

pub proof fn lemma_leading_zeros_value(k: nat, s: Seq<char>)
    ensures
        digits_value(Seq::new(k, |_i: int| '0') + s) == digits_value(s),
    decreases s.len(),
{
    let z = Seq::new(k, |_i: int| '0');
    if s.len() == 0 {
        assert(z + s =~= z);
        lemma_zeros_value(k);
    } else {
        lemma_leading_zeros_value(k, s.drop_last());
        assert((z + s).drop_last() =~= z + s.drop_last());
        assert((z + s).last() == s.last());
    }
}

/// A zero-padded number reads back as the number, and is as long as the
/// wider of the width and the number's own digits.
pub proof fn zero_padded_round_trip(n: nat, width: nat)
    ensures
        digits_value(zero_padded(n, width)) == Some(n),
        zero_padded(n, width).len() == if decimal(n).len() >= width {
            decimal(n).len()
        } else {
            width
        },
{
    decimal_round_trip(n);
    if decimal(n).len() < width {
        lemma_leading_zeros_value((width - decimal(n).len()) as nat, decimal(n));
    }
}

pub proof fn lemma_decimal_short(n: nat)
    ensures
        n < 100 ==> decimal(n).len() <= 2,
        n < 1000 ==> decimal(n).len() <= 3,
{
    if n >= 10 {
        let q = n / 10;
        assert(decimal(n).len() == decimal(q).len() + 1);
        assert(n < 100 ==> q < 10);
        assert(n < 1000 ==> q < 100);
        if q >= 10 {
            let q2 = q / 10;
            assert(decimal(q).len() == decimal(q2).len() + 1);
            assert(q < 100 ==> q2 < 10);
        }
    }
}

/// A timestamp whose fields are below 100, 100, 100 and 1000 renders in
/// exactly twelve characters, `HH:MM:SS,mmm`.
pub proof fn srt_time_fixed_width(t: SrtTime)
    requires
        t.hours < 100,
        t.minutes < 100,
        t.seconds < 100,
        t.millis < 1000,
    ensures
        srt_time_text(t).len() == 12,
{
    reveal_strlit(":");
    reveal_strlit(",");
    lemma_decimal_short(t.hours as nat);
    lemma_decimal_short(t.minutes as nat);
    lemma_decimal_short(t.seconds as nat);
    lemma_decimal_short(t.millis as nat);
    zero_padded_round_trip(t.hours as nat, 2);
    zero_padded_round_trip(t.minutes as nat, 2);
    zero_padded_round_trip(t.seconds as nat, 2);
    zero_padded_round_trip(t.millis as nat, 3);
}

} // verus!
