//! Batching of segment translations: consecutive segments are sent together,
//! joined by a marker line, and the reply is split at the markers again.

use vstd::prelude::*;
use vstd::string::*;
use crate::text::{
    is_unicode_white_space, lemma_trim_ends, lemma_trim_idempotent, str_equal, trim_end_set,
    trim_set, trim_start_set, trim_ws, CharSet,
};
use crate::translate::{clean_translation, cleaned_reply};

verus! {

/// The most segments that one request carries.
pub const MAX_BATCH_SEGMENTS: usize = 8;

/// The marker that separates segments in a batched request and its reply.
pub const SEGMENT_MARKER: &'static str = "[[[SEGMENT]]]";

/// How many batches `total` segments make: `total / MAX_BATCH_SEGMENTS`,
/// rounded up.
pub open spec fn batch_count(total: nat) -> nat {
    ((total + MAX_BATCH_SEGMENTS - 1) / (MAX_BATCH_SEGMENTS as int)) as nat
}

/// The end of batch `k` of `total` segments.
pub open spec fn batch_end(k: nat, total: nat) -> nat {
    if k * MAX_BATCH_SEGMENTS + MAX_BATCH_SEGMENTS <= total {
        (k * MAX_BATCH_SEGMENTS + MAX_BATCH_SEGMENTS) as nat
    } else {
        total
    }
}

/// Splits `total` segments into consecutive batches: batch `k` covers the
/// segments from `k * MAX_BATCH_SEGMENTS` up to the next multiple, or up to
/// `total` for the last batch.
pub fn batch_ranges(total: usize) -> (r: Vec<(usize, usize)>)
    ensures
        r@.len() == batch_count(total as nat),
        forall|k: int|
            0 <= k < r@.len() ==> (#[trigger] r@[k]).0 == k * MAX_BATCH_SEGMENTS && r@[k].1
                == batch_end(k as nat, total as nat),
        r@.len() > 0 ==> r@[0].0 == 0,
        total > 0 ==> r@.len() > 0 && r@[r@.len() - 1].1 == total,
        forall|k: int|
            0 <= k < r@.len() ==> (#[trigger] r@[k]).0 < r@[k].1 && r@[k].1 - r@[k].0
                <= MAX_BATCH_SEGMENTS,
        forall|k: int| 0 <= k < r@.len() - 1 ==> (#[trigger] r@[k]).1 == r@[k + 1].0,
{
    let mut out: Vec<(usize, usize)> = Vec::new();
    let mut start: usize = 0;
    while start < total
        invariant
            start <= total,
            start == if out@.len() * MAX_BATCH_SEGMENTS <= total {
                out@.len() * MAX_BATCH_SEGMENTS
            } else {
                total as int
            },
            out@.len() * MAX_BATCH_SEGMENTS < total + MAX_BATCH_SEGMENTS,
            forall|k: int|
                0 <= k < out@.len() ==> (#[trigger] out@[k]).0 == k * MAX_BATCH_SEGMENTS
                    && out@[k].1 == batch_end(k as nat, total as nat),
            out@.len() > 0 ==> out@[out@.len() - 1].1 == start,
            out@.len() == 0 ==> start == 0,
            forall|k: int|
                0 <= k < out@.len() ==> (#[trigger] out@[k]).0 < out@[k].1 && out@[k].1 - out@[k].0
                    <= MAX_BATCH_SEGMENTS,
            forall|k: int| 0 <= k < out@.len() - 1 ==> (#[trigger] out@[k]).1 == out@[k + 1].0,
        decreases total - start,
    {
        let end = if total - start > MAX_BATCH_SEGMENTS {
            start + MAX_BATCH_SEGMENTS
        } else {
            total
        };
        let ghost k = out@.len();
        let ghost before = out@;
        out.push((start, end));
        assert(out@[k as int] == (start, end));
        assert forall|j: int| 0 <= j < k implies out@[j] == before[j] by {}
        start = end;
    }
    assert(out@.len() == batch_count(total as nat));
    out
}

/// The batches partition the segments: there are enough of them to hold
/// every segment, batch `k` starts where batch `k - 1` ends, every batch holds
/// at least one and at most `MAX_BATCH_SEGMENTS` segments, and the last batch
/// ends at the last segment.
pub proof fn batches_partition_the_segments(total: nat)
    ensures
        batch_count(total) * MAX_BATCH_SEGMENTS >= total,
        total == 0 <==> batch_count(total) == 0,
        total > 0 ==> batch_end((batch_count(total) - 1) as nat, total) == total,
        forall|k: nat|
            k < batch_count(total) ==> k * MAX_BATCH_SEGMENTS < #[trigger] batch_end(k, total) <= (k
                + 1) * MAX_BATCH_SEGMENTS,
        forall|k: nat|
            k + 1 < batch_count(total) ==> #[trigger] batch_end(k, total) == (k + 1)
                * MAX_BATCH_SEGMENTS,
{
    let c = batch_count(total);
    assert(c * 8 >= total && (c == 0 || (c - 1) * 8 < total)) by (nonlinear_arith)
        requires
            c == ((total + 7) / 8) as nat,
    ;
}

/// With two segments or more, batching sends fewer requests than segments.
pub proof fn batching_sends_fewer_requests(total: nat)
    requires
        total >= 2,
    ensures
        batch_count(total) < total,
{
}

/// The text between two segments of a batch: the marker on a line of its own.
pub open spec fn batch_separator() -> Seq<char> {
    "\n"@ + SEGMENT_MARKER@ + "\n"@
}

/// `parts` joined by `sep`.
pub open spec fn join_with(parts: Seq<Seq<char>>, sep: Seq<char>) -> Seq<char>
    decreases parts.len(),
{
    if parts.len() == 0 {
        seq![]
    } else if parts.len() == 1 {
        parts[0]
    } else {
        join_with(parts.drop_last(), sep) + sep + parts.last()
    }
}

pub open spec fn string_views(v: Seq<String>) -> Seq<Seq<char>> {
    Seq::new(v.len(), |i: int| v[i]@)
}

/// Joins the segments `start..end` of `inputs` into the text of one request,
/// separated by the marker line.
pub fn join_batch(inputs: &Vec<String>, start: usize, end: usize) -> (r: String)
    requires
        start < end <= inputs@.len(),
    ensures
        r@ == join_with(string_views(inputs@).subrange(start as int, end as int), batch_separator()),
{
    let ghost parts = string_views(inputs@);
    let mut out = String::from_str(inputs[start].as_str());
    let mut i: usize = start + 1;
    assert(parts.subrange(start as int, start + 1) =~= seq![parts[start as int]]);
    while i < end
        invariant
            start < i <= end,
            end <= inputs@.len(),
            parts == string_views(inputs@),
            out@ == join_with(parts.subrange(start as int, i as int), batch_separator()),
        decreases end - i,
    {
        out.append("\n");
        out.append(SEGMENT_MARKER);
        out.append("\n");
        out.append(inputs[i].as_str());
        assert(parts.subrange(start as int, i + 1).drop_last() =~= parts.subrange(
            start as int,
            i as int,
        ));
        assert(out@ =~= join_with(parts.subrange(start as int, i as int), batch_separator())
            + batch_separator() + parts[i as int]);
        i = i + 1;
    }
    out
}

/// The pieces of `s` from a piece that begins at `start`, with the search for
/// the next separator `d` at `i`.
pub open spec fn split_from(s: Seq<char>, d: Seq<char>, start: int, i: int) -> Seq<Seq<char>>
    decreases s.len() - i,
{
    if d.len() == 0 || i < 0 || i + d.len() > s.len() {
        seq![s.subrange(start, s.len() as int)]
    } else if s.subrange(i, i + d.len()) == d {
        seq![s.subrange(start, i)] + split_from(s, d, i + d.len(), i + d.len())
    } else {
        split_from(s, d, start, i + 1)
    }
}

/// `s` cut at every occurrence of `d`, searched from the left.
pub open spec fn split_on(s: Seq<char>, d: Seq<char>) -> Seq<Seq<char>> {
    split_from(s, d, 0, 0)
}

/// The segment texts read from a batched reply: the reply cut at every
/// marker, each piece cleaned as a single reply is (see [`cleaned_reply`]).
pub open spec fn reply_pieces(reply: Seq<char>) -> Seq<Seq<char>> {
    let pieces = split_on(reply, SEGMENT_MARKER@);
    Seq::new(pieces.len(), |k: int| cleaned_reply(pieces[k]))
}

/// Reads the translations of a batch of `expected` segments from the reply:
/// the cleaned pieces between markers, when there are exactly `expected` of
/// them; `None` otherwise.
pub fn split_batch_reply(reply: &str, expected: usize) -> (r: Option<Vec<String>>)
    ensures
        r is Some <==> reply_pieces(reply@).len() == expected,
        r matches Some(v) ==> string_views(v@) == reply_pieces(reply@),
{
    let ghost s = reply@;
    let ghost d = SEGMENT_MARKER@;
    let n = reply.unicode_len();
    let m = SEGMENT_MARKER.unicode_len();
    let mut pieces: Vec<String> = Vec::new();
    let mut start: usize = 0;
    let mut i: usize = 0;
    proof {
        reveal_strlit("[[[SEGMENT]]]");
    }
    while m <= n && i <= n - m
        invariant
            m == d.len(),
            m > 0,
            n == s.len(),
            s == reply@,
            d == SEGMENT_MARKER@,
            start <= i <= n,
            string_views(pieces@) + Seq::new(
                split_from(s, d, start as int, i as int).len(),
                |k: int| cleaned_reply(split_from(s, d, start as int, i as int)[k]),
            ) == reply_pieces(s),
        decreases n - i,
    {
        let window = reply.substring_char(i, i + m);
        let ghost before = string_views(pieces@);
        if str_equal(window, SEGMENT_MARKER) {
            let piece = reply.substring_char(start, i);
            pieces.push(String::from_str(clean_translation(piece)));
            let ghost rest = split_from(s, d, (i + m) as int, (i + m) as int);
            assert(split_from(s, d, start as int, i as int) == seq![s.subrange(start as int, i as int)]
                + rest);
            assert(string_views(pieces@) =~= before.push(cleaned_reply(s.subrange(start as int, i as int))));
            assert(before.push(cleaned_reply(s.subrange(start as int, i as int))) + Seq::new(
                rest.len(),
                |k: int| cleaned_reply(rest[k]),
            ) =~= before + Seq::new(
                split_from(s, d, start as int, i as int).len(),
                |k: int| cleaned_reply(split_from(s, d, start as int, i as int)[k]),
            ));
            i = i + m;
            start = i;
        } else {
            assert(split_from(s, d, start as int, i as int) == split_from(
                s,
                d,
                start as int,
                i + 1,
            ));
            i = i + 1;
        }
    }
    let last = reply.substring_char(start, n);
    let ghost before = string_views(pieces@);
    pieces.push(String::from_str(clean_translation(last)));
    assert(split_from(s, d, start as int, i as int) == seq![s.subrange(start as int, n as int)]);
    assert(string_views(pieces@) =~= reply_pieces(s));
    if pieces.len() == expected {
        Some(pieces)
    } else {
        None
    }
}


/// What came of the request for one batch: the model's cleaned reply, or
/// the error's text.
pub enum BatchOutcome {
    Reply(String),
    Failed(String),
}

/// What to do with a batch after its request: keep these results, one per
/// segment, or send each segment of the batch on its own.
pub enum BatchPlan {
    Finished(Vec<Result<String, String>>),
    OneByOne,
}

pub open spec fn result_views(v: Seq<Result<String, String>>) -> Seq<Result<Seq<char>, Seq<char>>> {
    Seq::new(
        v.len(),
        |k: int|
            match v[k] {
                Ok(t) => Ok(t@),
                Err(e) => Err(e@),
            },
    )
}

/// The results that a batch of `expected` segments gets from `outcome`; `None`
/// when each segment must be sent on its own. A failed request fails every
/// segment with its error; a single segment takes the reply as it is; a
/// batch takes the cleaned pieces of the reply when there is one per segment.
pub open spec fn planned_results(expected: nat, outcome: BatchOutcome) -> Option<
    Seq<Result<Seq<char>, Seq<char>>>,
> {
    match outcome {
        BatchOutcome::Failed(e) => Some(Seq::new(expected, |k: int| Err(e@))),
        BatchOutcome::Reply(t) => if expected == 1 {
            Some(seq![Ok(t@)])
        } else if reply_pieces(t@).len() == expected {
            Some(Seq::new(expected, |k: int| Ok(reply_pieces(t@)[k])))
        } else {
            None
        },
    }
}

/// Decides what a batch of `expected` segments gets from its request.
pub fn batch_plan(expected: usize, outcome: BatchOutcome) -> (r: BatchPlan)
    ensures
        match planned_results(expected as nat, outcome) {
            Some(results) => r matches BatchPlan::Finished(v) && result_views(v@) == results,
            None => r is OneByOne,
        },
{
    let ghost oc = outcome;
    match outcome {
        BatchOutcome::Failed(e) => {
            let mut out: Vec<Result<String, String>> = Vec::new();
            let mut k: usize = 0;
            while k < expected
                invariant
                    k <= expected,
                    out@.len() == k,
                    forall|j: int| 0 <= j < k ==> #[trigger] result_views(out@)[j] == Err::<Seq<char>, Seq<char>>(e@),
                decreases expected - k,
            {
                let ghost before = out@;
                out.push(Err(e.clone()));
                assert(result_views(out@)[k as int] == Err::<Seq<char>, Seq<char>>(e@));
                assert forall|j: int| 0 <= j < k implies #[trigger] result_views(out@)[j]
                    == result_views(before)[j] by {
                    assert(out@[j] == before[j]);
                }
                k = k + 1;
            }
            assert(result_views(out@) =~= Seq::new(expected as nat, |j: int| Err::<Seq<char>, Seq<char>>(e@)));
            BatchPlan::Finished(out)
        },
        BatchOutcome::Reply(t) => {
            if expected == 1 {
                let mut out: Vec<Result<String, String>> = Vec::new();
                out.push(Ok(t));
                assert(result_views(out@) =~= seq![Ok::<Seq<char>, Seq<char>>(t@)]);
                BatchPlan::Finished(out)
            } else {
                match split_batch_reply(t.as_str(), expected) {
                    Some(pieces) => {
                        let mut out: Vec<Result<String, String>> = Vec::new();
                        let mut k: usize = 0;
                        while k < pieces.len()
                            invariant
                                k <= pieces@.len(),
                                pieces@.len() == expected,
                                string_views(pieces@) == reply_pieces(t@),
                                out@.len() == k,
                                forall|j: int|
                                    0 <= j < k ==> #[trigger] result_views(out@)[j] == Ok::<
                                        Seq<char>,
                                        Seq<char>,
                                    >(reply_pieces(t@)[j]),
                            decreases pieces@.len() - k,
                        {
                            let ghost before = out@;
                            out.push(Ok(pieces[k].clone()));
                            assert forall|j: int| 0 <= j < k implies #[trigger] result_views(
                                out@,
                            )[j] == result_views(before)[j] by {
                                assert(out@[j] == before[j]);
                            }
                            assert(string_views(pieces@)[k as int] == pieces@[k as int]@);
                            assert(result_views(out@)[k as int] == Ok::<Seq<char>, Seq<char>>(
                                reply_pieces(t@)[k as int],
                            ));
                            k = k + 1;
                        }
                        assert(result_views(out@) =~= Seq::new(
                            expected as nat,
                            |j: int| Ok::<Seq<char>, Seq<char>>(reply_pieces(t@)[j]),
                        ));
                        BatchPlan::Finished(out)
                    },
                    None => BatchPlan::OneByOne,
                }
            }
        },
    }
}

/// `d` occurs nowhere in `s`.
pub open spec fn lacks(s: Seq<char>, d: Seq<char>) -> bool {
    forall|i: int| 0 <= i && i + d.len() <= s.len() ==> #[trigger] s.subrange(i, i + d.len()) != d
}

proof fn lemma_split_shift(s: Seq<char>, d: Seq<char>, p: int, start: int, i: int)
    requires
        d.len() > 0,
        0 <= p <= start <= i,
        start <= s.len(),
    ensures
        split_from(s, d, start, i) == split_from(s.subrange(p, s.len() as int), d, start - p, i - p),
    decreases s.len() - i,
{
    let t = s.subrange(p, s.len() as int);
    if i + d.len() > s.len() {
        assert(s.subrange(start, s.len() as int) =~= t.subrange(start - p, t.len() as int));
    } else {
        assert(s.subrange(i, i + d.len()) =~= t.subrange(i - p, i - p + d.len()));
        if s.subrange(i, i + d.len()) == d {
            lemma_split_shift(s, d, p, i + d.len(), i + d.len());
            assert(s.subrange(start, i) =~= t.subrange(start - p, i - p));
        } else {
            lemma_split_shift(s, d, p, start, i + 1);
        }
    }
}

proof fn lemma_split_skip(s: Seq<char>, d: Seq<char>, start: int, i: int, k: int)
    requires
        d.len() > 0,
        0 <= start <= i <= k,
        start <= s.len(),
        forall|j: int| i <= j < k && j + d.len() <= s.len() ==> #[trigger] s.subrange(j, j + d.len()) != d,
    ensures
        k + d.len() <= s.len() + 1 ==> split_from(s, d, start, i) == split_from(s, d, start, k),
    decreases k - i,
{
    if i < k {
        if i + d.len() <= s.len() {
            lemma_split_skip(s, d, start, i + 1, k);
        }
    }
}

/// The separators and segments after the first of a batch, left to right.
pub open spec fn tail_join(ys: Seq<Seq<char>>) -> Seq<char>
    decreases ys.len(),
{
    if ys.len() == 0 {
        seq![]
    } else {
        batch_separator() + ys[0] + tail_join(ys.drop_first())
    }
}

/// The pieces that cutting `a + tail_join(ys)` at the markers gives.
pub open spec fn expected_pieces(a: Seq<char>, ys: Seq<Seq<char>>) -> Seq<Seq<char>>
    decreases ys.len(),
{
    if ys.len() == 0 {
        seq![a]
    } else {
        seq![a + seq!['\n']] + expected_pieces(seq!['\n'] + ys[0], ys.drop_first())
    }
}

proof fn lemma_marker_facts()
    ensures
        SEGMENT_MARKER@.len() == 13,
        !SEGMENT_MARKER@.contains('\n'),
        batch_separator() == seq!['\n'] + SEGMENT_MARKER@ + seq!['\n'],
{
    reveal_strlit("[[[SEGMENT]]]");
    reveal_strlit("\n");
    assert("\n"@ =~= seq!['\n']);
    assert(!SEGMENT_MARKER@.contains('\n')) by {
        if SEGMENT_MARKER@.contains('\n') {
            let k = choose|k: int| 0 <= k < SEGMENT_MARKER@.len() && SEGMENT_MARKER@[k] == '\n';
            assert(SEGMENT_MARKER@[k] != '\n');
        }
    }
}

proof fn lemma_cut_pieces(a: Seq<char>, ys: Seq<Seq<char>>)
    requires
        lacks(a, SEGMENT_MARKER@),
        forall|k: int| 0 <= k < ys.len() ==> lacks(#[trigger] ys[k], SEGMENT_MARKER@),
    ensures
        split_on(a + tail_join(ys), SEGMENT_MARKER@) == expected_pieces(a, ys),
    decreases ys.len(),
{
    lemma_marker_facts();
    let m = SEGMENT_MARKER@;
    let dl = m.len() as int;
    let s = a + tail_join(ys);
    if ys.len() == 0 {
        assert(s =~= a);
        if s.len() + 1 >= dl {
            let k = s.len() + 1 - dl;
            lemma_split_skip(s, m, 0, 0, k);
            assert(split_from(s, m, 0, k) == seq![s.subrange(0, s.len() as int)]);
        }
        assert(s.subrange(0, s.len() as int) =~= a);
    } else {
        let rest = ys.drop_first();
        let a2 = seq!['\n'] + ys[0];
        let q = a.len() as int + 1;
        assert(s =~= a + seq!['\n'] + m + seq!['\n'] + ys[0] + tail_join(rest));
        assert forall|j: int| 0 <= j < q && j + dl <= s.len() implies #[trigger] s.subrange(
            j,
            j + dl,
        ) != m by {
            if j + dl <= a.len() {
                assert(s.subrange(j, j + dl) =~= a.subrange(j, j + dl));
            } else {
                assert(s.subrange(j, j + dl)[a.len() - j] == '\n');
                if s.subrange(j, j + dl) == m {
                    assert(m[a.len() - j] == '\n');
                }
            }
        }
        lemma_split_skip(s, m, 0, 0, q);
        assert(s.subrange(q, q + dl) =~= m);
        let p = q + dl;
        let t = s.subrange(p, s.len() as int);
        assert(t =~= a2 + tail_join(rest));
        lemma_split_shift(s, m, p, p, p);
        assert(s.subrange(0, q) =~= a + seq!['\n']);
        assert forall|j: int| 0 <= j && j + dl <= a2.len() implies #[trigger] a2.subrange(j, j + dl)
            != m by {
            if j == 0 {
                assert(a2.subrange(j, j + dl)[0] == '\n');
            } else {
                assert(a2.subrange(j, j + dl) =~= ys[0].subrange(j - 1, j - 1 + dl));
            }
        }
        assert forall|k: int| 0 <= k < rest.len() implies lacks(#[trigger] rest[k], m) by {
            assert(rest[k] == ys[k + 1]);
        }
        lemma_cut_pieces(a2, rest);
        assert(split_from(s, m, 0, q) == seq![s.subrange(0, q)] + split_from(s, m, p, p));
        assert(split_from(s, m, p, p) == split_from(t, m, 0, 0));
        assert(split_on(s, m) == split_from(s, m, 0, q));
        assert(expected_pieces(a, ys) == seq![a + seq!['\n']] + expected_pieces(a2, rest));
    }
}


proof fn lemma_tail_join_push(ys: Seq<Seq<char>>, z: Seq<char>)
    ensures
        tail_join(ys.push(z)) == tail_join(ys) + batch_separator() + z,
    decreases ys.len(),
{
    if ys.len() == 0 {
        assert(ys.push(z).drop_first() =~= Seq::<Seq<char>>::empty());
        assert(ys.push(z)[0] == z);
        assert(tail_join(ys.push(z).drop_first()) == Seq::<char>::empty());
        assert(tail_join(ys.push(z)) =~= batch_separator() + z);
    } else {
        assert(ys.push(z).drop_first() =~= ys.drop_first().push(z));
        lemma_tail_join_push(ys.drop_first(), z);
        assert(tail_join(ys.push(z)) =~= tail_join(ys) + batch_separator() + z);
    }
}

proof fn lemma_join_from_left(xs: Seq<Seq<char>>)
    requires
        xs.len() > 0,
    ensures
        join_with(xs, batch_separator()) == xs[0] + tail_join(xs.drop_first()),
    decreases xs.len(),
{
    if xs.len() == 1 {
        assert(xs.drop_first() =~= seq![]);
        assert(xs[0] + tail_join(xs.drop_first()) =~= xs[0]);
    } else {
        let init = xs.drop_last();
        lemma_join_from_left(init);
        assert(xs.drop_first() =~= init.drop_first().push(xs.last()));
        lemma_tail_join_push(init.drop_first(), xs.last());
        assert(join_with(xs, batch_separator()) =~= xs[0] + tail_join(xs.drop_first()));
    }
}

proof fn lemma_trim_start_ws_prefix(w: Seq<char>, y: Seq<char>)
    requires
        forall|k: int| 0 <= k < w.len() ==> is_unicode_white_space(#[trigger] w[k]),
    ensures
        trim_start_set(w + y, CharSet::Whitespace) == trim_start_set(y, CharSet::Whitespace),
    decreases w.len(),
{
    if w.len() > 0 {
        assert((w + y).drop_first() =~= w.drop_first() + y);
        lemma_trim_start_ws_prefix(w.drop_first(), y);
    } else {
        assert(w + y =~= y);
    }
}

proof fn lemma_trim_end_ws_suffix(y: Seq<char>, w: Seq<char>)
    requires
        forall|k: int| 0 <= k < w.len() ==> is_unicode_white_space(#[trigger] w[k]),
    ensures
        trim_end_set(y + w, CharSet::Whitespace) == trim_end_set(y, CharSet::Whitespace),
    decreases w.len(),
{
    if w.len() > 0 {
        assert((y + w).drop_last() =~= y + w.drop_last());
        lemma_trim_end_ws_suffix(y, w.drop_last());
    } else {
        assert(y + w =~= y);
    }
}

proof fn lemma_trim_padded(w1: Seq<char>, x: Seq<char>, w2: Seq<char>)
    requires
        forall|k: int| 0 <= k < w1.len() ==> is_unicode_white_space(#[trigger] w1[k]),
        forall|k: int| 0 <= k < w2.len() ==> is_unicode_white_space(#[trigger] w2[k]),
        trim_ws(x) == x,
    ensures
        trim_ws(w1 + x + w2) == x,
{
    assert(w1 + x + w2 =~= w1 + (x + w2));
    lemma_trim_start_ws_prefix(w1, x + w2);
    lemma_trim_ends(x, CharSet::Whitespace);
    if x.len() > 0 {
        assert((x + w2)[0] == x[0]);
        assert(trim_start_set(x + w2, CharSet::Whitespace) == x + w2);
        lemma_trim_end_ws_suffix(x, w2);
        assert(trim_end_set(x, CharSet::Whitespace) == x);
    } else {
        assert(x + w2 =~= seq![] + w2);
        lemma_trim_start_ws_prefix(w2, seq![]);
        assert(trim_start_set(seq![], CharSet::Whitespace) == Seq::<char>::empty());
    }
}

proof fn lemma_clean_padded(w1: Seq<char>, x: Seq<char>, w2: Seq<char>)
    requires
        forall|k: int| 0 <= k < w1.len() ==> is_unicode_white_space(#[trigger] w1[k]),
        forall|k: int| 0 <= k < w2.len() ==> is_unicode_white_space(#[trigger] w2[k]),
        cleaned_reply(x) == x,
    ensures
        cleaned_reply(w1 + x + w2) == x,
{
    let inner = trim_set(
        trim_set(trim_ws(x), CharSet::Only('"')),
        CharSet::Only('\''),
    );
    lemma_trim_idempotent(inner, CharSet::Whitespace);
    assert(trim_ws(x) == x);
    lemma_trim_padded(w1, x, w2);
}

proof fn lemma_expected_trimmed(w: Seq<char>, x: Seq<char>, ys: Seq<Seq<char>>)
    requires
        w == Seq::<char>::empty() || w == seq!['\n'],
        cleaned_reply(x) == x,
        forall|k: int| 0 <= k < ys.len() ==> cleaned_reply(#[trigger] ys[k]) == ys[k],
    ensures
        expected_pieces(w + x, ys).len() == ys.len() + 1,
        forall|k: int|
            0 <= k <= ys.len() ==> cleaned_reply(#[trigger] expected_pieces(w + x, ys)[k]) == (
            seq![x] + ys)[k],
    decreases ys.len(),
{
    assert(is_unicode_white_space('\n'));
    let nl = seq!['\n'];
    if ys.len() == 0 {
        lemma_clean_padded(w, x, Seq::<char>::empty());
        assert(w + x + Seq::<char>::empty() =~= w + x);
    } else {
        let rest = ys.drop_first();
        assert forall|k: int| 0 <= k < rest.len() implies cleaned_reply(#[trigger] rest[k])
            == rest[k] by {
            assert(rest[k] == ys[k + 1]);
        }
        lemma_expected_trimmed(nl, ys[0], rest);
        lemma_clean_padded(w, x, nl);
        let e = expected_pieces(w + x, ys);
        assert(e == seq![w + x + nl] + expected_pieces(nl + ys[0], rest));
        assert forall|k: int| 0 <= k <= ys.len() implies cleaned_reply(#[trigger] e[k]) == (seq![
            x,
        ] + ys)[k] by {
            if k > 0 {
                assert(e[k] == expected_pieces(nl + ys[0], rest)[k - 1]);
                assert((seq![x] + ys)[k] == (seq![ys[0]] + rest)[k - 1]);
            }
        }
    }
}

/// A batch read back from an unchanged reply gives back its segments: joining
/// segments that cleaning leaves as they are and that hold no marker, and
/// cutting the result at the markers, returns the segments, in order.
pub proof fn joined_batch_splits_back(xs: Seq<Seq<char>>)
    requires
        xs.len() > 0,
        forall|k: int| 0 <= k < xs.len() ==> cleaned_reply(#[trigger] xs[k]) == xs[k],
        forall|k: int| 0 <= k < xs.len() ==> lacks(#[trigger] xs[k], SEGMENT_MARKER@),
    ensures
        reply_pieces(join_with(xs, batch_separator())) == xs,
{
    lemma_join_from_left(xs);
    let rest = xs.drop_first();
    assert forall|k: int| 0 <= k < rest.len() implies lacks(#[trigger] rest[k], SEGMENT_MARKER@) by {
        assert(rest[k] == xs[k + 1]);
    }
    assert forall|k: int| 0 <= k < rest.len() implies cleaned_reply(#[trigger] rest[k]) == rest[k] by {
        assert(rest[k] == xs[k + 1]);
    }
    assert(lacks(xs[0], SEGMENT_MARKER@));
    lemma_cut_pieces(xs[0], rest);
    assert(Seq::<char>::empty() + xs[0] =~= xs[0]);
    lemma_expected_trimmed(Seq::<char>::empty(), xs[0], rest);
    assert(seq![xs[0]] + rest =~= xs);
    assert(reply_pieces(join_with(xs, batch_separator())) =~= xs);
}

} // verus!
