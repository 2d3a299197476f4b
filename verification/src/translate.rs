//! Translation of transcript segments: which segments are sent, the prompt
//! each is sent with, how a reply is cleaned, when a failed request is
//! retried, and how translated text replaces a segment's text and words.

use vstd::prelude::*;
use vstd::string::*;
use crate::language::{get_language_info, language_info_of, normalize_google_lang, normalized_lang,
    lower_form};
use crate::srt::{decimal, push_decimal};
use crate::text::{
    lemma_trim_ends, split_whitespace, str_equal, str_views, trim, trim_matching, trim_set, trim_ws,
    ws_tokens, CharSet,
};

verus! {

/// A word of a segment. Its time span is the `slot`-th of `slots` equal parts
/// of the segment's span (the caller holds the span itself).
pub struct WordTimestamp {
    pub text: String,
    pub slot: usize,
    pub slots: usize,
}

/// The abstract value of a word.
pub struct WordView {
    pub text: Seq<char>,
    pub slot: nat,
    pub slots: nat,
}

impl View for WordTimestamp {
    type V = WordView;

    open spec fn view(&self) -> WordView {
        WordView { text: self.text@, slot: self.slot as nat, slots: self.slots as nat }
    }
}

/// A transcript segment: its text and, when known, its words.
pub struct Segment {
    pub text: String,
    pub words: Option<Vec<WordTimestamp>>,
}

/// The abstract value of a segment.
pub struct SegmentView {
    pub text: Seq<char>,
    pub words: Option<Seq<WordView>>,
}

pub open spec fn word_views(words: Seq<WordTimestamp>) -> Seq<WordView> {
    Seq::new(words.len(), |i: int| words[i]@)
}

impl View for Segment {
    type V = SegmentView;

    open spec fn view(&self) -> SegmentView {
        SegmentView {
            text: self.text@,
            words: match self.words {
                Some(w) => Some(word_views(w@)),
                None => None,
            },
        }
    }
}

pub open spec fn segment_views(segments: Seq<Segment>) -> Seq<SegmentView> {
    Seq::new(segments.len(), |i: int| segments[i]@)
}

/// The texts of words regenerated from tokens: the first token as it is, every
/// later token after one space.
pub open spec fn spaced_tokens(tokens: Seq<Seq<char>>) -> Seq<Seq<char>> {
    Seq::new(tokens.len(), |i: int| if i == 0 { tokens[i] } else { seq![' '] + tokens[i] })
}

/// The words regenerated from `text`: one per whitespace-separated token, in
/// order, the `i`-th of `n` taking the `i`-th of `n` equal parts of the span.
pub open spec fn uniform_words(text: Seq<char>) -> Seq<WordView> {
    let tokens = ws_tokens(text);
    Seq::new(
        tokens.len(),
        |i: int| WordView { text: spaced_tokens(tokens)[i], slot: i as nat, slots: tokens.len() },
    )
}

/// Regenerates the words of a segment from its text: one word per
/// whitespace-separated token, tiling the segment's span uniformly; words
/// after the first carry a leading space.
pub fn regenerate_words_uniform(seg: &mut Segment)
    ensures
        final(seg)@ == (SegmentView { text: old(seg)@.text, words: Some(uniform_words(old(seg)@.text)) }),
{
    let tokens = split_whitespace(seg.text.as_str());
    let n = tokens.len();
    let ghost toks = ws_tokens(seg.text@);
    let mut words: Vec<WordTimestamp> = Vec::new();
    let mut i: usize = 0;
    while i < n
        invariant
            i <= n,
            n == tokens@.len(),
            n == toks.len(),
            str_views(tokens@) == toks,
            toks == ws_tokens(seg.text@),
            words@.len() == i,
            forall|k: int| 0 <= k < i ==> #[trigger] words@[k]@ == uniform_words(seg.text@)[k],
        decreases n - i,
    {
        let text = if i == 0 {
            String::from_str(tokens[i])
        } else {
            let mut t = String::from_str(" ");
            t.append(tokens[i]);
            t
        };
        proof {
            reveal_strlit(" ");
            assert(tokens@[i as int]@ == toks[i as int]);
            assert(" "@ =~= seq![' ']);
            assert(text@ == spaced_tokens(toks)[i as int]);
        }
        let ghost before = words@;
        words.push(WordTimestamp { text, slot: i, slots: n });
        assert(words@[i as int]@ == uniform_words(seg.text@)[i as int]);
        assert(forall|k: int| 0 <= k < i ==> words@[k] == before[k]);
        i = i + 1;
    }
    seg.words = Some(words);
    assert(word_views(words@) =~= uniform_words(old(seg)@.text));
}


/// The concatenation of a sequence of strings.
pub open spec fn concat_all(parts: Seq<Seq<char>>) -> Seq<char>
    decreases parts.len(),
{
    if parts.len() == 0 {
        seq![]
    } else {
        concat_all(parts.drop_last()) + parts.last()
    }
}

/// Tokens joined by single spaces.
pub open spec fn join_spaced(tokens: Seq<Seq<char>>) -> Seq<char>
    decreases tokens.len(),
{
    if tokens.len() == 0 {
        seq![]
    } else if tokens.len() == 1 {
        tokens[0]
    } else {
        join_spaced(tokens.drop_last()) + seq![' '] + tokens.last()
    }
}

pub open spec fn word_texts(words: Seq<WordView>) -> Seq<Seq<char>> {
    Seq::new(words.len(), |i: int| words[i].text)
}

pub proof fn lemma_spaced_tokens_concat(tokens: Seq<Seq<char>>)
    ensures
        concat_all(spaced_tokens(tokens)) == join_spaced(tokens),
    decreases tokens.len(),
{
    if tokens.len() > 0 {
        lemma_spaced_tokens_concat(tokens.drop_last());
        assert(spaced_tokens(tokens).drop_last() =~= spaced_tokens(tokens.drop_last()));
        if tokens.len() == 1 {
            assert(spaced_tokens(tokens.drop_last()) =~= seq![]);
            assert(concat_all(spaced_tokens(tokens)) =~= tokens[0]);
        } else {
            assert(concat_all(spaced_tokens(tokens)) =~= join_spaced(tokens.drop_last()) + (seq![' ']
                + tokens.last()));
        }
    }
}

/// Reading the regenerated words of a text in order, as the formatting layer
/// does, gives the text's tokens separated by single spaces.
pub proof fn regenerated_words_spell_the_text(text: Seq<char>)
    ensures
        concat_all(word_texts(uniform_words(text))) == join_spaced(ws_tokens(text)),
{
    assert(word_texts(uniform_words(text)) =~= spaced_tokens(ws_tokens(text)));
    lemma_spaced_tokens_concat(ws_tokens(text));
}

/// The segments that are sent for translation among the first `n`: the
/// position and trimmed text of each whose trimmed text is not empty, in order.
pub open spec fn translation_queue(texts: Seq<Seq<char>>, n: int) -> Seq<(int, Seq<char>)>
    decreases n,
{
    if n <= 0 {
        seq![]
    } else {
        let earlier = translation_queue(texts, n - 1);
        if trim_ws(texts[n - 1]).len() > 0 {
            earlier.push((n - 1, trim_ws(texts[n - 1])))
        } else {
            earlier
        }
    }
}

pub open spec fn segment_texts(segments: Seq<Segment>) -> Seq<Seq<char>> {
    Seq::new(segments.len(), |i: int| segments[i].text@)
}

pub proof fn lemma_queue_positions(texts: Seq<Seq<char>>, n: int)
    requires
        0 <= n <= texts.len(),
    ensures
        forall|k: int|
            0 <= k < translation_queue(texts, n).len() ==> 0 <= #[trigger] translation_queue(
                texts,
                n,
            )[k].0 < n,
        forall|k: int, l: int|
            0 <= k < l < translation_queue(texts, n).len() ==> #[trigger] translation_queue(
                texts,
                n,
            )[k].0 < #[trigger] translation_queue(texts, n)[l].0,
    decreases n,
{
    if n > 0 {
        lemma_queue_positions(texts, n - 1);
        let earlier = translation_queue(texts, n - 1);
        let q = translation_queue(texts, n);
        if trim_ws(texts[n - 1]).len() > 0 {
            assert(q == earlier.push((n - 1, trim_ws(texts[n - 1]))));
            assert forall|k: int| 0 <= k < q.len() implies 0 <= #[trigger] q[k].0 < n by {
                if k < earlier.len() {
                    assert(q[k] == earlier[k]);
                }
            }
            assert forall|k: int, l: int| 0 <= k < l < q.len() implies #[trigger] q[k].0
                < #[trigger] q[l].0 by {
                assert(q[k] == earlier[k]);
                if l < earlier.len() {
                    assert(q[l] == earlier[l]);
                }
            }
        }
    }
}

/// Picks the segments to translate: the positions of the segments whose
/// trimmed text is not empty, in increasing order, and those trimmed texts.
pub fn select_translation_inputs(segments: &Vec<Segment>) -> (r: (Vec<usize>, Vec<String>))
    ensures
        r.0@.len() == translation_queue(segment_texts(segments@), segments@.len() as int).len(),
        r.1@.len() == r.0@.len(),
        forall|k: int|
            0 <= k < r.0@.len() ==> #[trigger] r.0@[k] == translation_queue(
                segment_texts(segments@),
                segments@.len() as int,
            )[k].0,
        forall|k: int|
            0 <= k < r.1@.len() ==> #[trigger] r.1@[k]@ == translation_queue(
                segment_texts(segments@),
                segments@.len() as int,
            )[k].1,
        forall|k: int, l: int| 0 <= k < l < r.0@.len() ==> r.0@[k] < r.0@[l],
        forall|k: int| 0 <= k < r.0@.len() ==> r.0@[k] < segments@.len(),
{
    let ghost texts = segment_texts(segments@);
    let mut indices: Vec<usize> = Vec::new();
    let mut inputs: Vec<String> = Vec::new();
    let n = segments.len();
    let mut i: usize = 0;
    while i < n
        invariant
            i <= n,
            n == segments@.len(),
            texts == segment_texts(segments@),
            indices@.len() == translation_queue(texts, i as int).len(),
            inputs@.len() == indices@.len(),
            forall|k: int|
                0 <= k < indices@.len() ==> #[trigger] indices@[k] == translation_queue(
                    texts,
                    i as int,
                )[k].0,
            forall|k: int|
                0 <= k < inputs@.len() ==> #[trigger] inputs@[k]@ == translation_queue(
                    texts,
                    i as int,
                )[k].1,
        decreases n - i,
    {
        let t = trim(segments[i].text.as_str());
        assert(texts[i as int] == segments@[i as int].text@);
        let ghost earlier = translation_queue(texts, i as int);
        let ghost old_inputs = inputs@;
        let ghost old_indices = indices@;
        if t.unicode_len() > 0 {
            indices.push(i);
            inputs.push(String::from_str(t));
            assert(translation_queue(texts, i + 1) == earlier.push((i as int, t@)));
            assert forall|k: int| 0 <= k < indices@.len() implies #[trigger] indices@[k]
                == translation_queue(texts, i + 1)[k].0 by {
                if k < old_indices.len() {
                    assert(indices@[k] == old_indices[k]);
                    assert(translation_queue(texts, i + 1)[k] == earlier[k]);
                }
            }
            assert forall|k: int| 0 <= k < inputs@.len() implies #[trigger] inputs@[k]@
                == translation_queue(texts, i + 1)[k].1 by {
                if k < old_inputs.len() {
                    assert(inputs@[k] == old_inputs[k]);
                    assert(translation_queue(texts, i + 1)[k] == earlier[k]);
                }
            }
        } else {
            assert(translation_queue(texts, i + 1) == earlier);
        }
        i = i + 1;
    }
    proof {
        lemma_queue_positions(texts, n as int);
    }
    (indices, inputs)
}

/// A segment whose text was replaced by `text`, with words regenerated from it.
pub open spec fn translated_segment(text: Seq<char>) -> SegmentView {
    SegmentView { text, words: Some(uniform_words(text)) }
}

pub open spec fn option_views(results: Seq<Option<String>>) -> Seq<Option<Seq<char>>> {
    Seq::new(
        results.len(),
        |k: int|
            match results[k] {
                Some(t) => Some(t@),
                None => None,
            },
    )
}

/// The segments after the first `k` results are applied in order: result `j`,
/// when present, replaces segment `indices[j]` by its translation.
pub open spec fn applied_translations(
    segments: Seq<SegmentView>,
    indices: Seq<usize>,
    results: Seq<Option<Seq<char>>>,
    k: int,
) -> Seq<SegmentView>
    decreases k,
{
    if k <= 0 {
        segments
    } else {
        let earlier = applied_translations(segments, indices, results, k - 1);
        match results[k - 1] {
            Some(t) => if indices[k - 1] < earlier.len() {
                earlier.update(indices[k - 1] as int, translated_segment(t))
            } else {
                earlier
            },
            None => earlier,
        }
    }
}

pub proof fn lemma_applied_len(
    segments: Seq<SegmentView>,
    indices: Seq<usize>,
    results: Seq<Option<Seq<char>>>,
    k: int,
)
    ensures
        applied_translations(segments, indices, results, k).len() == segments.len(),
    decreases k,
{
    if k > 0 {
        lemma_applied_len(segments, indices, results, k - 1);
    }
}

/// Writes translation results back: for each `k`, a present `results[k]`
/// becomes the text of segment `indices[k]`, whose words are regenerated
/// from it; an absent result leaves that segment as it was.
pub fn apply_translations(
    segments: &mut Vec<Segment>,
    indices: &Vec<usize>,
    results: Vec<Option<String>>,
)
    requires
        results@.len() <= indices@.len(),
        forall|k: int|
            0 <= k < results@.len() && #[trigger] results@[k] is Some ==> indices@[k]
                < old(segments)@.len(),
    ensures
        segment_views(final(segments)@) == applied_translations(
            segment_views(old(segments)@),
            indices@,
            option_views(results@),
            results@.len() as int,
        ),
{
    let n = results.len();
    let ghost start = segment_views(segments@);
    let mut k: usize = 0;
    while k < n
        invariant
            k <= n,
            n == results@.len(),
            n <= indices@.len(),
            segments@.len() == start.len(),
            forall|j: int|
                0 <= j < results@.len() && #[trigger] results@[j] is Some ==> indices@[j]
                    < start.len(),
            segment_views(segments@) == applied_translations(
                start,
                indices@,
                option_views(results@),
                k as int,
            ),
        decreases n - k,
    {
        match &results[k] {
            Some(tr) => {
                let idx = indices[k];
                let mut seg = Segment { text: tr.clone(), words: None };
                regenerate_words_uniform(&mut seg);
                let ghost before = segments@;
                segments.set(idx, seg);
                assert(segment_views(segments@) =~= segment_views(before).update(
                    idx as int,
                    translated_segment(tr@),
                ));
            },
            None => {},
        }
        k = k + 1;
    }
}

/// Applying results touches only the segments they name: with distinct
/// indices, a segment named by a present result ends as that result's
/// translation, and every other segment is left as it was.
pub proof fn apply_translations_per_segment(
    segments: Seq<SegmentView>,
    indices: Seq<usize>,
    results: Seq<Option<Seq<char>>>,
    n: int,
    i: int,
)
    requires
        0 <= n <= results.len(),
        n <= indices.len(),
        0 <= i < segments.len(),
        forall|k: int, l: int| 0 <= k < l < n ==> indices[k] != indices[l],
    ensures
        forall|k: int|
            0 <= k < n && indices[k] == i && #[trigger] results[k] is Some ==> applied_translations(
                segments,
                indices,
                results,
                n,
            )[i] == translated_segment(results[k]->0),
        (forall|k: int| 0 <= k < n && indices[k] == i ==> #[trigger] results[k] is None)
            ==> applied_translations(segments, indices, results, n)[i] == segments[i],
    decreases n,
{
    if n > 0 {
        apply_translations_per_segment(segments, indices, results, n - 1, i);
        lemma_applied_len(segments, indices, results, n - 1);
        let earlier = applied_translations(segments, indices, results, n - 1);
        let now = applied_translations(segments, indices, results, n);
        if indices[n - 1] != i {
            assert(now[i] == earlier[i]);
        }
    }
}


/// The prompt that asks the model to render `text`, written in the language
/// coded `from`, in the language coded `to`. Both codes are normalised and looked up
/// in the language table; a source of `auto` leaves the source unnamed.
pub open spec fn translation_prompt_text(text: Seq<char>, from: Seq<char>, to: Seq<char>) -> Seq<
    char,
> {
    let sl = normalized_lang(from, false);
    let tl = normalized_lang(to, true);
    let source = language_info_of(lower_form(sl), sl);
    let target = language_info_of(lower_form(tl), tl);
    if sl == "auto"@ {
        "You are a professional translator to "@ + target.0 + " ("@ + target.1
            + "). Your goal is to accurately convey the meaning and nuances of the original text while adhering to "@
            + target.0
            + " grammar, vocabulary, and cultural sensitivities.\nProduce only the "@ + target.0
            + " translation, without any additional explanations or commentary. Please translate the following text into "@
            + target.0 + ":\n\n\n"@ + text
    } else {
        "You are a professional "@ + source.0 + " ("@ + source.1 + ") to "@ + target.0 + " ("@
            + target.1
            + ") translator. Your goal is to accurately convey the meaning and nuances of the original "@
            + source.0 + " text while adhering to "@ + target.0
            + " grammar, vocabulary, and cultural sensitivities.\nProduce only the "@ + target.0
            + " translation, without any additional explanations or commentary. Please translate the following "@
            + source.0 + " text into "@ + target.0 + ":\n\n\n"@ + text
    }
}

/// The language a code names in prompts, after normalisation: its display
/// name and prompt code.
pub open spec fn prompt_language(code: Seq<char>, is_target: bool) -> (Seq<char>, Seq<char>) {
    let n = normalized_lang(code, is_target);
    language_info_of(lower_form(n), n)
}

/// How a prompt opens: it names the target language, and the source language
/// too unless the normalised source is `auto`.
pub open spec fn prompt_opening(from: Seq<char>, to: Seq<char>) -> Seq<char> {
    let source = prompt_language(from, false);
    let target = prompt_language(to, true);
    if normalized_lang(from, false) == "auto"@ {
        "You are a professional translator to "@ + target.0 + " ("@ + target.1 + ")"@
    } else {
        "You are a professional "@ + source.0 + " ("@ + source.1 + ") to "@ + target.0 + " ("@
            + target.1 + ")"@
    }
}

pub open spec fn prompt_opens_with(prompt: Seq<char>, opening: Seq<char>) -> bool {
    opening.len() <= prompt.len() && prompt.subrange(0, opening.len() as int) == opening
}

/// A prompt names the normalised source and target languages by the
/// language table, and ends with the text to translate.
pub proof fn prompt_names_the_normalized_languages(text: Seq<char>, from: Seq<char>, to: Seq<char>)
    ensures
        prompt_opens_with(translation_prompt_text(text, from, to), prompt_opening(from, to)),
        translation_prompt_text(text, from, to).len() >= text.len() && translation_prompt_text(
            text,
            from,
            to,
        ).subrange(
            translation_prompt_text(text, from, to).len() - text.len(),
            translation_prompt_text(text, from, to).len() as int,
        ) == text,
{
    let p = translation_prompt_text(text, from, to);
    let o = prompt_opening(from, to);
    reveal_strlit(")");
    reveal_strlit("). Your goal is to accurately convey the meaning and nuances of the original text while adhering to ");
    reveal_strlit(") translator. Your goal is to accurately convey the meaning and nuances of the original ");
    assert(p.subrange(0, o.len() as int) =~= o);
    assert(p.subrange(p.len() - text.len(), p.len() as int) =~= text);
}

/// Cantonese audio is put to the model as Traditional Chinese.
pub proof fn cantonese_source_is_named_traditional_chinese()
    ensures
        prompt_language("yue"@, false) == ("Chinese (Traditional)"@, "zh-Hant"@),
{
    crate::language::cantonese_is_traditional_chinese(false);
}

/// Builds the prompt that asks the translation model to translate `text`
/// from the language coded `from` into the language coded `to`.
pub fn translation_prompt(text: &str, from: &str, to: &str) -> (r: String)
    ensures
        r@ == translation_prompt_text(text@, from@, to@),
        prompt_opens_with(r@, prompt_opening(from@, to@)),
        r@.len() >= text@.len() && r@.subrange(r@.len() - text@.len(), r@.len() as int) == text@,
{
    let sl = normalize_google_lang(from, false);
    let tl = normalize_google_lang(to, true);
    let (full_sl, prompt_sl) = get_language_info(sl.as_str());
    let (full_tl, prompt_tl) = get_language_info(tl.as_str());
    let mut out: String;
    if str_equal(sl.as_str(), "auto") {
        out = String::from_str("You are a professional translator to ");
        out.append(full_tl);
        out.append(" (");
        out.append(prompt_tl);
        out.append(
            "). Your goal is to accurately convey the meaning and nuances of the original text while adhering to ",
        );
        out.append(full_tl);
        out.append(" grammar, vocabulary, and cultural sensitivities.\nProduce only the ");
        out.append(full_tl);
        out.append(
            " translation, without any additional explanations or commentary. Please translate the following text into ",
        );
        out.append(full_tl);
    } else {
        out = String::from_str("You are a professional ");
        out.append(full_sl);
        out.append(" (");
        out.append(prompt_sl);
        out.append(") to ");
        out.append(full_tl);
        out.append(" (");
        out.append(prompt_tl);
        out.append(
            ") translator. Your goal is to accurately convey the meaning and nuances of the original ",
        );
        out.append(full_sl);
        out.append(" text while adhering to ");
        out.append(full_tl);
        out.append(" grammar, vocabulary, and cultural sensitivities.\nProduce only the ");
        out.append(full_tl);
        out.append(
            " translation, without any additional explanations or commentary. Please translate the following ",
        );
        out.append(full_sl);
        out.append(" text into ");
        out.append(full_tl);
    }
    out.append(":\n\n\n");
    out.append(text);
    proof {
        prompt_names_the_normalized_languages(text@, from@, to@);
    }
    out
}

/// A model reply with surrounding whitespace, then double quotes, then single
/// quotes, then whitespace again removed.
pub open spec fn cleaned_reply(content: Seq<char>) -> Seq<char> {
    trim_ws(
        trim_set(
            trim_set(trim_ws(content), CharSet::Only('"')),
            CharSet::Only('\''),
        ),
    )
}

/// Strips the whitespace and the quotes that a model may put around its
/// translation.
pub fn clean_translation(content: &str) -> (r: &str)
    ensures
        r@ == cleaned_reply(content@),
{
    let t = trim(content);
    let t = trim_matching(t, CharSet::Only('"'));
    let t = trim_matching(t, CharSet::Only('\''));
    trim(t)
}

/// A cleaned reply neither starts nor ends with whitespace.
pub proof fn cleaned_reply_is_trimmed(content: Seq<char>)
    ensures
        cleaned_reply(content).len() > 0 ==> !crate::text::is_unicode_white_space(
            cleaned_reply(content)[0],
        ) && !crate::text::is_unicode_white_space(cleaned_reply(content).last()),
{
    lemma_trim_ends(
        trim_set(trim_set(trim_ws(content), CharSet::Only('"')), CharSet::Only('\'')),
        CharSet::Whitespace,
    );
}

/// The chat-completions endpoint of the local translation service.
pub const TRANSLATION_ENDPOINT: &'static str = "http://127.0.0.1:11434/v1/chat/completions";

/// The model that the translation service is asked to use.
pub const TRANSLATION_MODEL: &'static str = "translategemma:12b";

/// How many times a failed translation request is sent again.
pub const MAX_TRANSLATION_RETRIES: u32 = 10;

/// How an HTTP status of the translation service is handled.
#[derive(Clone, Copy, Debug, PartialEq, Eq)]
pub enum StatusClass {
    /// 2xx: the reply holds a translation.
    Success,
    /// 5xx or 429: the service is busy; the request may be sent again.
    Overloaded,
    /// Anything else: the request is refused.
    Refused,
}

pub open spec fn status_class(code: u16) -> StatusClass {
    if 200 <= code && code < 300 {
        StatusClass::Success
    } else if (500 <= code && code < 600) || code == 429 {
        StatusClass::Overloaded
    } else {
        StatusClass::Refused
    }
}

/// Classifies an HTTP status code of the translation service.
pub fn classify_status(code: u16) -> (r: StatusClass)
    ensures
        r == status_class(code),
{
    if 200 <= code && code < 300 {
        StatusClass::Success
    } else if (500 <= code && code < 600) || code == 429 {
        StatusClass::Overloaded
    } else {
        StatusClass::Refused
    }
}

/// What came of one request to the translation service.
pub enum ChatEvent {
    /// A success status whose body was read: the content of the first choice,
    /// if the reply had any choice.
    Answered(Option<String>),
    /// A success status whose body could not be read; the error's text.
    Unreadable(String),
    /// A 5xx or 429 status.
    Overloaded,
    /// Any other status: the status line and the body.
    Refused { status: String, body: String },
    /// The request could not be sent; the error's text.
    Unreachable(String),
}

/// What to do after a request: stop with a translation or an error message,
/// or send the request again after a pause.
pub enum TranslationStep {
    Finished(Result<String, String>),
    Retry { next_attempt: u32, delay_ms: u64 },
}

/// The abstract value of a [`TranslationStep`].
pub enum StepPlan {
    Finished(Result<Seq<char>, Seq<char>>),
    Retry { next_attempt: u32, delay_ms: u64 },
}

impl View for TranslationStep {
    type V = StepPlan;

    open spec fn view(&self) -> StepPlan {
        match self {
            TranslationStep::Finished(Ok(t)) => StepPlan::Finished(Ok(t@)),
            TranslationStep::Finished(Err(e)) => StepPlan::Finished(Err(e@)),
            TranslationStep::Retry { next_attempt, delay_ms } => StepPlan::Retry {
                next_attempt: *next_attempt,
                delay_ms: *delay_ms,
            },
        }
    }
}

/// The message given when the service could not be reached on the last attempt.
pub open spec fn unreachable_message(error: Seq<char>) -> Seq<char> {
    "Failed to connect to local translation service at "@ + TRANSLATION_ENDPOINT@ + " after "@
        + decimal(MAX_TRANSLATION_RETRIES as nat)
        + " attempts. Ensure your Ollama server is running and the model '"@ + TRANSLATION_MODEL@
        + "' is available. Error: "@ + error
}

/// The retry policy: what follows request number `attempt` (counted from 0)
/// when `event` came of it.
pub open spec fn translation_plan(attempt: u32, event: ChatEvent) -> StepPlan {
    match event {
        ChatEvent::Answered(Some(content)) => StepPlan::Finished(Ok(cleaned_reply(content@))),
        ChatEvent::Answered(None) => StepPlan::Finished(
            Err("No translation choices returned from local AI"@),
        ),
        ChatEvent::Unreadable(error) => StepPlan::Finished(Err(error@)),
        ChatEvent::Overloaded => if attempt >= MAX_TRANSLATION_RETRIES {
            StepPlan::Finished(Err("Local translation failed after maximum retries"@))
        } else {
            StepPlan::Retry {
                next_attempt: (attempt + 1) as u32,
                delay_ms: (500 * (attempt + 1)) as u64,
            }
        },
        ChatEvent::Refused { status, body } => StepPlan::Finished(
            Err("Local translation API error ("@ + status@ + "): "@ + body@),
        ),
        ChatEvent::Unreachable(error) => if attempt >= MAX_TRANSLATION_RETRIES {
            StepPlan::Finished(Err(unreachable_message(error@)))
        } else {
            StepPlan::Retry {
                next_attempt: (attempt + 1) as u32,
                delay_ms: (1000 * (attempt + 1)) as u64,
            }
        },
    }
}

/// Decides what follows request number `attempt` (counted from 0) to the
/// translation service, given what came of it.
pub fn translation_step(attempt: u32, event: ChatEvent) -> (r: TranslationStep)
    ensures
        r@ == translation_plan(attempt, event),
{
    let ghost ev = event;
    match event {
        ChatEvent::Answered(Some(content)) => {
            let cleaned = clean_translation(content.as_str());
            TranslationStep::Finished(Ok(String::from_str(cleaned)))
        },
        ChatEvent::Answered(None) => TranslationStep::Finished(
            Err(String::from_str("No translation choices returned from local AI")),
        ),
        ChatEvent::Unreadable(error) => TranslationStep::Finished(Err(error)),
        ChatEvent::Overloaded => {
            if attempt >= MAX_TRANSLATION_RETRIES {
                TranslationStep::Finished(
                    Err(String::from_str("Local translation failed after maximum retries")),
                )
            } else {
                TranslationStep::Retry {
                    next_attempt: attempt + 1,
                    delay_ms: 500 * (attempt as u64 + 1),
                }
            }
        },
        ChatEvent::Refused { status, body } => {
            let mut message = String::from_str("Local translation API error (");
            message.append(status.as_str());
            message.append("): ");
            message.append(body.as_str());
            TranslationStep::Finished(Err(message))
        },
        ChatEvent::Unreachable(error) => {
            if attempt >= MAX_TRANSLATION_RETRIES {
                let mut message = String::from_str(
                    "Failed to connect to local translation service at ",
                );
                message.append(TRANSLATION_ENDPOINT);
                message.append(" after ");
                push_decimal(&mut message, MAX_TRANSLATION_RETRIES as u64);
                message.append(" attempts. Ensure your Ollama server is running and the model '");
                message.append(TRANSLATION_MODEL);
                message.append("' is available. Error: ");
                message.append(error.as_str());
                TranslationStep::Finished(Err(message))
            } else {
                TranslationStep::Retry {
                    next_attempt: attempt + 1,
                    delay_ms: 1000 * (attempt as u64 + 1),
                }
            }
        },
    }
}

/// Whether the docker route translates its transcript, and into which
/// language: only when translation was asked for and a target other than
/// `auto` was given.
pub fn docker_translation_target(translate: Option<bool>, target_language: Option<String>) -> (r:
    Option<String>)
    ensures
        r is Some <==> (translate == Some(true) && target_language is Some
            && target_language->0@ != "auto"@),
        r matches Some(t) ==> target_language matches Some(g) && t@ == g@,
{
    match (translate, target_language) {
        (Some(true), Some(target)) => {
            if str_equal(target.as_str(), "auto") {
                None
            } else {
                Some(target)
            }
        },
        _ => None,
    }
}


/// A request is sent again only while the retry budget lasts, as the next
/// attempt, after a pause that grows with the attempt number: 500 ms steps
/// when the service is busy, 1000 ms steps when it cannot be reached.
pub proof fn retry_only_within_budget(attempt: u32, event: ChatEvent)
    ensures
        translation_plan(attempt, event) matches StepPlan::Retry { next_attempt, delay_ms } ==> {
            &&& attempt < MAX_TRANSLATION_RETRIES
            &&& next_attempt == attempt + 1
            &&& (event is Overloaded ==> delay_ms == 500 * (attempt + 1))
            &&& (event is Unreachable ==> delay_ms == 1000 * (attempt + 1))
            &&& (event is Overloaded || event is Unreachable)
        },
{
}

/// How many requests are sent, starting at attempt number `attempt`, when the
/// requests meet `events` in turn (until a step finishes or the events run out).
pub open spec fn requests_sent(attempt: u32, events: Seq<ChatEvent>) -> nat
    decreases events.len(),
{
    if events.len() == 0 {
        0
    } else {
        match translation_plan(attempt, events[0]) {
            StepPlan::Finished(_) => 1,
            StepPlan::Retry { next_attempt, .. } => 1 + requests_sent(
                next_attempt,
                events.drop_first(),
            ),
        }
    }
}

pub proof fn lemma_requests_sent_bound(attempt: u32, events: Seq<ChatEvent>)
    requires
        attempt <= MAX_TRANSLATION_RETRIES,
    ensures
        requests_sent(attempt, events) <= MAX_TRANSLATION_RETRIES + 1 - attempt,
    decreases events.len(),
{
    if events.len() > 0 {
        if let StepPlan::Retry { next_attempt, .. } = translation_plan(attempt, events[0]) {
            lemma_requests_sent_bound(next_attempt, events.drop_first());
        }
    }
}

/// Whatever the service answers, one translation sends at most
/// `MAX_TRANSLATION_RETRIES + 1` requests.
pub proof fn translation_requests_are_bounded(events: Seq<ChatEvent>)
    ensures
        requests_sent(0, events) <= MAX_TRANSLATION_RETRIES + 1,
{
    lemma_requests_sent_bound(0, events);
}


/// While the retry budget lasts, a busy or unreachable service is always
/// tried again, as the next attempt, after 500 ms or 1000 ms times the
/// attempt's number; once it is spent, the step finishes with an error.
pub proof fn busy_or_unreachable_is_retried_within_budget(attempt: u32, event: ChatEvent)
    requires
        event is Overloaded || event is Unreachable,
    ensures
        attempt < MAX_TRANSLATION_RETRIES ==> translation_plan(attempt, event) == (StepPlan::Retry {
            next_attempt: (attempt + 1) as u32,
            delay_ms: (if event is Overloaded {
                500 * (attempt + 1)
            } else {
                1000 * (attempt + 1)
            }) as u64,
        }),
        attempt >= MAX_TRANSLATION_RETRIES ==> translation_plan(attempt, event) matches StepPlan::Finished(
            Err(_),
        ),
{
}

proof fn lemma_requests_sent_unanswered(attempt: u32, events: Seq<ChatEvent>)
    requires
        attempt <= MAX_TRANSLATION_RETRIES,
        events.len() >= MAX_TRANSLATION_RETRIES + 1 - attempt,
        forall|k: int| 0 <= k < events.len() ==> (#[trigger] events[k]) is Unreachable,
    ensures
        requests_sent(attempt, events) == MAX_TRANSLATION_RETRIES + 1 - attempt,
    decreases events.len(),
{
    assert(events[0] is Unreachable);
    if attempt < MAX_TRANSLATION_RETRIES {
        let rest = events.drop_first();
        assert forall|k: int| 0 <= k < rest.len() implies (#[trigger] rest[k]) is Unreachable by {
            assert(rest[k] == events[k + 1]);
        }
        lemma_requests_sent_unanswered((attempt + 1) as u32, rest);
    }
}

/// When the service can never be reached, exactly `MAX_TRANSLATION_RETRIES + 1`
/// requests are sent before the translation gives up.
pub proof fn unreachable_service_gets_every_retry(events: Seq<ChatEvent>)
    requires
        events.len() >= MAX_TRANSLATION_RETRIES + 1,
        forall|k: int| 0 <= k < events.len() ==> (#[trigger] events[k]) is Unreachable,
    ensures
        requests_sent(0, events) == MAX_TRANSLATION_RETRIES + 1,
{
    lemma_requests_sent_unanswered(0, events);
}

} // verus!
