use autosubs::translate::{
    apply_translations, classify_status, clean_translation, docker_translation_target,
    regenerate_words_uniform, select_translation_inputs, translation_prompt, translation_step,
    ChatEvent, Segment, StatusClass, TranslationStep, MAX_TRANSLATION_RETRIES,
};

fn segment(text: &str) -> Segment {
    Segment { text: text.to_string(), words: None }
}

fn word_texts(seg: &Segment) -> Vec<String> {
    seg.words.as_ref().unwrap().iter().map(|w| w.text.clone()).collect()
}

#[test]
fn words_are_regenerated_from_tokens() {
    let mut seg = segment("  hello  world\tfoo ");
    regenerate_words_uniform(&mut seg);
    assert_eq!(seg.text, "  hello  world\tfoo ");
    assert_eq!(word_texts(&seg), vec!["hello", " world", " foo"]);
    let words = seg.words.unwrap();
    for (i, w) in words.iter().enumerate() {
        assert_eq!(w.slot, i);
        assert_eq!(w.slots, 3);
    }
}

#[test]
fn blank_text_gets_no_words() {
    let mut seg = segment(" \n ");
    regenerate_words_uniform(&mut seg);
    assert_eq!(seg.words.map(|w| w.len()), Some(0));
}

#[test]
fn regenerated_words_read_back_as_spaced_tokens() {
    let mut seg = segment("\tBonjour   tout\u{a0}le monde ");
    regenerate_words_uniform(&mut seg);
    let joined: String = word_texts(&seg).concat();
    assert_eq!(joined, "Bonjour tout le monde");
}

#[test]
fn only_nonblank_segments_are_sent() {
    let segs = vec![segment("  hi "), segment("   "), segment("there"), segment("")];
    let (indices, inputs) = select_translation_inputs(&segs);
    assert_eq!(indices, vec![0, 2]);
    assert_eq!(inputs, vec!["hi".to_string(), "there".to_string()]);
}

#[test]
fn results_replace_only_the_named_segments() {
    let mut segs = vec![segment("one"), segment("two"), segment("three")];
    apply_translations(&mut segs, &vec![0, 2], vec![None, Some("drei zwei".to_string())]);
    assert_eq!(segs[0].text, "one");
    assert!(segs[0].words.is_none());
    assert_eq!(segs[1].text, "two");
    assert_eq!(segs[2].text, "drei zwei");
    assert_eq!(word_texts(&segs[2]), vec!["drei", " zwei"]);
}

#[test]
fn prompt_with_named_source() {
    let p = translation_prompt("Hello", "en", "fr");
    assert_eq!(
        p,
        "You are a professional English (en) to French (fr) translator. Your goal is to accurately convey the meaning and nuances of the original English text while adhering to French grammar, vocabulary, and cultural sensitivities.\nProduce only the French translation, without any additional explanations or commentary. Please translate the following English text into French:\n\n\nHello"
    );
}

#[test]
fn prompt_with_automatic_source() {
    let p = translation_prompt("Hola", " AUTO ", "nn");
    assert_eq!(
        p,
        "You are a professional translator to Norwegian Bokmål (nb). Your goal is to accurately convey the meaning and nuances of the original text while adhering to Norwegian Bokmål grammar, vocabulary, and cultural sensitivities.\nProduce only the Norwegian Bokmål translation, without any additional explanations or commentary. Please translate the following text into Norwegian Bokmål:\n\n\nHola"
    );
}

#[test]
fn prompt_with_unknown_codes() {
    let p = translation_prompt("x", "xx", "yue");
    assert!(p.starts_with("You are a professional Unknown (xx) to Chinese (Traditional) (zh-Hant) translator."));
}

#[test]
fn replies_are_unquoted() {
    assert_eq!(clean_translation("  \"Bonjour\"  "), "Bonjour");
    assert_eq!(clean_translation("'Hallo'"), "Hallo");
    assert_eq!(clean_translation("\"' Ciao '\""), "Ciao");
    assert_eq!(clean_translation("'\"a\"'"), "\"a\"");
    assert_eq!(clean_translation("   "), "");
}

#[test]
fn status_codes_are_classified() {
    assert_eq!(classify_status(200), StatusClass::Success);
    assert_eq!(classify_status(299), StatusClass::Success);
    assert_eq!(classify_status(429), StatusClass::Overloaded);
    assert_eq!(classify_status(500), StatusClass::Overloaded);
    assert_eq!(classify_status(599), StatusClass::Overloaded);
    assert_eq!(classify_status(199), StatusClass::Refused);
    assert_eq!(classify_status(404), StatusClass::Refused);
    assert_eq!(classify_status(600), StatusClass::Refused);
}

fn finished(step: TranslationStep) -> Result<String, String> {
    match step {
        TranslationStep::Finished(r) => r,
        TranslationStep::Retry { .. } => panic!("expected a finished step"),
    }
}

fn retry(step: TranslationStep) -> (u32, u64) {
    match step {
        TranslationStep::Retry { next_attempt, delay_ms } => (next_attempt, delay_ms),
        TranslationStep::Finished(r) => panic!("expected a retry, got {:?}", r),
    }
}

#[test]
fn an_answer_finishes_with_the_cleaned_text() {
    let step = translation_step(3, ChatEvent::Answered(Some(" \"Guten Tag\"\n".to_string())));
    assert_eq!(finished(step), Ok("Guten Tag".to_string()));
}

#[test]
fn an_answer_without_choices_is_an_error() {
    let step = translation_step(0, ChatEvent::Answered(None));
    assert_eq!(finished(step), Err("No translation choices returned from local AI".to_string()));
}

#[test]
fn an_unreadable_answer_passes_its_error_on() {
    let step = translation_step(0, ChatEvent::Unreadable("bad json".to_string()));
    assert_eq!(finished(step), Err("bad json".to_string()));
}

#[test]
fn a_refusal_reports_status_and_body() {
    let step = translation_step(
        2,
        ChatEvent::Refused { status: "404 Not Found".to_string(), body: "no model".to_string() },
    );
    assert_eq!(
        finished(step),
        Err("Local translation API error (404 Not Found): no model".to_string())
    );
}

#[test]
fn a_busy_service_is_retried_with_growing_pauses() {
    assert_eq!(retry(translation_step(0, ChatEvent::Overloaded)), (1, 500));
    assert_eq!(retry(translation_step(9, ChatEvent::Overloaded)), (10, 5000));
    assert_eq!(
        finished(translation_step(10, ChatEvent::Overloaded)),
        Err("Local translation failed after maximum retries".to_string())
    );
}

#[test]
fn an_unreachable_service_is_retried_then_reported() {
    assert_eq!(retry(translation_step(0, ChatEvent::Unreachable("refused".to_string()))), (1, 1000));
    assert_eq!(retry(translation_step(4, ChatEvent::Unreachable("refused".to_string()))), (5, 5000));
    assert_eq!(
        finished(translation_step(10, ChatEvent::Unreachable("connection refused".to_string()))),
        Err("Failed to connect to local translation service at http://127.0.0.1:11434/v1/chat/completions after 10 attempts. Ensure your Ollama server is running and the model 'translategemma:12b' is available. Error: connection refused".to_string())
    );
}

#[test]
fn at_most_eleven_requests_are_sent() {
    let mut attempt = 0u32;
    let mut sent = 0u32;
    loop {
        sent += 1;
        match translation_step(attempt, ChatEvent::Overloaded) {
            TranslationStep::Retry { next_attempt, .. } => attempt = next_attempt,
            TranslationStep::Finished(_) => break,
        }
    }
    assert_eq!(sent, MAX_TRANSLATION_RETRIES + 1);
}

#[test]
fn docker_route_translates_only_to_a_real_target() {
    assert_eq!(docker_translation_target(Some(true), Some("de".to_string())), Some("de".to_string()));
    assert_eq!(docker_translation_target(Some(true), Some("auto".to_string())), None);
    assert_eq!(docker_translation_target(Some(false), Some("de".to_string())), None);
    assert_eq!(docker_translation_target(None, Some("de".to_string())), None);
    assert_eq!(docker_translation_target(Some(true), None), None);
    assert_eq!(docker_translation_target(Some(true), Some("AUTO".to_string())), Some("AUTO".to_string()));
}
