use autosubs::language::{get_language_info, lookup_language, normalize_google_lang};

#[test]
fn auto_in_any_case_normalizes_to_auto() {
    assert_eq!(normalize_google_lang("auto", false), "auto");
    assert_eq!(normalize_google_lang("  AuTo \n", true), "auto");
}

#[test]
fn whisper_codes_are_mapped() {
    assert_eq!(normalize_google_lang("jw", false), "jv");
    assert_eq!(normalize_google_lang("yue", true), "zh-TW");
    assert_eq!(normalize_google_lang(" yue ", false), "zh-TW");
}

#[test]
fn nynorsk_maps_to_norwegian_only_as_target() {
    assert_eq!(normalize_google_lang("nn", true), "no");
    assert_eq!(normalize_google_lang("nn", false), "nn");
}

#[test]
fn other_codes_are_only_trimmed() {
    assert_eq!(normalize_google_lang("\u{3000}fr\u{a0}", true), "fr");
    assert_eq!(normalize_google_lang("JW", false), "JW");
    assert_eq!(normalize_google_lang("", false), "");
    assert_eq!(normalize_google_lang("autos", false), "autos");
}

#[test]
fn normalizing_twice_changes_nothing() {
    for code in ["  AUTO", "jw", "yue", "nn", " de ", "zh-TW", "no", "xx"] {
        for target in [false, true] {
            let once = normalize_google_lang(code, target);
            assert_eq!(normalize_google_lang(&once, target), once);
        }
    }
}

#[test]
fn language_info_is_case_insensitive() {
    assert_eq!(get_language_info("en"), ("English", "en"));
    assert_eq!(get_language_info("EN"), ("English", "en"));
    assert_eq!(get_language_info("zh-CN"), ("Chinese (Simplified)", "zh-Hans"));
    assert_eq!(get_language_info("zh-TW"), ("Chinese (Traditional)", "zh-Hant"));
}

#[test]
fn language_info_aliases() {
    assert_eq!(get_language_info("fil"), ("Filipino", "fil-PH"));
    assert_eq!(get_language_info("tl"), ("Filipino", "fil-PH"));
    assert_eq!(get_language_info("jw"), ("Javanese", "jv"));
    assert_eq!(get_language_info("no"), ("Norwegian Bokmål", "nb"));
    assert_eq!(get_language_info("nn"), ("Norwegian Nynorsk", "nn"));
    assert_eq!(get_language_info("zu"), ("Zulu", "zu"));
    assert_eq!(get_language_info("af"), ("Afrikaans", "af"));
}

#[test]
fn unknown_language_keeps_its_code() {
    assert_eq!(get_language_info("Klingon"), ("Unknown", "Klingon"));
    assert_eq!(get_language_info("auto"), ("Unknown", "auto"));
    assert_eq!(get_language_info(""), ("Unknown", ""));
}

#[test]
fn lookup_uses_the_lowered_form() {
    assert_eq!(lookup_language("de", "DE"), ("German", "de"));
    assert_eq!(lookup_language("DE", "DE"), ("Unknown", "DE"));
}

#[test]
fn normalizing_keeps_known_languages_known() {
    for code in ["jw", "yue", "nn", "EN", " fr ", "AUTO", "zh-tw"] {
        for target in [false, true] {
            let known = get_language_info(code.trim()).0 != "Unknown";
            let after = get_language_info(&normalize_google_lang(code, target)).0 != "Unknown";
            assert!(!known || after, "{:?}", code);
        }
    }
    assert_eq!(get_language_info(&normalize_google_lang("yue", false)).0, "Chinese (Traditional)");
}
