use autosubs::text::{split_whitespace, str_equal, trim, trim_matching, CharSet};

#[test]
fn trim_removes_unicode_whitespace() {
    assert_eq!(trim(" \t hello world \n"), "hello world");
    assert_eq!(trim("\u{3000}\u{a0}x\u{2028}"), "x");
    assert_eq!(trim("   "), "");
    assert_eq!(trim(""), "");
}

#[test]
fn trim_matching_a_character() {
    assert_eq!(trim_matching("\"\"quoted\"", CharSet::Only('"')), "quoted");
    assert_eq!(trim_matching("'a'b'", CharSet::Only('\'')), "a'b");
    assert_eq!(trim_matching("''''", CharSet::Only('\'')), "");
}

#[test]
fn split_on_whitespace_runs() {
    assert_eq!(split_whitespace("  one two\t\tthree\n"), vec!["one", "two", "three"]);
    assert_eq!(split_whitespace("a\u{3000}b"), vec!["a", "b"]);
    assert!(split_whitespace(" \n ").is_empty());
}

#[test]
fn string_equality() {
    assert!(str_equal("abc", "abc"));
    assert!(!str_equal("abc", "abd"));
    assert!(!str_equal("abc", "ab"));
    assert!(str_equal("", ""));
}

#[test]
fn whitespace_agrees_with_std() {
    for v in 0u32..0x3100 {
        if let Some(c) = char::from_u32(v) {
            assert_eq!(autosubs::text::char_is_whitespace(c), c.is_whitespace(), "{:#x}", v);
        }
    }
}
