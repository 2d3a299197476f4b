use autosubs::paths::{
    check_file_name_parts, path_starts_with, path_within_allowed, validate_transcript_filename,
    PathPart, WindowsPrefix, INVALID_FILE_NAME,
};

fn normal(s: &str) -> PathPart {
    PathPart::Normal(s.as_bytes().to_vec())
}

fn abs(names: &[&str]) -> Vec<PathPart> {
    let mut parts = vec![PathPart::Root];
    parts.extend(names.iter().map(|n| normal(n)));
    parts
}

#[test]
fn path_traversal_filename_is_refused() {
    let result = validate_transcript_filename("../vulnerable_secret_fixed.txt");
    assert_eq!(
        result.unwrap_err(),
        "Invalid filename: path traversal or absolute paths not allowed"
    );
}

#[test]
fn plain_transcript_filename_is_accepted() {
    assert!(validate_transcript_filename("normal_transcript.txt").is_ok());
    assert!(validate_transcript_filename("./normal_transcript.txt").is_err());
}

#[test]
fn absolute_and_nested_filenames_are_refused() {
    for name in ["/etc/passwd", "a/b.txt", "", ".", ".."] {
        let result = validate_transcript_filename(name);
        assert_eq!(result, Err(INVALID_FILE_NAME.to_string()), "{:?}", name);
    }
}

#[test]
fn trailing_separator_is_ignored() {
    assert!(validate_transcript_filename("transcript.json/").is_ok());
}

#[test]
fn file_name_parts_are_checked() {
    assert!(check_file_name_parts(&vec![normal("x.json")]).is_ok());
    assert!(check_file_name_parts(&vec![normal("a\\b")]).is_err());
    assert!(check_file_name_parts(&vec![PathPart::Normal(vec![0xff, 0x41])]).is_err());
    assert!(check_file_name_parts(&vec![PathPart::Parent]).is_err());
    assert!(check_file_name_parts(&vec![normal("a"), normal("b")]).is_err());
    assert!(check_file_name_parts(&vec![]).is_err());
}

#[test]
fn starts_with_compares_whole_components() {
    assert!(path_starts_with(&abs(&["home", "me", "Documents", "a.wav"]), &abs(&["home", "me"])));
    assert!(path_starts_with(&abs(&["home", "me"]), &abs(&["home", "me"])));
    assert!(!path_starts_with(&abs(&["home", "meat"]), &abs(&["home", "me"])));
    assert!(!path_starts_with(&abs(&["home"]), &abs(&["home", "me"])));
}

#[test]
fn path_allowed_inside_a_resolved_directory() {
    let dirs = vec![None, Some(abs(&["home", "me", "Desktop"])), Some(abs(&["home", "me", "Downloads"]))];
    assert!(path_within_allowed(&Some(abs(&["home", "me", "Downloads", "x", "a.wav"])), &dirs));
    assert!(path_within_allowed(&Some(abs(&["home", "me", "Desktop"])), &dirs));
    assert!(!path_within_allowed(&Some(abs(&["home", "me", "secret.wav"])), &dirs));
    assert!(!path_within_allowed(&None, &dirs));
    assert!(!path_within_allowed(&Some(abs(&["tmp", "a.wav"])), &vec![None]));
}

#[test]
fn nested_and_traversing_names_are_refused() {
    for name in ["sub/../../secret.txt", "a/b", "a/./b", "./a", "a/..", "../a/b"] {
        assert_eq!(validate_transcript_filename(name), Err(INVALID_FILE_NAME.to_string()), "{:?}", name);
    }
    for name in ["a/", "a//", "a/.", "notes.srt"] {
        assert!(validate_transcript_filename(name).is_ok(), "{:?}", name);
    }
}

#[test]
fn drive_prefixes_compare_as_parsed() {
    let disk = |d: u8| PathPart::Prefix(WindowsPrefix::Disk(d));
    let dir = vec![disk(b'C'), PathPart::Root, normal("Users")];
    let file = vec![disk(b'C'), PathPart::Root, normal("Users"), normal("a.wav")];
    assert!(path_starts_with(&file, &dir));
    let other = vec![disk(b'D'), PathPart::Root, normal("Users"), normal("a.wav")];
    assert!(!path_starts_with(&other, &dir));
    let verbatim = vec![PathPart::Prefix(WindowsPrefix::VerbatimDisk(b'C')), PathPart::Root, normal("Users")];
    assert!(!path_starts_with(&verbatim, &dir));
}

#[test]
fn backslash_traversal_is_refused() {
    for name in ["..\\secret.txt", "\\secret.txt", "\\\\server\\share\\x", "..\\"] {
        assert_eq!(validate_transcript_filename(name), Err(INVALID_FILE_NAME.to_string()), "{:?}", name);
    }
}
