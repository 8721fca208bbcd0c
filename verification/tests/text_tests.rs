use cap_desktop::text::{
    followed_by, decimal_text, ends_with, same_text, starts_with, strip_prefix, trim_suffixes,
};

#[test]
fn trims_every_copy_of_a_suffix() {
    assert_eq!(trim_suffixes("abc.cap", ".cap"), "abc");
    assert_eq!(trim_suffixes("abc.cap.cap", ".cap"), "abc");
    assert_eq!(trim_suffixes("abc", ".cap"), "abc");
    assert_eq!(trim_suffixes(".cap", ".cap"), "");
    assert_eq!(trim_suffixes("abc.capx", ".cap"), "abc.capx");
    assert_eq!(trim_suffixes("abc", ""), "abc");
}

#[test]
fn trims_like_the_standard_library() {
    for text in ["", "a", "ü.cap.cap", ".cap.cap", "x.cap.ca", "cap"] {
        assert_eq!(trim_suffixes(text, ".cap"), text.trim_end_matches(".cap"));
        assert_eq!(ends_with(text, ".cap"), text.ends_with(".cap"));
        assert_eq!(starts_with(text, ".cap"), text.starts_with(".cap"));
    }
}

#[test]
fn strips_a_prefix_once() {
    assert_eq!(strip_prefix("editor-editor-1", "editor-"), Some("editor-1".to_string()));
    assert_eq!(strip_prefix("main", "editor-"), None);
    assert_eq!(strip_prefix("editor-", "editor-"), Some(String::new()));
}

#[test]
fn compares_and_concatenates() {
    assert!(same_text("é", "é"));
    assert!(!same_text("a", "b"));
    assert_eq!(followed_by("a", "b"), "ab");
}

#[test]
fn writes_decimals() {
    assert_eq!(decimal_text(0), "0");
    assert_eq!(decimal_text(9), "9");
    assert_eq!(decimal_text(10), "10");
    assert_eq!(decimal_text(65535), "65535");
    assert_eq!(decimal_text(u64::MAX), "18446744073709551615");
}
