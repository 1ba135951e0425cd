use video_player::text::{join2, join3, skip_chars, starts_with, str_eq};

#[test]
fn equal_strings_are_equal() {
    assert!(str_eq("none", "none"));
    assert!(str_eq("", ""));
    assert!(str_eq("süb", "süb"));
}

#[test]
fn different_strings_are_not_equal() {
    assert!(!str_eq("none", "nono"));
    assert!(!str_eq("none", "non"));
    assert!(!str_eq("", "x"));
}

#[test]
fn starts_with_compares_characters() {
    assert!(starts_with("ext-file", "ext-"));
    assert!(starts_with("ext-", "ext-"));
    assert!(starts_with("anything", ""));
    assert!(!starts_with("ext", "ext-"));
    assert!(!starts_with("sub-1", "ext-"));
}

#[test]
fn skip_chars_counts_characters_not_bytes() {
    assert_eq!(skip_chars("sub-12", 4), Some("12".to_string()));
    assert_eq!(skip_chars("äöü-12", 4), Some("12".to_string()));
    assert_eq!(skip_chars("abcd", 4), Some(String::new()));
    assert_eq!(skip_chars("abc", 4), None);
    assert_eq!(skip_chars("", 0), Some(String::new()));
}

#[test]
fn joins_in_order() {
    assert_eq!(join2("audio-", "3"), "audio-3");
    assert_eq!(join3(" - [", "en", "]"), " - [en]");
    assert_eq!(join2("", ""), "");
}
