use beakr_core::unicode::{normalize_whitespace, resolve_normalized_name};

#[test]
fn test_normalize_whitespace_ascii_unchanged() {
    assert_eq!(normalize_whitespace("hello world"), "hello world");
}

#[test]
fn test_normalize_narrow_no_break_space() {
    let input = "Screenshot 2026-02-10 at 2.55.22\u{202F}PM.png";
    let expected = "Screenshot 2026-02-10 at 2.55.22 PM.png";
    assert_eq!(normalize_whitespace(input), expected);
}

#[test]
fn test_normalize_multiple_types() {
    let input = "a\u{00A0}b\u{2003}c\u{3000}d";
    assert_eq!(normalize_whitespace(input), "a b c d");
}

#[test]
fn test_resolve_unique_match() {
    let siblings = vec![
        String::from("notes.txt"),
        String::from("beakr_test_2.55.22\u{202F}PM.txt"),
    ];
    let r = resolve_normalized_name("beakr_test_2.55.22 PM.txt", false, &siblings);
    assert_eq!(r, Some(1));
}

#[test]
fn test_resolve_exact_path_exists() {
    let siblings = vec![String::from("a b.txt")];
    assert_eq!(resolve_normalized_name("a b.txt", true, &siblings), None);
}

#[test]
fn test_resolve_no_match() {
    let siblings = vec![String::from("other.txt")];
    assert_eq!(resolve_normalized_name("a b.txt", false, &siblings), None);
}

#[test]
fn test_resolve_ambiguous_match() {
    let siblings = vec![
        String::from("a\u{00A0}b.txt"),
        String::from("a\u{2003}b.txt"),
    ];
    assert_eq!(resolve_normalized_name("a b.txt", false, &siblings), None);
}
