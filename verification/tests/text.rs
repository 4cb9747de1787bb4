//! Tests for the text helpers.

use helvum::text::{parse_u32, push_dec, str_contains};

#[test]
fn text_parse_plain_numbers() {
    assert_eq!(parse_u32("0"), Some(0));
    assert_eq!(parse_u32("42"), Some(42));
    assert_eq!(parse_u32("007"), Some(7));
    assert_eq!(parse_u32("4294967295"), Some(u32::MAX));
}

#[test]
fn text_parse_rejects_non_numerals() {
    assert_eq!(parse_u32(""), None);
    assert_eq!(parse_u32("12x"), None);
    assert_eq!(parse_u32("x12"), None);
    assert_eq!(parse_u32(" 12"), None);
    assert_eq!(parse_u32("-1"), None);
    assert_eq!(parse_u32("+1"), None);
}

#[test]
fn text_parse_rejects_overflow() {
    assert_eq!(parse_u32("4294967296"), None);
    assert_eq!(parse_u32("99999999999999999999"), None);
}

#[test]
fn text_push_dec_renders_decimal() {
    let mut s = String::new();
    push_dec(&mut s, 0);
    assert_eq!(s, "0");
    let mut s = "id: ".to_string();
    push_dec(&mut s, 907);
    assert_eq!(s, "id: 907");
    let mut s = String::new();
    push_dec(&mut s, u32::MAX);
    assert_eq!(s, "4294967295");
}

#[test]
fn text_contains_finds_substrings() {
    assert!(str_contains("Audio/Sink", "Sink"));
    assert!(str_contains("Stream/Output/Audio", "Output"));
    assert!(str_contains("abc", "abc"));
    assert!(str_contains("abc", ""));
    assert!(str_contains("", ""));
    assert!(str_contains("aab", "ab"));
}

#[test]
fn text_contains_is_exact_and_case_sensitive() {
    assert!(!str_contains("Audio/Sink", "sink"));
    assert!(!str_contains("ab", "abc"));
    assert!(!str_contains("", "a"));
    assert!(!str_contains("acb", "ab"));
}
