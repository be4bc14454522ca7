use ndjson_source::text::{char_is_whitespace, decimal_text, maybe_truncated, text_is_blank};
use std::borrow::Cow;

#[test]
fn short_text_is_kept_whole() {
    assert_eq!(maybe_truncated("abc", 1024), "abc");
    assert_eq!(maybe_truncated("", 0), "");
    assert!(matches!(maybe_truncated("abc", 3), Cow::Borrowed("abc")));
}

#[test]
fn text_of_exactly_the_limit_is_kept_whole() {
    let s = "a".repeat(1024);
    assert_eq!(maybe_truncated(&s, 1024), s);
}

#[test]
fn text_one_byte_over_the_limit_is_cut() {
    let s = "a".repeat(1025);
    let expected = format!("(first 1024B of 1025B): {}", "a".repeat(1024));
    assert_eq!(maybe_truncated(&s, 1024), expected);
}

#[test]
fn long_text_reports_limit_and_full_length() {
    let s = "0123456789".repeat(200);
    let out = maybe_truncated(&s, 1024);
    assert_eq!(out, format!("(first 1024B of 2000B): {}", &s[..1024]));
    assert!(matches!(out, Cow::Owned(_)));
}

#[test]
fn cut_text_stays_within_limit_and_note() {
    for len in [1025usize, 2000, 10000, 123456] {
        let s = "x".repeat(len);
        let out = maybe_truncated(&s, 1024);
        let note = format!("(first 1024B of {}B): ", len);
        assert!(out.starts_with(&note));
        assert_eq!(out.len(), note.len() + 1024);
        assert!(out.len() <= 1024 + 56);
    }
}

#[test]
fn cut_never_falls_inside_a_character() {
    // Each of these characters takes two bytes: byte 1023 lies inside one.
    let s = "\u{e9}".repeat(600);
    assert_eq!(s.len(), 1200);
    let out = maybe_truncated(&s, 1023);
    assert_eq!(out, format!("(first 1023B of 1200B): {}", "\u{e9}".repeat(511)));
    let out = maybe_truncated(&s, 1024);
    assert_eq!(out, format!("(first 1024B of 1200B): {}", "\u{e9}".repeat(512)));
}

#[test]
fn cut_backs_up_over_a_character_of_four_bytes() {
    let s = format!("ab{}", "\u{1f600}".repeat(3));
    assert_eq!(s.len(), 14);
    assert_eq!(maybe_truncated(&s, 2), "(first 2B of 14B): ab");
    assert_eq!(maybe_truncated(&s, 3), "(first 3B of 14B): ab");
    assert_eq!(maybe_truncated(&s, 5), "(first 5B of 14B): ab");
    assert_eq!(maybe_truncated(&s, 6), "(first 6B of 14B): ab\u{1f600}");
    assert_eq!(maybe_truncated(&s, 0), "(first 0B of 14B): ");
    assert_eq!(maybe_truncated(&s, 14), s);
}

#[test]
fn decimal_text_of_small_and_large_numbers() {
    assert_eq!(decimal_text(0), "0");
    assert_eq!(decimal_text(7), "7");
    assert_eq!(decimal_text(9), "9");
    assert_eq!(decimal_text(10), "10");
    assert_eq!(decimal_text(1024), "1024");
    assert_eq!(decimal_text(1234567890), "1234567890");
    assert_eq!(decimal_text(usize::MAX), usize::MAX.to_string());
}

#[test]
fn decimal_text_agrees_with_the_standard_library() {
    let mut n: usize = 1;
    for _ in 0..200 {
        assert_eq!(decimal_text(n), n.to_string());
        assert_eq!(decimal_text(n - 1), (n - 1).to_string());
        n = n.wrapping_mul(7).wrapping_add(3);
    }
}

#[test]
fn blank_texts() {
    assert!(text_is_blank(""));
    assert!(text_is_blank(" "));
    assert!(text_is_blank("\n"));
    assert!(text_is_blank("\r\n"));
    assert!(text_is_blank(" \t \u{b}\u{c}\n"));
    assert!(text_is_blank("\u{85}\u{a0}\u{1680}\u{2000}\u{200a}\u{2028}\u{2029}\u{202f}\u{205f}\u{3000}"));
}

#[test]
fn texts_that_are_not_blank() {
    assert!(!text_is_blank("a"));
    assert!(!text_is_blank(" a "));
    assert!(!text_is_blank("{}\n"));
    assert!(!text_is_blank("  \u{200b}"));
    assert!(!text_is_blank("\u{feff}"));
    assert!(!text_is_blank("\n\n0"));
}

#[test]
fn white_space_is_what_the_standard_library_trims() {
    let mut c = 0u32;
    while c <= 0x10ffff {
        if let Some(ch) = char::from_u32(c) {
            assert_eq!(char_is_whitespace(ch), ch.is_whitespace(), "U+{:04X}", c);
        }
        c += 1;
    }
}

#[test]
fn blank_agrees_with_trim() {
    for s in ["", " ", "\t\n", "x", " x", "x ", "\u{3000}", "\u{3000}x", "{\"a\":1}"] {
        assert_eq!(text_is_blank(s), s.trim().is_empty());
    }
}
