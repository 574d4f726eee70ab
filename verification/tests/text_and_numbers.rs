use charac::decimal::{i64_text, parse_i32, parse_i64, parse_u8, parse_usize, u64_text};
use charac::text::{chars_of, joined, joined3, is_whitespace, string_of, trimmed};

#[test]
fn whitespace_is_unicode_white_space() {
    for c in [' ', '\t', '\n', '\r', '\u{b}', '\u{c}', '\u{85}', '\u{a0}', '\u{2003}', '\u{3000}'] {
        assert!(is_whitespace(c));
        assert_eq!(is_whitespace(c), c.is_whitespace());
    }
    for c in ['a', '0', '_', '\u{200b}', 'é'] {
        assert!(!is_whitespace(c));
        assert_eq!(is_whitespace(c), c.is_whitespace());
    }
}

#[test]
fn trimming_matches_str_trim() {
    for s in ["", "   ", " a ", "\u{a0}x y\u{3000}", "no-space", "\n\tboth\r\n"] {
        assert_eq!(trimmed(s), s.trim());
    }
}

#[test]
fn chars_and_concatenation() {
    assert_eq!(chars_of("héllo"), vec!['h', 'é', 'l', 'l', 'o']);
    assert_eq!(string_of(&vec!['a', 'ß']), "aß");
    assert_eq!(joined("ab", "cd"), "abcd");
    assert_eq!(joined3("a", "", "c"), "ac");
}

#[test]
fn integers_render_like_display() {
    assert_eq!(string_of(&u64_text(0)), "0");
    assert_eq!(string_of(&u64_text(u64::MAX)), u64::MAX.to_string());
    for i in [0i64, 7, -7, 10, -305, i64::MAX, i64::MIN] {
        assert_eq!(string_of(&i64_text(i)), i.to_string());
    }
}

#[test]
fn integers_parse_like_str_parse() {
    for s in ["0", "42", "+42", "-1", "", "+", "-", " 1", "1 ", "007", "18446744073709551615",
              "18446744073709551616", "4a", "1_000"] {
        assert_eq!(parse_usize(s), s.parse::<usize>().ok(), "usize {s:?}");
        assert_eq!(parse_u8(s), s.parse::<u8>().ok(), "u8 {s:?}");
        assert_eq!(parse_i32(s), s.parse::<i32>().ok(), "i32 {s:?}");
        assert_eq!(parse_i64(s), s.parse::<i64>().ok(), "i64 {s:?}");
    }
    for s in ["255", "256", "-0", "2147483647", "2147483648", "-2147483648", "-2147483649",
              "9223372036854775807", "-9223372036854775808", "-9223372036854775809"] {
        assert_eq!(parse_u8(s), s.parse::<u8>().ok(), "u8 {s:?}");
        assert_eq!(parse_i32(s), s.parse::<i32>().ok(), "i32 {s:?}");
        assert_eq!(parse_i64(s), s.parse::<i64>().ok(), "i64 {s:?}");
    }
    assert_eq!(parse_i32("-2147483648"), Some(i32::MIN));
    assert_eq!(parse_u8("+255"), Some(255));
    assert_eq!(parse_u8("-0"), None);
}
