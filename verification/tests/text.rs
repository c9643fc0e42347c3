use st_server::auth::constant_time_eq;
use st_server::text::{
    concat2, concat3, contains, decimal_string, join, parse_unsigned, split, split_whitespace,
    starts_with, to_ascii_lowercase, trim,
};

#[test]
fn numbers_are_written_in_decimal() {
    assert_eq!(decimal_string(0), "0");
    assert_eq!(decimal_string(1203), "1203");
    assert_eq!(decimal_string(u64::MAX), "18446744073709551615");
}

#[test]
fn numbers_read_back() {
    for n in [0u64, 7, 10, 99, 12345, u64::MAX] {
        assert_eq!(parse_unsigned(&decimal_string(n), u64::MAX), Some(n));
    }
}

#[test]
fn unsigned_numbers_follow_the_rules_of_parse() {
    for s in ["0", "42", "+42", "0042", "65535"] {
        assert_eq!(parse_unsigned(s, 0xffff), s.parse::<u16>().ok().map(|n| n as u64), "{s}");
    }
    for s in ["", "+", "-1", "65536", "4 2", " 42", "x", "99999999999999999999999"] {
        assert!(s.parse::<u16>().is_err());
        assert_eq!(parse_unsigned(s, 0xffff), None, "{s}");
    }
}

#[test]
fn trimming_takes_unicode_whitespace() {
    for s in ["", "  ", "\t a b \n", "\u{a0}x\u{2003}", "x"] {
        assert_eq!(trim(s), s.trim());
    }
}

#[test]
fn ascii_is_lowered_and_the_rest_stays() {
    assert_eq!(to_ascii_lowercase("KdE-\u{c4}z9"), "kde-\u{c4}z9");
}

#[test]
fn texts_are_searched_and_split() {
    assert!(contains("org.mozilla.firefox", "firefox"));
    assert!(!contains("fire", "firefox"));
    assert!(contains("abc", ""));
    assert!(starts_with("dimensions: 1x1", "dimensions:"));
    assert!(!starts_with("dim", "dimensions:"));
    assert_eq!(split("a,,b,", ','), vec!["a", "", "b", ""]);
    assert_eq!(split("", ','), vec![""]);
    let words = "  one\ttwo \u{2003} three ";
    assert_eq!(split_whitespace(words), words.split_whitespace().collect::<Vec<_>>());
    assert!(split_whitespace(" \n ").is_empty());
}

#[test]
fn texts_are_put_together() {
    assert_eq!(concat2("a", "b"), "ab");
    assert_eq!(concat3("a", "", "c"), "ac");
    let parts = vec!["x".to_string(), "y".to_string(), "z".to_string()];
    assert_eq!(join(&parts, " / "), "x / y / z");
    assert_eq!(join(&Vec::new(), " / "), "");
}

#[test]
fn secrets_are_compared_whole() {
    assert!(constant_time_eq(b"token", b"token"));
    assert!(!constant_time_eq(b"token", b"tokem"));
    assert!(!constant_time_eq(b"token", b"toke"));
    assert!(constant_time_eq(b"", b""));
}
