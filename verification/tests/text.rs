//! Texts: numbers written and read, white space, prefixes and parts.
use ramflux_sdk::text::{
    char_is_whitespace, chars_of, contains, copy_opt, cut_before, decimal_i64, decimal_u64,
    eq_when_lowercased, parse_u64, parse_unsigned, str_eq, str_is_blank, strip_prefix, trim,
    trim_end, trim_start, NumeralError,
};

#[test]
fn numbers_are_written_as_they_are_read() {
    for number in [0, 7, 10, 99, 4_294_967_296, u64::MAX] {
        assert_eq!(decimal_u64(number), number.to_string());
        assert_eq!(parse_u64(&decimal_u64(number)), Some(number));
    }
    for number in [0, -1, 42, i64::MAX, i64::MIN] {
        assert_eq!(decimal_i64(number), number.to_string());
    }
}

#[test]
fn what_is_no_number_is_told_apart() {
    for text in ["", "+", "-", "-1", "1x", " 1", "0x1", "+7", "007", "18446744073709551616"] {
        assert_eq!(parse_u64(text), text.parse::<u64>().ok(), "{text:?}");
    }
    assert_eq!(parse_unsigned("", 9), Err(NumeralError::Empty));
    assert_eq!(parse_unsigned("x", 9), Err(NumeralError::InvalidDigit));
    assert_eq!(parse_unsigned("10", 9), Err(NumeralError::TooLarge));
    assert_eq!(parse_unsigned("9", 9), Ok(9));
}

#[test]
fn white_space_is_that_of_unicode() {
    for code in 0..=0x10ffff_u32 {
        if let Some(c) = char::from_u32(code) {
            assert_eq!(char_is_whitespace(c), c.is_whitespace(), "{code:x}");
        }
    }
    for text in ["", " ", "\u{a0}x\u{2003}", "\t a b \n", "a", "\u{200b} "] {
        assert_eq!(trim(text), text.trim());
        assert_eq!(trim_start(text), text.trim_start());
        assert_eq!(trim_end(text), text.trim_end());
        assert_eq!(str_is_blank(text), text.trim().is_empty());
    }
}

#[test]
fn parts_are_found_and_cut() {
    assert!(str_eq("a\u{e9}", "a\u{e9}"));
    assert!(!str_eq("a", "A"));
    assert_eq!(chars_of("a\u{e9}"), vec!['a', '\u{e9}']);
    assert_eq!(strip_prefix("http://x", "http://"), Some("x"));
    assert_eq!(strip_prefix("https://x", "http://"), None);
    assert!(contains("a missing key", "missing"));
    assert!(contains("x", ""));
    assert!(!contains("missin", "missing"));
    assert_eq!(cut_before("host:1/path/more", '/'), "host:1");
    assert_eq!(cut_before("host", '/'), "host");
    assert!(eq_when_lowercased("Content-Length", "content-length"));
    assert!(!eq_when_lowercased("content-length", "Content-Length"));
    assert_eq!(copy_opt(&Some("a".to_owned())), Some("a".to_owned()));
    assert_eq!(copy_opt(&None), None);
}
