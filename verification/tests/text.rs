use hpos_hc_connect::text::{decimal_text, parse_unsigned, str_contains, str_eq};

#[test]
fn unsigned_numbers_are_parsed_like_str_parse() {
    assert_eq!(parse_unsigned("42", u32::MAX as u64), Some(42));
    assert_eq!(parse_unsigned("+7", 100), Some(7));
    assert_eq!(parse_unsigned("0042", 100), Some(42));
    assert_eq!(parse_unsigned("4294967295", u32::MAX as u64), Some(4294967295));
    assert_eq!(parse_unsigned("4294967296", u32::MAX as u64), None);
    assert_eq!(parse_unsigned("", 100), None);
    assert_eq!(parse_unsigned("+", 100), None);
    assert_eq!(parse_unsigned("-1", 100), None);
    assert_eq!(parse_unsigned("1a", 100), None);
    assert_eq!(parse_unsigned("18446744073709551615", u64::MAX), Some(u64::MAX));
    for s in ["0", "9", "123", "+5", "x", "99999999999"] {
        assert_eq!(parse_unsigned(s, u32::MAX as u64), s.parse::<u32>().ok().map(|v| v as u64));
    }
}

#[test]
fn decimal_rendering() {
    assert_eq!(decimal_text(0), "0");
    assert_eq!(decimal_text(4444), "4444");
    assert_eq!(decimal_text(u64::MAX), u64::MAX.to_string());
}

#[test]
fn substring_search() {
    assert!(str_contains("abcabd", "abd"));
    assert!(str_contains("abc", ""));
    assert!(!str_contains("ab", "abc"));
    assert!(str_eq("x", "x"));
    assert!(!str_eq("x", "y"));
}

#[test]
fn decimal_text_reads_back() {
    for n in [0u64, 7, 10, 99, 4444, 65535, 1_000_000_007, u64::MAX] {
        assert_eq!(parse_unsigned(&decimal_text(n), u64::MAX), Some(n));
    }
    assert_eq!(parse_unsigned(&decimal_text(300), 255), None);
}
