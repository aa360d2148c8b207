use compiler::text::{parse_u64, push_decimal_i64, push_decimal_u64, str_equals};

fn unsigned(n: u64) -> String {
    let mut out = String::new();
    push_decimal_u64(&mut out, n);
    out
}

fn signed(i: i64) -> String {
    let mut out = String::new();
    push_decimal_i64(&mut out, i);
    out
}

#[test]
fn equal_strings_are_equal() {
    assert!(str_equals("", ""));
    assert!(str_equals("while", "while"));
    assert!(str_equals("na\u{ef}ve", "na\u{ef}ve"));
    assert!(!str_equals("while", "whilf"));
    assert!(!str_equals("while", "whil"));
    assert!(!str_equals("", " "));
    assert!(!str_equals("\r\n", "\n"));
}

#[test]
fn decimal_numbers_parse() {
    assert_eq!(parse_u64("0"), Some(0));
    assert_eq!(parse_u64("7"), Some(7));
    assert_eq!(parse_u64("007"), Some(7));
    assert_eq!(parse_u64("1234567890"), Some(1234567890));
    assert_eq!(parse_u64("+42"), Some(42));
    assert_eq!(parse_u64("18446744073709551615"), Some(u64::MAX));
    assert_eq!(parse_u64("000018446744073709551615"), Some(u64::MAX));
}

#[test]
fn what_is_no_decimal_number_does_not_parse() {
    assert_eq!(parse_u64(""), None);
    assert_eq!(parse_u64("+"), None);
    assert_eq!(parse_u64("-1"), None);
    assert_eq!(parse_u64("++1"), None);
    assert_eq!(parse_u64("1+"), None);
    assert_eq!(parse_u64("12a"), None);
    assert_eq!(parse_u64(" 12"), None);
    assert_eq!(parse_u64("12 "), None);
    assert_eq!(parse_u64("\u{661}\u{662}"), None);
    assert_eq!(parse_u64("18446744073709551616"), None);
    assert_eq!(parse_u64("99999999999999999999"), None);
    assert_eq!(parse_u64("184467440737095516150"), None);
}

#[test]
fn parsing_agrees_with_the_standard_library() {
    for text in ["0", "+0", "1", "+18446744073709551615", "18446744073709551616", "", "+", "x", "1_0"] {
        assert_eq!(parse_u64(text), text.parse::<u64>().ok());
    }
}

#[test]
fn unsigned_numbers_are_written_in_decimal() {
    assert_eq!(unsigned(0), "0");
    assert_eq!(unsigned(9), "9");
    assert_eq!(unsigned(10), "10");
    assert_eq!(unsigned(1234567890), "1234567890");
    assert_eq!(unsigned(u64::MAX), "18446744073709551615");
}

#[test]
fn signed_numbers_are_written_in_decimal() {
    assert_eq!(signed(0), "0");
    assert_eq!(signed(13), "13");
    assert_eq!(signed(-1), "-1");
    assert_eq!(signed(-100), "-100");
    assert_eq!(signed(i64::MAX), "9223372036854775807");
    assert_eq!(signed(i64::MIN), "-9223372036854775808");
}

#[test]
fn numbers_are_appended_to_what_is_there() {
    let mut out = String::from("L");
    push_decimal_i64(&mut out, 12);
    out.push(':');
    push_decimal_u64(&mut out, 3);
    assert_eq!(out, "L12:3");
}
