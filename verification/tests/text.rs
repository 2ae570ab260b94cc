use kid_videos::text::{
    chars_of, decimal_string, decimal_string_unsigned, digits_only, parse_i64, read_digits,
    same_text,
};

#[test]
fn characters_come_in_order() {
    assert_eq!(chars_of("a分b"), vec!['a', '分', 'b']);
    assert!(chars_of("").is_empty());
}

#[test]
fn same_text_compares_characters() {
    assert!(same_text("strict", "strict"));
    assert!(!same_text("strict", "Strict"));
    assert!(!same_text("strict", "stric"));
    assert!(same_text("", ""));
}

#[test]
fn decimal_text_of_integers() {
    assert_eq!(decimal_string(0), "0");
    assert_eq!(decimal_string(7), "7");
    assert_eq!(decimal_string(10), "10");
    assert_eq!(decimal_string(-1), "-1");
    assert_eq!(decimal_string(1234567890), "1234567890");
    assert_eq!(decimal_string(i64::MAX), "9223372036854775807");
    assert_eq!(decimal_string(i64::MIN), "-9223372036854775808");
    assert_eq!(decimal_string_unsigned(u64::MAX), "18446744073709551615");
    assert_eq!(decimal_string_unsigned(0), "0");
}

#[test]
fn digit_runs_are_read_up_to_a_cap() {
    let s = chars_of("x0123y");
    assert_eq!(read_digits(&s, 1, 5, 1000), Some(123));
    assert_eq!(read_digits(&s, 1, 5, 123), Some(123));
    assert_eq!(read_digits(&s, 1, 5, 122), None);
    assert_eq!(read_digits(&s, 0, 5, 1000), None);
    assert_eq!(read_digits(&s, 2, 2, 1000), Some(0));
    assert!(digits_only(&s, 1, 5));
    assert!(!digits_only(&s, 1, 6));
    assert!(digits_only(&s, 3, 3));
    let long = chars_of("18446744073709551616");
    assert_eq!(read_digits(&long, 0, long.len(), u64::MAX), None);
    let max = chars_of("18446744073709551615");
    assert_eq!(read_digits(&max, 0, max.len(), u64::MAX), Some(u64::MAX));
}

#[test]
fn integers_are_parsed_with_an_optional_sign() {
    assert_eq!(parse_i64("0"), Some(0));
    assert_eq!(parse_i64("12345"), Some(12345));
    assert_eq!(parse_i64("+42"), Some(42));
    assert_eq!(parse_i64("-42"), Some(-42));
    assert_eq!(parse_i64("-0"), Some(0));
    assert_eq!(parse_i64("007"), Some(7));
    assert_eq!(parse_i64("9223372036854775807"), Some(i64::MAX));
    assert_eq!(parse_i64("-9223372036854775808"), Some(i64::MIN));
}

#[test]
fn what_is_no_integer_is_not_parsed() {
    assert_eq!(parse_i64(""), None);
    assert_eq!(parse_i64("+"), None);
    assert_eq!(parse_i64("-"), None);
    assert_eq!(parse_i64("12a"), None);
    assert_eq!(parse_i64(" 12"), None);
    assert_eq!(parse_i64("1.5"), None);
    assert_eq!(parse_i64("--1"), None);
    assert_eq!(parse_i64("9223372036854775808"), None);
    assert_eq!(parse_i64("-9223372036854775809"), None);
}

#[test]
fn parsing_agrees_with_std_on_a_range_of_texts() {
    for text in ["0", "1", "-1", "+1", "00", "-00", "99", "abc", "", "+", "1e3", "٣"] {
        assert_eq!(parse_i64(text), text.parse::<i64>().ok(), "{:?}", text);
    }
}
