use video_player::decimal::{format_i32, format_u64, parse_i32};

#[test]
fn formats_zero_and_single_digits() {
    assert_eq!(format_u64(0), "0");
    assert_eq!(format_u64(7), "7");
    assert_eq!(format_i32(9), "9");
}

#[test]
fn formats_without_leading_zeros() {
    assert_eq!(format_u64(10), "10");
    assert_eq!(format_u64(1005), "1005");
    assert_eq!(format_u64(u64::MAX), "18446744073709551615");
}

#[test]
fn formats_negative_numbers_with_a_minus_sign() {
    assert_eq!(format_i32(-1), "-1");
    assert_eq!(format_i32(-2048), "-2048");
}

#[test]
fn formats_the_bounds_of_32_bits() {
    assert_eq!(format_i32(i32::MAX), "2147483647");
    assert_eq!(format_i32(i32::MIN), "-2147483648");
}

#[test]
fn parses_plain_digits() {
    assert_eq!(parse_i32("0"), Some(0));
    assert_eq!(parse_i32("3"), Some(3));
    assert_eq!(parse_i32("12"), Some(12));
    assert_eq!(parse_i32("2147483647"), Some(i32::MAX));
}

#[test]
fn parses_a_sign_before_the_digits() {
    assert_eq!(parse_i32("-1"), Some(-1));
    assert_eq!(parse_i32("+5"), Some(5));
    assert_eq!(parse_i32("-0"), Some(0));
    assert_eq!(parse_i32("-2147483648"), Some(i32::MIN));
}

#[test]
fn parses_leading_zeros_as_nothing() {
    assert_eq!(parse_i32("007"), Some(7));
    assert_eq!(parse_i32("0000000000000000000000042"), Some(42));
}

#[test]
fn rejects_what_is_not_a_number() {
    assert_eq!(parse_i32(""), None);
    assert_eq!(parse_i32("-"), None);
    assert_eq!(parse_i32("+"), None);
    assert_eq!(parse_i32("x"), None);
    assert_eq!(parse_i32("1x"), None);
    assert_eq!(parse_i32("--1"), None);
    assert_eq!(parse_i32(" 1"), None);
    assert_eq!(parse_i32("1 "), None);
    assert_eq!(parse_i32("1.5"), None);
    assert_eq!(parse_i32("١"), None);
}

#[test]
fn rejects_numbers_that_do_not_fit() {
    assert_eq!(parse_i32("2147483648"), None);
    assert_eq!(parse_i32("-2147483649"), None);
    assert_eq!(parse_i32("99999999999999999999999999"), None);
    assert_eq!(parse_i32("99999999999999999999999999x"), None);
}

#[test]
fn parse_reads_back_what_format_wrote() {
    for value in [0, 1, -1, 9, 10, 99, 100, -100, 65535, i32::MAX, i32::MIN, 1234567890] {
        assert_eq!(parse_i32(&format_i32(value)), Some(value));
    }
}

#[test]
fn format_agrees_with_the_standard_notation() {
    for value in [0, 5, -5, 42, -4200, 1000000, i32::MAX, i32::MIN] {
        assert_eq!(format_i32(value), format!("{}", value));
    }
}
