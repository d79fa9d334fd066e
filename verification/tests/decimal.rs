use modem_exporter::decimal::{i32_text, parse_i32, parse_u64, u64_text};

#[test]
fn u64_text_writes_digits_without_leading_zeros() {
    assert_eq!(u64_text(0), "0");
    assert_eq!(u64_text(7), "7");
    assert_eq!(u64_text(10), "10");
    assert_eq!(u64_text(3600), "3600");
    assert_eq!(u64_text(1234567890), "1234567890");
    assert_eq!(u64_text(u64::MAX), "18446744073709551615");
}

#[test]
fn i32_text_writes_a_minus_for_negative_numbers() {
    assert_eq!(i32_text(0), "0");
    assert_eq!(i32_text(125), "125");
    assert_eq!(i32_text(-125), "-125");
    assert_eq!(i32_text(i32::MAX), "2147483647");
    assert_eq!(i32_text(i32::MIN), "-2147483648");
}

#[test]
fn parse_u64_reads_digits_with_an_optional_plus() {
    assert_eq!(parse_u64("0"), Some(0));
    assert_eq!(parse_u64("100"), Some(100));
    assert_eq!(parse_u64("+12"), Some(12));
    assert_eq!(parse_u64("000123"), Some(123));
    assert_eq!(parse_u64("18446744073709551615"), Some(u64::MAX));
}

#[test]
fn parse_u64_refuses_what_is_no_number_or_does_not_fit() {
    assert_eq!(parse_u64(""), None);
    assert_eq!(parse_u64("+"), None);
    assert_eq!(parse_u64("-1"), None);
    assert_eq!(parse_u64("12a"), None);
    assert_eq!(parse_u64(" 12"), None);
    assert_eq!(parse_u64("12 "), None);
    assert_eq!(parse_u64("1.5"), None);
    assert_eq!(parse_u64("١٢"), None);
    assert_eq!(parse_u64("18446744073709551616"), None);
    assert_eq!(parse_u64("99999999999999999999999"), None);
    assert_eq!(parse_u64("99999999999999999999999x"), None);
}

#[test]
fn parse_i32_reads_signed_numbers() {
    assert_eq!(parse_i32("125"), Some(125));
    assert_eq!(parse_i32("+125"), Some(125));
    assert_eq!(parse_i32("-125"), Some(-125));
    assert_eq!(parse_i32("-0"), Some(0));
    assert_eq!(parse_i32("2147483647"), Some(i32::MAX));
    assert_eq!(parse_i32("-2147483648"), Some(i32::MIN));
}

#[test]
fn parse_i32_refuses_what_is_no_number_or_does_not_fit() {
    assert_eq!(parse_i32(""), None);
    assert_eq!(parse_i32("-"), None);
    assert_eq!(parse_i32("+"), None);
    assert_eq!(parse_i32("--1"), None);
    assert_eq!(parse_i32("2147483648"), None);
    assert_eq!(parse_i32("-2147483649"), None);
    assert_eq!(parse_i32("12é"), None);
}

#[test]
fn written_numbers_are_read_back() {
    for n in [0u64, 1, 9, 10, 99, 100, 4294967296, u64::MAX] {
        assert_eq!(parse_u64(&u64_text(n)), Some(n));
    }
    for n in [0i32, 1, -1, 125, -125, i32::MAX, i32::MIN] {
        assert_eq!(parse_i32(&i32_text(n)), Some(n));
    }
}
