use ark_indexer::decimal::{parse_decimal, to_decimal};

#[test]
fn zero_is_a_single_digit() {
    assert_eq!(to_decimal(0), "0");
}

#[test]
fn largest_height_has_twenty_digits() {
    assert_eq!(to_decimal(u64::MAX), "18446744073709551615");
}

#[test]
fn digits_come_most_significant_first() {
    assert_eq!(to_decimal(1000), "1000");
    assert_eq!(to_decimal(907), "907");
    assert_eq!(to_decimal(10), "10");
    assert_eq!(to_decimal(9), "9");
}

#[test]
fn numerals_read_back() {
    assert_eq!(parse_decimal("0"), Some(0));
    assert_eq!(parse_decimal("7"), Some(7));
    assert_eq!(parse_decimal("10"), Some(10));
    assert_eq!(parse_decimal("907"), Some(907));
    assert_eq!(parse_decimal("18446744073709551615"), Some(u64::MAX));
    for n in [0u64, 1, 9, 10, 11, 99, 100, 12345, u64::MAX - 1, u64::MAX] {
        assert_eq!(parse_decimal(&to_decimal(n)), Some(n));
    }
}

#[test]
fn what_is_no_numeral_is_refused() {
    assert_eq!(parse_decimal(""), None);
    assert_eq!(parse_decimal("00"), None);
    assert_eq!(parse_decimal("01"), None);
    assert_eq!(parse_decimal("007"), None);
    assert_eq!(parse_decimal("+1"), None);
    assert_eq!(parse_decimal("-1"), None);
    assert_eq!(parse_decimal(" 1"), None);
    assert_eq!(parse_decimal("1 "), None);
    assert_eq!(parse_decimal("1_000"), None);
    assert_eq!(parse_decimal("12a"), None);
    assert_eq!(parse_decimal("0x10"), None);
    assert_eq!(parse_decimal("1.0"), None);
    assert_eq!(parse_decimal("\u{0661}"), None);
    assert_eq!(parse_decimal("\u{ff11}"), None);
}

#[test]
fn numbers_beyond_the_largest_are_refused() {
    assert_eq!(parse_decimal("18446744073709551616"), None);
    assert_eq!(parse_decimal("18446744073709551620"), None);
    assert_eq!(parse_decimal("28446744073709551615"), None);
    assert_eq!(parse_decimal("184467440737095516150"), None);
    assert_eq!(parse_decimal("99999999999999999999999999999999"), None);
}
