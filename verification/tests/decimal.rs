use media_shim::decimal::u64_to_decimal;

#[test]
fn renders_zero() {
    assert_eq!(u64_to_decimal(0), "0");
}

#[test]
fn renders_single_digits() {
    assert_eq!(u64_to_decimal(7), "7");
    assert_eq!(u64_to_decimal(9), "9");
}

#[test]
fn renders_multi_digit_values() {
    assert_eq!(u64_to_decimal(10), "10");
    assert_eq!(u64_to_decimal(42), "42");
    assert_eq!(u64_to_decimal(1700000000), "1700000000");
}

#[test]
fn renders_the_largest_value() {
    assert_eq!(u64_to_decimal(u64::MAX), "18446744073709551615");
}
