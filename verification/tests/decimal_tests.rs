use receipt_rows::parse_u128_dec;
use receipt_rows::u128_to_dec_str;

#[test]
fn encodes_zero_and_small_values() {
    assert_eq!(u128_to_dec_str(0), "0");
    assert_eq!(u128_to_dec_str(7), "7");
    assert_eq!(u128_to_dec_str(10), "10");
    assert_eq!(u128_to_dec_str(1_000_000_000), "1000000000");
}

#[test]
fn encodes_the_largest_value_exactly() {
    assert_eq!(u128_to_dec_str(u128::MAX), "340282366920938463463374607431768211455");
}

#[test]
fn parsing_recovers_every_encoded_value() {
    for v in [0u128, 1, 9, 10, 99, 100, 12_345_678_901_234_567_890, u128::MAX - 1, u128::MAX] {
        assert_eq!(parse_u128_dec(&u128_to_dec_str(v)), Some(v));
    }
}

#[test]
fn parsing_rejects_what_is_not_a_numeral_in_range() {
    assert_eq!(parse_u128_dec(""), None);
    assert_eq!(parse_u128_dec("12a"), None);
    assert_eq!(parse_u128_dec("-1"), None);
    assert_eq!(parse_u128_dec(" 1"), None);
    assert_eq!(parse_u128_dec("340282366920938463463374607431768211456"), None);
    assert_eq!(parse_u128_dec("9999999999999999999999999999999999999999"), None);
}

#[test]
fn parsing_accepts_leading_zeros_by_value() {
    assert_eq!(parse_u128_dec("007"), Some(7));
    assert_eq!(parse_u128_dec("000"), Some(0));
}
