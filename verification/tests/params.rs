use rpc_dispatch::params::parse_decimal_u64;

#[test]
fn plain_decimals_decode_to_their_value() {
    assert_eq!(parse_decimal_u64(b"0"), Some(0));
    assert_eq!(parse_decimal_u64(b"7"), Some(7));
    assert_eq!(parse_decimal_u64(b"42"), Some(42));
    assert_eq!(parse_decimal_u64(b"1000000"), Some(1_000_000));
}

#[test]
fn leading_zeros_are_just_digits() {
    assert_eq!(parse_decimal_u64(b"007"), Some(7));
    assert_eq!(parse_decimal_u64(b"000"), Some(0));
}

#[test]
fn the_largest_value_still_decodes() {
    assert_eq!(parse_decimal_u64(b"18446744073709551615"), Some(u64::MAX));
}

#[test]
fn one_past_the_largest_value_is_refused() {
    assert_eq!(parse_decimal_u64(b"18446744073709551616"), None);
}

#[test]
fn far_too_long_digit_strings_are_refused() {
    assert_eq!(parse_decimal_u64(b"999999999999999999999999999999"), None);
}

#[test]
fn empty_and_non_digit_blobs_are_refused() {
    assert_eq!(parse_decimal_u64(b""), None);
    assert_eq!(parse_decimal_u64(b"abc"), None);
    assert_eq!(parse_decimal_u64(b"12a"), None);
    assert_eq!(parse_decimal_u64(b"a12"), None);
    assert_eq!(parse_decimal_u64(b"-1"), None);
    assert_eq!(parse_decimal_u64(b" 1"), None);
    assert_eq!(parse_decimal_u64(b"1 "), None);
}
