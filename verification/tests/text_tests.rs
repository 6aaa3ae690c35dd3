use timelapse_core::text::{bool_to_str, i32_to_dec, parse_bool, parse_i32, parse_u32,
    parse_u64, to_lower, u32_to_dec, u64_to_dec};

#[test]
fn decimal_formatting() {
    assert_eq!(u64_to_dec(0), "0");
    assert_eq!(u64_to_dec(7), "7");
    assert_eq!(u64_to_dec(1710079500), "1710079500");
    assert_eq!(u64_to_dec(u64::MAX), "18446744073709551615");
    assert_eq!(u32_to_dec(600), "600");
    assert_eq!(i32_to_dec(-1), "-1");
    assert_eq!(i32_to_dec(0), "0");
    assert_eq!(i32_to_dec(i32::MIN), "-2147483648");
    assert_eq!(bool_to_str(true), "true");
    assert_eq!(bool_to_str(false), "false");
}

#[test]
fn decimal_parsing() {
    assert_eq!(parse_u64("0"), Some(0));
    assert_eq!(parse_u64("00123"), Some(123));
    assert_eq!(parse_u64("18446744073709551615"), Some(u64::MAX));
    assert_eq!(parse_u64("18446744073709551616"), None);
    assert_eq!(parse_u64(""), None);
    assert_eq!(parse_u64("12a"), None);
    assert_eq!(parse_u32("4294967295"), Some(u32::MAX));
    assert_eq!(parse_u32("4294967296"), None);
    assert_eq!(parse_i32("-5"), Some(-5));
    assert_eq!(parse_i32("-2147483648"), Some(i32::MIN));
    assert_eq!(parse_i32("-2147483649"), None);
    assert_eq!(parse_i32("2147483647"), Some(i32::MAX));
    assert_eq!(parse_i32("2147483648"), None);
    assert_eq!(parse_i32("-"), None);
    assert_eq!(parse_bool("true"), Some(true));
    assert_eq!(parse_bool("false"), Some(false));
    assert_eq!(parse_bool("yes"), None);
}

#[test]
fn ascii_lowercasing() {
    assert_eq!(to_lower("AbC"), "abc");
    assert_eq!(to_lower("SSID"), "ssid");
    assert_eq!(to_lower("already lower 123"), "already lower 123");
}
