use rust_chaser::decimal::{amount_to_text, int_to_text, parse_units, seven_decimals_to_text};

#[test]
fn parses_plain_decimals_in_hundred_millionths() {
    assert_eq!(parse_units("0.0104560"), Some(1_045_600));
    assert_eq!(parse_units("10000"), Some(1_000_000_000_000));
    assert_eq!(parse_units("1."), Some(100_000_000));
    assert_eq!(parse_units(".5"), Some(50_000_000));
    assert_eq!(parse_units("+2.25"), Some(225_000_000));
    assert_eq!(parse_units("0.000000019"), Some(1));
    assert_eq!(parse_units("184467440737.09551615"), Some(u64::MAX));
}

#[test]
fn refuses_what_is_not_a_plain_decimal() {
    assert_eq!(parse_units(""), None);
    assert_eq!(parse_units("."), None);
    assert_eq!(parse_units("+"), None);
    assert_eq!(parse_units("-1"), None);
    assert_eq!(parse_units("-1e-9"), None);
    assert_eq!(parse_units("inf"), None);
    assert_eq!(parse_units("-infinity"), None);
    assert_eq!(parse_units("NaN"), None);
    assert_eq!(parse_units("1e"), None);
    assert_eq!(parse_units("e5"), None);
    assert_eq!(parse_units("1e+"), None);
    assert_eq!(parse_units("1e2.5"), None);
    assert_eq!(parse_units(".e1"), None);
    assert_eq!(parse_units("1e99999999999999999999999999999999999999"), None);
    assert_eq!(parse_units("1e12"), None);
    assert_eq!(parse_units("1.2.3"), None);
    assert_eq!(parse_units(" 1"), None);
    assert_eq!(parse_units("abc"), None);
    assert_eq!(parse_units("184467440737.09551616"), None);
    assert_eq!(parse_units("1844674407370"), None);
}

#[test]
fn reads_exponents_and_negative_zero() {
    assert_eq!(parse_units("1e3"), Some(100_000_000_000));
    assert_eq!(parse_units("1E3"), Some(100_000_000_000));
    assert_eq!(parse_units("1e+2"), Some(10_000_000_000));
    assert_eq!(parse_units("1.5e-2"), Some(1_500_000));
    assert_eq!(parse_units("1.e1"), Some(1_000_000_000));
    assert_eq!(parse_units("12345e-12"), Some(1));
    assert_eq!(parse_units("1e-9"), Some(0));
    assert_eq!(parse_units("-0"), Some(0));
    assert_eq!(parse_units("-0.000e5"), Some(0));
    assert_eq!(parse_units("0e99999999999999999999999999999999999999"), Some(0));
    assert_eq!(parse_units("1e-99999999999999999999999999999999999999"), Some(0));
    assert_eq!(parse_units("1.8446744073709551615e11"), Some(u64::MAX));
    assert_eq!(parse_units("1.8446744073709551616e11"), None);
    assert_eq!(parse_units("000000000000000000000000001e0"), Some(100_000_000));
}

#[test]
fn prints_amounts_in_shortest_form() {
    assert_eq!(amount_to_text(1_000_000_000_000), "10000");
    assert_eq!(amount_to_text(0), "0");
    assert_eq!(amount_to_text(50_000_000), "0.5");
    assert_eq!(amount_to_text(150_050_000), "1.5005");
    assert_eq!(amount_to_text(1), "0.00000001");
}

#[test]
fn printed_amounts_read_back() {
    for u in [0u64, 1, 7, 10, 50_000_000, 123_456_789_012, 1_000_000_000_000, u64::MAX] {
        assert_eq!(parse_units(&amount_to_text(u)), Some(u));
    }
}

#[test]
fn prints_prices_with_seven_decimals() {
    assert_eq!(seven_decimals_to_text(1_045_600), "0.0104560");
    assert_eq!(seven_decimals_to_text(0), "0.0000000");
    assert_eq!(seven_decimals_to_text(1_045_605), "0.0104561");
    assert_eq!(seven_decimals_to_text(1_045_604), "0.0104560");
    assert_eq!(seven_decimals_to_text(1_234_567_800_000), "12345.6780000");
}

#[test]
fn prints_signed_integers() {
    assert_eq!(int_to_text(0), "0");
    assert_eq!(int_to_text(1_499_827_319_559), "1499827319559");
    assert_eq!(int_to_text(-42), "-42");
    assert_eq!(int_to_text(i64::MIN), "-9223372036854775808");
    assert_eq!(int_to_text(i64::MAX), "9223372036854775807");
}
