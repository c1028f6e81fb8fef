use touch_engine::device::numeral::{read_numeral, scale};
use touch_engine::device::scalar::Scalar;

fn micros(text: &str) -> Option<i64> {
    read_numeral(text).map(|s: Scalar| s.micros)
}

#[test]
fn numeral_whole_number() {
    assert_eq!(micros("12"), Some(12_000_000));
    assert_eq!(micros("0"), Some(0));
    assert_eq!(micros("-7"), Some(-7_000_000));
}

#[test]
fn numeral_with_fraction() {
    assert_eq!(micros("1.0"), Some(1_000_000));
    assert_eq!(micros("-0.5"), Some(-500_000));
    assert_eq!(micros("127.25"), Some(127_250_000));
    assert_eq!(micros("-0.0"), Some(0));
}

#[test]
fn numeral_rounds_toward_zero() {
    assert_eq!(micros("0.0000019"), Some(1));
    assert_eq!(micros("-0.0000019"), Some(-1));
    assert_eq!(micros("1e-7"), Some(0));
}

#[test]
fn numeral_with_exponent() {
    assert_eq!(micros("6.25e-3"), Some(6_250));
    assert_eq!(micros("1.5e2"), Some(150_000_000));
    assert_eq!(micros("1.5e+2"), Some(150_000_000));
    assert_eq!(micros("2e0"), Some(2_000_000));
}

#[test]
fn numeral_out_of_range_is_limited() {
    assert_eq!(micros("1e+21"), Some(i64::MAX));
    assert_eq!(micros("-1e+21"), Some(i64::MIN));
    assert_eq!(micros("9223372036854.775807"), Some(i64::MAX));
    assert_eq!(micros("9223372036854.775806"), Some(i64::MAX - 1));
    assert_eq!(micros("-9223372036854.775808"), Some(i64::MIN));
    assert_eq!(micros("0e9999"), Some(0));
}

#[test]
fn numeral_rejects_what_is_none() {
    assert_eq!(micros(""), None);
    assert_eq!(micros("-"), None);
    assert_eq!(micros("abc"), None);
    assert_eq!(micros("1."), None);
    assert_eq!(micros(".5"), None);
    assert_eq!(micros("1e"), None);
    assert_eq!(micros("1e-"), None);
    assert_eq!(micros("1.2.3"), None);
    assert_eq!(micros("+1"), None);
    assert_eq!(micros("1e10000"), None);
    assert_eq!(micros("1000000000000000000000000000001"), None);
}

#[test]
fn numeral_at_the_limit_of_the_significand() {
    assert_eq!(micros("1000000000000000000000000000000e-30"), Some(1_000_000));
}

#[test]
fn scale_by_powers_of_ten() {
    assert_eq!(scale(5, 3), 5_000);
    assert_eq!(scale(5_999, -3), 5);
    assert_eq!(scale(0, 9_000), 0);
    assert_eq!(scale(1, 19), 0x8000_0000_0000_0000);
    assert_eq!(scale(7, -40), 0);
}
