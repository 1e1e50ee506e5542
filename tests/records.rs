use mikisayaka::models::{HoyolabResponse, ZenlessReturnCode};
use mikisayaka::text::{decimal, has_prefix, signed_decimal, trim_leading_copies};

fn response(data: Option<i32>, code: ZenlessReturnCode) -> HoyolabResponse<i32> {
    HoyolabResponse { data, message: "portal says no".to_string(), retcode: code }
}

#[test]
fn hoyolab_success_and_error() {
    let ok = response(Some(7), ZenlessReturnCode::Success);
    assert!(ok.is_success());
    assert!(!ok.is_error());
    assert_eq!(ok.data(), Some(&7));
    let bad = response(Some(7), ZenlessReturnCode::AlreadyClaimed);
    assert!(!bad.is_success());
    assert!(bad.is_error());
    assert_eq!(bad.data(), None);
}

#[test]
fn hoyolab_into_result() {
    assert_eq!(response(Some(7), ZenlessReturnCode::Success).into_result(), Ok(7));
    assert_eq!(
        response(None, ZenlessReturnCode::Success).into_result(),
        Err("Success response missing data".to_string())
    );
    assert_eq!(
        response(Some(7), ZenlessReturnCode::AuthInvalid).into_result(),
        Err("portal says no".to_string())
    );
}

#[test]
fn return_codes_round_trip() {
    assert_eq!(ZenlessReturnCode::AlreadyClaimed.code(), -5003);
    assert_eq!(ZenlessReturnCode::RateLimited.code(), 10101);
    assert_eq!(ZenlessReturnCode::from_code(-5003), Some(ZenlessReturnCode::AlreadyClaimed));
    assert_eq!(ZenlessReturnCode::from_code(0), Some(ZenlessReturnCode::Success));
    assert_eq!(ZenlessReturnCode::from_code(12), None);
    for v in -6000i16..11000 {
        if let Some(c) = ZenlessReturnCode::from_code(v) {
            assert_eq!(c.code(), v);
        }
    }
}

#[test]
fn decimal_numerals() {
    assert_eq!(decimal(0), "0");
    assert_eq!(decimal(1234567890), "1234567890");
    assert_eq!(decimal(u64::MAX), "18446744073709551615");
    assert_eq!(signed_decimal(-42), "-42");
    assert_eq!(signed_decimal(i64::MIN), "-9223372036854775808");
}

#[test]
fn prefixes() {
    assert!(has_prefix("s>help", "s>"));
    assert!(!has_prefix("s", "s>"));
    assert!(has_prefix("anything", ""));
    assert_eq!(trim_leading_copies("ababx", "ab"), "x");
    assert_eq!(trim_leading_copies("xab", "ab"), "xab");
}
