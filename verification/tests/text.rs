use sensor_dashboard::http::{authorization_value, ACCESS_TOKEN_BEARER_LENGTH, MAX_ACCESS_TOKEN_LEN};
use sensor_dashboard::rate_limit::RateLimitInfo;
use sensor_dashboard::text::{
    format_tenths, format_whole, magnitude_of, pad_left, placeholder, push_decimal, rate_limit_text, wifi_text,
};

fn text(bytes: Vec<u8>) -> String {
    String::from_utf8(bytes).unwrap()
}

#[test]
fn tenths_are_written_with_one_decimal() {
    assert_eq!(text(format_tenths(215)), "21.5");
    assert_eq!(text(format_tenths(0)), " 0.0");
    assert_eq!(text(format_tenths(5)), " 0.5");
    assert_eq!(text(format_tenths(-5)), "-0.5");
    assert_eq!(text(format_tenths(-215)), "-21.5");
    assert_eq!(text(format_tenths(1000)), "100.0");
    assert_eq!(text(format_tenths(99)), " 9.9");
    assert_eq!(text(format_tenths(i64::MIN)), "-922337203685477580.8");
    assert_eq!(text(format_tenths(i64::MAX)), "922337203685477580.7");
}

#[test]
fn tenths_agree_with_float_formatting() {
    for v in [0i64, 1, 9, 10, 11, 215, 400, 999, 1000, 12345] {
        assert_eq!(text(format_tenths(v)), format!("{:4.1}", v as f64 / 10.0));
    }
}

#[test]
fn whole_numbers_are_right_aligned_in_five_columns() {
    assert_eq!(text(format_whole(0)), "    0");
    assert_eq!(text(format_whole(40)), "   40");
    assert_eq!(text(format_whole(1236)), " 1236");
    assert_eq!(text(format_whole(99999)), "99999");
    assert_eq!(text(format_whole(100000)), "100000");
    assert_eq!(text(format_whole(-7)), "   -7");
    assert_eq!(text(format_whole(i64::MIN)), "-9223372036854775808");
    for v in [0i64, 7, 1000, 65535, 123456] {
        assert_eq!(text(format_whole(v)), format!("{:5.0}", v as f64));
    }
}

#[test]
fn decimal_digits_are_appended() {
    let mut out = b"n=".to_vec();
    push_decimal(&mut out, 0);
    push_decimal(&mut out, 1905);
    push_decimal(&mut out, u64::MAX);
    assert_eq!(text(out), "n=0190518446744073709551615");
}

#[test]
fn padding_keeps_long_texts() {
    assert_eq!(text(pad_left(b"ab".to_vec(), 4)), "  ab");
    assert_eq!(text(pad_left(b"abcd".to_vec(), 4)), "abcd");
    assert_eq!(text(pad_left(b"abcde".to_vec(), 4)), "abcde");
    assert_eq!(text(pad_left(Vec::new(), 0)), "");
    assert_eq!(text(pad_left(Vec::new(), 2)), "  ");
}

#[test]
fn magnitude_of_extremes() {
    assert_eq!(magnitude_of(0), 0);
    assert_eq!(magnitude_of(-1), 1);
    assert_eq!(magnitude_of(i64::MAX), 9223372036854775807);
    assert_eq!(magnitude_of(i64::MIN), 9223372036854775808);
}

#[test]
fn placeholder_is_two_dashes() {
    assert_eq!(text(placeholder()), "--");
}

#[test]
fn quota_is_shown_when_both_parts_are_known() {
    let both = RateLimitInfo { limit: Some(30), remaining: Some(25), reset: Some(1667922300) };
    assert_eq!(text(rate_limit_text(&both)), "API: 25/30");
    let only_remaining = RateLimitInfo { limit: None, remaining: Some(25), reset: None };
    assert_eq!(text(rate_limit_text(&only_remaining)), "API: ");
    let only_limit = RateLimitInfo { limit: Some(30), remaining: None, reset: None };
    assert_eq!(text(rate_limit_text(&only_limit)), "API: ");
    assert_eq!(text(rate_limit_text(&RateLimitInfo::new())), "API: ");
}

#[test]
fn connectivity_is_shown() {
    assert_eq!(text(wifi_text(true)), "WIFI: OK");
    assert_eq!(text(wifi_text(false)), "WIFI: NC");
}

#[test]
fn authorization_header_value() {
    assert_eq!(authorization_value("abc").map(text), Some("Bearer abc".to_string()));
    assert_eq!(authorization_value("").map(text), Some("Bearer ".to_string()));
    let longest = "x".repeat(MAX_ACCESS_TOKEN_LEN);
    let value = authorization_value(&longest).unwrap();
    assert_eq!(value.len(), ACCESS_TOKEN_BEARER_LENGTH);
    assert_eq!(ACCESS_TOKEN_BEARER_LENGTH, 135);
    let too_long = "x".repeat(MAX_ACCESS_TOKEN_LEN + 1);
    assert_eq!(authorization_value(&too_long), None);
}
