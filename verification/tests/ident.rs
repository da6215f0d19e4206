use modmail::ident::{decimal_string, identity_text, parse_identity, parse_number};

#[test]
fn decimal_string_of_small_numbers() {
    assert_eq!(decimal_string(0), "0");
    assert_eq!(decimal_string(7), "7");
    assert_eq!(decimal_string(10), "10");
    assert_eq!(decimal_string(1234567890), "1234567890");
}

#[test]
fn decimal_string_of_the_largest_number() {
    assert_eq!(decimal_string(u128::MAX), "340282366920938463463374607431768211455");
}

#[test]
fn decimal_string_agrees_with_the_standard_rendering() {
    let samples: [u128; 8] = [0, 1, 9, 10, 99, 100, 4096, 18446744073709551616];
    for n in samples {
        assert_eq!(decimal_string(n), n.to_string());
    }
}

#[test]
fn identity_text_is_plain_decimal() {
    assert_eq!(identity_text(779364331350523909), "779364331350523909");
    assert_eq!(identity_text(1), "1");
    assert_eq!(identity_text(u64::MAX), "18446744073709551615");
}

#[test]
fn identity_text_of_zero() {
    assert_eq!(identity_text(0), "0");
}

#[test]
fn parse_number_reads_digits() {
    assert_eq!(parse_number("0"), Some(0));
    assert_eq!(parse_number("42"), Some(42));
    assert_eq!(parse_number("007"), Some(7));
    assert_eq!(parse_number("779364331350523909"), Some(779364331350523909));
}

#[test]
fn parse_number_takes_a_leading_plus() {
    assert_eq!(parse_number("+42"), Some(42));
    assert_eq!(parse_number("+0"), Some(0));
}

#[test]
fn parse_number_at_the_upper_limit() {
    assert_eq!(parse_number("18446744073709551615"), Some(u64::MAX));
    assert_eq!(parse_number("18446744073709551616"), None);
    assert_eq!(parse_number("18446744073709551620"), None);
    assert_eq!(parse_number("99999999999999999999999999"), None);
    assert_eq!(parse_number("00018446744073709551615"), Some(u64::MAX));
}

#[test]
fn parse_number_refuses_what_is_no_number() {
    assert_eq!(parse_number(""), None);
    assert_eq!(parse_number("+"), None);
    assert_eq!(parse_number("-1"), None);
    assert_eq!(parse_number("++1"), None);
    assert_eq!(parse_number("1+"), None);
    assert_eq!(parse_number("12a"), None);
    assert_eq!(parse_number("a12"), None);
    assert_eq!(parse_number(" 12"), None);
    assert_eq!(parse_number("12 "), None);
    assert_eq!(parse_number("1_000"), None);
    assert_eq!(parse_number("１２"), None);
    assert_eq!(parse_number("運営"), None);
}

#[test]
fn parse_number_agrees_with_the_standard_reading() {
    let samples = [
        "", "+", "-", "0", "+0", "-0", "1", "+1", "01", "9", "10", "255", "18446744073709551615",
        "18446744073709551616", "184467440737095516150", "x", "1x", "+x", " 1", "1 ", "٣",
    ];
    for text in samples {
        assert_eq!(parse_number(text), text.parse::<u64>().ok(), "on {:?}", text);
    }
}

#[test]
fn parse_identity_refuses_zero() {
    assert_eq!(parse_identity("0"), None);
    assert_eq!(parse_identity("+0"), None);
    assert_eq!(parse_identity("000"), None);
    assert_eq!(parse_identity("5"), Some(5));
    assert_eq!(parse_identity(""), None);
    assert_eq!(parse_identity("five"), None);
}

#[test]
fn identity_text_reads_back() {
    let samples: [u64; 6] = [1, 9, 10, 4096, 779364331350523909, u64::MAX];
    for id in samples {
        assert_eq!(parse_identity(&identity_text(id)), Some(id));
    }
}
