use tiled_world::number::parse_i32;
use tiled_world::{transform, Operation};

#[test]
fn parse_reads_plain_digits() {
    assert_eq!(parse_i32("0"), Some(0));
    assert_eq!(parse_i32("7"), Some(7));
    assert_eq!(parse_i32("42"), Some(42));
    assert_eq!(parse_i32("1234567890"), Some(1234567890));
}

#[test]
fn parse_reads_signs() {
    assert_eq!(parse_i32("-1"), Some(-1));
    assert_eq!(parse_i32("+1"), Some(1));
    assert_eq!(parse_i32("-0"), Some(0));
    assert_eq!(parse_i32("+0"), Some(0));
}

#[test]
fn parse_reads_leading_zeros() {
    assert_eq!(parse_i32("007"), Some(7));
    assert_eq!(parse_i32("-00000000000000000012"), Some(-12));
    assert_eq!(parse_i32("00000000002147483647"), Some(i32::MAX));
}

#[test]
fn parse_reaches_the_ends_of_the_range() {
    assert_eq!(parse_i32("2147483647"), Some(i32::MAX));
    assert_eq!(parse_i32("+2147483647"), Some(i32::MAX));
    assert_eq!(parse_i32("-2147483648"), Some(i32::MIN));
    assert_eq!(parse_i32("-2147483647"), Some(-2147483647));
}

#[test]
fn parse_refuses_values_out_of_range() {
    assert_eq!(parse_i32("2147483648"), None);
    assert_eq!(parse_i32("+2147483648"), None);
    assert_eq!(parse_i32("-2147483649"), None);
    assert_eq!(parse_i32("21474836470"), None);
    assert_eq!(parse_i32("99999999999999999999999999999999"), None);
    assert_eq!(parse_i32("-99999999999999999999999999999999"), None);
}

#[test]
fn parse_refuses_text_without_digits() {
    assert_eq!(parse_i32(""), None);
    assert_eq!(parse_i32("+"), None);
    assert_eq!(parse_i32("-"), None);
}

#[test]
fn parse_refuses_other_characters() {
    assert_eq!(parse_i32(" 1"), None);
    assert_eq!(parse_i32("1 "), None);
    assert_eq!(parse_i32("1_000"), None);
    assert_eq!(parse_i32("0x10"), None);
    assert_eq!(parse_i32("1.0"), None);
    assert_eq!(parse_i32("--1"), None);
    assert_eq!(parse_i32("+-1"), None);
    assert_eq!(parse_i32("1-"), None);
    assert_eq!(parse_i32("12a"), None);
    assert_eq!(parse_i32("a12"), None);
    assert_eq!(parse_i32("/"), None);
    assert_eq!(parse_i32(":"), None);
}

#[test]
fn parse_refuses_digits_that_are_not_ascii() {
    assert_eq!(parse_i32("\u{0663}"), None);
    assert_eq!(parse_i32("\u{ff11}"), None);
    assert_eq!(parse_i32("1\u{0663}"), None);
}

#[test]
fn parse_agrees_with_std() {
    let texts = [
        "0", "-0", "+0", "5", "-5", "+5", "2147483647", "2147483648", "-2147483648", "-2147483649",
        "", "+", "-", "++1", "1+", "00", "-00", "0009", "4294967296", "abc", "1e3", "١٢",
    ];
    for text in texts {
        assert_eq!(parse_i32(text), text.parse::<i32>().ok());
    }
}

#[test]
fn transform_multiplies_then_adds() {
    assert_eq!(transform(2, 32, 0), Ok(64));
    assert_eq!(transform(3, 32, 0), Ok(96));
    assert_eq!(transform(7, 16, 5), Ok(117));
    assert_eq!(transform(-7, 16, 5), Ok(-107));
    assert_eq!(transform(7, -16, -5), Ok(-117));
    assert_eq!(transform(0, i32::MAX, i32::MIN), Ok(i32::MIN));
    assert_eq!(transform(12345, 0, 9), Ok(9));
}

#[test]
fn transform_reaches_the_ends_of_the_range() {
    assert_eq!(transform(1, i32::MAX, 0), Ok(i32::MAX));
    assert_eq!(transform(1, i32::MIN, 0), Ok(i32::MIN));
    assert_eq!(transform(-1, i32::MAX, -1), Ok(i32::MIN));
    assert_eq!(transform(65536, 32767, 65535), Ok(i32::MAX));
}

#[test]
fn transform_reports_overflow_of_the_product() {
    assert_eq!(transform(2, i32::MAX, 0), Err(Operation::Multiply));
    assert_eq!(transform(-1, i32::MIN, 0), Err(Operation::Multiply));
    assert_eq!(transform(65536, 32768, 0), Err(Operation::Multiply));
    assert_eq!(transform(65536, 32768, i32::MIN), Err(Operation::Multiply));
}

#[test]
fn transform_reports_overflow_of_the_sum() {
    assert_eq!(transform(1, i32::MAX, 1), Err(Operation::Add));
    assert_eq!(transform(1, i32::MIN, -1), Err(Operation::Add));
    assert_eq!(transform(65536, 32767, 65536), Err(Operation::Add));
}
