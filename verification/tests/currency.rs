use envelope_ledger::currency::{parse_currency, read_currency, Reading};

#[test]
fn parse_empty_text_has_no_value() {
    assert_eq!(parse_currency(""), None);
}

#[test]
fn parse_two_minus_signs_cancel() {
    assert_eq!(parse_currency("--2"), Some(200));
}

#[test]
fn parse_trailing_point() {
    assert_eq!(parse_currency("12."), Some(1200));
}

#[test]
fn parse_noise_and_extra_points() {
    assert_eq!(parse_currency("-+--a1b-2c3d4.9.8.7"), Some(-123498));
}

#[test]
fn parse_plain_amounts() {
    assert_eq!(parse_currency("50.00"), Some(5000));
    assert_eq!(parse_currency("$1,234.56"), Some(123456));
    assert_eq!(parse_currency("0"), Some(0));
    assert_eq!(parse_currency(".5"), Some(50));
    assert_eq!(parse_currency("-.05"), Some(-5));
    assert_eq!(parse_currency("7.1"), Some(710));
}

#[test]
fn parse_drops_decimals_beyond_the_second() {
    assert_eq!(parse_currency("1.999"), Some(199));
    assert_eq!(parse_currency("-1.999"), Some(-199));
}

#[test]
fn parse_minus_after_a_digit_is_passed_over() {
    assert_eq!(parse_currency("1-2"), Some(1200));
    assert_eq!(parse_currency("-1-"), Some(-100));
    assert_eq!(parse_currency(".-5"), Some(-50));
}

#[test]
fn parse_text_without_digit_has_no_value() {
    assert_eq!(parse_currency("-"), None);
    assert_eq!(parse_currency("."), None);
    assert_eq!(parse_currency("abc"), None);
    assert_eq!(parse_currency("- . -"), None);
}

#[test]
fn parse_reaches_both_ends_of_the_range() {
    assert_eq!(parse_currency("21474836.47"), Some(i32::MAX));
    assert_eq!(parse_currency("-21474836.48"), Some(i32::MIN));
    assert_eq!(parse_currency("21474836.48"), None);
    assert_eq!(parse_currency("-21474836.49"), None);
    assert_eq!(parse_currency("99999999999999999999999999999999"), None);
}

#[test]
fn reading_tells_blank_from_out_of_range() {
    assert_eq!(read_currency(""), Reading::Blank);
    assert_eq!(read_currency("x"), Reading::Blank);
    assert_eq!(read_currency("12"), Reading::Amount(1200));
    assert_eq!(read_currency("21474836.48"), Reading::OutOfRange);
    assert_eq!(read_currency("123456789012345678901234567890"), Reading::OutOfRange);
}

#[test]
fn parse_reads_unicode_text() {
    assert_eq!(parse_currency("€ 3,50 ✓"), Some(35000));
    assert_eq!(parse_currency("−5"), Some(500));
}
