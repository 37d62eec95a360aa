use sim_device::decimal::Decimal;

fn text_of(s: &str) -> Option<String> {
    Decimal::parse(s).map(|d| d.to_text())
}

#[test]
fn parse_plain_numerals() {
    assert_eq!(Decimal::parse("42.5").unwrap().billionths, 42_500_000_000);
    assert_eq!(Decimal::parse("150").unwrap().billionths, 150_000_000_000);
    assert_eq!(Decimal::parse("-3.25").unwrap().billionths, -3_250_000_000);
    assert_eq!(Decimal::parse("+7").unwrap().billionths, 7_000_000_000);
    assert_eq!(Decimal::parse("0.000000001").unwrap().billionths, 1);
}

#[test]
fn parse_point_at_either_end() {
    assert_eq!(text_of("5."), Some("5".to_string()));
    assert_eq!(text_of(".5"), Some("0.5".to_string()));
}

#[test]
fn parse_rejects_non_numerals() {
    assert!(Decimal::parse("").is_none());
    assert!(Decimal::parse(".").is_none());
    assert!(Decimal::parse("-").is_none());
    assert!(Decimal::parse("abc").is_none());
    assert!(Decimal::parse("1.2.3").is_none());
    assert!(Decimal::parse("12a").is_none());
    assert!(Decimal::parse("1e5").is_none());
    assert!(Decimal::parse(" 1").is_none());
}

#[test]
fn parse_rejects_more_than_nine_fraction_digits() {
    assert!(Decimal::parse("1.0000000001").is_none());
    assert!(Decimal::parse("1.000000001").is_some());
}

#[test]
fn parse_rejects_values_too_large() {
    assert!(Decimal::parse("9223372037").is_none());
    assert!(Decimal::parse("99999999999999999999999").is_none());
    assert_eq!(
        Decimal::parse("9223372036.854775807").unwrap().billionths,
        i64::MAX
    );
    assert!(Decimal::parse("9223372036.854775808").is_none());
    assert_eq!(
        Decimal::parse("-9223372036.854775807").unwrap().billionths,
        -i64::MAX
    );
}

#[test]
fn render_trims_trailing_zeros() {
    assert_eq!(text_of("42.50"), Some("42.5".to_string()));
    assert_eq!(text_of("007"), Some("7".to_string()));
    assert_eq!(text_of("100.000"), Some("100".to_string()));
    assert_eq!(text_of("-0.010"), Some("-0.01".to_string()));
    assert_eq!(text_of("0"), Some("0".to_string()));
}

#[test]
fn render_from_billionths() {
    assert_eq!(Decimal::from_billionths(1).to_text(), "0.000000001");
    assert_eq!(Decimal::from_billionths(-1_500_000_000).to_text(), "-1.5");
    assert_eq!(Decimal::zero().to_text(), "0");
    assert_eq!(
        Decimal::from_billionths(i64::MIN).to_text(),
        "-9223372036.854775808"
    );
}
