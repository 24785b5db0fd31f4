use altaz::parse;
use altaz::AngleKind;
use altaz::ParseError;

fn degrees(udeg: i64) -> f64 {
    udeg as f64 / 1e6
}

#[test]
fn parses_right_ascension_to_degrees() {
    let r = parse("05h 34m 31.94s", AngleKind::RightAscension).unwrap();
    assert!((degrees(r.udeg) - 83.6331).abs() < 1e-3);
    assert_eq!(r.udeg, 83_633_070);
}

#[test]
fn right_ascension_is_fifteen_times_declination() {
    let ra = parse("05h 34m 31.94s", AngleKind::RightAscension).unwrap();
    let dec = parse("05h 34m 31.94s", AngleKind::Declination).unwrap();
    assert_eq!(ra.udeg, 15 * dec.udeg);
    let ra = parse("-3° 2′ 1.5″", AngleKind::RightAscension).unwrap();
    let dec = parse("-3° 2′ 1.5″", AngleKind::Declination).unwrap();
    assert_eq!(ra.udeg, 15 * dec.udeg);
}

#[test]
fn parses_declination_to_degrees() {
    let r = parse("+22° 00′ 52.2″", AngleKind::Declination).unwrap();
    assert!((degrees(r.udeg) - 22.0145).abs() < 1e-3);
    assert_eq!(r.udeg, 22_014_500);
}

#[test]
fn negative_declination_keeps_its_sign() {
    let r = parse("-22° 00′ 52.2″", AngleKind::Declination).unwrap();
    assert!(r.udeg < 0);
    assert_eq!(r.udeg, -22_014_500);
}

#[test]
fn negative_declination_after_leading_space() {
    let r = parse(" -1° 30′ 0″", AngleKind::Declination).unwrap();
    assert_eq!(r.udeg, -1_500_000);
}

#[test]
fn two_tokens_is_malformed_not_a_panic() {
    let r = parse("05h 34m", AngleKind::RightAscension);
    assert_eq!(r, Err(ParseError::MalformedAngle));
}

#[test]
fn empty_input_is_malformed() {
    assert_eq!(parse("", AngleKind::Declination), Err(ParseError::MalformedAngle));
    assert_eq!(parse("   ", AngleKind::Declination), Err(ParseError::MalformedAngle));
}

#[test]
fn bad_numeric_token_is_reported() {
    let r = parse("5x 3 2", AngleKind::Declination);
    assert_eq!(r, Err(ParseError::NumericParseFailure));
}

#[test]
fn two_dots_in_a_token_is_reported() {
    let r = parse("1.2.3 4 5", AngleKind::Declination);
    assert_eq!(r, Err(ParseError::NumericParseFailure));
}

#[test]
fn large_whole_parts_parse_up_to_the_representation_limit() {
    let r = parse("99999999 0 0", AngleKind::Declination).unwrap();
    assert_eq!(r.udeg, 99_999_999_000_000);
    let r = parse("1000000 0 0", AngleKind::Declination).unwrap();
    assert_eq!(r.udeg, 1_000_000_000_000);
}

#[test]
fn oversized_whole_part_is_reported() {
    let r = parse("100000000 0 0", AngleKind::Declination);
    assert_eq!(r, Err(ParseError::NumericParseFailure));
}

#[test]
fn right_ascension_is_scaled_by_fifteen() {
    let r = parse("1h 0m 0s", AngleKind::RightAscension).unwrap();
    assert_eq!(r.udeg, 15_000_000);
    let d = parse("1° 0′ 0″", AngleKind::Declination).unwrap();
    assert_eq!(d.udeg, 1_000_000);
}

#[test]
fn fractional_seconds_are_exact_in_micro_units() {
    // 0° 0′ 36″ is exactly 0.01 degrees.
    let r = parse("0° 0′ 36″", AngleKind::Declination).unwrap();
    assert_eq!(r.udeg, 10_000);
}

#[test]
fn parser_is_idempotent() {
    let a = parse("05h 34m 31.94s", AngleKind::RightAscension);
    let b = parse("05h 34m 31.94s", AngleKind::RightAscension);
    assert_eq!(a, b);
    let c = parse("-22° 00′ 52.2″", AngleKind::Declination);
    let d = parse("-22° 00′ 52.2″", AngleKind::Declination);
    assert_eq!(c, d);
}
