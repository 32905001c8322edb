use weather_fetch::decimal::{is_decimal_text, Coordinate};

#[test]
fn decimal_accepts_digits() {
    assert!(is_decimal_text("0"));
    assert!(is_decimal_text("7"));
    assert!(is_decimal_text("52"));
    assert!(is_decimal_text("0012"));
    assert!(is_decimal_text("340282350000000000000000000000000000000"));
}

#[test]
fn decimal_accepts_a_point_between_digits() {
    assert!(is_decimal_text("52.52"));
    assert!(is_decimal_text("13.41"));
    assert!(is_decimal_text("0.5"));
    assert!(is_decimal_text("0.0000001"));
    assert!(is_decimal_text("100.0"));
}

#[test]
fn decimal_accepts_a_minus_sign() {
    assert!(is_decimal_text("-0"));
    assert!(is_decimal_text("-1"));
    assert!(is_decimal_text("-33.87"));
}

#[test]
fn decimal_accepts_the_three_words() {
    assert!(is_decimal_text("NaN"));
    assert!(is_decimal_text("inf"));
    assert!(is_decimal_text("-inf"));
}

#[test]
fn decimal_refuses_other_spellings_of_the_words() {
    assert!(!is_decimal_text("nan"));
    assert!(!is_decimal_text("-NaN"));
    assert!(!is_decimal_text("Inf"));
    assert!(!is_decimal_text("+inf"));
    assert!(!is_decimal_text("infinity"));
    assert!(!is_decimal_text("in"));
    assert!(!is_decimal_text("inff"));
}

#[test]
fn decimal_refuses_the_empty_and_the_bare_signs() {
    assert!(!is_decimal_text(""));
    assert!(!is_decimal_text("-"));
    assert!(!is_decimal_text("."));
    assert!(!is_decimal_text("-."));
    assert!(!is_decimal_text("+"));
}

#[test]
fn decimal_refuses_a_point_at_an_end() {
    assert!(!is_decimal_text(".5"));
    assert!(!is_decimal_text("5."));
    assert!(!is_decimal_text("-.5"));
    assert!(!is_decimal_text("-5."));
}

#[test]
fn decimal_refuses_two_points_and_stray_signs() {
    assert!(!is_decimal_text("1.2.3"));
    assert!(!is_decimal_text("1..2"));
    assert!(!is_decimal_text("--1"));
    assert!(!is_decimal_text("1-2"));
    assert!(!is_decimal_text("1-"));
    assert!(!is_decimal_text("+1"));
}

#[test]
fn decimal_refuses_what_would_break_a_query() {
    assert!(!is_decimal_text("1&x=2"));
    assert!(!is_decimal_text("1#"));
    assert!(!is_decimal_text("1 "));
    assert!(!is_decimal_text(" 1"));
    assert!(!is_decimal_text("1e5"));
    assert!(!is_decimal_text("abc"));
    assert!(!is_decimal_text("12a"));
    assert!(!is_decimal_text("１２"));
    assert!(!is_decimal_text("1,5"));
}

#[test]
fn every_number_written_out_is_decimal() {
    let numbers: [f32; 22] = [
        0.0, -0.0, 1.0, -1.0, 52.52, 13.41, 0.1, -0.1, 1.5e-7, 3.4e38, -3.4e38, 1e10, 0.3,
        90.0, -180.0, 123456.79, 1.17549435e-38, 1e-45, 16777216.0,
        std::f32::consts::PI,
        // the three that are no ordinary numbers
        f32::INFINITY, f32::NEG_INFINITY,
    ];
    for v in numbers {
        let text = v.to_string();
        assert!(is_decimal_text(&text), "{:?}", text);
    }
    assert!(is_decimal_text(&f32::NAN.to_string()));
    assert!(is_decimal_text(&f32::MAX.to_string()));
    assert!(is_decimal_text(&f32::MIN.to_string()));
    assert!(is_decimal_text(&f32::MIN_POSITIVE.to_string()));
    assert!(is_decimal_text(&f32::EPSILON.to_string()));
}

#[test]
fn many_numbers_written_out_are_decimal() {
    let mut bits: u32 = 1;
    for _ in 0..200_000 {
        bits = bits.wrapping_mul(1_664_525).wrapping_add(1_013_904_223);
        let text = f32::from_bits(bits).to_string();
        assert!(is_decimal_text(&text), "{:?}", text);
    }
}

#[test]
fn zero_is_written_0() {
    assert_eq!(Coordinate::zero().as_str(), "0");
    assert_eq!(Coordinate::zero().as_str(), 0.0f32.to_string());
}

#[test]
fn from_decimal_keeps_the_text() {
    assert_eq!(Coordinate::from_decimal("52.52").unwrap().as_str(), "52.52");
    assert_eq!(Coordinate::from_decimal("-0").unwrap().as_str(), "-0");
    assert_eq!(Coordinate::from_decimal("NaN").unwrap().as_str(), "NaN");
}

#[test]
fn from_decimal_refuses_what_is_no_number() {
    assert!(Coordinate::from_decimal("abc").is_none());
    assert!(Coordinate::from_decimal("").is_none());
    assert!(Coordinate::from_decimal("1&current_weather=true").is_none());
}

#[test]
fn from_reading_takes_a_number() {
    let (c, fell_back) = Coordinate::from_reading(Some("13.41"));
    assert_eq!(c.as_str(), "13.41");
    assert!(!fell_back);
}

#[test]
fn from_reading_falls_back_to_zero_without_a_reading() {
    let (c, fell_back) = Coordinate::from_reading(None);
    assert_eq!(c.as_str(), "0");
    assert!(fell_back);
}

#[test]
fn from_reading_falls_back_to_zero_on_what_is_no_number() {
    let (c, fell_back) = Coordinate::from_reading(Some("abc"));
    assert_eq!(c.as_str(), "0");
    assert!(fell_back);
    let (c, fell_back) = Coordinate::from_reading(Some(""));
    assert_eq!(c.as_str(), "0");
    assert!(fell_back);
}

#[test]
fn clone_keeps_the_text() {
    let c = Coordinate::from_decimal("-33.87").unwrap();
    assert_eq!(c.clone().as_str(), "-33.87");
}
