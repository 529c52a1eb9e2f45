use pallet_ocw::permill::Permill;
use pallet_ocw::price::{can_parse_price, parse_price};

fn read(price: &str) -> (u64, u32) {
    assert!(can_parse_price(price));
    let (units, fraction) = parse_price(price).unwrap();
    (units, fraction.deconstruct())
}

#[test]
fn reads_the_expected_price() {
    assert_eq!(read("33.2564125398239201"), (33, 256412));
}

#[test]
fn cuts_off_behind_six_places() {
    assert_eq!(read("0.9999999"), (0, 999_999));
    assert_eq!(read("7.000001999"), (7, 1));
    assert_eq!(read("7.123456"), (7, 123_456));
}

#[test]
fn counts_fewer_digits_from_the_point() {
    assert_eq!(read("33.5"), (33, 500_000));
    assert_eq!(read("33.25"), (33, 250_000));
    assert_eq!(read("33.00002"), (33, 20));
    assert_eq!(read("33.050"), (33, 50_000));
    assert_eq!(read("1.0"), (1, 0));
}

#[test]
fn stops_at_the_first_point_and_the_sixth_place() {
    assert_eq!(read("1.234567.8"), (1, 234_567));
    assert_eq!(read("1.234567 and more"), (1, 234_567));
}

#[test]
fn takes_a_plus_sign_as_numbers_do() {
    assert_eq!(read("+33.25"), (33, 250_000));
    assert_eq!(read("1.+5"), (1, 5));
    assert_eq!(read("33.+25"), (33, 25));
    assert_eq!(read("33.+12345"), (33, 12_345));
    assert_eq!(read("33.+2345678"), (33, 23_456));
}

#[test]
fn reads_the_largest_number_of_units() {
    assert_eq!(read("18446744073709551615.5"), (u64::MAX, 500_000));
    assert!(!can_parse_price("18446744073709551616.5"));
}

#[test]
fn agrees_with_the_standard_library_on_numbers() {
    for text in ["0", "7", "007", "+7", "+", "", "-7", "7a", "++7", "4294967295", "99999999999999999999"] {
        let expected: Option<u64> = text.parse().ok();
        let price = format!("{}.5", text);
        assert_eq!(can_parse_price(&price), expected.is_some(), "{}", price);
        if let Some(units) = expected {
            assert_eq!(read(&price), (units, 500_000));
        }
    }
}

#[test]
fn tells_what_is_no_price() {
    for text in ["", ".", "33", "33.", ".25", "33,25", "-1.5", "1.2x", "1.23456x", "a.b", "1.é"] {
        assert!(!can_parse_price(text), "{}", text);
    }
}

#[test]
fn fractions_stop_at_a_whole() {
    assert_eq!(Permill::from_parts(256_412).deconstruct(), 256_412);
    assert_eq!(Permill::from_parts(1_000_000).deconstruct(), 1_000_000);
    assert_eq!(Permill::from_parts(1_000_001).deconstruct(), 1_000_000);
    assert_eq!(Permill::from_parts(u32::MAX).deconstruct(), 1_000_000);
    assert_eq!(Permill::from_parts(1_000_000), Permill::from_parts(2_000_000));
}
