use battery_status::decimal::{append_decimal, read_integer, read_natural};
use battery_status::Quantity;

fn volts(q: &Quantity) -> f64 {
    let magnitude = q.whole() as f64 + q.fraction() as f64 / 1_000_000.0;
    if q.negative {
        -magnitude
    } else {
        magnitude
    }
}

#[test]
fn a_natural_is_digits_with_an_optional_plus() {
    assert_eq!(read_natural("80"), Some(80));
    assert_eq!(read_natural("+80"), Some(80));
    assert_eq!(read_natural("0"), Some(0));
    assert_eq!(read_natural("007"), Some(7));
    assert_eq!(read_natural("100"), Some(100));
}

#[test]
fn a_natural_is_nothing_else() {
    for raw in ["", "+", "-", "-0", "-5", "8 0", " 80", "80 ", "8_0", "80%", "eighty", "0x10", "1.0", "++1"] {
        assert_eq!(read_natural(raw), None);
    }
}

#[test]
fn a_natural_agrees_with_the_standard_parse() {
    for raw in ["0", "+0", "12", "+12", "-12", "", "+", "4294967295", "4294967296",
        "18446744073709551615", "18446744073709551616", "99999999999999999999999", "1a", "a1"]
    {
        assert_eq!(read_natural(raw), raw.parse::<usize>().ok());
    }
}

#[test]
fn an_integer_is_digits_with_an_optional_sign() {
    assert_eq!(read_integer("12000000"), Some((false, 12_000_000)));
    assert_eq!(read_integer("+12"), Some((false, 12)));
    assert_eq!(read_integer("-12"), Some((true, 12)));
    assert_eq!(read_integer("-0"), Some((true, 0)));
    assert_eq!(read_integer("18446744073709551615"), Some((false, u64::MAX)));
    assert_eq!(read_integer("-18446744073709551615"), Some((true, u64::MAX)));
    assert_eq!(read_integer("000000000000000000000000001"), Some((false, 1)));
}

#[test]
fn an_integer_is_nothing_else() {
    for raw in ["", "+", "-", "+-1", "--1", "1-", "12.5", "1e6", "inf", "NaN", " 1", "1 ", "١٢"] {
        assert_eq!(read_integer(raw), None);
    }
}

#[test]
fn a_magnitude_beyond_sixty_four_bits_is_refused() {
    assert_eq!(read_integer("18446744073709551616"), None);
    assert_eq!(read_integer("18446744073709551620"), None);
    assert_eq!(read_integer("-18446744073709551616"), None);
    assert_eq!(read_integer("100000000000000000000"), None);
    assert_eq!(read_integer("99999999999999999999x"), None);
}

#[test]
fn a_number_is_written_in_the_shortest_form() {
    for n in [0u64, 1, 9, 10, 11, 99, 100, 101, 1700000000, u64::MAX] {
        let mut out = String::from(">");
        append_decimal(&mut out, n);
        assert_eq!(out, format!(">{}", n));
    }
}

#[test]
fn a_fraction_is_written_without_trailing_zeros() {
    let cases = [(0u64, "0"), (500_000, "0.5"), (250_000, "0.25"), (1, "0.000001"), (10, "0.00001"),
        (999_999, "0.999999"), (100_000, "0.1"), (123_400, "0.1234"), (345_678, "0.345678"),
        (1_000_000, "1"), (1_010_000, "1.01")];
    for (micro, expected) in cases {
        assert_eq!(Quantity { negative: false, micro }.to_string(), expected);
    }
}

#[test]
fn micro_units_become_base_units() {
    let q = Quantity::from_micro_text("12000000").unwrap();
    assert_eq!((q.negative, q.whole(), q.fraction()), (false, 12, 0));
    assert_eq!(volts(&q), 12.0);
    let q = Quantity::from_micro_text("45000000").unwrap();
    assert_eq!(volts(&q), 45.0);
    let q = Quantity::from_micro_text("12345678").unwrap();
    assert_eq!((q.whole(), q.fraction()), (12, 345_678));
    assert!((volts(&q) - 12.345678).abs() < 1e-9);
    let q = Quantity::from_micro_text("999999").unwrap();
    assert_eq!((q.whole(), q.fraction()), (0, 999_999));
    let q = Quantity::from_micro_text("-5500000").unwrap();
    assert_eq!((q.negative, q.whole(), q.fraction()), (true, 5, 500_000));
    assert_eq!(volts(&q), -5.5);
}

#[test]
fn the_conversion_agrees_with_floating_point_to_six_digits() {
    for raw in ["12000000", "45000000", "11400000", "57030000", "12354000", "3914000", "1", "999999", "0"] {
        let q = Quantity::from_micro_text(raw).unwrap();
        let expected = raw.parse::<f32>().unwrap() / 1_000_000.0;
        let got = volts(&q) as f32;
        assert!((got - expected).abs() <= expected.abs() * 1e-6);
        assert_eq!(q.to_string(), format!("{}", expected));
    }
}

#[test]
fn what_is_no_whole_number_of_micro_units_is_no_quantity() {
    for raw in ["", "abc", "12 V", "1.5", "1e6", "+", "-", "0x1F", "18446744073709551616"] {
        assert_eq!(Quantity::from_micro_text(raw), None);
    }
}

#[test]
fn a_quantity_is_written_in_base_units() {
    let cases = [("12000000", "12"), ("45000000", "45"), ("5500000", "5.5"), ("500000", "0.5"),
        ("1", "0.000001"), ("0", "0"), ("-0", "-0"), ("-5500000", "-5.5"), ("+7000000", "7"),
        ("12345678", "12.345678"), ("1000001", "1.000001"), ("10100000", "10.1"),
        ("18446744073709551615", "18446744073709.551615")];
    for (raw, expected) in cases {
        assert_eq!(Quantity::from_micro_text(raw).unwrap().to_string(), expected);
    }
}

#[test]
fn a_quantity_is_appended_to_what_is_there() {
    let mut out = String::from("U=");
    Quantity { negative: false, micro: 3_300_000 }.append_to(&mut out);
    assert_eq!(out, "U=3.3");
}
