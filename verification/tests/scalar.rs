use tray_rust::scalar::Real;
use tray_rust::scalar::{INFINITY_MAGNITUDE, NEGATIVE_ZERO_BITS, ONE_BITS, SIGN_BIT, TWO_BITS, ZERO_BITS};

fn num(x: f64) -> Real {
    Real { bits: x.to_bits() }
}

fn samples() -> Vec<f64> {
    vec![
        f64::NEG_INFINITY,
        f64::MIN,
        -1.0e300,
        -2.5,
        -2.0,
        -1.0,
        -1.0e-300,
        -f64::MIN_POSITIVE,
        -5e-324,
        -0.0,
        0.0,
        5e-324,
        f64::MIN_POSITIVE,
        1.0e-300,
        0.5,
        1.0,
        1.0000000000000002,
        1.5,
        2.0,
        1.0e300,
        f64::MAX,
        f64::INFINITY,
        f64::NAN,
        -f64::NAN,
    ]
}

#[test]
fn the_named_patterns_are_those_of_the_numbers() {
    assert_eq!(ZERO_BITS, 0.0f64.to_bits());
    assert_eq!(NEGATIVE_ZERO_BITS, (-0.0f64).to_bits());
    assert_eq!(ONE_BITS, 1.0f64.to_bits());
    assert_eq!(TWO_BITS, 2.0f64.to_bits());
    assert_eq!(SIGN_BIT, (-0.0f64).to_bits());
    assert_eq!(INFINITY_MAGNITUDE, f64::INFINITY.to_bits());
    assert_eq!(Real::zero(), num(0.0));
    assert_eq!(Real::one(), num(1.0));
    assert_eq!(Real::two(), num(2.0));
    assert_eq!(Real::from_bits(ONE_BITS).to_bits(), ONE_BITS);
}

#[test]
fn zero_valued_is_equality_with_zero() {
    for x in samples() {
        assert_eq!(num(x).zero_valued(), x == 0.0, "{}", x);
    }
}

#[test]
fn nan_is_what_stands_for_no_number() {
    for x in samples() {
        assert_eq!(num(x).nan(), x.is_nan(), "{}", x);
    }
    assert!(Real { bits: 0x7FF0_0000_0000_0001 }.nan());
    assert!(Real { bits: 0xFFFF_FFFF_FFFF_FFFF }.nan());
    assert!(!Real { bits: 0x7FF0_0000_0000_0000 }.nan());
    assert!(!Real { bits: 0xFFF0_0000_0000_0000 }.nan());
}

#[test]
fn is_positive_is_the_order_against_zero() {
    for x in samples() {
        assert_eq!(num(x).is_positive(), x > 0.0, "{}", x);
    }
}

#[test]
fn less_than_is_the_order_of_the_numbers() {
    for x in samples() {
        for y in samples() {
            assert_eq!(num(x).less_than(&num(y)), x < y, "{} < {}", x, y);
        }
    }
}

#[test]
fn same_as_is_the_equality_of_the_numbers() {
    for x in samples() {
        for y in samples() {
            assert_eq!(num(x).same_as(&num(y)), x == y, "{} == {}", x, y);
        }
    }
}
