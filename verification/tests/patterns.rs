//! The pattern-level comparisons, held against the machine's own
//! single-precision arithmetic.
use complex::binary32::{below_zero, equal, negate, INFINITY, MINUS_ONE, ONE, SIGN, ZERO};

fn samples() -> Vec<f32> {
    vec![
        0.0,
        -0.0,
        1.0,
        -1.0,
        2.0,
        -2.0,
        0.5,
        -0.5,
        3.0,
        0.1,
        -0.1,
        1.0e-45,
        -1.0e-45,
        1.1754942e-38,
        1.17549435e-38,
        -1.17549435e-38,
        16777216.0,
        16777218.0,
        f32::MAX,
        f32::MIN,
        f32::EPSILON,
        f32::INFINITY,
        f32::NEG_INFINITY,
        f32::NAN,
        -f32::NAN,
        f32::from_bits(0x7f80_0001),
        f32::from_bits(0xff80_0001),
        f32::from_bits(0x7fff_ffff),
        f32::from_bits(0xffff_ffff),
    ]
}

#[test]
fn named_patterns_are_the_numbers_they_name() {
    assert_eq!(ZERO, 0.0f32.to_bits());
    assert_eq!(ONE, 1.0f32.to_bits());
    assert_eq!(MINUS_ONE, (-1.0f32).to_bits());
    assert_eq!(SIGN, (-0.0f32).to_bits());
    assert_eq!(INFINITY, f32::INFINITY.to_bits());
}

#[test]
fn equal_agrees_with_the_machine_on_every_pair() {
    for a in samples() {
        for b in samples() {
            assert_eq!(equal(a.to_bits(), b.to_bits()), a == b, "{:?} and {:?}", a, b);
        }
    }
}

#[test]
fn equal_takes_the_two_zeros_for_one_number() {
    assert!(equal(ZERO, SIGN));
    assert!(equal(SIGN, ZERO));
    assert!(equal(SIGN, SIGN));
}

#[test]
fn equal_never_holds_of_a_nan() {
    let nan: u32 = 0x7fc0_0000;
    assert!(!equal(nan, nan));
    assert!(!equal(nan, ZERO));
    assert!(!equal(ONE, nan));
    assert!(!equal(0x7f80_0001, 0x7f80_0001));
    assert!(!equal(0xffff_ffff, 0xffff_ffff));
}

#[test]
fn equal_tells_neighbouring_patterns_apart() {
    assert!(!equal(ONE, ONE + 1));
    assert!(!equal(1, 2));
    assert!(!equal(ONE, MINUS_ONE));
    assert!(!equal(INFINITY, INFINITY | SIGN));
    assert!(equal(INFINITY, INFINITY));
    assert!(!equal(0x7f7f_ffff, INFINITY));
}

#[test]
fn below_zero_agrees_with_the_machine() {
    for a in samples() {
        assert_eq!(below_zero(a.to_bits()), a < 0.0, "{:?}", a);
    }
}

#[test]
fn below_zero_at_the_edges() {
    assert!(!below_zero(ZERO));
    assert!(!below_zero(SIGN));
    assert!(below_zero(SIGN + 1));
    assert!(below_zero(MINUS_ONE));
    assert!(below_zero(0xff80_0000));
    assert!(!below_zero(0xff80_0001));
    assert!(!below_zero(INFINITY));
    assert!(!below_zero(ONE));
}

#[test]
fn negate_agrees_with_the_machine() {
    for a in samples() {
        assert_eq!(negate(a.to_bits()), (-a).to_bits(), "{:?}", a);
    }
}

#[test]
fn negate_inverts_the_sign_bit_alone() {
    assert_eq!(negate(ZERO), SIGN);
    assert_eq!(negate(SIGN), ZERO);
    assert_eq!(negate(ONE), MINUS_ONE);
    assert_eq!(negate(MINUS_ONE), ONE);
    assert_eq!(negate(0x7fc0_0001), 0xffc0_0001);
    assert_eq!(negate(negate(0x1234_5678)), 0x1234_5678);
}
