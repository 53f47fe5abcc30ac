use flight_dynamics::scalar::Scalar;

fn s(v: f32) -> Scalar {
    Scalar::from_bits(v.to_bits())
}

fn samples() -> Vec<f32> {
    vec![
        f32::NEG_INFINITY,
        f32::MIN,
        -500.0,
        -5.0,
        -1.0,
        -f32::MIN_POSITIVE,
        -1.0e-45,
        -0.0,
        0.0,
        1.0e-45,
        f32::MIN_POSITIVE,
        0.99,
        1.0,
        49.0,
        500.0,
        f32::MAX,
        f32::INFINITY,
        f32::NAN,
        -f32::NAN,
    ]
}

#[test]
fn bits_go_in_and_come_out() {
    assert_eq!(Scalar::from_bits(0x3f80_0000).to_bits(), 0x3f80_0000);
    assert_eq!(s(1.0).to_bits(), 0x3f80_0000);
    assert_eq!(Scalar::zero().to_bits(), 0);
    assert_eq!(Scalar::zero(), s(0.0));
}

#[test]
fn is_nan_agrees_with_the_number() {
    for v in samples() {
        assert_eq!(s(v).is_nan(), v.is_nan(), "{}", v);
    }
    assert!(Scalar::from_bits(0x7f80_0001).is_nan());
    assert!(!Scalar::from_bits(0x7f80_0000).is_nan());
    assert!(Scalar::from_bits(0xffff_ffff).is_nan());
}

#[test]
fn comparisons_agree_with_the_numbers() {
    for a in samples() {
        for b in samples() {
            assert_eq!(s(a).lt(s(b)), a < b, "{} < {}", a, b);
            assert_eq!(s(a).le(s(b)), a <= b, "{} <= {}", a, b);
            assert_eq!(s(a).gt(s(b)), a > b, "{} > {}", a, b);
            assert_eq!(s(a).ge(s(b)), a >= b, "{} >= {}", a, b);
        }
    }
}

#[test]
fn the_two_zeros_are_equal_in_order() {
    assert!(s(0.0).le(s(-0.0)));
    assert!(s(-0.0).le(s(0.0)));
    assert!(!s(-0.0).lt(s(0.0)));
    assert_ne!(s(0.0), s(-0.0));
}

#[test]
fn neg_flips_the_sign_only() {
    for v in samples() {
        assert_eq!(s(v).neg().to_bits(), (-v).to_bits(), "{}", v);
    }
    assert_eq!(s(1000.0).neg(), s(-1000.0));
    assert_eq!(s(0.0).neg(), s(-0.0));
}
