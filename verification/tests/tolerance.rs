use game_sync::float_bits::{is_valid_tolerance, POSITIVE_INFINITY_BITS};

#[test]
fn game_tolerance_is_valid() {
    assert!(is_valid_tolerance(1e-4_f64.to_bits()));
    assert!(is_valid_tolerance(1.0_f64.to_bits()));
}

#[test]
fn extreme_positive_finite_values_are_valid() {
    assert!(is_valid_tolerance(f64::MIN_POSITIVE.to_bits()));
    assert!(is_valid_tolerance(f64::MAX.to_bits()));
    // smallest subnormal
    assert!(is_valid_tolerance(5e-324_f64.to_bits()));
    assert!(is_valid_tolerance(1));
    assert!(is_valid_tolerance(POSITIVE_INFINITY_BITS - 1));
}

#[test]
fn zeros_are_rejected() {
    assert!(!is_valid_tolerance(0.0_f64.to_bits()));
    assert!(!is_valid_tolerance((-0.0_f64).to_bits()));
}

#[test]
fn negative_values_are_rejected() {
    assert!(!is_valid_tolerance((-1e-4_f64).to_bits()));
    assert!(!is_valid_tolerance((-f64::MIN_POSITIVE).to_bits()));
    assert!(!is_valid_tolerance(f64::MIN.to_bits()));
}

#[test]
fn infinities_and_nan_are_rejected() {
    assert!(!is_valid_tolerance(f64::INFINITY.to_bits()));
    assert!(!is_valid_tolerance(f64::NEG_INFINITY.to_bits()));
    assert!(!is_valid_tolerance(f64::NAN.to_bits()));
    assert!(!is_valid_tolerance(u64::MAX));
    assert_eq!(f64::INFINITY.to_bits(), POSITIVE_INFINITY_BITS);
}

#[test]
fn bit_rule_agrees_with_float_comparison() {
    let samples = [
        0.0, -0.0, 1e-4, -1e-4, 1.5, f64::MAX, f64::MIN, f64::MIN_POSITIVE, 5e-324, -5e-324,
        f64::INFINITY, f64::NEG_INFINITY, f64::NAN, 123456.789, -3.25,
    ];
    for x in samples {
        let expected = x > 0.0 && x.is_finite();
        assert_eq!(is_valid_tolerance(x.to_bits()), expected, "sample {x:?}");
    }
}
