use autonomous_navigation::scalar::Scalar;

fn s(x: f64) -> Scalar {
    Scalar::from_bits(x.to_bits())
}

fn numbers() -> Vec<f64> {
    vec![
        0.0,
        -0.0,
        1.0,
        -1.0,
        1.0 + f64::EPSILON,
        f64::MIN_POSITIVE,
        f64::MIN_POSITIVE / 4.0,
        -f64::MIN_POSITIVE / 4.0,
        5e-324,
        -5e-324,
        1e-9,
        900.0,
        -1e300,
        f64::MAX,
        f64::MIN,
        f64::INFINITY,
        f64::NEG_INFINITY,
        f64::NAN,
        -f64::NAN,
    ]
}

#[test]
fn comparisons_agree_with_the_numbers() {
    for &a in &numbers() {
        for &b in &numbers() {
            assert_eq!(s(a).lt(s(b)), a < b, "{a} < {b}");
            assert_eq!(s(a).le(s(b)), a <= b, "{a} <= {b}");
            assert_eq!(s(a).gt(s(b)), a > b, "{a} > {b}");
            assert_eq!(s(a).ge(s(b)), a >= b, "{a} >= {b}");
            assert_eq!(s(a).same(s(b)), a == b, "{a} == {b}");
        }
    }
}

#[test]
fn selection_agrees_with_the_numbers() {
    for &a in &numbers() {
        for &b in &numbers() {
            let (larger, smaller) = (f64::from_bits(s(a).max(s(b)).bits), f64::from_bits(s(a).min(s(b)).bits));
            assert!(larger == a.max(b) || larger.is_nan() && a.max(b).is_nan());
            assert!(smaller == a.min(b) || smaller.is_nan() && a.min(b).is_nan());
        }
    }
}

#[test]
fn classes_and_absolute_values() {
    for &a in &numbers() {
        assert_eq!(s(a).is_nan(), a.is_nan());
        assert_eq!(s(a).is_finite(), a.is_finite());
        assert_eq!(s(a).abs().bits, a.abs().to_bits());
    }
    assert_eq!(s(0.0).key(), s(-0.0).key());
    assert!(s(-2.0).key() < s(-1.0).key() && s(-1.0).key() < s(0.0).key() && s(0.0).key() < s(5e-324).key());
}
