use zodiacal_web::binary64::Binary64;

fn b(x: f64) -> Binary64 {
    Binary64::from_bits(x.to_bits())
}

#[test]
fn comparisons_agree_with_ieee() {
    let values = [
        0.0,
        -0.0,
        1.0,
        -1.0,
        0.1,
        0.2,
        -55.8,
        213.5,
        f64::MIN_POSITIVE,
        f64::MAX,
        f64::MIN,
        f64::INFINITY,
        f64::NEG_INFINITY,
        f64::NAN,
        -f64::NAN,
        5e-324,
    ];
    for &x in &values {
        assert_eq!(b(x).is_nan(), x.is_nan(), "{x}");
        assert_eq!(b(x).is_finite(), x.is_finite(), "{x}");
        assert_eq!(b(x).is_positive(), x > 0.0, "{x}");
        for &y in &values {
            assert_eq!(b(x).gt(&b(y)), x > y, "{x} > {y}");
            assert_eq!(b(x).ge(&b(y)), x >= y, "{x} >= {y}");
        }
    }
}

#[test]
fn zero_is_positive_zero() {
    assert_eq!(Binary64::zero().to_bits(), 0.0f64.to_bits());
}

#[test]
fn bits_round_trip() {
    let x = 123.456f64;
    assert_eq!(f64::from_bits(b(x).to_bits()), x);
}
