use heating_control::heating::{DEFAULT_CURRENT_TEMP_BITS, DEFAULT_TARGET_TEMP_BITS};
use heating_control::temperature::Temperature;

fn temp(degrees: f64) -> Temperature {
    Temperature::from_bits(degrees.to_bits())
}

#[test]
fn comparison_agrees_with_the_floats() {
    let samples: Vec<f64> = vec![
        f64::NEG_INFINITY,
        f64::MIN,
        -1.0e300,
        -21.5,
        -21.0,
        -1.0,
        -f64::MIN_POSITIVE,
        -5e-324,
        -0.0,
        0.0,
        5e-324,
        f64::MIN_POSITIVE / 2.0,
        f64::MIN_POSITIVE,
        0.1,
        0.5,
        1.0,
        1.0 + f64::EPSILON,
        19.5,
        20.999999999999996,
        21.0,
        21.000000000000004,
        22.0,
        1.0e300,
        f64::MAX,
        f64::INFINITY,
        f64::NAN,
        -f64::NAN,
    ];
    for a in samples.iter() {
        for b in samples.iter() {
            assert_eq!(temp(*a).lt(&temp(*b)), *a < *b, "{} < {}", a, b);
        }
    }
}

#[test]
fn classification_agrees_with_the_floats() {
    let samples: Vec<f64> = vec![
        f64::NEG_INFINITY,
        f64::MIN,
        -1.0,
        -0.0,
        0.0,
        5e-324,
        f64::MIN_POSITIVE,
        21.0,
        f64::MAX,
        f64::INFINITY,
        f64::NAN,
        -f64::NAN,
    ];
    for a in samples.iter() {
        assert_eq!(temp(*a).is_finite(), a.is_finite(), "{}", a);
        assert_eq!(temp(*a).is_nan(), a.is_nan(), "{}", a);
    }
}

#[test]
fn bits_round_trip() {
    assert_eq!(temp(19.5).to_bits(), 0x4033_8000_0000_0000);
    assert_eq!(Temperature::from_bits(0x4035_0000_0000_0000), temp(21.0));
    assert_eq!(f64::from_bits(temp(-3.25).to_bits()), -3.25);
}

#[test]
fn the_two_zeros_are_neither_below_the_other() {
    assert!(!temp(0.0).lt(&temp(-0.0)));
    assert!(!temp(-0.0).lt(&temp(0.0)));
    assert!(temp(-0.0).lt(&temp(5e-324)));
    assert!(temp(-5e-324).lt(&temp(0.0)));
}

#[test]
fn default_encodings_are_the_numbers_they_stand_for() {
    assert_eq!(DEFAULT_TARGET_TEMP_BITS, 21.0f64.to_bits());
    assert_eq!(DEFAULT_CURRENT_TEMP_BITS, 0.0f64.to_bits());
    assert!(Temperature::from_bits(DEFAULT_CURRENT_TEMP_BITS)
        .lt(&Temperature::from_bits(DEFAULT_TARGET_TEMP_BITS)));
}
