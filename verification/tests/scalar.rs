use deferred_demo::scalar::Scalar;

fn scalar(value: f32) -> Scalar {
    Scalar::from_bits(value.to_bits())
}

fn samples() -> Vec<f32> {
    vec![
        0.0,
        -0.0,
        1.0,
        -1.0,
        0.5,
        -0.5,
        80.0,
        80.00001,
        79.99999,
        70.0,
        -5.0,
        -5.000001,
        -4.999999,
        1.0e-40,
        -1.0e-40,
        f32::MIN_POSITIVE,
        f32::MAX,
        f32::MIN,
        f32::INFINITY,
        f32::NEG_INFINITY,
        f32::NAN,
        -f32::NAN,
        f32::from_bits(0x7f80_0001),
        f32::from_bits(0xffff_ffff),
        3.25,
        -1234.5,
    ]
}

#[test]
fn bits_round_trip() {
    assert_eq!(Scalar::from_bits(0x42a0_0000).to_bits(), 0x42a0_0000);
    assert_eq!(scalar(80.0).to_bits(), 0x42a0_0000);
    assert_eq!(scalar(-5.0).bits, 0xc0a0_0000);
}

#[test]
fn greater_than_agrees_with_the_numbers() {
    let values = samples();
    for a in values.iter() {
        for b in values.iter() {
            assert_eq!(
                scalar(*a).is_greater_than(scalar(*b)),
                *a > *b,
                "{} > {}",
                a,
                b
            );
        }
    }
}

#[test]
fn zeros_are_equal_in_order() {
    assert!(!scalar(0.0).is_greater_than(scalar(-0.0)));
    assert!(!scalar(-0.0).is_greater_than(scalar(0.0)));
}

#[test]
fn nothing_compares_with_not_a_number() {
    assert!(!scalar(f32::NAN).is_greater_than(scalar(0.0)));
    assert!(!scalar(0.0).is_greater_than(scalar(f32::NAN)));
    assert!(!scalar(f32::INFINITY).is_greater_than(scalar(f32::NAN)));
}

#[test]
fn infinities_bound_the_numbers() {
    assert!(scalar(f32::INFINITY).is_greater_than(scalar(f32::MAX)));
    assert!(scalar(f32::MIN).is_greater_than(scalar(f32::NEG_INFINITY)));
    assert!(!scalar(f32::INFINITY).is_greater_than(scalar(f32::INFINITY)));
}
