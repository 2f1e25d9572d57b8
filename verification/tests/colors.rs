use deferred_demo::colors::brown;
use deferred_demo::colors::dark_blue;
use deferred_demo::colors::light_blue;
use deferred_demo::colors::light_green;
use deferred_demo::colors::light_red;
use deferred_demo::colors::light_yellow;
use deferred_demo::colors::white;
use deferred_demo::colors::Color;
use deferred_demo::scalar::Scalar;

fn channels(color: Color) -> [f32; 4] {
    let bits = color.into_with_a();
    [
        f32::from_bits(bits[0].to_bits()),
        f32::from_bits(bits[1].to_bits()),
        f32::from_bits(bits[2].to_bits()),
        f32::from_bits(bits[3].to_bits()),
    ]
}

#[test]
fn palette_holds_the_documented_channels() {
    assert_eq!(channels(light_blue()), [0.203, 0.59375, 0.85547, 1.0]);
    assert_eq!(channels(dark_blue()), [0.1601, 0.5, 0.72265, 1.0]);
    assert_eq!(channels(light_green()), [0.17968, 0.7968, 0.4414, 1.0]);
    assert_eq!(channels(light_red()), [0.905, 0.298, 0.235, 1.0]);
    assert_eq!(channels(light_yellow()), [0.943, 0.768, 0.059, 1.0]);
    assert_eq!(channels(white()), [0.925, 0.941, 0.943, 1.0]);
    assert_eq!(channels(brown()), [0.2421, 0.1406, 0.1406, 1.0]);
}

#[test]
fn into_drops_alpha() {
    let color = Color::from_bits(1, 2, 3, 4);
    assert_eq!(
        color.into(),
        [Scalar::from_bits(1), Scalar::from_bits(2), Scalar::from_bits(3)]
    );
}

#[test]
fn into_with_a_keeps_all_channels() {
    let color = Color::from_bits(1, 2, 3, 4);
    assert_eq!(
        color.into_with_a(),
        [
            Scalar::from_bits(1),
            Scalar::from_bits(2),
            Scalar::from_bits(3),
            Scalar::from_bits(4)
        ]
    );
}
