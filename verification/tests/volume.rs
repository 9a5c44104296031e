use renarrator::volume::Volume;

fn vol(value: f32) -> Volume {
    Volume { bits: value.to_bits() }
}

#[test]
fn unit_range_agrees_with_floats() {
    let values = [
        0.0,
        -0.0,
        1.0,
        0.5,
        f32::MIN_POSITIVE,
        1.0e-45,
        -1.0e-45,
        0.999_999_94,
        1.000_000_1,
        -0.2,
        1.5,
        f32::MAX,
        f32::MIN,
        f32::INFINITY,
        f32::NEG_INFINITY,
        f32::NAN,
        -f32::NAN,
    ];
    for value in values {
        assert_eq!(vol(value).is_unit(), (0.0..=1.0).contains(&value), "{value}");
        assert_eq!(
            vol(value).clamp_unit().bits,
            value.clamp(0.0, 1.0).to_bits(),
            "{value}"
        );
    }
}

#[test]
fn clamping_twice_is_clamping_once() {
    for value in [-3.0, 0.25, 7.0] {
        let once = vol(value).clamp_unit();
        assert!(once.is_unit());
        assert_eq!(once.clamp_unit(), once);
    }
    assert_eq!(vol(2.0).clamp_unit(), vol(1.0));
    assert_eq!(vol(-2.0).clamp_unit(), vol(0.0));
}

#[test]
fn equality_is_that_of_floats() {
    let values = [
        0.0,
        -0.0,
        1.0e-45,
        -1.0e-45,
        f32::MIN_POSITIVE,
        0.5,
        -0.5,
        1.0,
        f32::MAX,
        f32::INFINITY,
        f32::NEG_INFINITY,
        f32::NAN,
        -f32::NAN,
    ];
    for a in values {
        for b in values {
            assert_eq!(vol(a) == vol(b), a == b, "{a} {b}");
        }
    }
}
