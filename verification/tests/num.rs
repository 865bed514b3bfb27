use a121_rs::num::AccComplex;
use a121_rs::num::Float32;
use a121_rs::num::Points;

fn float(value: f32) -> Float32 {
    Float32::from_bits(value.to_bits())
}

fn samples() -> Vec<f32> {
    vec![
        0.0,
        -0.0,
        1.0,
        -1.0,
        0.5,
        -0.5,
        -10.0,
        -10.000001,
        -9.999999,
        35.0,
        35.000004,
        34.999996,
        15.0,
        1e-40,
        -1e-40,
        f32::MIN_POSITIVE,
        f32::MAX,
        f32::MIN,
        f32::INFINITY,
        f32::NEG_INFINITY,
        f32::NAN,
        -f32::NAN,
        f32::from_bits(0x7f80_0001),
        f32::from_bits(0xffff_ffff),
        3.1,
        24.3,
        1e10,
        -1e10,
    ]
}

#[test]
fn float_bit_patterns_round_trip() {
    for value in samples() {
        assert_eq!(float(value).to_bits(), value.to_bits());
    }
    assert_eq!(Float32::from_bits(0x3f80_0000).to_bits(), 1.0f32.to_bits());
}

#[test]
fn float_zero_sign_and_nan_agree_with_the_hardware() {
    for value in samples() {
        assert_eq!(float(value).is_zero(), value == 0.0, "is_zero {value}");
        assert_eq!(float(value).is_sign_negative(), value.is_sign_negative(), "sign {value}");
        assert_eq!(float(value).is_nan(), value.is_nan(), "nan {value}");
        assert_eq!(float(value).is_positive(), value > 0.0, "positive {value}");
    }
}

#[test]
fn float_order_agrees_with_the_hardware() {
    for a in samples() {
        for b in samples() {
            assert_eq!(float(a).lt(&float(b)), a < b, "{a} < {b}");
        }
    }
}

#[test]
fn float_clamp_agrees_with_the_hardware() {
    let bounds = [(-10.0f32, 35.0f32), (0.0, 1.0), (-0.0, 0.0), (2.0, 2.0), (f32::NEG_INFINITY, 0.0)];
    for (min, max) in bounds {
        for value in samples() {
            let expected = value.clamp(min, max);
            let clamped = float(value).clamp(float(min), float(max));
            assert_eq!(clamped.to_bits(), expected.to_bits(), "{value} in {min}..{max}");
        }
    }
}

#[test]
fn float_clamp_examples() {
    assert_eq!(float(50.0).clamp(float(-10.0), float(35.0)), float(35.0));
    assert_eq!(float(-50.0).clamp(float(-10.0), float(35.0)), float(-10.0));
    assert_eq!(float(15.0).clamp(float(-10.0), float(35.0)), float(15.0));
    assert!(float(f32::NAN).clamp(float(0.0), float(1.0)).is_nan());
}

#[test]
fn complex_sample_starts_at_zero() {
    assert_eq!(AccComplex::new(), AccComplex { real: 0, imag: 0 });
    assert_eq!(AccComplex::default(), AccComplex { real: 0, imag: 0 });
}

#[test]
fn points_hold_their_number() {
    assert_eq!(Points::new(-12).points, -12);
    assert_eq!(Points::new(i32::MAX).points, i32::MAX);
    assert_eq!(Points::default().points, 0);
}
