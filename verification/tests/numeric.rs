use ecs_core::{Double, Single};

fn single(value: f32) -> Single {
    Single::from_bits(value.to_bits())
}

#[test]
fn encodings_of_the_units() {
    assert_eq!(Single::zero().to_bits(), 0.0f32.to_bits());
    assert_eq!(Single::one().to_bits(), 1.0f32.to_bits());
    assert_eq!(Single::neg_one().to_bits(), (-1.0f32).to_bits());
}

#[test]
fn bits_round_trip() {
    assert_eq!(Single::from_bits(0x1234_5678).to_bits(), 0x1234_5678);
    assert_eq!(Single::from_bits(0x1234_5678).bits, 0x1234_5678);
    assert_eq!(Double::from_bits(0x1234_5678_9ABC_DEF0).to_bits(), 0x1234_5678_9ABC_DEF0);
    assert_eq!(Double::from_bits(2.5f64.to_bits()).bits, 2.5f64.to_bits());
}

#[test]
fn both_zeros_are_zero() {
    assert!(single(0.0).is_zero());
    assert!(single(-0.0).is_zero());
    assert!(!single(1.0).is_zero());
    assert!(!single(f32::MIN_POSITIVE).is_zero());
    assert!(!Single::from_bits(1).is_zero());
    assert!(!single(f32::NAN).is_zero());
}

#[test]
fn nan_is_told_from_infinity() {
    assert!(single(f32::NAN).is_nan());
    assert!(Single::from_bits(0x7F80_0001).is_nan());
    assert!(Single::from_bits(0xFFFF_FFFF).is_nan());
    assert!(!single(f32::INFINITY).is_nan());
    assert!(!single(f32::NEG_INFINITY).is_nan());
    assert!(!single(f32::MAX).is_nan());
    assert!(!single(0.0).is_nan());
}

#[test]
fn truncation_of_chosen_values() {
    assert_eq!(single(0.0).to_i32(), 0);
    assert_eq!(single(-0.0).to_i32(), 0);
    assert_eq!(single(0.99).to_i32(), 0);
    assert_eq!(single(-0.99).to_i32(), 0);
    assert_eq!(single(1.0).to_i32(), 1);
    assert_eq!(single(-1.0).to_i32(), -1);
    assert_eq!(single(10.0).to_i32(), 10);
    assert_eq!(single(10.3535).to_i32(), 10);
    assert_eq!(single(-10.9).to_i32(), -10);
    assert_eq!(single(50.5).to_i32(), 50);
    assert_eq!(single(8388608.0).to_i32(), 8388608);
    assert_eq!(single(16777216.0).to_i32(), 16777216);
    assert_eq!(single(2147483520.0).to_i32(), 2147483520);
    assert_eq!(single(-2147483520.0).to_i32(), -2147483520);
}

#[test]
fn truncation_saturates() {
    assert_eq!(single(2147483648.0).to_i32(), i32::MAX);
    assert_eq!(single(-2147483648.0).to_i32(), i32::MIN);
    assert_eq!(single(4294967296.0).to_i32(), i32::MAX);
    assert_eq!(single(f32::MAX).to_i32(), i32::MAX);
    assert_eq!(single(f32::MIN).to_i32(), i32::MIN);
    assert_eq!(single(f32::INFINITY).to_i32(), i32::MAX);
    assert_eq!(single(f32::NEG_INFINITY).to_i32(), i32::MIN);
}

#[test]
fn truncation_of_nan_is_zero() {
    assert_eq!(single(f32::NAN).to_i32(), 0);
    assert_eq!(Single::from_bits(0x7F80_0001).to_i32(), 0);
    assert_eq!(Single::from_bits(0xFFC0_0000).to_i32(), 0);
}

#[test]
fn truncation_of_subnormals_is_zero() {
    assert_eq!(Single::from_bits(1).to_i32(), 0);
    assert_eq!(Single::from_bits(0x007F_FFFF).to_i32(), 0);
    assert_eq!(Single::from_bits(0x807F_FFFF).to_i32(), 0);
}

#[test]
fn truncation_agrees_with_the_cast_at_every_exponent() {
    for exponent in 0u32..256 {
        for fraction in [0u32, 1, 0x20_0000, 0x40_0000, 0x55_5555, 0x7F_FFFE, 0x7F_FFFF] {
            for sign in [0u32, 0x8000_0000] {
                let bits = sign | (exponent << 23) | fraction;
                let expected = f32::from_bits(bits) as i32;
                assert_eq!(Single::from_bits(bits).to_i32(), expected, "bits {:#x}", bits);
            }
        }
    }
}

#[test]
fn truncation_agrees_with_the_cast_on_scattered_values() {
    let mut state: u32 = 0x9E37_79B9;
    for _ in 0..200_000 {
        state = state.wrapping_mul(1_664_525).wrapping_add(1_013_904_223);
        let expected = f32::from_bits(state) as i32;
        assert_eq!(Single::from_bits(state).to_i32(), expected, "bits {:#x}", state);
    }
}

#[test]
fn truncation_agrees_with_the_cast_near_whole_numbers() {
    for whole in -2000i32..2000 {
        for offset in [-0.75f32, -0.5, -0.25, 0.0, 0.25, 0.5, 0.75] {
            let value = whole as f32 + offset;
            assert_eq!(single(value).to_i32(), value as i32, "value {}", value);
        }
    }
}
