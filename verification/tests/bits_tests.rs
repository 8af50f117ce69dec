use playback_core::bits::{clamp_unit, hard_limit, near_unity, BELOW_ONE_BITS, ONE_BITS};

#[test]
fn one_bits_is_one() {
    assert_eq!(ONE_BITS, 1.0f32.to_bits());
    assert_eq!(BELOW_ONE_BITS, 1.0f32.to_bits() - 1);
}

#[test]
fn hard_limit_passes_small_samples() {
    for v in [0.0f32, 0.5, -0.5, 0.99, -0.99, 0.001, -0.000001] {
        assert_eq!(hard_limit(v.to_bits()), v.to_bits());
    }
    // -0.0 passes through with its sign bit intact
    assert_eq!(hard_limit((-0.0f32).to_bits()), (-0.0f32).to_bits());
}

#[test]
fn hard_limit_clamps_loud_samples() {
    assert_eq!(hard_limit(1.5f32.to_bits()), 0.99f32.to_bits());
    assert_eq!(hard_limit((-2.0f32).to_bits()), (-0.99f32).to_bits());
    assert_eq!(hard_limit(0.991f32.to_bits()), 0.99f32.to_bits());
    assert_eq!(hard_limit(1.0f32.to_bits()), 0.99f32.to_bits());
}

#[test]
fn hard_limit_masks_non_finite() {
    assert_eq!(hard_limit(f32::NAN.to_bits()), 0.0f32.to_bits());
    assert_eq!(hard_limit(f32::INFINITY.to_bits()), 0.0f32.to_bits());
    assert_eq!(hard_limit(f32::NEG_INFINITY.to_bits()), 0.0f32.to_bits());
}

#[test]
fn hard_limit_bounded_on_sweep() {
    // the hard limiter law, checked on concrete values
    let mut v: f32 = -1000.0;
    while v < 1000.0 {
        let out = f32::from_bits(hard_limit(v.to_bits()));
        assert!(out.abs() <= 0.99);
        v += 0.37;
    }
}

#[test]
fn near_unity_matches_epsilon_band() {
    // exactly the floats within f32::EPSILON of 1.0
    let mut count = 0u32;
    for delta in [-3i32, -2, -1, 0, 1, 2, 3] {
        let bits = (1.0f32.to_bits() as i64 + delta as i64) as u32;
        let v = f32::from_bits(bits);
        let in_band = (v - 1.0).abs() < f32::EPSILON;
        assert_eq!(near_unity(bits), in_band);
        if in_band {
            count += 1;
        }
    }
    assert_eq!(count, 2);
    assert!(!near_unity(0.999f32.to_bits()));
    assert!(!near_unity(0.0f32.to_bits()));
}

#[test]
fn clamp_unit_matches_float_clamp() {
    for v in [0.5f32, -0.5, 1.5, 0.0, -0.0, 1.0, 2000.0, f32::INFINITY, f32::NEG_INFINITY] {
        assert_eq!(clamp_unit(v.to_bits()), v.clamp(0.0, 1.0).to_bits());
    }
    // NaN keeps its own bits, as f32::clamp returns self for NaN
    let nan_bits = f32::NAN.to_bits();
    assert_eq!(clamp_unit(nan_bits), nan_bits);
}
