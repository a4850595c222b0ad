//! Filter primitive behavior, checked against exact fixed-point values.

use sympathetic_12::filters::{Allpass, Biquad, Comb, DCBlocker, OnePole};
use sympathetic_12::fixed::{clamp_fix, isqrt_fix, sin_fix, SCALE};

#[test]
fn one_pole_with_zero_coefficient_is_identity() {
    let mut f = OnePole::new(0);
    let stream = [250_000i64, -1_000_000, 999_999, 0, 123_456, -2_000_000];
    for &x in stream.iter() {
        assert_eq!(f.process(x), x);
    }
}

#[test]
fn one_pole_smooths_with_half_coefficient() {
    let mut f = OnePole::new(500_000);
    assert_eq!(f.process(1_000_000), 500_000);
    assert_eq!(f.process(1_000_000), 750_000);
    assert_eq!(f.process(1_000_000), 875_000);
}

#[test]
fn one_pole_coefficient_clamps_to_stability_range() {
    let mut f = OnePole::new(2_000_000);
    // clamped to 0.99, so b0 = 0.01 and the first output is x / 100
    assert_eq!(f.process(1_000_000), 10_000);
    let mut g = OnePole::new(-500_000);
    // clamped to 0, identity
    assert_eq!(g.process(777_777), 777_777);
}

#[test]
fn one_pole_reset_zeroes_state() {
    let mut f = OnePole::new(500_000);
    f.process(1_000_000);
    f.reset();
    let mut fresh = OnePole::new(500_000);
    for _ in 0..8 {
        assert_eq!(f.process(0), fresh.process(0));
    }
}

#[test]
fn dc_blocker_pole_from_cutoff() {
    let mut f = DCBlocker::new(10_000_000, 44100);
    // R = 1 - 2*pi*10/44100 in millionths, truncated: 998_576
    assert_eq!(f.process(1_000_000), 1_000_000);
    // second step: 1 - 1 + R * 1 = R
    assert_eq!(f.process(1_000_000), 998_576);
}

#[test]
fn dc_blocker_clamps_into_containment_band() {
    let mut f = DCBlocker::new(10_000_000, 44100);
    let y = f.process(1_900_000);
    let z = f.process(1_900_000);
    assert!(y.abs() <= 2_000_000);
    assert!(z.abs() <= 2_000_000);
}

#[test]
fn dc_blocker_after_reset_matches_fresh_on_zero_stream() {
    let mut f = DCBlocker::new(10_000_000, 44100);
    f.process(1_000_000);
    f.process(-500_000);
    f.reset();
    let mut fresh = DCBlocker::new(10_000_000, 44100);
    for _ in 0..16 {
        assert_eq!(f.process(0), fresh.process(0));
    }
}

#[test]
fn allpass_first_steps_are_exact() {
    let mut f = Allpass::new(500_000);
    assert_eq!(f.process(1_000_000), 500_000);
    // a*x + x_prev - a*y_prev = 0 + 1_000_000 - 250_000
    assert_eq!(f.process(0), 750_000);
}

#[test]
fn allpass_after_reset_matches_fresh_on_zero_stream() {
    let mut f = Allpass::new(300_000);
    f.process(1_000_000);
    f.process(-400_000);
    f.reset();
    let mut fresh = Allpass::new(300_000);
    for _ in 0..16 {
        assert_eq!(f.process(0), fresh.process(0));
    }
}

#[test]
fn comb_recirculates_after_its_delay() {
    let mut f = Comb::new(4, 500_000, 0);
    assert_eq!(f.process(1_000_000), 1_000_000);
    assert_eq!(f.process(0), 0);
    assert_eq!(f.process(0), 0);
    assert_eq!(f.process(0), 0);
    // the impulse comes back through the feedback path at half gain
    assert_eq!(f.process(0), 500_000);
}

#[test]
fn comb_after_clear_matches_fresh_on_zero_stream() {
    let mut f = Comb::new(8, 840_000, 200_000);
    for x in [1_000_000i64, -500_000, 250_000, 0, 0, 0, 0, 0] {
        f.process(x);
    }
    f.clear();
    let mut fresh = Comb::new(8, 840_000, 200_000);
    for _ in 0..32 {
        assert_eq!(f.process(0), fresh.process(0));
    }
}

#[test]
fn biquad_fresh_passes_zero_and_resets() {
    let mut f = Biquad::lowpass(1_000_000_000, 707_000, 44100);
    assert_eq!(f.process(0), 0);
    let y = f.process(1_000_000);
    assert!(y.abs() <= 3_000_000_000);
    f.reset();
    assert_eq!(f.process(0), 0);
    let mut h = Biquad::highpass(1_000_000_000, 707_000, 44100);
    assert_eq!(h.process(0), 0);
}

#[test]
fn integer_square_root_brackets_its_argument() {
    assert_eq!(isqrt_fix(0), 0);
    assert_eq!(isqrt_fix(1), 1);
    assert_eq!(isqrt_fix(2), 1);
    assert_eq!(isqrt_fix(4), 2);
    assert_eq!(isqrt_fix(1_000_000_000_000), 1_000_000);
    assert_eq!(isqrt_fix(999_999_999_999), 999_999);
}

#[test]
fn fixed_sine_endpoints_and_bounds() {
    assert_eq!(sin_fix(0), 0);
    let peak = sin_fix(1_570_796);
    assert!(peak > 990_000 && peak <= SCALE);
    // second half-wave is negative
    let trough = sin_fix(4_712_388);
    assert!(trough < -990_000 && trough >= -SCALE);
    for k in 0..100u64 {
        let v = sin_fix(k * 123_457);
        assert!(-SCALE <= v && v <= SCALE);
    }
}

#[test]
fn clamping_is_exact() {
    assert_eq!(clamp_fix(5, 0, 10), 5);
    assert_eq!(clamp_fix(-5, 0, 10), 0);
    assert_eq!(clamp_fix(15, 0, 10), 10);
}

#[test]
fn dc_blocker_feeds_back_the_raw_recurrence() {
    let mut f = DCBlocker::new(10_000_000, 44100);
    // a step to the input ceiling drives the raw recurrence far past
    // the emitted band; the state keeps the raw value
    assert_eq!(f.process(2_000_000_000), 2_000_000);
    assert_eq!(f.process(0), -2_000_000);
    // with the raw value fed back, the next samples stay pinned at the
    // clamp while the recurrence decays toward the band
    assert_eq!(f.process(0), -2_000_000);
}
