//! Resonance-matrix coupling, gating and presets.

use sympathetic_12::resonance::SympatheticMatrix;

#[test]
fn default_matrix_follows_interval_classes() {
    let m = SympatheticMatrix::new();
    let flat = m.get_matrix();
    assert_eq!(flat.len(), 144);
    // unison, fifth, fourth from C
    assert_eq!(flat[0], 1_000_000);
    assert_eq!(flat[7], 700_000);
    assert_eq!(flat[5], 550_000);
    // interval wraps around the octave: from G (7) to D (2) is a fifth
    assert_eq!(flat[7 * 12 + 2], 700_000);
    // every entry lies in [0, 1]
    for &v in flat.iter() {
        assert!(0 <= v && v <= 1_000_000);
    }
}

#[test]
fn excitation_is_zero_below_the_energy_gate() {
    let mut m = SympatheticMatrix::new();
    let outputs = vec![2_000_000i64; 12];
    let energies = vec![9_999i64; 12];
    let exc = m.process(&outputs, &energies, 1_000_000);
    assert_eq!(exc, vec![0i64; 12]);
}

#[test]
fn excitation_from_one_loud_source_is_exact() {
    let mut m = SympatheticMatrix::new();
    let mut outputs = vec![0i64; 12];
    outputs[0] = 1_000_000;
    let mut energies = vec![0i64; 12];
    energies[0] = 20_000;
    let exc = m.process(&outputs, &energies, 1_000_000);
    // scale = 0.002; target 7 couples at 0.7: 1.0 * 0.7 * 0.002
    assert_eq!(exc[7], 1_400);
    assert_eq!(exc[5], 1_100);
    // a source never excites itself
    assert_eq!(exc[0], 0);
}

#[test]
fn excitation_scales_with_the_amount() {
    let mut m = SympatheticMatrix::new();
    let mut outputs = vec![0i64; 12];
    outputs[0] = 1_000_000;
    let mut energies = vec![0i64; 12];
    energies[0] = 1_000_000;
    let exc = m.process(&outputs, &energies, 0);
    assert_eq!(exc, vec![0i64; 12]);
}

#[test]
fn set_interval_coupling_rewrites_one_interval_class() {
    let mut m = SympatheticMatrix::new();
    m.set_interval_coupling(7, 123_456);
    let flat = m.get_matrix();
    assert_eq!(flat[7], 123_456);
    assert_eq!(flat[7 * 12 + 2], 123_456);
    // other intervals untouched
    assert_eq!(flat[5], 550_000);
    // out-of-range interval is a no-op
    m.set_interval_coupling(12, 0);
    assert_eq!(m.get_matrix()[7], 123_456);
}

#[test]
fn set_coupling_touches_one_pair_and_clamps() {
    let mut m = SympatheticMatrix::new();
    m.set_coupling(3, 4, 2_000_000);
    let flat = m.get_matrix();
    assert_eq!(flat[3 * 12 + 4], 1_000_000);
    // the symmetric pair keeps its default (minor second = 0.08... the
    // interval from 4 to 3 is 11, a major seventh)
    assert_eq!(flat[4 * 12 + 3], 180_000);
    // out-of-range indices are a no-op
    m.set_coupling(12, 0, 0);
    assert_eq!(m.get_matrix()[3 * 12 + 4], 1_000_000);
}

#[test]
fn preset_piano_reproduces_declared_entries() {
    let mut m = SympatheticMatrix::new();
    m.preset_piano();
    let flat = m.get_matrix();
    assert_eq!(flat[0], 1_000_000);
    assert_eq!(flat[7], 500_000);
    assert_eq!(flat[5], 300_000);
    assert_eq!(flat[4], 200_000);
    assert_eq!(flat[3], 150_000);
    assert_eq!(flat[1], 20_000);
    assert_eq!(flat[2], 50_000);
    assert_eq!(flat[6], 20_000);
    assert_eq!(flat[8], 100_000);
    assert_eq!(flat[9], 80_000);
    assert_eq!(flat[10], 30_000);
    assert_eq!(flat[11], 30_000);
    // and at a wrapped position too
    assert_eq!(flat[5 * 12 + 0], 500_000);
}

#[test]
fn preset_sitar_reproduces_declared_entries() {
    let mut m = SympatheticMatrix::new();
    m.preset_sitar();
    let flat = m.get_matrix();
    assert_eq!(flat[7], 800_000);
    assert_eq!(flat[5], 700_000);
    assert_eq!(flat[9], 350_000);
    assert_eq!(flat[11], 100_000);
}

#[test]
fn preset_chromatic_is_uniform() {
    let mut m = SympatheticMatrix::new();
    m.preset_chromatic();
    let flat = m.get_matrix();
    for iv in 1..12 {
        assert_eq!(flat[iv], 300_000);
    }
    assert_eq!(flat[0], 1_000_000);
}

#[test]
fn preset_pentatonic_zeroes_foreign_intervals() {
    let mut m = SympatheticMatrix::new();
    m.preset_pentatonic();
    let flat = m.get_matrix();
    assert_eq!(flat[1], 0);
    assert_eq!(flat[6], 0);
    assert_eq!(flat[11], 0);
    assert_eq!(flat[2], 500_000);
    assert_eq!(flat[7], 600_000);
    assert_eq!(flat[3], 400_000);
}

#[test]
fn preset_whole_tone_keeps_even_intervals() {
    let mut m = SympatheticMatrix::new();
    m.preset_whole_tone();
    let flat = m.get_matrix();
    assert_eq!(flat[2], 500_000);
    assert_eq!(flat[6], 400_000);
    assert_eq!(flat[1], 0);
    assert_eq!(flat[7], 0);
}

#[test]
fn reset_restores_the_default_coupling() {
    let mut m = SympatheticMatrix::new();
    m.preset_pentatonic();
    m.reset_to_default();
    assert_eq!(m.get_matrix()[7], 700_000);
}
