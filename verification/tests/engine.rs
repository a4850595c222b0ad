//! Engine-level behavior: tuning, rendering, polyphony, silence.

use sympathetic_12::string::KarplusStrong;
use sympathetic_12::{pc_to_freq, Sympathetic12, SAMPLE_RATE};

#[test]
fn pitch_class_frequencies_are_equal_tempered() {
    assert_eq!(pc_to_freq(9, 4), 440_000_000);
    assert_eq!(pc_to_freq(9, 5), 880_000_000);
    assert_eq!(pc_to_freq(9, 3), 220_000_000);
    assert_eq!(pc_to_freq(0, 4), 261_625_565);
    // C3: half of C4, truncating
    assert_eq!(pc_to_freq(0, 3), 130_812_782);
}

#[test]
fn set_frequency_clamps_and_derives_delay_in_range() {
    let mut s = KarplusStrong::new(440_000_000, SAMPLE_RATE);
    assert_eq!(s.get_frequency(), 440_000_000);
    // 44100 / 440 - 0.5 = 99.727..., so the integer delay is 99
    assert_eq!(s.delay_length, 99);

    // below the floor
    s.set_frequency(1_000_000);
    assert_eq!(s.get_frequency(), 20_000_000);
    assert!(2 <= s.delay_length && s.delay_length <= 4095);

    // above Nyquist
    s.set_frequency(1_000_000_000_000);
    assert_eq!(s.get_frequency(), 22_050_000_000);
    assert!(2 <= s.delay_length && s.delay_length <= 4095);

    // across the audible range, the delay always stays legal
    let mut f: i64 = 20_000_000;
    while f <= 22_050_000_000 {
        s.set_frequency(f);
        assert_eq!(s.get_frequency(), f);
        assert!(2 <= s.delay_length && s.delay_length <= 4095);
        f = f * 3;
    }
}

#[test]
fn string_energy_tracks_velocity_and_damping() {
    let mut s = KarplusStrong::new(220_000_000, SAMPLE_RATE);
    assert_eq!(s.get_energy(), 0);
    s.pluck(800_000, 500_000);
    assert_eq!(s.get_energy(), 800_000);
    // velocity clamps to one unit
    s.pluck(5_000_000, 500_000);
    assert_eq!(s.get_energy(), 1_000_000);
    // damping by half scales the estimate by half
    s.damp(500_000);
    assert_eq!(s.get_energy(), 500_000);
    // full damping silences it
    s.damp(1_000_000);
    assert_eq!(s.get_energy(), 0);
}

#[test]
fn fresh_string_with_no_pluck_history_never_gains_energy() {
    let mut s = KarplusStrong::new(440_000_000, SAMPLE_RATE);
    let mut last = s.get_energy();
    for _ in 0..500 {
        let out = s.process(0);
        assert_eq!(out, 0);
        let e = s.get_energy();
        assert!(e <= last);
        last = e;
    }
}

#[test]
fn zero_velocity_pluck_writes_an_all_zero_burst() {
    let mut s = KarplusStrong::new(440_000_000, SAMPLE_RATE);
    s.pluck(0, 500_000);
    let w = s.get_waveform(50);
    assert_eq!(w.len(), 50);
    assert!(w.iter().all(|&v| v == 0));
    assert_eq!(s.get_energy(), 0);
}

#[test]
fn plucked_string_produces_bounded_nonzero_signal() {
    let mut s = KarplusStrong::new(220_000_000, SAMPLE_RATE);
    s.pluck(1_000_000, 500_000);
    let mut heard = false;
    for _ in 0..2000 {
        let out = s.process(0);
        assert!(out.abs() <= 2_000_000);
        if out != 0 {
            heard = true;
        }
    }
    assert!(heard);
}

#[test]
fn waveform_reads_most_recent_samples_nondestructively() {
    let mut s = KarplusStrong::new(440_000_000, SAMPLE_RATE);
    s.pluck(1_000_000, 500_000);
    let a = s.get_waveform(10);
    let b = s.get_waveform(10);
    assert_eq!(a, b);
    assert_eq!(a.len(), 10);
    // asking for more than the delay length caps at the delay length
    let all = s.get_waveform(100_000);
    assert_eq!(all.len(), s.delay_length);
}

#[test]
fn silent_engine_renders_exact_silence() {
    let mut engine = Sympathetic12::new();
    let block = engine.process(64);
    assert_eq!(block.len(), 128);
    assert!(block.iter().all(|&v| v == 0));
    // and still silent afterward
    let again = engine.process(16);
    assert!(again.iter().all(|&v| v == 0));
}

#[test]
fn pluck_then_process_stays_inside_unit_range() {
    let mut engine = Sympathetic12::new();
    engine.pluck(0, 1_000_000, 500_000);
    let block = engine.process(1);
    assert_eq!(block.len(), 2);
    assert!(block[0].abs() <= 1_000_000);
    assert!(block[1].abs() <= 1_000_000);
    let mut heard = false;
    for _ in 0..20 {
        let more = engine.process(256);
        assert_eq!(more.len(), 512);
        for &v in more.iter() {
            assert!(v.abs() <= 1_000_000);
            if v != 0 {
                heard = true;
            }
        }
    }
    assert!(heard);
}

#[test]
fn all_strings_fortissimo_never_clip_past_one() {
    let mut engine = Sympathetic12::new();
    for pc in 0..12 {
        engine.pluck(pc, 1_000_000, 500_000);
    }
    for _ in 0..10 {
        let block = engine.process(512);
        for &v in block.iter() {
            assert!(v.abs() <= 1_000_000);
        }
    }
}

#[test]
fn out_of_range_pitch_class_is_a_no_op() {
    let mut engine = Sympathetic12::new();
    engine.pluck(12, 1_000_000, 500_000);
    assert_eq!(engine.get_active_voice_count(), 0);
    engine.damp(12, 1_000_000);
    engine.set_string_damping(12, 900_000);
    engine.set_string_frequency(12, 440_000_000);
    engine.set_string_inharmonicity(12, 100_000);
    let block = engine.process(8);
    assert!(block.iter().all(|&v| v == 0));
}

#[test]
fn voice_count_follows_plucks() {
    let mut engine = Sympathetic12::new();
    assert_eq!(engine.get_active_voice_count(), 0);
    engine.pluck(0, 1_000_000, 500_000);
    assert_eq!(engine.get_active_voice_count(), 1);
    engine.pluck(7, 800_000, 300_000);
    assert_eq!(engine.get_active_voice_count(), 2);
    engine.pluck_set(&[0, 4, 7], 600_000, 500_000);
    assert_eq!(engine.get_active_voice_count(), 5);
    engine.pluck_prime_form(&[0, 3, 7], 2, 900_000);
    assert_eq!(engine.get_active_voice_count(), 8);
}

#[test]
fn string_frequencies_follow_tuning_calls() {
    let mut engine = Sympathetic12::new();
    let freqs = engine.get_string_frequencies();
    assert_eq!(freqs.len(), 12);
    assert_eq!(freqs[9], 220_000_000);  // A3 at the default base octave
    engine.set_string_frequency(0, 440_000_000);
    assert_eq!(engine.get_string_frequencies()[0], 440_000_000);
    engine.set_string_frequency(0, 1);
    assert_eq!(engine.get_string_frequencies()[0], 20_000_000);
    engine.set_base_octave(4);
    assert_eq!(engine.get_string_frequencies()[9], 440_000_000);
    // the base octave clamps into [1, 6]
    engine.set_base_octave(99);
    assert_eq!(engine.get_string_frequencies()[9], 1_760_000_000);
}

#[test]
fn damp_all_then_process_decays_to_silence_estimates() {
    let mut engine = Sympathetic12::new();
    engine.pluck(0, 1_000_000, 500_000);
    engine.damp_all(1_000_000);
    let block = engine.process(4);
    assert!(block.iter().all(|&v| v == 0));
    let energies = engine.get_string_energies();
    assert!(energies.iter().all(|&e| e == 0));
}

#[test]
fn engine_energies_report_after_processing() {
    let mut engine = Sympathetic12::new();
    assert_eq!(engine.get_string_energies(), vec![0i64; 12]);
    engine.pluck(3, 1_000_000, 500_000);
    engine.process(1);
    let energies = engine.get_string_energies();
    assert!(energies[3] > 0);
    assert_eq!(energies[0], 0);
}

#[test]
fn engine_waveform_matches_string_and_handles_bad_index() {
    let mut engine = Sympathetic12::new();
    engine.pluck(2, 1_000_000, 500_000);
    let w = engine.get_string_waveform(2, 16);
    assert_eq!(w.len(), 16);
    let out_of_range = engine.get_string_waveform(40, 5);
    assert_eq!(out_of_range, vec![0i64; 5]);
}

#[test]
fn engine_exposes_the_sympathy_matrix() {
    let engine = Sympathetic12::new();
    let flat = engine.get_sympathy_matrix();
    assert_eq!(flat.len(), 144);
    assert_eq!(flat[7], 700_000);
}

#[test]
fn presets_render_bounded_audio() {
    let mut engine = Sympathetic12::new();
    engine.preset_piano();
    engine.preset_harp();
    engine.preset_guitar();
    engine.preset_sitar();
    engine.preset_bell();
    engine.preset_pad();
    engine.set_master_volume(1_000_000);
    engine.set_reverb_mix(1_000_000);
    engine.set_reverb_size(1_000_000);
    engine.set_reverb_damping(0);
    engine.set_sympathy_amount(1_000_000);
    for pc in 0..12 {
        engine.pluck(pc, 1_000_000, 950_000);
    }
    for _ in 0..8 {
        let block = engine.process(256);
        for &v in block.iter() {
            assert!(v.abs() <= 1_000_000);
        }
    }
}

#[test]
fn reverb_parameters_clamp_to_their_ranges() {
    let mut engine = Sympathetic12::new();
    engine.set_reverb_width(3_000_000);
    assert_eq!(engine.reverb.width, 2_000_000);
    engine.set_reverb_width(-1);
    assert_eq!(engine.reverb.width, 0);
    engine.set_reverb_gain(5_000_000);
    assert_eq!(engine.reverb.gain, 1_000_000);
    engine.set_reverb_gain(-5);
    assert_eq!(engine.reverb.gain, 0);
    engine.set_reverb_size(700_000);
    assert_eq!(engine.reverb.room_size, 700_000);
    engine.set_reverb_damping(2_000_000);
    assert_eq!(engine.reverb.damping, 1_000_000);
}

#[test]
fn zero_length_block_is_empty() {
    let mut engine = Sympathetic12::new();
    assert_eq!(engine.process(0), Vec::<i64>::new());
    engine.pluck(5, 1_000_000, 500_000);
    assert_eq!(engine.process(0), Vec::<i64>::new());
}

#[test]
fn identical_plucks_are_deterministic() {
    let mut a = KarplusStrong::new(220_000_000, SAMPLE_RATE);
    let mut b = KarplusStrong::new(220_000_000, SAMPLE_RATE);
    a.pluck(900_000, 300_000);
    b.pluck(900_000, 300_000);
    assert_eq!(a.get_waveform(4096), b.get_waveform(4096));
    for _ in 0..256 {
        assert_eq!(a.process(0), b.process(0));
    }
    // and whole engines built alike render the same audio
    let mut e1 = Sympathetic12::new();
    let mut e2 = Sympathetic12::new();
    e1.pluck(0, 1_000_000, 500_000);
    e2.pluck(0, 1_000_000, 500_000);
    assert_eq!(e1.process(128), e2.process(128));
}
