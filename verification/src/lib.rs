//! A polyphonic physical-modeling string synthesizer: twelve coupled
//! plucked-string voices (one per pitch class, C = 0 through B = 11), a
//! sympathetic-resonance coupling network between them, and a built-in
//! stereo reverberator, rendering audio from discrete pluck/damp
//! control events.
//!
//! The whole signal chain runs in exact decimal fixed-point arithmetic
//! (see [`fixed`]), so the stability clamps and numerical-hazard
//! containment the design calls for are proved range invariants here,
//! not runtime patches: every rendered sample provably lands in
//! [-1, 1], and an engine that was never plucked provably renders
//! silence.

#![verifier::loop_isolation(false)]

use vstd::prelude::*;

pub mod filters;
pub mod fixed;
pub mod resonance;
pub mod reverb;
pub mod string;
pub mod voice;

use crate::fixed::{SCALE, absv, tdiv, fmul, clampv, clamp_fix, div_fix, mul_fix, isqrt_fix,
    sqrt_val, seq_bounded, seq_zero};
use crate::filters::{allpass_step, dc_step};
use crate::string::{KarplusStrong, LINE_MAX, clamped_freq, delay_len_spec, plucked_from};
use crate::voice::{Voice, VoicePool, alloc_index, count_active, first_inactive_from,
    lemma_first_inactive};
use crate::resonance::{SympatheticMatrix, lemma_sum_zero_outputs, EXCITATION_MAX};
use crate::reverb::{FDNReverb, reverb_step_out};

verus! {

/// Number of strings, one per pitch class.
pub const NUM_STRINGS: usize = 12;

/// Largest number of voice-pool slots.
pub const MAX_VOICES: usize = 128;

/// The engine's sample rate in whole Hz.
pub const SAMPLE_RATE: i64 = 44100;

/// Equal-tempered semitone frequencies of the fourth octave, in
/// fixed-point Hz (A4 = 440 Hz).
pub open spec fn semitone_freq(pc: int) -> int {
    if pc == 0 {
        261_625_565
    } else if pc == 1 {
        277_182_631
    } else if pc == 2 {
        293_664_768
    } else if pc == 3 {
        311_126_984
    } else if pc == 4 {
        329_627_557
    } else if pc == 5 {
        349_228_231
    } else if pc == 6 {
        369_994_423
    } else if pc == 7 {
        391_995_436
    } else if pc == 8 {
        415_304_698
    } else if pc == 9 {
        440_000_000
    } else if pc == 10 {
        466_163_762
    } else {
        493_883_301
    }
}

/// A fourth-octave frequency shifted to another octave: each octave up
/// doubles it, each octave down halves it (truncating).
pub open spec fn pc_to_freq_spec(pc: int, octave: int) -> int {
    let base = semitone_freq(pc);
    if octave <= 0 {
        tdiv(base, 16)
    } else if octave == 1 {
        tdiv(base, 8)
    } else if octave == 2 {
        tdiv(base, 4)
    } else if octave == 3 {
        tdiv(base, 2)
    } else if octave == 4 {
        base
    } else if octave == 5 {
        base * 2
    } else if octave == 6 {
        base * 4
    } else if octave == 7 {
        base * 8
    } else if octave == 8 {
        base * 16
    } else if octave == 9 {
        base * 32
    } else if octave == 10 {
        base * 64
    } else if octave == 11 {
        base * 128
    } else {
        base * 256
    }
}

/// Convert a pitch class and octave to a fixed-point frequency.
pub fn pc_to_freq(pitch_class: usize, octave: i32) -> (r: i64)
    requires
        pitch_class < NUM_STRINGS,
        0 <= octave <= 12,
    ensures
        r == pc_to_freq_spec(pitch_class as int, octave as int),
        0 < r <= 127_000_000_000,
{
    let base: i64 = if pitch_class == 0 {
        261_625_565
    } else if pitch_class == 1 {
        277_182_631
    } else if pitch_class == 2 {
        293_664_768
    } else if pitch_class == 3 {
        311_126_984
    } else if pitch_class == 4 {
        329_627_557
    } else if pitch_class == 5 {
        349_228_231
    } else if pitch_class == 6 {
        369_994_423
    } else if pitch_class == 7 {
        391_995_436
    } else if pitch_class == 8 {
        415_304_698
    } else if pitch_class == 9 {
        440_000_000
    } else if pitch_class == 10 {
        466_163_762
    } else {
        493_883_301
    };
    if octave <= 0 {
        div_fix(base, 16)
    } else if octave == 1 {
        div_fix(base, 8)
    } else if octave == 2 {
        div_fix(base, 4)
    } else if octave == 3 {
        div_fix(base, 2)
    } else if octave == 4 {
        base
    } else if octave == 5 {
        base * 2
    } else if octave == 6 {
        base * 4
    } else if octave == 7 {
        base * 8
    } else if octave == 8 {
        base * 16
    } else if octave == 9 {
        base * 32
    } else if octave == 10 {
        base * 64
    } else if octave == 11 {
        base * 128
    } else {
        base * 256
    }
}

/// The soft-knee clip: transparent below 0.95, then a bounded rational
/// saturator squeezes the overshoot into the last 0.05 of headroom, so
/// the result always lands strictly inside one unit.
pub open spec fn soft_clip(x: int) -> int {
    if -950_000 <= x <= 950_000 {
        x
    } else {
        let over = absv(x) - 950_000;
        let mag = 950_000 + fmul(tdiv(over * (SCALE as int), (SCALE as int) + over), 50_000);
        if x >= 0 {
            mag
        } else {
            -mag
        }
    }
}

/// Apply the soft knee, then the documented final clamp into [-1, 1].
fn shape_output(x: i64) -> (r: i64)
    requires
        absv(x as int) <= 100_000_000,
    ensures
        r == clampv(soft_clip(x as int), -(SCALE as int), SCALE as int),
        absv(r as int) <= SCALE as int,
        absv(x as int) <= 950_000 ==> r == x,
        x == 0 ==> r == 0,
{
    if -950_000 <= x && x <= 950_000 {
        x
    } else {
        let over = if x >= 0 {
            x - 950_000
        } else {
            -x - 950_000
        };
        let sat = div_fix(over * SCALE, SCALE + over);
        proof {
            crate::fixed::lemma_div_bounded(
                (over * SCALE) as int,
                (SCALE + over) as int,
                (SCALE + over) as int,
                SCALE as int,
            );
        }
        let mag = 950_000 + mul_fix(sat, 50_000);
        let shaped = if x >= 0 {
            mag
        } else {
            -mag
        };
        clamp_fix(shaped, -SCALE, SCALE)
    }
}

/// The audible tap a string contributes this sample: its delayed
/// sample, interpolated and DC-blocked (the pre-feedback tap).
pub open spec fn string_tap(ks: KarplusStrong) -> int {
    dc_step(ks.dc_blocker, allpass_step(ks.allpass, ks.delay_line@[ks.read_index()] as int))
}

/// Equal-power left pan gain of a pitch class: sqrt((11 - s) / 11).
pub open spec fn pan_left_gain(s: int) -> int {
    sqrt_val(((NUM_STRINGS as int - 1 - s) * 1_000_000_000_000) / 11)
}

/// Equal-power right pan gain of a pitch class: sqrt(s / 11).
pub open spec fn pan_right_gain(s: int) -> int {
    sqrt_val((s * 1_000_000_000_000) / 11)
}

/// The left-channel mix of the first `n` string taps.
pub open spec fn mix_left(strs: Seq<KarplusStrong>, n: int) -> int
    decreases n,
{
    if n <= 0 {
        0
    } else {
        mix_left(strs, n - 1) + fmul(string_tap(strs[n - 1]), pan_left_gain(n - 1))
    }
}

/// The right-channel mix of the first `n` string taps.
pub open spec fn mix_right(strs: Seq<KarplusStrong>, n: int) -> int
    decreases n,
{
    if n <= 0 {
        0
    } else {
        mix_right(strs, n - 1) + fmul(string_tap(strs[n - 1]), pan_right_gain(n - 1))
    }
}

/// The plain sum of the first `n` string taps, for the mono reverb feed.
pub open spec fn mono_mix(strs: Seq<KarplusStrong>, n: int) -> int
    decreases n,
{
    if n <= 0 {
        0
    } else {
        mono_mix(strs, n - 1) + string_tap(strs[n - 1])
    }
}

/// The first stereo sample a block render emits, determined by the
/// engine state at the call alone: panned taps, the reverb mixed in
/// above its threshold, master volume, soft knee and final clamp.
pub open spec fn first_sample(e: Sympathetic12) -> (int, int) {
    let l = mix_left(e.strings@, NUM_STRINGS as int);
    let rr = mix_right(e.strings@, NUM_STRINGS as int);
    let mono = tdiv(mono_mix(e.strings@, NUM_STRINGS as int), NUM_STRINGS as int);
    let lw = if e.reverb_mix > 1_000 {
        l + fmul(reverb_step_out(e.reverb, mono).0, e.reverb_mix as int)
    } else {
        l
    };
    let rw = if e.reverb_mix > 1_000 {
        rr + fmul(reverb_step_out(e.reverb, mono).1, e.reverb_mix as int)
    } else {
        rr
    };
    (
        clampv(
            soft_clip(fmul(lw, e.master_volume as int)),
            -(SCALE as int),
            SCALE as int,
        ),
        clampv(
            soft_clip(fmul(rw, e.master_volume as int)),
            -(SCALE as int),
            SCALE as int,
        ),
    )
}

/// Main synthesizer engine.
pub struct Sympathetic12 {
    /// The 12 Karplus-Strong strings.
    pub strings: Vec<KarplusStrong>,
    /// Voice pool for polyphony.
    pub voice_pool: VoicePool,
    /// Sympathetic resonance matrix.
    pub sympathy: SympatheticMatrix,
    /// Reverb processor.
    pub reverb: FDNReverb,
    /// Master volume (0-1).
    pub master_volume: i64,
    /// Reverb wet/dry mix (0-1).
    pub reverb_mix: i64,
    /// Base octave for string tuning.
    pub base_octave: i32,
    /// Sympathetic resonance amount (0-1).
    pub sympathy_amount: i64,
    /// Output buffer for the left channel.
    pub output_left: Vec<i64>,
    /// Output buffer for the right channel.
    pub output_right: Vec<i64>,
    /// Previous-sample string outputs (drive the resonance network one
    /// sample late, by design).
    pub string_outputs: Vec<i64>,
    /// Previous-sample string energies.
    pub string_energies: Vec<i64>,
}

impl Sympathetic12 {
    pub open spec fn wf(self) -> bool {
        &&& self.strings@.len() == NUM_STRINGS
        &&& forall|s: int| 0 <= s < NUM_STRINGS ==> (#[trigger] self.strings@[s]).wf()
        &&& self.voice_pool.wf()
        &&& 1 <= self.voice_pool.max_voices
        &&& self.sympathy.wf()
        &&& self.reverb.wf()
        &&& 0 <= self.master_volume <= SCALE
        &&& 0 <= self.reverb_mix <= SCALE
        &&& 1 <= self.base_octave <= 6
        &&& 0 <= self.sympathy_amount <= SCALE
        &&& self.string_outputs@.len() == NUM_STRINGS
        &&& seq_bounded(self.string_outputs@, 2_000_000)
        &&& self.string_energies@.len() == NUM_STRINGS
        &&& forall|s: int|
            0 <= s < NUM_STRINGS ==> 0 <= #[trigger] self.string_energies@[s] <= LINE_MAX
    }

    /// The engine has never sounded: every string, line and filter is
    /// at rest.
    pub open spec fn silent_engine(self) -> bool {
        &&& forall|s: int| 0 <= s < NUM_STRINGS ==> (#[trigger] self.strings@[s]).silent()
        &&& seq_zero(self.string_outputs@)
        &&& seq_zero(self.string_energies@)
        &&& self.reverb.quiescent()
    }

    /// Create a new synthesizer: twelve silent strings tuned to the
    /// pitch classes of the base octave, a full voice pool, the default
    /// coupling matrix and a quiescent reverb.
    pub fn new() -> (r: Sympathetic12)
        ensures
            r.wf(),
            r.silent_engine(),
            r.master_volume == 700_000,
            r.reverb_mix == 250_000,
            r.base_octave == 3,
            r.sympathy_amount == 400_000,
            r.voice_pool.active_count == 0,
            r.voice_pool.max_voices == MAX_VOICES,
            r.sympathy.is_default(),
            forall|s: int|
                0 <= s < NUM_STRINGS ==> (#[trigger] r.strings@[s]).frequency == clamped_freq(
                    pc_to_freq_spec(s, 3),
                ),
            forall|s: int| 0 <= s < NUM_STRINGS ==> (#[trigger] r.strings@[s]).energy == 0,
    {
        let base_octave: i32 = 3;
        let mut strings: Vec<KarplusStrong> = Vec::new();
        let mut pc: usize = 0;
        while pc < NUM_STRINGS
            invariant
                pc <= NUM_STRINGS,
                strings@.len() == pc,
                forall|s: int|
                    0 <= s < pc ==> ({
                        &&& (#[trigger] strings@[s]).wf()
                        &&& strings@[s].silent()
                        &&& strings@[s].energy == 0
                        &&& strings@[s].frequency == clamped_freq(pc_to_freq_spec(s, 3))
                    }),
            decreases NUM_STRINGS - pc,
        {
            let freq = pc_to_freq(pc, base_octave);
            strings.push(KarplusStrong::new(freq, SAMPLE_RATE));
            pc = pc + 1;
        }
        Sympathetic12 {
            strings,
            voice_pool: VoicePool::new(MAX_VOICES),
            sympathy: SympatheticMatrix::new(),
            reverb: FDNReverb::new(SAMPLE_RATE),
            master_volume: 700_000,
            reverb_mix: 250_000,
            base_octave,
            sympathy_amount: 400_000,
            output_left: vec![0i64; 128],
            output_right: vec![0i64; 128],
            string_outputs: vec![0i64; NUM_STRINGS],
            string_energies: vec![0i64; NUM_STRINGS],
        }
    }

    /// Pluck a string. An out-of-range pitch class is a documented
    /// no-op; otherwise a voice is allocated (never failing, since the
    /// pool is non-empty) and the string is excited.
    #[verifier::rlimit(100)]
    #[verifier::spinoff_prover]
    pub fn pluck(&mut self, pitch_class: usize, velocity: i64, position: i64)
        requires
            old(self).wf(),
        ensures
            final(self).wf(),
            pitch_class >= NUM_STRINGS ==> *final(self) == *old(self),
            pitch_class < NUM_STRINGS ==> ({
                let pool = old(self).voice_pool.voices@;
                let id = alloc_index(pool);
                &&& plucked_from(
                    final(self).strings@[pitch_class as int],
                    old(self).strings@[pitch_class as int],
                    velocity as int,
                    position as int,
                )
                &&& final(self).strings@[pitch_class as int].energy == clampv(
                    velocity as int,
                    0,
                    SCALE as int,
                )
                &&& forall|s: int|
                    0 <= s < NUM_STRINGS && s != pitch_class ==> #[trigger] final(self).strings@[s] == old(self).strings@[s]
                &&& final(self).voice_pool.voices@ == pool.update(
                    id,
                    (Voice {
                        active: true,
                        string_index: pitch_class,
                        velocity,
                        age: 0,
                        release_time: 0,
                        releasing: false,
                    }),
                )
                &&& final(self).voice_pool.active_count as int == count_active(pool) + (
                if first_inactive_from(pool, 0) >= 0 {
                    1int
                } else {
                    0int
                })
                &&& final(self).voice_pool.max_voices == old(self).voice_pool.max_voices
                &&& count_active(final(self).voice_pool.voices@) >= 1
                &&& final(self).sympathy == old(self).sympathy
                &&& final(self).reverb == old(self).reverb
                &&& final(self).string_outputs == old(self).string_outputs
                &&& final(self).string_energies == old(self).string_energies
                &&& final(self).master_volume == old(self).master_volume
                &&& final(self).reverb_mix == old(self).reverb_mix
                &&& final(self).base_octave == old(self).base_octave
                &&& final(self).sympathy_amount == old(self).sympathy_amount
            }),
    {
        if pitch_class >= NUM_STRINGS {
            return ;
        }
        let ghost pool = self.voice_pool.voices@;
        let voice = self.voice_pool.allocate(pitch_class);
        if let Some(voice_id) = voice {
            self.strings[pitch_class].pluck(velocity, position);
            self.voice_pool.set_active(voice_id, pitch_class, velocity);
            proof {
                crate::voice::lemma_active_slot(self.voice_pool.voices@, voice_id as int);
                lemma_first_inactive(pool, 0);
                if first_inactive_from(pool, 0) >= 0 {
                    assert(!pool[alloc_index(pool)].active);
                } else {
                    assert(pool[alloc_index(pool)].active);
                }
                assert(self.voice_pool.voices@ =~= pool.update(
                    alloc_index(pool),
                    (Voice {
                        active: true,
                        string_index: pitch_class,
                        velocity,
                        age: 0,
                        release_time: 0,
                        releasing: false,
                    }),
                ));
            }
        }
    }

    /// Pluck several pitch classes with one velocity and position:
    /// every listed in-range pitch class's string ends plucked (its
    /// energy estimate is the clamped velocity), and strings of
    /// unlisted pitch classes are untouched.
    pub fn pluck_set(&mut self, pitch_classes: &[u8], velocity: i64, position: i64)
        requires
            old(self).wf(),
        ensures
            final(self).wf(),
            forall|k: int|
                0 <= k < pitch_classes@.len() && ((#[trigger] pitch_classes@[k]) as int)
                    < NUM_STRINGS ==> final(self).strings@[pitch_classes@[k] as int].energy
                    == clampv(velocity as int, 0, SCALE as int),
            forall|s: int|
                0 <= s < NUM_STRINGS && (forall|k: int|
                    0 <= k < pitch_classes@.len() ==> (#[trigger] pitch_classes@[k]) as int != s)
                    ==> #[trigger] final(self).strings@[s] == old(self).strings@[s],
            final(self).sympathy == old(self).sympathy,
            final(self).master_volume == old(self).master_volume,
            final(self).reverb_mix == old(self).reverb_mix,
            final(self).base_octave == old(self).base_octave,
            final(self).sympathy_amount == old(self).sympathy_amount,
    {
        let mut i: usize = 0;
        while i < pitch_classes.len()
            invariant
                i <= pitch_classes@.len(),
                self.wf(),
                forall|k: int|
                    0 <= k < i && ((#[trigger] pitch_classes@[k]) as int) < NUM_STRINGS
                        ==> self.strings@[pitch_classes@[k] as int].energy == clampv(
                        velocity as int,
                        0,
                        SCALE as int,
                    ),
                forall|s: int|
                    0 <= s < NUM_STRINGS && (forall|k: int|
                        0 <= k < i ==> (#[trigger] pitch_classes@[k]) as int != s)
                        ==> #[trigger] self.strings@[s] == old(self).strings@[s],
                self.sympathy == old(self).sympathy,
                self.master_volume == old(self).master_volume,
                self.reverb_mix == old(self).reverb_mix,
                self.base_octave == old(self).base_octave,
                self.sympathy_amount == old(self).sympathy_amount,
            decreases pitch_classes@.len() - i,
        {
            let pc = pitch_classes[i];
            self.pluck(pc as usize, velocity, position);
            i = i + 1;
        }
    }

    /// Pluck a set-class prime form transposed by some semitones; every
    /// transposed pitch lands back in 0..11 and ends plucked at center
    /// position (its energy estimate is the clamped velocity), and the
    /// strings of other pitch classes are untouched.
    pub fn pluck_prime_form(&mut self, prime_form: &[u8], transposition: u8, velocity: i64)
        requires
            old(self).wf(),
        ensures
            final(self).wf(),
            forall|k: int|
                0 <= k < prime_form@.len() ==> final(self).strings@[
                    ((#[trigger] prime_form@[k]) as int + transposition as int) % 12
                ].energy == clampv(velocity as int, 0, SCALE as int),
            forall|s: int|
                0 <= s < NUM_STRINGS && (forall|k: int|
                    0 <= k < prime_form@.len() ==> ((#[trigger] prime_form@[k]) as int
                        + transposition as int) % 12 != s) ==> #[trigger] final(self).strings@[s] == old(self).strings@[s],
            final(self).sympathy == old(self).sympathy,
            final(self).master_volume == old(self).master_volume,
            final(self).reverb_mix == old(self).reverb_mix,
            final(self).base_octave == old(self).base_octave,
            final(self).sympathy_amount == old(self).sympathy_amount,
    {
        let mut i: usize = 0;
        while i < prime_form.len()
            invariant
                i <= prime_form@.len(),
                self.wf(),
                forall|k: int|
                    0 <= k < i ==> self.strings@[
                        ((#[trigger] prime_form@[k]) as int + transposition as int) % 12
                    ].energy == clampv(velocity as int, 0, SCALE as int),
                forall|s: int|
                    0 <= s < NUM_STRINGS && (forall|k: int|
                        0 <= k < i ==> ((#[trigger] prime_form@[k]) as int
                            + transposition as int) % 12 != s) ==> #[trigger] self.strings@[s]
                        == old(self).strings@[s],
                self.sympathy == old(self).sympathy,
                self.master_volume == old(self).master_volume,
                self.reverb_mix == old(self).reverb_mix,
                self.base_octave == old(self).base_octave,
                self.sympathy_amount == old(self).sympathy_amount,
            decreases prime_form@.len() - i,
        {
            let pc = prime_form[i];
            let transposed = ((pc as usize) + (transposition as usize)) % 12;
            proof {
                assert(transposed as int == ((prime_form@[i as int]) as int
                    + transposition as int) % 12);
            }
            self.pluck(transposed, velocity, 500_000);
            i = i + 1;
        }
    }

    /// Damp a specific string; out-of-range pitch classes are ignored.
    pub fn damp(&mut self, pitch_class: usize, amount: i64)
        requires
            old(self).wf(),
        ensures
            final(self).wf(),
            pitch_class >= NUM_STRINGS ==> *final(self) == *old(self),
            pitch_class < NUM_STRINGS ==> ({
                let factor = (SCALE as int) - clampv(amount as int, 0, SCALE as int);
                &&& final(self).strings@[pitch_class as int].energy == fmul(
                    old(self).strings@[pitch_class as int].energy as int,
                    factor,
                )
                &&& forall|s: int|
                    0 <= s < NUM_STRINGS && s != pitch_class ==> #[trigger] final(self).strings@[s] == old(self).strings@[s]
                &&& *final(self) == (Sympathetic12 { strings: final(self).strings, ..*old(self) })
            }),
    {
        if pitch_class < NUM_STRINGS {
            self.strings[pitch_class].damp(amount);
        }
    }

    /// Damp all strings.
    pub fn damp_all(&mut self, amount: i64)
        requires
            old(self).wf(),
        ensures
            final(self).wf(),
            ({
                let factor = (SCALE as int) - clampv(amount as int, 0, SCALE as int);
                forall|s: int|
                    0 <= s < NUM_STRINGS ==> (#[trigger] final(self).strings@[s]).energy == fmul(
                        old(self).strings@[s].energy as int,
                        factor,
                    )
            }),
            *final(self) == (Sympathetic12 { strings: final(self).strings, ..*old(self) }),
    {
        let mut s: usize = 0;
        while s < NUM_STRINGS
            invariant
                s <= NUM_STRINGS,
                self.strings@.len() == NUM_STRINGS,
                forall|j: int|
                    0 <= j < s ==> ({
                        &&& (#[trigger] self.strings@[j]).wf()
                        &&& self.strings@[j].energy == fmul(
                            old(self).strings@[j].energy as int,
                            (SCALE as int) - clampv(amount as int, 0, SCALE as int),
                        )
                    }),
                forall|j: int|
                    s <= j < NUM_STRINGS ==> #[trigger] self.strings@[j] == old(self).strings@[j],
                *self == (Sympathetic12 { strings: self.strings, ..*old(self) }),
            decreases NUM_STRINGS - s,
        {
            self.strings[s].damp(amount);
            s = s + 1;
        }
    }

    /// Render one stereo sample from the current state: the resonance
    /// excitation, the twelve strings, the equal-power mix, the reverb
    /// and the output shaping. The emitted pair is exactly
    /// [`first_sample`] of the state at the call.
    #[verifier::rlimit(80)]
    #[verifier::spinoff_prover]
    fn render_sample(&mut self) -> (lr: (i64, i64))
        requires
            old(self).wf(),
        ensures
            final(self).wf(),
            lr.0 == first_sample(*old(self)).0,
            lr.1 == first_sample(*old(self)).1,
            absv(lr.0 as int) <= SCALE as int,
            absv(lr.1 as int) <= SCALE as int,
            final(self).voice_pool == old(self).voice_pool,
            final(self).sympathy == old(self).sympathy,
            final(self).master_volume == old(self).master_volume,
            final(self).reverb_mix == old(self).reverb_mix,
            final(self).base_octave == old(self).base_octave,
            final(self).sympathy_amount == old(self).sympathy_amount,
            final(self).output_left == old(self).output_left,
            final(self).output_right == old(self).output_right,
            forall|s: int|
                0 <= s < NUM_STRINGS ==> (#[trigger] final(self).string_outputs@[s]) == string_tap(
                    old(self).strings@[s],
                ),
            old(self).silent_engine() ==> lr.0 == 0 && lr.1 == 0 && final(self).silent_engine(),
    {
        let ghost quiet = old(self).silent_engine();

        // Sympathetic cross-excitation from the previous sample.
        let exc = self.sympathy.process(
            &self.string_outputs,
            &self.string_energies,
            self.sympathy_amount,
        );
        proof {
            if quiet {
                assert forall|t: int| 0 <= t < NUM_STRINGS implies #[trigger] exc@[t] == 0 by {
                    lemma_sum_zero_outputs(
                        self.sympathy.matrix@,
                        self.string_outputs@,
                        self.string_energies@,
                        fmul(self.sympathy_amount as int, 2000),
                        t,
                        NUM_STRINGS as int,
                    );
                }
            }
        }

        // Each string processes its excitation.
        let ghost pre = *self;
        let mut s: usize = 0;
        while s < NUM_STRINGS
            invariant
                s <= NUM_STRINGS,
                exc@.len() == NUM_STRINGS,
                seq_bounded(exc@, EXCITATION_MAX as int),
                self.strings@.len() == NUM_STRINGS,
                forall|j: int| 0 <= j < NUM_STRINGS ==> (#[trigger] self.strings@[j]).wf(),
                self.string_outputs@.len() == NUM_STRINGS,
                seq_bounded(self.string_outputs@, 2_000_000),
                self.string_energies@.len() == NUM_STRINGS,
                forall|j: int|
                    0 <= j < NUM_STRINGS ==> 0 <= #[trigger] self.string_energies@[j]
                        <= LINE_MAX,
                *self == (Sympathetic12 {
                    strings: self.strings,
                    string_outputs: self.string_outputs,
                    string_energies: self.string_energies,
                    ..pre
                }),
                forall|j: int|
                    (s as int) <= j < NUM_STRINGS ==> #[trigger] self.strings@[j]
                        == pre.strings@[j],
                forall|j: int|
                    0 <= j < s ==> #[trigger] self.string_outputs@[j] == string_tap(
                        pre.strings@[j],
                    ),
                forall|j: int|
                    (s as int) <= j < NUM_STRINGS ==> #[trigger] self.string_outputs@[j]
                        == pre.string_outputs@[j],
                quiet ==> seq_zero(exc@),
                quiet ==> forall|j: int|
                    0 <= j < NUM_STRINGS ==> (#[trigger] self.strings@[j]).silent(),
                quiet ==> seq_zero(self.string_outputs@),
                quiet ==> seq_zero(self.string_energies@),
            decreases NUM_STRINGS - s,
        {
            let e = exc[s];
            let out = self.strings[s].process(e);
            self.string_outputs[s] = out;
            let en = self.strings[s].get_energy();
            self.string_energies[s] = en;
            s = s + 1;
        }

        // Equal-power panning into stereo, and the mono feed.
        let mut l: i64 = 0;
        let mut rch: i64 = 0;
        let mut mono_sum: i64 = 0;
        let mut s: usize = 0;
        while s < NUM_STRINGS
            invariant
                s <= NUM_STRINGS,
                absv(l as int) <= 2_000_000 * (s as int),
                absv(rch as int) <= 2_000_000 * (s as int),
                absv(mono_sum as int) <= 2_000_000 * (s as int),
                l == mix_left(pre.strings@, s as int),
                rch == mix_right(pre.strings@, s as int),
                mono_sum == mono_mix(pre.strings@, s as int),
                quiet ==> l == 0 && rch == 0 && mono_sum == 0,
            decreases NUM_STRINGS - s,
        {
            let left_arg = (((NUM_STRINGS - 1 - s) as u64) * 1_000_000_000_000) / 11;
            let right_arg = ((s as u64) * 1_000_000_000_000) / 11;
            let left_gain = isqrt_fix(left_arg) as i64;
            let right_gain = isqrt_fix(right_arg) as i64;
            proof {
                assert(left_gain == pan_left_gain(s as int));
                assert(right_gain == pan_right_gain(s as int));
            }
            let v = self.string_outputs[s];
            l = l + mul_fix(v, left_gain);
            rch = rch + mul_fix(v, right_gain);
            mono_sum = mono_sum + v;
            s = s + 1;
        }
        let mono = div_fix(mono_sum, NUM_STRINGS as i64);

        // Reverb, skipped below the mix threshold.
        let mut lw = l;
        let mut rw = rch;
        if self.reverb_mix > 1_000 {
            let wet = self.reverb.process(mono);
            lw = lw + mul_fix(wet.0, self.reverb_mix);
            rw = rw + mul_fix(wet.1, self.reverb_mix);
        }

        // Master volume, soft knee, final clamp.
        let lv = mul_fix(lw, self.master_volume);
        let rv = mul_fix(rw, self.master_volume);
        let lo = shape_output(lv);
        let ro = shape_output(rv);
        proof {
            assert(lo == first_sample(*old(self)).0);
            assert(ro == first_sample(*old(self)).1);
        }
        (lo, ro)
    }

    /// Render a block of audio. Returns interleaved stereo samples
    /// [L, R, L, R, ...], each provably within [-1, 1].
    ///
    /// Per sample: the resonance matrix computes cross-excitation from
    /// the previous sample's outputs and energies (one sample late, by
    /// design); each string processes its excitation; outputs are
    /// panned by an equal-power law and mixed; a mono average feeds the
    /// reverb, mixed in above a small threshold; master volume, the
    /// soft knee and the final clamp follow.
    ///
    /// An engine that never received a pluck renders exact silence.
    #[verifier::rlimit(100)]
    #[verifier::spinoff_prover]
    pub fn process(&mut self, num_samples: usize) -> (r: Vec<i64>)
        requires
            old(self).wf(),
            num_samples <= 100_000_000,
        ensures
            final(self).wf(),
            r@.len() == 2 * num_samples,
            forall|i: int| 0 <= i < r@.len() ==> absv(#[trigger] r@[i] as int) <= SCALE as int,
            old(self).silent_engine() ==> (forall|i: int|
                0 <= i < r@.len() ==> #[trigger] r@[i] == 0) && final(self).silent_engine(),
            num_samples >= 1 ==> r@[0] == first_sample(*old(self)).0 && r@[1] == first_sample(
                *old(self),
            ).1,
            forall|k: int|
                0 <= k < num_samples ==> (#[trigger] final(self).output_left@[k]) == r@[2 * k],
            forall|k: int|
                0 <= k < num_samples ==> (#[trigger] final(self).output_right@[k]) == r@[2 * k
                    + 1],
            final(self).voice_pool == old(self).voice_pool,
            final(self).sympathy == old(self).sympathy,
            final(self).master_volume == old(self).master_volume,
            final(self).reverb_mix == old(self).reverb_mix,
            final(self).base_octave == old(self).base_octave,
            final(self).sympathy_amount == old(self).sympathy_amount,
    {
        let ghost quiet = old(self).silent_engine();

        // Grow the persistent output buffers if the block is larger.
        while self.output_left.len() < num_samples
            invariant
                *self == (Sympathetic12 { output_left: self.output_left, ..*old(self) }),
            decreases num_samples - self.output_left.len(),
        {
            self.output_left.push(0);
        }
        while self.output_right.len() < num_samples
            invariant
                *self == (Sympathetic12 {
                    output_left: self.output_left,
                    output_right: self.output_right,
                    ..*old(self)
                }),
                self.output_left@.len() >= num_samples,
            decreases num_samples - self.output_right.len(),
        {
            self.output_right.push(0);
        }
        let ghost llen = self.output_left@.len();
        let ghost rlen = self.output_right@.len();

        let mut i: usize = 0;
        while i < num_samples
            invariant
                i <= num_samples,
                self.strings@.len() == NUM_STRINGS,
                forall|s: int| 0 <= s < NUM_STRINGS ==> (#[trigger] self.strings@[s]).wf(),
                self.voice_pool == old(self).voice_pool,
                self.sympathy == old(self).sympathy,
                self.reverb.wf(),
                self.master_volume == old(self).master_volume,
                self.reverb_mix == old(self).reverb_mix,
                self.base_octave == old(self).base_octave,
                self.sympathy_amount == old(self).sympathy_amount,
                self.string_outputs@.len() == NUM_STRINGS,
                seq_bounded(self.string_outputs@, 2_000_000),
                self.string_energies@.len() == NUM_STRINGS,
                forall|s: int|
                    0 <= s < NUM_STRINGS ==> 0 <= #[trigger] self.string_energies@[s] <= LINE_MAX,
                self.output_left@.len() == llen,
                self.output_right@.len() == rlen,
                num_samples <= llen,
                num_samples <= rlen,
                forall|j: int|
                    0 <= j < i ==> absv(#[trigger] self.output_left@[j] as int) <= SCALE as int,
                forall|j: int|
                    0 <= j < i ==> absv(#[trigger] self.output_right@[j] as int) <= SCALE as int,
                quiet ==> self.silent_engine(),
                quiet ==> forall|j: int|
                    0 <= j < i ==> #[trigger] self.output_left@[j] == 0
                        && self.output_right@[j] == 0,
                i == 0 ==> self.strings == old(self).strings && self.string_outputs == old(self).string_outputs && self.string_energies == old(self).string_energies
                    && self.reverb == old(self).reverb,
                i >= 1 && num_samples >= 1 ==> self.output_left@[0] == first_sample(
                    *old(self),
                ).0 && self.output_right@[0] == first_sample(*old(self)).1,
            decreases num_samples - i,
        {
            let ghost cur = *self;
            let lr = self.render_sample();
            proof {
                if i == 0 {
                    assert(first_sample(cur) == first_sample(*old(self)));
                }
            }
            self.output_left[i] = lr.0;
            self.output_right[i] = lr.1;
            i = i + 1;
        }

        // Interleave the stereo block.
        let mut out: Vec<i64> = Vec::new();
        let mut j: usize = 0;
        while j < num_samples
            invariant
                j <= num_samples,
                out@.len() == 2 * j,
                forall|k: int| 0 <= k < out@.len() ==> absv(#[trigger] out@[k] as int) <= SCALE as int,
                forall|k: int|
                    0 <= k < j ==> (#[trigger] self.output_left@[k]) == out@[2 * k],
                forall|k: int|
                    0 <= k < j ==> (#[trigger] self.output_right@[k]) == out@[2 * k + 1],
                quiet ==> forall|k: int| 0 <= k < out@.len() ==> #[trigger] out@[k] == 0,
            decreases num_samples - j,
        {
            let ghost pre_out = out@;
            out.push(self.output_left[j]);
            out.push(self.output_right[j]);
            proof {
                assert forall|k: int|
                    0 <= k < j + 1 implies (#[trigger] self.output_left@[k]) == out@[2 * k] by {
                    if k < j {
                        assert(out@[2 * k] == pre_out[2 * k]);
                    } else {
                        assert(out@[2 * k] == self.output_left@[j as int]);
                    }
                }
                assert forall|k: int|
                    0 <= k < j + 1 implies (#[trigger] self.output_right@[k]) == out@[2 * k
                    + 1] by {
                    if k < j {
                        assert(out@[2 * k + 1] == pre_out[2 * k + 1]);
                    } else {
                        assert(out@[2 * k + 1] == self.output_right@[j as int]);
                    }
                }
            }
            j = j + 1;
        }
        out
    }

    /// Set master volume (0-1).
    pub fn set_master_volume(&mut self, volume: i64)
        requires
            old(self).wf(),
        ensures
            final(self).wf(),
            final(self).master_volume == clampv(volume as int, 0, SCALE as int),
            *final(self) == (Sympathetic12 { master_volume: final(self).master_volume, ..*old(self) }),
    {
        self.master_volume = clamp_fix(volume, 0, SCALE);
    }

    /// Set reverb mix (0-1).
    pub fn set_reverb_mix(&mut self, mix: i64)
        requires
            old(self).wf(),
        ensures
            final(self).wf(),
            final(self).reverb_mix == clampv(mix as int, 0, SCALE as int),
            *final(self) == (Sympathetic12 { reverb_mix: final(self).reverb_mix, ..*old(self) }),
    {
        self.reverb_mix = clamp_fix(mix, 0, SCALE);
    }

    /// Set reverb room size (0-1).
    pub fn set_reverb_size(&mut self, size: i64)
        requires
            old(self).wf(),
        ensures
            final(self).wf(),
            final(self).reverb.room_size == clampv(size as int, 0, SCALE as int),
            *final(self) == (Sympathetic12 { reverb: final(self).reverb, ..*old(self) }),
    {
        self.reverb.set_room_size(size);
    }

    /// Set reverb damping (0-1).
    pub fn set_reverb_damping(&mut self, damping: i64)
        requires
            old(self).wf(),
        ensures
            final(self).wf(),
            final(self).reverb.damping == clampv(damping as int, 0, SCALE as int),
            *final(self) == (Sympathetic12 { reverb: final(self).reverb, ..*old(self) }),
    {
        self.reverb.set_damping(damping);
    }

    /// Set the reverb stereo width (0-2, 1 is normal).
    pub fn set_reverb_width(&mut self, width: i64)
        requires
            old(self).wf(),
        ensures
            final(self).wf(),
            final(self).reverb.width == clampv(width as int, 0, 2_000_000),
            *final(self) == (Sympathetic12 { reverb: final(self).reverb, ..*old(self) }),
    {
        self.reverb.set_width(width);
    }

    /// Set the reverb output gain (0-1).
    pub fn set_reverb_gain(&mut self, gain: i64)
        requires
            old(self).wf(),
        ensures
            final(self).wf(),
            final(self).reverb.gain == clampv(gain as int, 0, SCALE as int),
            *final(self) == (Sympathetic12 { reverb: final(self).reverb, ..*old(self) }),
    {
        self.reverb.set_gain(gain);
    }

    /// Set the sympathetic resonance amount (0-1).
    pub fn set_sympathy_amount(&mut self, amount: i64)
        requires
            old(self).wf(),
        ensures
            final(self).wf(),
            final(self).sympathy_amount == clampv(amount as int, 0, SCALE as int),
            *final(self) == (Sympathetic12 {
                sympathy_amount: final(self).sympathy_amount,
                ..*old(self)
            }),
    {
        self.sympathy_amount = clamp_fix(amount, 0, SCALE);
    }

    /// Set damping for all strings (clamped into [0.9, 0.9999]).
    pub fn set_global_damping(&mut self, damping: i64)
        requires
            old(self).wf(),
        ensures
            final(self).wf(),
            forall|s: int|
                0 <= s < NUM_STRINGS ==> #[trigger] final(self).strings@[s] == (KarplusStrong {
                    damping: clampv(damping as int, 900_000, 999_900) as i64,
                    feedback: clampv(damping as int, 900_000, 999_900) as i64,
                    ..old(self).strings@[s]
                }),
            *final(self) == (Sympathetic12 { strings: final(self).strings, ..*old(self) }),
    {
        let mut s: usize = 0;
        while s < NUM_STRINGS
            invariant
                s <= NUM_STRINGS,
                self.strings@.len() == NUM_STRINGS,
                forall|j: int|
                    0 <= j < s ==> #[trigger] self.strings@[j] == (KarplusStrong {
                        damping: clampv(damping as int, 900_000, 999_900) as i64,
                        feedback: clampv(damping as int, 900_000, 999_900) as i64,
                        ..old(self).strings@[j]
                    }),
                forall|j: int|
                    s <= j < NUM_STRINGS ==> #[trigger] self.strings@[j] == old(self).strings@[j],
                *self == (Sympathetic12 { strings: self.strings, ..*old(self) }),
            decreases NUM_STRINGS - s,
        {
            self.strings[s].set_damping(damping);
            s = s + 1;
        }
    }

    /// Set brightness for all strings (0-1).
    pub fn set_global_brightness(&mut self, brightness: i64)
        requires
            old(self).wf(),
        ensures
            final(self).wf(),
            forall|s: int|
                0 <= s < NUM_STRINGS ==> #[trigger] final(self).strings@[s] == (KarplusStrong {
                    brightness: clampv(brightness as int, 0, SCALE as int) as i64,
                    damping_filter: final(self).strings@[s].damping_filter,
                    ..old(self).strings@[s]
                }) && final(self).strings@[s].damping_filter.a1 == 200_000 + fmul(
                    clampv(brightness as int, 0, SCALE as int),
                    600_000,
                ) && final(self).strings@[s].damping_filter.z1 == old(self).strings@[s].damping_filter.z1,
            *final(self) == (Sympathetic12 { strings: final(self).strings, ..*old(self) }),
    {
        let mut s: usize = 0;
        while s < NUM_STRINGS
            invariant
                s <= NUM_STRINGS,
                self.strings@.len() == NUM_STRINGS,
                forall|j: int|
                    0 <= j < s ==> #[trigger] self.strings@[j] == (KarplusStrong {
                        brightness: clampv(brightness as int, 0, SCALE as int) as i64,
                        damping_filter: self.strings@[j].damping_filter,
                        ..old(self).strings@[j]
                    }) && self.strings@[j].damping_filter.a1 == 200_000 + fmul(
                        clampv(brightness as int, 0, SCALE as int),
                        600_000,
                    ) && self.strings@[j].damping_filter.z1 == old(self).strings@[j].damping_filter.z1 && self.strings@[j].wf(),
                forall|j: int|
                    s <= j < NUM_STRINGS ==> #[trigger] self.strings@[j] == old(self).strings@[j],
                *self == (Sympathetic12 { strings: self.strings, ..*old(self) }),
            decreases NUM_STRINGS - s,
        {
            self.strings[s].set_brightness(brightness);
            s = s + 1;
        }
    }

    /// Set damping for a specific string; out-of-range pitch classes
    /// are ignored.
    pub fn set_string_damping(&mut self, pitch_class: usize, damping: i64)
        requires
            old(self).wf(),
        ensures
            final(self).wf(),
            pitch_class >= NUM_STRINGS ==> *final(self) == *old(self),
            pitch_class < NUM_STRINGS ==> ({
                &&& final(self).strings@[pitch_class as int].damping == clampv(
                    damping as int,
                    900_000,
                    999_900,
                )
                &&& forall|s: int|
                    0 <= s < NUM_STRINGS && s != pitch_class ==> #[trigger] final(self).strings@[s] == old(self).strings@[s]
                &&& *final(self) == (Sympathetic12 { strings: final(self).strings, ..*old(self) })
            }),
    {
        if pitch_class < NUM_STRINGS {
            self.strings[pitch_class].set_damping(damping);
        }
    }

    /// Set the base octave (clamped into [1, 6]); retunes every string.
    pub fn set_base_octave(&mut self, octave: i32)
        requires
            old(self).wf(),
        ensures
            final(self).wf(),
            final(self).base_octave == clampv(octave as int, 1, 6),
            forall|s: int|
                0 <= s < NUM_STRINGS ==> ({
                    &&& (#[trigger] final(self).strings@[s]).frequency == clamped_freq(
                        pc_to_freq_spec(s, clampv(octave as int, 1, 6)),
                    )
                    &&& final(self).strings@[s].delay_length == delay_len_spec(
                        pc_to_freq_spec(s, clampv(octave as int, 1, 6)),
                    )
                }),
            *final(self) == (Sympathetic12 {
                strings: final(self).strings,
                base_octave: final(self).base_octave,
                ..*old(self)
            }),
    {
        self.base_octave = if octave < 1 {
            1
        } else if octave > 6 {
            6
        } else {
            octave
        };
        let oct = self.base_octave;
        let mut s: usize = 0;
        while s < NUM_STRINGS
            invariant
                s <= NUM_STRINGS,
                self.strings@.len() == NUM_STRINGS,
                1 <= oct <= 6,
                oct == clampv(octave as int, 1, 6),
                self.base_octave == oct,
                forall|j: int|
                    0 <= j < s ==> ({
                        &&& (#[trigger] self.strings@[j]).wf()
                        &&& self.strings@[j].frequency == clamped_freq(
                            pc_to_freq_spec(j, oct as int),
                        )
                        &&& self.strings@[j].delay_length == delay_len_spec(
                            pc_to_freq_spec(j, oct as int),
                        )
                    }),
                forall|j: int|
                    s <= j < NUM_STRINGS ==> #[trigger] self.strings@[j] == old(self).strings@[j],
                *self == (Sympathetic12 {
                    strings: self.strings,
                    base_octave: self.base_octave,
                    ..*old(self)
                }),
            decreases NUM_STRINGS - s,
        {
            let freq = pc_to_freq(s, oct);
            self.strings[s].set_frequency(freq);
            s = s + 1;
        }
    }

    /// Retune a specific string (for microtonal exploration); the
    /// frequency is clamped into [20 Hz, Nyquist] and the derived delay
    /// length always lands in its legal range.
    pub fn set_string_frequency(&mut self, pitch_class: usize, freq: i64)
        requires
            old(self).wf(),
        ensures
            final(self).wf(),
            pitch_class >= NUM_STRINGS ==> *final(self) == *old(self),
            pitch_class < NUM_STRINGS ==> ({
                &&& final(self).strings@[pitch_class as int].frequency == clamped_freq(freq as int)
                &&& final(self).strings@[pitch_class as int].delay_length == delay_len_spec(
                    freq as int,
                )
                &&& forall|s: int|
                    0 <= s < NUM_STRINGS && s != pitch_class ==> #[trigger] final(self).strings@[s] == old(self).strings@[s]
                &&& *final(self) == (Sympathetic12 { strings: final(self).strings, ..*old(self) })
            }),
    {
        if pitch_class < NUM_STRINGS {
            self.strings[pitch_class].set_frequency(freq);
        }
    }

    /// Set inharmonicity for a string (simulates stiff strings).
    pub fn set_string_inharmonicity(&mut self, pitch_class: usize, inharmonicity: i64)
        requires
            old(self).wf(),
        ensures
            final(self).wf(),
            pitch_class >= NUM_STRINGS ==> *final(self) == *old(self),
            pitch_class < NUM_STRINGS ==> ({
                &&& final(self).strings@[pitch_class as int] == (KarplusStrong {
                    inharmonicity: clampv(inharmonicity as int, 0, 100_000) as i64,
                    ..old(self).strings@[pitch_class as int]
                })
                &&& forall|s: int|
                    0 <= s < NUM_STRINGS && s != pitch_class ==> #[trigger] final(self).strings@[s] == old(self).strings@[s]
                &&& *final(self) == (Sympathetic12 { strings: final(self).strings, ..*old(self) })
            }),
    {
        if pitch_class < NUM_STRINGS {
            self.strings[pitch_class].set_inharmonicity(inharmonicity);
        }
    }

    /// Get the current energy level of each string.
    pub fn get_string_energies(&self) -> (r: Vec<i64>)
        requires
            self.wf(),
        ensures
            r@ == self.string_energies@,
    {
        let mut r: Vec<i64> = Vec::new();
        let mut s: usize = 0;
        while s < NUM_STRINGS
            invariant
                s <= NUM_STRINGS,
                r@.len() == s,
                forall|j: int| 0 <= j < s ==> #[trigger] r@[j] == self.string_energies@[j],
            decreases NUM_STRINGS - s,
        {
            r.push(self.string_energies[s]);
            s = s + 1;
        }
        proof {
            assert(r@ =~= self.string_energies@);
        }
        r
    }

    /// Get the sympathetic coupling matrix (12x12 = 144 values,
    /// row-major).
    pub fn get_sympathy_matrix(&self) -> (r: Vec<i64>)
        requires
            self.wf(),
        ensures
            r@ == self.sympathy.matrix@,
    {
        self.sympathy.get_matrix()
    }

    /// Get the current string frequencies.
    pub fn get_string_frequencies(&self) -> (r: Vec<i64>)
        requires
            self.wf(),
        ensures
            r@.len() == NUM_STRINGS,
            forall|s: int| 0 <= s < NUM_STRINGS ==> #[trigger] r@[s] == self.strings@[s].frequency,
    {
        let mut r: Vec<i64> = Vec::new();
        let mut s: usize = 0;
        while s < NUM_STRINGS
            invariant
                s <= NUM_STRINGS,
                r@.len() == s,
                forall|j: int| 0 <= j < s ==> #[trigger] r@[j] == self.strings@[j].frequency,
            decreases NUM_STRINGS - s,
        {
            r.push(self.strings[s].get_frequency());
            s = s + 1;
        }
        r
    }

    /// Get the number of active voices; always the number of slots with
    /// the active flag set.
    pub fn get_active_voice_count(&self) -> (r: usize)
        requires
            self.wf(),
        ensures
            r as int == count_active(self.voice_pool.voices@),
    {
        self.voice_pool.active_count()
    }

    /// Get delay-line visualization data for a string: the most recent
    /// samples, newest first. Out-of-range pitch classes yield zeros.
    pub fn get_string_waveform(&self, pitch_class: usize, num_samples: usize) -> (r: Vec<i64>)
        requires
            self.wf(),
        ensures
            pitch_class < NUM_STRINGS ==> ({
                let st = self.strings@[pitch_class as int];
                &&& r@.len() == (if num_samples < st.delay_length {
                    num_samples as int
                } else {
                    st.delay_length as int
                })
                &&& forall|i: int|
                    0 <= i < r@.len() ==> #[trigger] r@[i] == st.delay_line@[
                        crate::string::line_pos(st.write_pos as int, i)
                    ]
            }),
            pitch_class >= NUM_STRINGS ==> r@.len() == num_samples && forall|i: int|
                0 <= i < r@.len() ==> #[trigger] r@[i] == 0,
    {
        if pitch_class < NUM_STRINGS {
            self.strings[pitch_class].get_waveform(num_samples)
        } else {
            vec![0i64; num_samples]
        }
    }

    /// Preset: piano-like (high damping, moderate sympathy).
    pub fn preset_piano(&mut self)
        requires
            old(self).wf(),
        ensures
            final(self).wf(),
            forall|s: int|
                0 <= s < NUM_STRINGS ==> (#[trigger] final(self).strings@[s]).damping == 995_000
                    && final(self).strings@[s].brightness == 600_000,
            final(self).sympathy_amount == 200_000,
            final(self).reverb_mix == 150_000,
            final(self).reverb.room_size == 400_000,
    {
        self.set_global_damping(995_000);
        self.set_global_brightness(600_000);
        self.sympathy_amount = 200_000;
        self.reverb_mix = 150_000;
        self.reverb.set_room_size(400_000);
    }

    /// Preset: harp-like (low damping, high sympathy).
    pub fn preset_harp(&mut self)
        requires
            old(self).wf(),
        ensures
            final(self).wf(),
            forall|s: int|
                0 <= s < NUM_STRINGS ==> (#[trigger] final(self).strings@[s]).damping == 999_000
                    && final(self).strings@[s].brightness == 800_000,
            final(self).sympathy_amount == 500_000,
            final(self).reverb_mix == 300_000,
            final(self).reverb.room_size == 600_000,
    {
        self.set_global_damping(999_000);
        self.set_global_brightness(800_000);
        self.sympathy_amount = 500_000;
        self.reverb_mix = 300_000;
        self.reverb.set_room_size(600_000);
    }

    /// Preset: guitar-like (medium damping, low sympathy).
    pub fn preset_guitar(&mut self)
        requires
            old(self).wf(),
        ensures
            final(self).wf(),
            forall|s: int|
                0 <= s < NUM_STRINGS ==> (#[trigger] final(self).strings@[s]).damping == 997_000
                    && final(self).strings@[s].brightness == 500_000,
            final(self).sympathy_amount == 100_000,
            final(self).reverb_mix == 200_000,
            final(self).reverb.room_size == 300_000,
    {
        self.set_global_damping(997_000);
        self.set_global_brightness(500_000);
        self.sympathy_amount = 100_000;
        self.reverb_mix = 200_000;
        self.reverb.set_room_size(300_000);
    }

    /// Preset: sitar-like (high sympathy, bright).
    pub fn preset_sitar(&mut self)
        requires
            old(self).wf(),
        ensures
            final(self).wf(),
            forall|s: int|
                0 <= s < NUM_STRINGS ==> (#[trigger] final(self).strings@[s]).damping == 998_000
                    && final(self).strings@[s].brightness == 900_000,
            final(self).sympathy_amount == 700_000,
            final(self).reverb_mix == 250_000,
            final(self).reverb.room_size == 500_000,
    {
        self.set_global_damping(998_000);
        self.set_global_brightness(900_000);
        self.sympathy_amount = 700_000;
        self.reverb_mix = 250_000;
        self.reverb.set_room_size(500_000);
    }

    /// Preset: bell-like (very low damping, inharmonic).
    pub fn preset_bell(&mut self)
        requires
            old(self).wf(),
        ensures
            final(self).wf(),
            forall|s: int|
                0 <= s < NUM_STRINGS ==> (#[trigger] final(self).strings@[s]).damping == 999_500
                    && final(self).strings@[s].brightness == 950_000 && final(self).strings@[s].inharmonicity == 20_000,
            final(self).sympathy_amount == 400_000,
            final(self).reverb_mix == 400_000,
            final(self).reverb.room_size == 800_000,
    {
        self.set_global_damping(999_500);
        self.set_global_brightness(950_000);
        self.sympathy_amount = 400_000;
        let mut s: usize = 0;
        while s < NUM_STRINGS
            invariant
                s <= NUM_STRINGS,
                self.wf(),
                self.strings@.len() == NUM_STRINGS,
                forall|j: int|
                    0 <= j < NUM_STRINGS ==> (#[trigger] self.strings@[j]).damping == 999_500
                        && self.strings@[j].brightness == 950_000,
                forall|j: int| 0 <= j < s ==> (#[trigger] self.strings@[j]).inharmonicity == 20_000,
                self.sympathy_amount == 400_000,
                self.reverb == old(self).reverb,
                self.reverb_mix == old(self).reverb_mix,
            decreases NUM_STRINGS - s,
        {
            self.set_string_inharmonicity(s, 20_000);
            s = s + 1;
        }
        self.reverb_mix = 400_000;
        self.reverb.set_room_size(800_000);
    }

    /// Preset: pad-like (maximum sustain and sympathy).
    pub fn preset_pad(&mut self)
        requires
            old(self).wf(),
        ensures
            final(self).wf(),
            forall|s: int|
                0 <= s < NUM_STRINGS ==> (#[trigger] final(self).strings@[s]).damping == 999_900
                    && final(self).strings@[s].brightness == 400_000,
            final(self).sympathy_amount == 900_000,
            final(self).reverb_mix == 600_000,
            final(self).reverb.room_size == 950_000,
    {
        self.set_global_damping(999_900);
        self.set_global_brightness(400_000);
        self.sympathy_amount = 900_000;
        self.reverb_mix = 600_000;
        self.reverb.set_room_size(950_000);
    }
}

impl Default for Sympathetic12 {
    fn default() -> (r: Sympathetic12)
        ensures
            r.wf(),
            r.silent_engine(),
    {
        Self::new()
    }
}

} // verus!
