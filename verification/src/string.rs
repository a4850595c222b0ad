//! Karplus-Strong string synthesis with extensions.
//!
//! The algorithm models a plucked string with a delay line whose length
//! sets the pitch, a lowpass filter in the feedback loop (energy loss),
//! and an initial shaped excitation burst. Extensions: fractional delay
//! via allpass interpolation for precise tuning, variable damping and
//! brightness, pluck-position simulation, and inharmonicity for
//! bell-like tones.
//!
//! The recirculating write saturates at the line's fixed headroom, the
//! fixed-point counterpart of the non-finite containment a float
//! realization needs; for ordinary signal levels the clamp never
//! engages.

use vstd::prelude::*;
use crate::SAMPLE_RATE;
use crate::fixed::{
    SCALE, TWO_PI_FIX, absv, maxv, tdiv, fmul, clampv, clamp_fix, div_fix, mul_fix, isqrt_fix,
    sin_fix, sqrt_val, lemma_div_bounded, seq_bounded, seq_zero,
};
use crate::filters::{
    OnePole, Allpass, DCBlocker, one_pole_step, allpass_step, dc_step, dc_state, AP_OUT_MAX,
};

verus! {

/// Maximum delay line length (supports frequencies down to ~20 Hz).
pub const MAX_DELAY_LENGTH: usize = 4096;

/// Delay-line samples stay within this headroom.
pub const LINE_MAX: i64 = 8_000_000;

/// Freshly synthesized excitation stays within this bound.
pub const PLUCK_MAX: i64 = 5_000_000;

/// Per-sample decay constant of the energy estimate.
pub const ENERGY_DECAY: i64 = 999_500;

/// The circular-buffer position holding the sample written `i` steps
/// before the present cursor.
pub open spec fn line_pos(wp: int, i: int) -> int {
    (wp + MAX_DELAY_LENGTH - i) % (MAX_DELAY_LENGTH as int)
}

/// Frequency clamped to the playable range: 20 Hz up to the Nyquist
/// frequency.
pub open spec fn clamped_freq(f: int) -> int {
    clampv(f, 20_000_000, 22_050_000_000)
}

/// The loop delay in fixed-point samples that realizes a frequency,
/// after the half-sample filter-group-delay compensation.
pub open spec fn adjusted_delay_fix(f: int) -> int {
    tdiv((SAMPLE_RATE as int) * (SCALE as int) * (SCALE as int), clamped_freq(f)) - 500_000
}

/// Whole-sample part of the loop delay, clamped to the line.
pub open spec fn delay_len_spec(f: int) -> int {
    clampv(adjusted_delay_fix(f) / (SCALE as int), 2, MAX_DELAY_LENGTH as int - 1)
}

/// Fractional remainder of the loop delay.
pub open spec fn frac_delay_spec(f: int) -> int {
    adjusted_delay_fix(f) % (SCALE as int)
}

/// Thiran allpass coefficient (1 - d) / (1 + d) realizing a fractional
/// delay d.
pub open spec fn thiran_coef(d: int) -> int {
    tdiv(((SCALE as int) - d) * (SCALE as int), (SCALE as int) + d)
}

/// The linear congruential step of the noise generator.
pub open spec fn lcg_next(s: int) -> int {
    (s * 1_103_515_245 + 12345) % 0x1_0000_0000
}

/// The noise sample a generator state stands for, in [-1, 1].
pub open spec fn noise_val(s: int) -> int {
    tdiv(s * 2_000_000, 4_294_967_295) - 1_000_000
}

proof fn lemma_gain_bound(x: int, g: int, r: int, b: int)
    by (nonlinear_arith)
    requires
        absv(r) * (SCALE as int) <= absv(x) * absv(g),
        absv(x) <= b,
        0 <= g <= SCALE as int,
        0 <= b,
    ensures
        absv(r) <= tdiv(b * g, SCALE as int),
{
}

proof fn lemma_smooth_bound(x: int, p: int, c1: int, c2: int, t1: int, t2: int, m: int)
    by (nonlinear_arith)
    requires
        0 <= c1,
        0 <= c2,
        c1 + c2 == SCALE as int,
        absv(t1) * (SCALE as int) <= absv(x) * c1,
        absv(t2) * (SCALE as int) <= absv(p) * c2,
        absv(x) <= m,
        absv(p) <= m,
    ensures
        absv(t1 + t2) <= m,
{
}

proof fn lemma_div_lower(n: int, d: int, dmax: int, low: int)
    by (nonlinear_arith)
    requires
        0 < d <= dmax,
        0 <= low,
        low * dmax <= n,
    ensures
        low <= n / d,
{
}

/// The samples of a buffer as mathematical integers.
pub open spec fn ints_of(s: Seq<i64>) -> Seq<int> {
    Seq::new(s.len(), |i: int| s[i] as int)
}

/// The noise-generator state after `n` draws.
pub open spec fn lcg_iter(s0: int, n: int) -> int
    decreases n,
{
    if n <= 0 {
        s0
    } else {
        lcg_next(lcg_iter(s0, n - 1))
    }
}

/// The i-th noise sample (zero-based) drawn from a starting state.
pub open spec fn noise_at(s0: int, i: int) -> int {
    noise_val(lcg_iter(s0, i + 1))
}

/// Burst stage one: velocity-scaled noise.
pub open spec fn burst_fill(s0: int, v: int, dl: int) -> Seq<int> {
    Seq::new(dl as nat, |i: int| fmul(noise_at(s0, i), v))
}

/// A subtractive comb over a finished buffer: each sample loses a
/// scaled copy of the one `p` earlier.
pub open spec fn comb_sub_stage(e: Seq<int>, p: int, g: int) -> Seq<int> {
    Seq::new(
        e.len(),
        |i: int|
            if i >= p {
                e[i] - fmul(e[i - p], g)
            } else {
                e[i]
            },
    )
}

/// An additive comb over a finished buffer.
pub open spec fn comb_add_stage(e: Seq<int>, p: int, g: int) -> Seq<int> {
    Seq::new(
        e.len(),
        |i: int|
            if i >= p {
                e[i] + fmul(e[i - p], g)
            } else {
                e[i]
            },
    )
}

/// One element of an in-place smoothing pass: each sample blends with
/// the previous smoothed sample (zero before the first).
pub open spec fn smoothed_at(e: Seq<int>, s: int, i: int) -> int
    decreases i,
{
    fmul(e[i], SCALE as int - s) + fmul(
        if i <= 0 {
            0
        } else {
            smoothed_at(e, s, i - 1)
        },
        s,
    )
}

/// One whole smoothing pass.
pub open spec fn smooth_pass(e: Seq<int>, s: int) -> Seq<int> {
    Seq::new(e.len(), |i: int| smoothed_at(e, s, i))
}

/// `n` successive smoothing passes.
pub open spec fn smooth_passes(e: Seq<int>, s: int, n: int) -> Seq<int>
    decreases n,
{
    if n <= 0 {
        e
    } else {
        smooth_pass(smooth_passes(e, s, n - 1), s)
    }
}

/// Length of the attack window.
pub open spec fn attack_len(dl: int) -> int {
    if dl / 6 < 5 {
        5
    } else {
        dl / 6
    }
}

/// The attack window never runs past the burst itself.
pub open spec fn attack_cap_of(dl: int) -> int {
    if attack_len(dl) < dl {
        attack_len(dl)
    } else {
        dl
    }
}

/// Number of extra noise draws the attack stage makes.
pub open spec fn attack_draws(dl: int) -> int {
    let half = attack_len(dl) / 2;
    if half < attack_cap_of(dl) {
        half
    } else {
        attack_cap_of(dl)
    }
}

/// One attack-window sample: the square-root envelope scales the
/// sample, an extra noise burst lands in the first half of the window
/// and a sinusoidal ping in the first third, both fading as the
/// envelope rises. Attack noise draws continue the generator after the
/// fill stage's `dl` draws.
pub open spec fn attack_at(e: Seq<int>, s0: int, v: int, dl: int, i: int) -> int {
    let attack = attack_len(dl);
    let env = sqrt_val((i * 1_000_000_000_000) / attack);
    let base = fmul(e[i], env);
    let with_noise = if i < attack / 2 {
        base + fmul(fmul(fmul(noise_at(s0, dl + i), v), 550_000), SCALE as int - env)
    } else {
        base
    };
    if i < attack / 3 {
        with_noise + fmul(
            fmul(fmul(crate::fixed::sin_fix_spec(i * 500_000), v), 250_000),
            SCALE as int - env,
        )
    } else {
        with_noise
    }
}

/// The whole attack stage.
pub open spec fn attack_stage(e: Seq<int>, s0: int, v: int, dl: int) -> Seq<int> {
    Seq::new(
        e.len(),
        |i: int|
            if i < attack_cap_of(dl) {
                attack_at(e, s0, v, dl, i)
            } else {
                e[i]
            },
    )
}

/// The pluck-position comb period: delay length times position,
/// clamped into the line.
pub open spec fn comb_period_of(dl: int, pos: int) -> int {
    clampv(tdiv(dl * pos, SCALE as int), 1, dl - 1)
}

/// The body-resonance comb period.
pub open spec fn body_period_of(dl: int) -> int {
    if dl / 3 < 2 {
        2
    } else {
        dl / 3
    }
}

/// The octave-enhancement comb period.
pub open spec fn octave_period_of(dl: int) -> int {
    if dl / 2 < 2 {
        2
    } else {
        dl / 2
    }
}

/// The smoothing coefficient a velocity selects.
pub open spec fn smooth_coef_of(v: int) -> int {
    fmul(SCALE as int - v, 300_000)
}

/// The number of smoothing passes a velocity selects: soft plucks are
/// smoothed more.
pub open spec fn smooth_passes_of(v: int) -> int {
    if v < 300_000 {
        2
    } else if v < 600_000 {
        1
    } else {
        0
    }
}

/// The full excitation burst of a pluck: noise fill, the pluck-position
/// comb (0.85, subtractive), the body comb (0.45) and octave comb
/// (0.2), the velocity-gated smoothing passes and the attack window —
/// one function of the noise state, the clamped velocity and position,
/// and the delay length.
pub open spec fn pluck_burst(s0: int, v: int, pos: int, dl: int) -> Seq<int> {
    let e0 = burst_fill(s0, v, dl);
    let e1 = comb_sub_stage(e0, comb_period_of(dl, pos), 850_000);
    let e2 = comb_add_stage(e1, body_period_of(dl), 450_000);
    let e3 = comb_add_stage(e2, octave_period_of(dl), 200_000);
    let e4 = smooth_passes(e3, smooth_coef_of(v), smooth_passes_of(v));
    attack_stage(e4, s0, v, dl)
}

/// Total noise draws one pluck consumes.
pub open spec fn pluck_draws(dl: int) -> int {
    dl + attack_draws(dl)
}

/// Everything a pluck guarantees about a string afterward, relative to
/// the string before: the exact burst overwrites the newest slots, the
/// interpolation and DC filters are reset, the energy estimate becomes
/// the clamped velocity, the noise generator advances by the draws the
/// pipeline makes, and everything else is untouched.
#[verifier::opaque]
pub open spec fn plucked_from(
    post: KarplusStrong,
    pre: KarplusStrong,
    velocity: int,
    position: int,
) -> bool {
    let v = clampv(velocity, 0, SCALE as int);
    let pos = clampv(position, 50_000, 950_000);
    &&& post.energy == v
    &&& post.allpass.quiescent()
    &&& post.dc_blocker.quiescent()
    &&& post.allpass.coefficient == pre.allpass.coefficient
    &&& post.dc_blocker.r_coef == pre.dc_blocker.r_coef
    &&& post.damping_filter == pre.damping_filter
    &&& post.write_pos == pre.write_pos
    &&& post.delay_length == pre.delay_length
    &&& post.fractional_delay == pre.fractional_delay
    &&& post.frequency == pre.frequency
    &&& post.feedback == pre.feedback
    &&& post.brightness == pre.brightness
    &&& post.damping == pre.damping
    &&& post.inharmonicity == pre.inharmonicity
    &&& post.energy_decay == pre.energy_decay
    &&& post.delay_line@.len() == MAX_DELAY_LENGTH
    &&& post.noise_state as int == lcg_iter(
        pre.noise_state as int,
        pluck_draws(pre.delay_length as int),
    )
    &&& forall|i: int|
        0 <= i < pre.delay_length ==> (#[trigger] post.delay_line@[line_pos(
            pre.write_pos as int,
            i,
        )]) as int == pluck_burst(pre.noise_state as int, v, pos, pre.delay_length as int)[i]
    &&& forall|j: int|
        0 <= j < MAX_DELAY_LENGTH && (forall|i: int|
            0 <= i < pre.delay_length ==> j != line_pos(pre.write_pos as int, i))
            ==> (#[trigger] post.delay_line@[j]) == pre.delay_line@[j]
}

/// Karplus-Strong string model.
pub struct KarplusStrong {
    /// Circular delay line buffer.
    pub delay_line: Vec<i64>,
    /// Current write position in the delay line.
    pub write_pos: usize,
    /// Integer part of the delay length.
    pub delay_length: usize,
    /// Fractional delay for precise tuning.
    pub fractional_delay: i64,
    /// Current frequency (fixed-point Hz).
    pub frequency: i64,
    /// Feedback coefficient (affects sustain).
    pub feedback: i64,
    /// Damping filter (lowpass in feedback).
    pub damping_filter: OnePole,
    /// Allpass filter for fractional delay interpolation.
    pub allpass: Allpass,
    /// DC blocking filter.
    pub dc_blocker: DCBlocker,
    /// Brightness control (0-1).
    pub brightness: i64,
    /// Damping control (higher = longer sustain).
    pub damping: i64,
    /// Inharmonicity coefficient (for bell-like tones).
    pub inharmonicity: i64,
    /// Current energy level (for visualization).
    pub energy: i64,
    /// Energy decay rate for visualization.
    pub energy_decay: i64,
    /// Noise generator state (simple LCG).
    pub noise_state: u32,
}

impl KarplusStrong {
    pub open spec fn wf(self) -> bool {
        &&& self.delay_line@.len() == MAX_DELAY_LENGTH
        &&& seq_bounded(self.delay_line@, LINE_MAX as int)
        &&& self.write_pos < MAX_DELAY_LENGTH
        &&& 2 <= self.delay_length <= MAX_DELAY_LENGTH - 1
        &&& 0 <= self.fractional_delay < SCALE
        &&& 20_000_000 <= self.frequency <= 22_050_000_000
        &&& 900_000 <= self.feedback <= 999_900
        &&& self.damping_filter.wf()
        &&& absv(self.damping_filter.z1 as int) <= AP_OUT_MAX as int
        &&& self.allpass.wf()
        &&& self.dc_blocker.wf()
        &&& 0 <= self.brightness <= SCALE
        &&& 900_000 <= self.damping <= 999_900
        &&& 0 <= self.inharmonicity <= 100_000
        &&& 0 <= self.energy <= LINE_MAX
        &&& self.energy_decay == ENERGY_DECAY
    }

    /// The string is silent: nothing in the line, every filter at rest,
    /// no residual energy estimate.
    pub open spec fn silent(self) -> bool {
        &&& seq_zero(self.delay_line@)
        &&& self.allpass.quiescent()
        &&& self.damping_filter.quiescent()
        &&& self.dc_blocker.quiescent()
        &&& self.energy == 0
    }

    /// Index the next process step reads from.
    pub open spec fn read_index(self) -> int {
        (self.write_pos + MAX_DELAY_LENGTH - self.delay_length) % (MAX_DELAY_LENGTH as int)
    }

    /// Create a new string tuned to the given frequency.
    pub fn new(frequency: i64, sample_rate: i64) -> (r: KarplusStrong)
        requires
            1 <= sample_rate <= 1_000_000,
        ensures
            r.wf(),
            r.silent(),
            r.energy == 0,
            r.frequency == clamped_freq(frequency as int),
            r.delay_length == delay_len_spec(frequency as int),
            r.fractional_delay == frac_delay_spec(frequency as int),
            r.feedback == 998_000,
            r.damping == 998_000,
            r.brightness == 500_000,
            r.inharmonicity == 0,
            r.write_pos == 0,
            r.noise_state == 12345,
            r.damping_filter.a1 == 500_000,
            r.allpass.coefficient == clampv(
                thiran_coef(frac_delay_spec(frequency as int)),
                -990_000,
                990_000,
            ),
            r.dc_blocker.r_coef == clampv(
                SCALE - tdiv(TWO_PI_FIX as int * 10_000_000, sample_rate as int * SCALE),
                900_000,
                999_900,
            ),
    {
        let mut string = KarplusStrong {
            delay_line: vec![0i64; MAX_DELAY_LENGTH],
            write_pos: 0,
            delay_length: 2,
            fractional_delay: 0,
            frequency: 20_000_000,
            feedback: 998_000,
            damping_filter: OnePole::new(500_000),
            allpass: Allpass::new(500_000),
            dc_blocker: DCBlocker::new(10_000_000, sample_rate),
            brightness: 500_000,
            damping: 998_000,
            inharmonicity: 0,
            energy: 0,
            energy_decay: ENERGY_DECAY,
            noise_state: 12345,
        };
        string.set_frequency(frequency);
        string
    }

    /// Set the string frequency: clamp it, derive the integer delay
    /// length (always within [2, MAX-1]) and the fractional remainder,
    /// and retune the interpolation allpass.
    pub fn set_frequency(&mut self, frequency: i64)
        requires
            old(self).wf(),
        ensures
            final(self).wf(),
            final(self).frequency == clamped_freq(frequency as int),
            final(self).delay_length == delay_len_spec(frequency as int),
            2 <= final(self).delay_length <= MAX_DELAY_LENGTH - 1,
            final(self).fractional_delay == frac_delay_spec(frequency as int),
            final(self).allpass.coefficient == clampv(
                thiran_coef(frac_delay_spec(frequency as int)),
                -990_000,
                990_000,
            ),
            final(self).allpass.z1_in == old(self).allpass.z1_in,
            final(self).allpass.z1_out == old(self).allpass.z1_out,
            final(self).delay_line == old(self).delay_line,
            final(self).write_pos == old(self).write_pos,
            final(self).feedback == old(self).feedback,
            final(self).damping_filter == old(self).damping_filter,
            final(self).dc_blocker == old(self).dc_blocker,
            final(self).brightness == old(self).brightness,
            final(self).damping == old(self).damping,
            final(self).inharmonicity == old(self).inharmonicity,
            final(self).energy == old(self).energy,
            final(self).energy_decay == old(self).energy_decay,
            final(self).noise_state == old(self).noise_state,
    {
        let f = clamp_fix(frequency, 20_000_000, 22_050_000_000);
        self.frequency = f;

        // Loop delay in fixed-point samples, minus the 0.5-sample
        // filter-group-delay compensation.
        let num = SAMPLE_RATE * SCALE * SCALE;
        let total = div_fix(num, f);
        proof {
            lemma_div_bounded(num as int, f as int, 20_000_000, 2_205_000_000);
            lemma_div_lower(num as int, f as int, 22_050_000_000, 2_000_000);
        }
        let adjusted = total - 500_000;

        let raw_len = div_fix(adjusted, SCALE);
        let frac = adjusted - raw_len * SCALE;
        self.fractional_delay = frac;
        self.delay_length = if raw_len < 2 {
            2
        } else if raw_len > (MAX_DELAY_LENGTH - 1) as i64 {
            MAX_DELAY_LENGTH - 1
        } else {
            raw_len as usize
        };

        // Thiran allpass coefficient for the fractional delay.
        let coef_num = (SCALE - frac) * SCALE;
        let coef_den = SCALE + frac;
        let coef = div_fix(coef_num, coef_den);
        proof {
            lemma_div_bounded(coef_num as int, coef_den as int, SCALE as int, SCALE as int);
        }
        self.allpass.set_coefficient(coef);
    }

    /// Get the current frequency.
    pub fn get_frequency(&self) -> (r: i64)
        ensures
            r == self.frequency,
    {
        self.frequency
    }

    /// Set damping (higher = longer sustain); it becomes the feedback
    /// gain.
    pub fn set_damping(&mut self, damping: i64)
        requires
            old(self).wf(),
        ensures
            final(self).wf(),
            final(self).damping == clampv(damping as int, 900_000, 999_900),
            final(self).feedback == final(self).damping,
            *final(self) == (KarplusStrong {
                damping: final(self).damping,
                feedback: final(self).feedback,
                ..*old(self)
            }),
    {
        self.damping = clamp_fix(damping, 900_000, 999_900);
        self.feedback = self.damping;
    }

    /// Set brightness (0-1); it maps onto the damping-filter
    /// coefficient, within [0.2, 0.8].
    pub fn set_brightness(&mut self, brightness: i64)
        requires
            old(self).wf(),
        ensures
            final(self).wf(),
            final(self).brightness == clampv(brightness as int, 0, SCALE as int),
            final(self).damping_filter.a1 == 200_000 + fmul(final(self).brightness as int, 600_000),
            200_000 <= final(self).damping_filter.a1 <= 800_000,
            final(self).damping_filter.z1 == old(self).damping_filter.z1,
            *final(self) == (KarplusStrong {
                brightness: final(self).brightness,
                damping_filter: final(self).damping_filter,
                ..*old(self)
            }),
    {
        self.brightness = clamp_fix(brightness, 0, SCALE);
        let cutoff = 200_000 + mul_fix(self.brightness, 600_000);
        self.damping_filter.set_coefficient(cutoff);
    }

    /// Set inharmonicity (for bell-like tones).
    pub fn set_inharmonicity(&mut self, inharmonicity: i64)
        requires
            old(self).wf(),
        ensures
            final(self).wf(),
            final(self).inharmonicity == clampv(inharmonicity as int, 0, 100_000),
            *final(self) == (KarplusStrong {
                inharmonicity: final(self).inharmonicity,
                ..*old(self)
            }),
    {
        self.inharmonicity = clamp_fix(inharmonicity, 0, 100_000);
    }

    /// Generate one white-noise sample from the LCG.
    fn next_noise(&mut self) -> (r: i64)
        ensures
            final(self).noise_state as int == lcg_next(old(self).noise_state as int),
            r == noise_val(final(self).noise_state as int),
            -SCALE <= r <= SCALE,
            *final(self) == (KarplusStrong { noise_state: final(self).noise_state, ..*old(self) }),
    {
        let next = ((self.noise_state as u64) * 1_103_515_245 + 12345) % 0x1_0000_0000;
        self.noise_state = next as u32;
        let v = (next * 2_000_000) / 4_294_967_295;
        proof {
            lemma_div_bounded((next * 2_000_000) as int, 4_294_967_295, 4_294_967_295, 2_000_000);
        }
        (v as i64) - SCALE
    }

    /// Velocity-scaled noise: the first burst stage.
    fn fill_noise(&mut self, velocity: i64) -> (out: Vec<i64>)
        requires
            old(self).wf(),
            0 <= velocity <= SCALE,
        ensures
            *final(self) == (KarplusStrong { noise_state: final(self).noise_state, ..*old(self) }),
            final(self).noise_state as int == lcg_iter(
                old(self).noise_state as int,
                old(self).delay_length as int,
            ),
            out@.len() == old(self).delay_length,
            forall|k: int|
                0 <= k < out@.len() ==> (#[trigger] out@[k]) as int == burst_fill(
                    old(self).noise_state as int,
                    velocity as int,
                    old(self).delay_length as int,
                )[k],
            seq_bounded(out@, SCALE as int),
            velocity == 0 ==> seq_zero(out@),
    {
        let dl = self.delay_length;
        let ghost s0 = self.noise_state as int;
        let ghost e0 = burst_fill(s0, velocity as int, dl as int);
        let mut out: Vec<i64> = Vec::new();
        let mut i: usize = 0;
        while i < dl
            invariant
                i <= dl,
                out@.len() == i,
                seq_bounded(out@, SCALE as int),
                forall|k: int| 0 <= k < i ==> (#[trigger] out@[k]) as int == e0[k],
                self.noise_state as int == lcg_iter(s0, i as int),
                velocity == 0 ==> seq_zero(out@),
                *self == (KarplusStrong { noise_state: self.noise_state, ..*old(self) }),
            decreases dl - i,
        {
            let n = self.next_noise();
            out.push(mul_fix(n, velocity));
            i = i + 1;
        }
        out
    }

    /// One comb stage over a finished buffer: each sample past the
    /// period gains (or, subtractively, loses) a scaled copy of the
    /// sample one period earlier.
    fn comb_apply(
        input: &Vec<i64>,
        period: usize,
        gain: i64,
        subtract: bool,
        Ghost(b): Ghost<int>,
    ) -> (out: Vec<i64>)
        requires
            1 <= period,
            0 <= gain <= SCALE,
            0 <= b <= 2_000_000_000,
            seq_bounded(input@, b),
        ensures
            out@.len() == input@.len(),
            forall|k: int|
                0 <= k < out@.len() ==> (#[trigger] out@[k]) as int == (if subtract {
                    comb_sub_stage(ints_of(input@), period as int, gain as int)[k]
                } else {
                    comb_add_stage(ints_of(input@), period as int, gain as int)[k]
                }),
            seq_bounded(out@, b + tdiv(b * gain, SCALE as int)),
            seq_zero(input@) ==> seq_zero(out@),
    {
        let ghost stage = if subtract {
            comb_sub_stage(ints_of(input@), period as int, gain as int)
        } else {
            comb_add_stage(ints_of(input@), period as int, gain as int)
        };
        let dl = input.len();
        let mut out: Vec<i64> = Vec::new();
        let mut i: usize = 0;
        while i < dl
            invariant
                i <= dl,
                out@.len() == i,
                forall|k: int| 0 <= k < i ==> (#[trigger] out@[k]) as int == stage[k],
                seq_bounded(out@, b + tdiv(b * gain, SCALE as int)),
                seq_zero(input@) ==> seq_zero(out@),
            decreases dl - i,
        {
            if i >= period {
                let scaled = mul_fix(input[i - period], gain);
                proof {
                    lemma_gain_bound(input@[i - period] as int, gain as int, scaled as int, b);
                }
                if subtract {
                    out.push(input[i] - scaled);
                } else {
                    out.push(input[i] + scaled);
                }
            } else {
                out.push(input[i]);
            }
            i = i + 1;
        }
        out
    }

    /// One in-place smoothing pass: each sample blends with the
    /// previous smoothed sample.
    fn smooth_pass_apply(exc: &mut Vec<i64>, smooth: i64)
        requires
            0 <= smooth <= 300_000,
            seq_bounded(old(exc)@, 3_219_000),
        ensures
            final(exc)@.len() == old(exc)@.len(),
            forall|k: int|
                0 <= k < final(exc)@.len() ==> (#[trigger] final(exc)@[k]) as int == smoothed_at(
                    ints_of(old(exc)@),
                    smooth as int,
                    k,
                ),
            seq_bounded(final(exc)@, 3_219_000),
            seq_zero(old(exc)@) ==> seq_zero(final(exc)@),
    {
        let ghost cur = ints_of(old(exc)@);
        let ghost sm = smooth as int;
        let dl = exc.len();
        let mut prev: i64 = 0;
        let mut i: usize = 0;
        while i < dl
            invariant
                i <= dl,
                exc@.len() == dl,
                cur.len() == dl,
                absv(prev as int) <= 3_219_000,
                seq_bounded(exc@, 3_219_000),
                forall|k: int| 0 <= k < i ==> (#[trigger] exc@[k]) as int == smoothed_at(cur, sm, k),
                forall|k: int| i <= k < dl ==> (#[trigger] exc@[k]) as int == cur[k],
                prev as int == (if i == 0 {
                    0int
                } else {
                    smoothed_at(cur, sm, i as int - 1)
                }),
                seq_zero(old(exc)@) ==> seq_zero(exc@) && prev == 0,
            decreases dl - i,
        {
            let t1 = mul_fix(exc[i], SCALE - smooth);
            let t2 = mul_fix(prev, smooth);
            proof {
                lemma_smooth_bound(
                    exc@[i as int] as int,
                    prev as int,
                    (SCALE - smooth) as int,
                    smooth as int,
                    t1 as int,
                    t2 as int,
                    3_219_000,
                );
            }
            let v = t1 + t2;
            exc[i] = v;
            prev = v;
            i = i + 1;
        }
    }

    /// Synthesize the shaped excitation burst for a pluck: noise fill,
    /// the three combs, the velocity-gated smoothing passes and the
    /// attack window. Only the noise state changes, and the burst is
    /// exactly [`pluck_burst`] of the noise state, velocity, position
    /// and delay length.
    #[verifier::rlimit(80)]
    #[verifier::spinoff_prover]
    fn synth_excitation(&mut self, velocity: i64, position: i64) -> (exc: Vec<i64>)
        requires
            old(self).wf(),
            0 <= velocity <= SCALE,
            50_000 <= position <= 950_000,
        ensures
            *final(self) == (KarplusStrong { noise_state: final(self).noise_state, ..*old(self) }),
            final(self).noise_state as int == lcg_iter(
                old(self).noise_state as int,
                pluck_draws(old(self).delay_length as int),
            ),
            exc@.len() == old(self).delay_length,
            forall|i: int|
                0 <= i < exc@.len() ==> (#[trigger] exc@[i]) as int == pluck_burst(
                    old(self).noise_state as int,
                    velocity as int,
                    position as int,
                    old(self).delay_length as int,
                )[i],
            seq_bounded(exc@, PLUCK_MAX as int),
            velocity == 0 ==> seq_zero(exc@),
    {
        let dl = self.delay_length;
        let ghost vz = velocity == 0;
        let ghost s0 = self.noise_state as int;
        let ghost e0 = burst_fill(s0, velocity as int, dl as int);

        // Stage one: noise scaled by velocity.
        let excitation = self.fill_noise(velocity);
        proof {
            assert(ints_of(excitation@) =~= e0);
        }

        // Primary comb (pluck position): plucking at position P removes
        // the harmonics tied to the pluck point.
        proof {
            assert(0 <= (dl as int) * (position as int) <= 4_000_000_000) by (nonlinear_arith)
                requires
                    2 <= dl <= 4095,
                    50_000 <= position <= 950_000,
            ;
        }
        let cp_raw = div_fix((dl as i64) * position, SCALE);
        let comb_period: usize = if cp_raw < 1 {
            1
        } else if cp_raw > (dl - 1) as i64 {
            dl - 1
        } else {
            cp_raw as usize
        };
        proof {
            assert(comb_period as int == comb_period_of(dl as int, position as int));
        }
        let ghost e1 = comb_sub_stage(e0, comb_period as int, 850_000);
        let stage1 = Self::comb_apply(&excitation, comb_period, 850_000, true, Ghost(1_000_000));
        proof {
            assert(ints_of(stage1@) =~= e1);
        }

        // Secondary comb (body resonance): adds warmth.
        let body_period = if dl / 3 < 2 {
            2
        } else {
            dl / 3
        };
        let ghost e2 = comb_add_stage(e1, body_period as int, 450_000);
        let stage2 = Self::comb_apply(&stage1, body_period, 450_000, false, Ghost(1_850_000));
        proof {
            assert(ints_of(stage2@) =~= e2);
        }

        // Tertiary comb (octave harmonic enhancement).
        let octave_period = if dl / 2 < 2 {
            2
        } else {
            dl / 2
        };
        let ghost e3 = comb_add_stage(e2, octave_period as int, 200_000);
        let mut exc = Self::comb_apply(&stage2, octave_period, 200_000, false, Ghost(2_682_500));
        proof {
            assert(ints_of(exc@) =~= e3);
        }

        // Velocity-dependent brightness: smooth soft plucks.
        let num_passes: usize = if velocity < 300_000 {
            2
        } else if velocity < 600_000 {
            1
        } else {
            0
        };
        let smooth = mul_fix(SCALE - velocity, 300_000);
        let ghost sm = smooth_coef_of(velocity as int);
        proof {
            assert(smooth == sm);
            assert(num_passes as int == smooth_passes_of(velocity as int));
        }
        let mut pass: usize = 0;
        while pass < num_passes
            invariant
                pass <= num_passes,
                exc@.len() == dl,
                0 <= smooth <= 300_000,
                smooth == sm,
                seq_bounded(exc@, 3_219_000),
                ints_of(exc@) =~= smooth_passes(e3, sm, pass as int),
                vz ==> seq_zero(exc@),
            decreases num_passes - pass,
        {
            let ghost cur = smooth_passes(e3, sm, pass as int);
            Self::smooth_pass_apply(&mut exc, smooth);
            proof {
                assert(smooth_passes(e3, sm, pass as int + 1) == smooth_pass(cur, sm));
                assert forall|k: int| 0 <= k < dl implies ints_of(exc@)[k] == smooth_passes(
                    e3,
                    sm,
                    pass as int + 1,
                )[k] by {
                    assert(exc@[k] as int == smoothed_at(cur, sm, k));
                    assert(smooth_pass(cur, sm)[k] == smoothed_at(cur, sm, k));
                }
                assert(ints_of(exc@) =~= smooth_passes(e3, sm, pass as int + 1));
            }
            pass = pass + 1;
        }

        // Attack transient: square-root envelope, a bright noise burst
        // in the first half of the window and a subtle harmonic ping in
        // the first third.
        let attack_samples = if dl / 6 < 5 {
            5
        } else {
            dl / 6
        };
        let attack_cap = if attack_samples < dl {
            attack_samples
        } else {
            dl
        };
        let ghost e4 = smooth_passes(e3, sm, num_passes as int);
        let ghost att = attack_stage(e4, s0, velocity as int, dl as int);
        proof {
            assert(attack_samples as int == attack_len(dl as int));
            assert(attack_cap as int == attack_cap_of(dl as int));
        }
        let mut i: usize = 0;
        while i < attack_cap
            invariant
                i <= attack_cap <= dl,
                attack_cap <= attack_samples,
                exc@.len() == dl,
                0 <= velocity <= SCALE,
                5 <= attack_samples,
                attack_samples as int == attack_len(dl as int),
                attack_cap as int == attack_cap_of(dl as int),
                forall|k: int| i <= k < dl ==> absv(#[trigger] exc@[k] as int) <= 3_219_000,
                forall|k: int| 0 <= k < i ==> absv(#[trigger] exc@[k] as int) <= 4_019_000,
                forall|k: int|
                    0 <= k < i ==> (#[trigger] exc@[k]) as int == attack_at(
                        e4,
                        s0,
                        velocity as int,
                        dl as int,
                        k,
                    ),
                forall|k: int| i <= k < dl ==> (#[trigger] exc@[k]) as int == e4[k],
                self.noise_state as int == lcg_iter(
                    s0,
                    dl + (if i < attack_samples / 2 {
                        i as int
                    } else {
                        attack_samples as int / 2
                    }),
                ),
                vz ==> seq_zero(exc@),
                *self == (KarplusStrong { noise_state: self.noise_state, ..*old(self) }),
            decreases attack_cap - i,
        {
            let arg = ((i as u64) * 1_000_000_000_000) / (attack_samples as u64);
            proof {
                lemma_div_bounded(
                    (i as u64 * 1_000_000_000_000) as int,
                    attack_samples as int,
                    attack_samples as int,
                    1_000_000_000_000,
                );
            }
            let env = isqrt_fix(arg) as i64;
            let base = mul_fix(exc[i], env);
            let mut v = base;
            if i < attack_samples / 2 {
                let n = self.next_noise();
                let n1 = mul_fix(n, velocity);
                let n2 = mul_fix(n1, 550_000);
                let n3 = mul_fix(n2, SCALE - env);
                v = v + n3;
            }
            if i < attack_samples / 3 {
                let s = sin_fix((i as u64) * 500_000);
                let p1 = mul_fix(s, velocity);
                let p2 = mul_fix(p1, 250_000);
                let p3 = mul_fix(p2, SCALE - env);
                v = v + p3;
            }
            proof {
                assert(v as int == attack_at(e4, s0, velocity as int, dl as int, i as int));
            }
            exc[i] = v;
            i = i + 1;
        }

        proof {
            assert(seq_bounded(exc@, PLUCK_MAX as int));
            assert(self.noise_state as int == lcg_iter(s0, pluck_draws(dl as int)));
            assert forall|k: int| 0 <= k < dl implies (#[trigger] exc@[k]) as int == att[k] by {
                if k >= attack_cap {
                    assert(att[k] == e4[k]);
                }
            }
            assert(att == pluck_burst(s0, velocity as int, position as int, dl as int));
        }
        exc
    }

    /// Overwrite the newest delay-length slots of the circular line
    /// with a burst, newest first; every other slot keeps its value.
    fn write_burst(&mut self, exc: &Vec<i64>)
        requires
            old(self).wf(),
            exc@.len() == old(self).delay_length,
            seq_bounded(exc@, PLUCK_MAX as int),
        ensures
            *final(self) == (KarplusStrong { delay_line: final(self).delay_line, ..*old(self) }),
            final(self).delay_line@.len() == MAX_DELAY_LENGTH,
            seq_bounded(final(self).delay_line@, LINE_MAX as int),
            forall|i: int|
                0 <= i < old(self).delay_length ==> (#[trigger] final(self).delay_line@[line_pos(
                    old(self).write_pos as int,
                    i,
                )]) == exc@[i],
            forall|j: int|
                0 <= j < MAX_DELAY_LENGTH && (forall|i: int|
                    0 <= i < old(self).delay_length ==> j != line_pos(old(self).write_pos as int, i))
                    ==> (#[trigger] final(self).delay_line@[j]) == old(self).delay_line@[j],
    {
        let dl = self.delay_length;
        let ghost wp = self.write_pos as int;
        let mut i: usize = 0;
        while i < dl
            invariant
                i <= dl,
                exc@.len() == dl,
                self.delay_line@.len() == MAX_DELAY_LENGTH,
                self.write_pos < MAX_DELAY_LENGTH,
                dl <= MAX_DELAY_LENGTH - 1,
                wp == self.write_pos as int,
                seq_bounded(exc@, PLUCK_MAX as int),
                seq_bounded(self.delay_line@, LINE_MAX as int),
                forall|k: int|
                    0 <= k < i ==> #[trigger] self.delay_line@[line_pos(wp, k)] == exc@[k],
                forall|j: int|
                    0 <= j < MAX_DELAY_LENGTH && (forall|k: int| 0 <= k < i ==> j != line_pos(wp, k))
                        ==> #[trigger] self.delay_line@[j] == old(self).delay_line@[j],
                *self == (KarplusStrong { delay_line: self.delay_line, ..*old(self) }),
            decreases dl - i,
        {
            let pos = (self.write_pos + MAX_DELAY_LENGTH - i) % MAX_DELAY_LENGTH;
            let ghost pre_line = self.delay_line@;
            self.delay_line[pos] = exc[i];
            proof {
                assert(pos as int == line_pos(wp, i as int));
                assert forall|k: int| 0 <= k < i + 1 implies #[trigger] self.delay_line@[line_pos(
                    wp,
                    k,
                )] == exc@[k] by {
                    if k < i {
                        assert(line_pos(wp, k) != line_pos(wp, i as int));
                    }
                }
                assert forall|j: int|
                    0 <= j < MAX_DELAY_LENGTH && (forall|k: int|
                        0 <= k < i + 1 ==> j != line_pos(wp, k)) implies #[trigger] self.delay_line@[j]
                    == old(self).delay_line@[j] by {
                    assert(j != line_pos(wp, i as int));
                    assert(self.delay_line@[j] == pre_line[j]);
                }
            }
            i = i + 1;
        }
    }

    /// Pluck the string: synthesize a shaped excitation burst of the
    /// current integer delay length and write it into the circular
    /// line, newest first, overwriting prior content; reset the
    /// interpolation and DC filters so no stale memory clicks; set the
    /// energy estimate to the velocity.
    ///
    /// The burst pipeline: velocity-scaled noise; a subtractive
    /// pluck-position comb; an additive body-resonance comb; an
    /// additive octave comb; velocity-gated smoothing passes; and an
    /// attack window with a square-root envelope, an extra noise burst
    /// and a sinusoidal ping. The written slots are exactly
    /// [`pluck_burst`] of the prior noise state, the clamped velocity
    /// and position, and the delay length (see [`plucked_from`]); a
    /// zero velocity yields an all-zero burst.
    #[verifier::rlimit(60)]
    #[verifier::spinoff_prover]
    pub fn pluck(&mut self, velocity: i64, position: i64)
        requires
            old(self).wf(),
        ensures
            final(self).wf(),
            plucked_from(*final(self), *old(self), velocity as int, position as int),
            final(self).energy == clampv(velocity as int, 0, SCALE as int),
            final(self).delay_length == old(self).delay_length,
            final(self).frequency == old(self).frequency,
            forall|i: int|
                0 <= i < old(self).delay_length ==> absv(
                    #[trigger] final(self).delay_line@[line_pos(old(self).write_pos as int, i)] as int,
                ) <= PLUCK_MAX,
            clampv(velocity as int, 0, SCALE as int) == 0 ==> forall|i: int|
                0 <= i < old(self).delay_length ==> #[trigger] final(self).delay_line@[line_pos(
                    old(self).write_pos as int,
                    i,
                )] == 0,
    {
        proof {
            reveal(plucked_from);
        }
        let velocity = clamp_fix(velocity, 0, SCALE);
        let position = clamp_fix(position, 50_000, 950_000);

        // Synthesize the burst, then copy it into the circular line,
        // newest first.
        let exc = self.synth_excitation(velocity, position);
        self.write_burst(&exc);

        // Reset interpolation and DC state so old memory cannot click.
        self.allpass.reset();
        self.dc_blocker.reset();

        // The energy estimate tracks the pluck velocity.
        self.energy = velocity;
    }

    /// Damp the string: scale the whole line and the energy estimate by
    /// (1 - amount). Filter state is untouched.
    pub fn damp(&mut self, amount: i64)
        requires
            old(self).wf(),
        ensures
            final(self).wf(),
            ({
                let factor = (SCALE as int) - clampv(amount as int, 0, SCALE as int);
                &&& final(self).delay_line@.len() == MAX_DELAY_LENGTH
                &&& forall|j: int|
                    0 <= j < MAX_DELAY_LENGTH ==> #[trigger] final(self).delay_line@[j] == fmul(
                        old(self).delay_line@[j] as int,
                        factor,
                    )
                &&& final(self).energy == fmul(old(self).energy as int, factor)
            }),
            *final(self) == (KarplusStrong {
                delay_line: final(self).delay_line,
                energy: final(self).energy,
                ..*old(self)
            }),
    {
        let factor = SCALE - clamp_fix(amount, 0, SCALE);
        let mut j: usize = 0;
        while j < MAX_DELAY_LENGTH
            invariant
                j <= MAX_DELAY_LENGTH,
                self.delay_line@.len() == MAX_DELAY_LENGTH,
                0 <= factor <= SCALE,
                forall|k: int|
                    0 <= k < j ==> #[trigger] self.delay_line@[k] == fmul(
                        old(self).delay_line@[k] as int,
                        factor as int,
                    ) && absv(self.delay_line@[k] as int) <= LINE_MAX,
                forall|k: int|
                    j <= k < MAX_DELAY_LENGTH ==> #[trigger] self.delay_line@[k] == old(self).delay_line@[k],
                *self == (KarplusStrong { delay_line: self.delay_line, ..*old(self) }),
            decreases MAX_DELAY_LENGTH - j,
        {
            self.delay_line[j] = mul_fix(self.delay_line[j], factor);
            j = j + 1;
        }
        self.energy = mul_fix(self.energy, factor);
    }

    /// Process one sample with an external excitation (used for
    /// sympathetic coupling).
    ///
    /// Reads the delayed sample, interpolates it through the tuning
    /// allpass, damps it, scales it by the feedback gain, optionally
    /// blends a phase-offset read for inharmonicity, adds the external
    /// excitation and writes the sum back (saturating at the line
    /// headroom); the audible output is the DC-blocked interpolated
    /// tap, before feedback scaling.
    ///
    /// A silent string given zero excitation stays silent and its
    /// energy estimate never increases.
    pub fn process(&mut self, excitation: i64) -> (r: i64)
        requires
            old(self).wf(),
            absv(excitation as int) <= 100_000,
        ensures
            final(self).wf(),
            ({
                let sample = old(self).delay_line@[old(self).read_index()] as int;
                let interpolated = allpass_step(old(self).allpass, sample);
                let damped = one_pole_step(old(self).damping_filter, interpolated);
                let fb = fmul(damped, old(self).feedback as int);
                let inharmonic = if old(self).inharmonicity > 0 {
                    fmul(fb, (SCALE as int) - old(self).inharmonicity)
                        + fmul(
                        old(self).delay_line@[old(self).alt_index()] as int,
                        old(self).inharmonicity as int,
                    )
                } else {
                    fb
                };
                let written = clampv(
                    inharmonic + excitation,
                    -(LINE_MAX as int),
                    LINE_MAX as int,
                );
                &&& r == dc_step(old(self).dc_blocker, interpolated)
                &&& final(self).delay_line@ == old(self).delay_line@.update(
                    old(self).write_pos as int,
                    written as i64,
                )
                &&& final(self).write_pos == (old(self).write_pos + 1) % (
                MAX_DELAY_LENGTH as int)
                &&& final(self).energy == maxv(
                    fmul(old(self).energy as int, ENERGY_DECAY as int),
                    absv(sample),
                )
                &&& final(self).allpass.z1_in == sample
                &&& final(self).allpass.z1_out == interpolated
                &&& final(self).damping_filter.z1 == damped
                &&& final(self).dc_blocker.x1 == interpolated
                &&& final(self).dc_blocker.y1 == dc_state(old(self).dc_blocker, interpolated)
            }),
            absv(r as int) <= 2_000_000,
            final(self).delay_length == old(self).delay_length,
            final(self).fractional_delay == old(self).fractional_delay,
            final(self).frequency == old(self).frequency,
            final(self).feedback == old(self).feedback,
            final(self).brightness == old(self).brightness,
            final(self).damping == old(self).damping,
            final(self).inharmonicity == old(self).inharmonicity,
            final(self).energy_decay == old(self).energy_decay,
            final(self).noise_state == old(self).noise_state,
            final(self).allpass.coefficient == old(self).allpass.coefficient,
            final(self).damping_filter.a1 == old(self).damping_filter.a1,
            final(self).dc_blocker.r_coef == old(self).dc_blocker.r_coef,
            old(self).silent() && excitation == 0 ==> ({
                &&& r == 0
                &&& final(self).silent()
                &&& final(self).energy == fmul(old(self).energy as int, ENERGY_DECAY as int)
                &&& final(self).energy <= old(self).energy
            }),
    {
        let read_pos = (self.write_pos + MAX_DELAY_LENGTH - self.delay_length) % MAX_DELAY_LENGTH;
        let sample = self.delay_line[read_pos];

        // Fractional-delay interpolation, then the damping lowpass.
        let interpolated = self.allpass.process(sample);
        let damped = self.damping_filter.process(interpolated);

        // Feedback scaling.
        let feedback_sample = mul_fix(damped, self.feedback);

        // Inharmonicity: blend a phase-offset read, the offset driven
        // by a slow sinusoid of the write cursor.
        let inharmonic = if self.inharmonicity > 0 {
            proof {
                assert((self.write_pos as int) * (self.inharmonicity as int) <= 500_000_000)
                    by (nonlinear_arith)
                    requires
                        self.write_pos < 4096,
                        0 <= self.inharmonicity <= 100_000,
                ;
            }
            let arg = ((self.write_pos as u64) * (self.inharmonicity as u64)) / 10;
            let offset = div_fix(2 * sin_fix(arg), SCALE);
            let alt_pos = ((read_pos + MAX_DELAY_LENGTH) as i64 + offset) as usize
                % MAX_DELAY_LENGTH;
            proof {
                assert(alt_pos as int == old(self).alt_index());
            }
            mul_fix(feedback_sample, SCALE - self.inharmonicity) + mul_fix(
                self.delay_line[alt_pos],
                self.inharmonicity,
            )
        } else {
            feedback_sample
        };

        // Write back with the external excitation, saturating at the
        // line headroom.
        let written = clamp_fix(inharmonic + excitation, -LINE_MAX, LINE_MAX);
        self.delay_line[self.write_pos] = written;
        self.write_pos = (self.write_pos + 1) % MAX_DELAY_LENGTH;

        // Exponential decay tracking of the energy estimate.
        let decayed = mul_fix(self.energy, ENERGY_DECAY);
        let mag = if sample >= 0 {
            sample
        } else {
            -sample
        };
        self.energy = if decayed >= mag {
            decayed
        } else {
            mag
        };

        // The audible output: the DC-blocked interpolated tap.
        self.dc_blocker.process(interpolated)
    }

    /// The phase-offset read index that the inharmonicity blend uses.
    pub open spec fn alt_index(self) -> int {
        let arg = (self.write_pos * self.inharmonicity) / 10;
        let offset = tdiv(2 * crate::fixed::sin_fix_spec(arg), SCALE as int);
        (self.read_index() + MAX_DELAY_LENGTH + offset) % (MAX_DELAY_LENGTH as int)
    }

    /// Get the current energy level.
    pub fn get_energy(&self) -> (r: i64)
        ensures
            r == self.energy,
    {
        self.energy
    }

    /// Non-destructive read of the most recent delay-line samples,
    /// most recent first.
    pub fn get_waveform(&self, num_samples: usize) -> (r: Vec<i64>)
        requires
            self.wf(),
        ensures
            r@.len() == (if num_samples < self.delay_length {
                num_samples as int
            } else {
                self.delay_length as int
            }),
            forall|i: int|
                0 <= i < r@.len() ==> #[trigger] r@[i] == self.delay_line@[line_pos(
                    self.write_pos as int,
                    i,
                )],
    {
        let samples = if num_samples < self.delay_length {
            num_samples
        } else {
            self.delay_length
        };
        let mut waveform: Vec<i64> = Vec::new();
        let mut i: usize = 0;
        while i < samples
            invariant
                i <= samples,
                samples <= self.delay_length,
                waveform@.len() == i,
                forall|k: int|
                    0 <= k < i ==> #[trigger] waveform@[k] == self.delay_line@[line_pos(
                        self.write_pos as int,
                        k,
                    )],
            decreases samples - i,
        {
            let pos = (self.write_pos + MAX_DELAY_LENGTH - i) % MAX_DELAY_LENGTH;
            waveform.push(self.delay_line[pos]);
            i = i + 1;
        }
        waveform
    }
}

} // verus!
