//! Digital filters for the Karplus-Strong algorithm.
//!
//! Contains:
//! - OnePole: first-order IIR lowpass, used for damping in feedback loops
//! - DCBlocker: first-order highpass that removes DC offset
//! - Allpass: first-order allpass for fractional-delay interpolation
//! - Comb: damped recirculating delay for resonance effects
//! - Biquad: two-pole/two-zero cookbook filter (reusable primitive)
//!
//! Every filter carries a well-formedness invariant bounding its state,
//! so the recursive signal path provably never overflows the fixed-point
//! headroom.

use vstd::prelude::*;
use crate::fixed::{
    SCALE, PI_FIX, TWO_PI_FIX, HALF_PI_FIX, absv, maxv, tdiv, fmul, clampv, clamp_fix, div_fix,
    mul_fix, sin_fix, sin_fix_spec, seq_bounded, seq_zero, lemma_scaled_bound, lemma_div_unit,
    lemma_div_ratio, lemma_fmul_unit, lemma_fmul_zero,
};

verus! {

/// Headroom bound for a one-pole filter state.
pub const ONE_POLE_MAX: i64 = 2_000_000_000;

/// Largest input magnitude a DC blocker accepts.
pub const DC_IN_MAX: i64 = 2_000_000_000;

/// The DC blocker clamps its emitted sample here.
pub const DC_OUT_MAX: i64 = 2_000_000;

/// The DC blocker's recursion state saturates only at this machine
/// headroom, far beyond any signal level, so the raw recurrence feeds
/// back unchanged in practice.
pub const DC_STATE_MAX: i64 = 4_000_000_000_000;

/// Largest input magnitude the string allpass accepts: the delay-line
/// headroom.
pub const AP_IN_MAX: i64 = 8_000_000;

/// Worst-case allpass output bound: the filter's transient gain with a
/// 0.99 coefficient is (1 + 0.99) / (1 - 0.99) = 199.
pub const AP_OUT_MAX: i64 = 1_592_000_000;

/// Largest input magnitude a comb filter accepts.
pub const COMB_IN_MAX: i64 = 2_000_000;

/// Comb delay-buffer headroom: input bound over (1 - max feedback).
pub const COMB_BUF_MAX: i64 = 200_000_000;

/// Largest input magnitude a biquad accepts.
pub const BQ_IN_MAX: i64 = 1_000_000_000;

/// Biquad state registers saturate at this headroom.
pub const BQ_STATE_MAX: i64 = 1_000_000_000_000;

// ===========================================================================
// OnePole
// ===========================================================================

/// One-pole filter (first-order IIR).
///
/// Transfer function: H(z) = b0 / (1 - a1 * z^-1).
/// Used for damping in the feedback loop.
pub struct OnePole {
    /// Output coefficient.
    pub a1: i64,
    /// Input coefficient, always SCALE - a1.
    pub b0: i64,
    /// Previous output (state).
    pub z1: i64,
}

/// One step of the one-pole recurrence: y = b0*x + a1*y_prev, rescaled.
pub open spec fn one_pole_step(f: OnePole, x: int) -> int {
    fmul(x, f.b0 as int) + fmul(f.z1 as int, f.a1 as int)
}

proof fn lemma_one_pole_bound(x: int, z: int, b0: int, a1: int, t1: int, t2: int)
    by (nonlinear_arith)
    requires
        0 <= a1 <= 990_000,
        b0 == SCALE as int - a1,
        absv(t1) * (SCALE as int) <= absv(x) * b0,
        absv(t2) * (SCALE as int) <= absv(z) * a1,
    ensures
        absv(t1 + t2) <= maxv(absv(x), absv(z)),
{
}

impl OnePole {
    /// State bounds that every constructor establishes and every method
    /// preserves.
    pub open spec fn wf(self) -> bool {
        &&& 0 <= self.a1 <= 990_000
        &&& self.b0 == SCALE - self.a1
        &&& absv(self.z1 as int) <= ONE_POLE_MAX as int
    }

    /// The filter is at rest: processing zeroes yields zeroes.
    pub open spec fn quiescent(self) -> bool {
        self.z1 == 0
    }

    /// Create a new lowpass one-pole filter.
    ///
    /// coefficient: 0 = no filtering, up to 0.99 = maximum smoothing.
    pub fn new(coefficient: i64) -> (r: OnePole)
        ensures
            r.wf(),
            r.quiescent(),
            r.a1 == clampv(coefficient as int, 0, 990_000),
    {
        let a1 = clamp_fix(coefficient, 0, 990_000);
        OnePole { a1, b0: SCALE - a1, z1: 0 }
    }

    /// Set the filter coefficient (for lowpass).
    pub fn set_coefficient(&mut self, coefficient: i64)
        requires
            old(self).wf(),
        ensures
            final(self).wf(),
            final(self).a1 == clampv(coefficient as int, 0, 990_000),
            final(self).b0 == SCALE - final(self).a1,
            final(self).z1 == old(self).z1,
    {
        self.a1 = clamp_fix(coefficient, 0, 990_000);
        self.b0 = SCALE - self.a1;
    }

    /// Process one sample: y[n] = b0 * x[n] + a1 * y[n-1].
    ///
    /// With coefficient zero the filter is the identity on its input
    /// stream, and a quiescent filter maps zero to zero staying
    /// quiescent.
    pub fn process(&mut self, input: i64) -> (r: i64)
        requires
            old(self).wf(),
            absv(input as int) <= ONE_POLE_MAX as int,
        ensures
            final(self).wf(),
            r == one_pole_step(*old(self), input as int),
            final(self).z1 == r,
            final(self).a1 == old(self).a1,
            final(self).b0 == old(self).b0,
            absv(r as int) <= maxv(absv(input as int), absv(old(self).z1 as int)),
            old(self).a1 == 0 ==> r == input,
            old(self).quiescent() && input == 0 ==> r == 0 && final(self).quiescent(),
    {
        let t1 = mul_fix(input, self.b0);
        let t2 = mul_fix(self.z1, self.a1);
        proof {
            lemma_one_pole_bound(
                input as int,
                self.z1 as int,
                self.b0 as int,
                self.a1 as int,
                t1 as int,
                t2 as int,
            );
            lemma_fmul_unit(input as int);
            lemma_fmul_unit(self.z1 as int);
        }
        let output = t1 + t2;
        self.z1 = output;
        output
    }

    /// Reset filter state.
    pub fn reset(&mut self)
        ensures
            final(self).quiescent(),
            final(self).a1 == old(self).a1,
            final(self).b0 == old(self).b0,
            old(self).wf() ==> final(self).wf(),
    {
        self.z1 = 0;
    }
}

// ===========================================================================
// DCBlocker
// ===========================================================================

/// DC blocking filter (highpass): y[n] = x[n] - x[n-1] + R * y[n-1],
/// with R close to one. Removes DC offset while passing audio.
///
/// The recursion feeds back the raw recurrence value; only the emitted
/// sample is clamped into the [-2, 2] containment band. The stored
/// state saturates at a machine headroom that real signals never
/// reach, the fixed-point stand-in for the reset-on-non-finite
/// self-healing a floating-point realization needs.
pub struct DCBlocker {
    /// Pole coefficient (close to one).
    pub r_coef: i64,
    /// Previous input.
    pub x1: i64,
    /// Previous raw output.
    pub y1: i64,
}

/// The unclamped DC-blocker recurrence.
pub open spec fn dc_raw(f: DCBlocker, x: int) -> int {
    x - f.x1 + fmul(f.y1 as int, f.r_coef as int)
}

/// The sample one DC-blocker step emits: the recurrence, clamped into
/// the containment band.
pub open spec fn dc_step(f: DCBlocker, x: int) -> int {
    clampv(dc_raw(f, x), -(DC_OUT_MAX as int), DC_OUT_MAX as int)
}

/// The recursion state after one step: the raw recurrence, saturating
/// only at the machine headroom.
pub open spec fn dc_state(f: DCBlocker, x: int) -> int {
    clampv(dc_raw(f, x), -(DC_STATE_MAX as int), DC_STATE_MAX as int)
}

impl DCBlocker {
    pub open spec fn wf(self) -> bool {
        &&& 900_000 <= self.r_coef <= 999_900
        &&& absv(self.x1 as int) <= DC_IN_MAX as int
        &&& absv(self.y1 as int) <= DC_STATE_MAX as int
    }

    pub open spec fn quiescent(self) -> bool {
        self.x1 == 0 && self.y1 == 0
    }

    /// Create a new DC blocker.
    ///
    /// cutoff_hz: frequency (fixed-point Hz) below which to attenuate;
    /// the pole is R = 1 - 2*pi*fc/fs, clamped to [0.9, 0.9999].
    pub fn new(cutoff_hz: i64, sample_rate: i64) -> (r: DCBlocker)
        requires
            0 <= cutoff_hz <= 1_000_000_000_000,
            1 <= sample_rate <= 1_000_000,
        ensures
            r.wf(),
            r.quiescent(),
            r.r_coef == clampv(
                SCALE - tdiv(TWO_PI_FIX as int * cutoff_hz as int, sample_rate as int * SCALE),
                900_000,
                999_900,
            ),
    {
        let num = TWO_PI_FIX * cutoff_hz;
        let den = sample_rate * SCALE;
        let raw = SCALE - div_fix(num, den);
        let r_coef = clamp_fix(raw, 900_000, 999_900);
        DCBlocker { r_coef, x1: 0, y1: 0 }
    }

    /// Process one sample: emit the clamped recurrence, feed back the
    /// raw value.
    pub fn process(&mut self, input: i64) -> (r: i64)
        requires
            old(self).wf(),
            absv(input as int) <= DC_IN_MAX as int,
        ensures
            final(self).wf(),
            r == dc_step(*old(self), input as int),
            absv(r as int) <= DC_OUT_MAX as int,
            final(self).x1 == input,
            final(self).y1 == dc_state(*old(self), input as int),
            final(self).r_coef == old(self).r_coef,
            old(self).quiescent() && input == 0 ==> r == 0 && final(self).quiescent(),
    {
        let fb = mul_fix(self.y1, self.r_coef);
        let raw = input - self.x1 + fb;
        let output = clamp_fix(raw, -DC_OUT_MAX, DC_OUT_MAX);
        self.x1 = input;
        self.y1 = clamp_fix(raw, -DC_STATE_MAX, DC_STATE_MAX);
        output
    }

    /// Reset filter state.
    pub fn reset(&mut self)
        ensures
            final(self).quiescent(),
            final(self).r_coef == old(self).r_coef,
            old(self).wf() ==> final(self).wf(),
    {
        self.x1 = 0;
        self.y1 = 0;
    }
}

// ===========================================================================
// Allpass
// ===========================================================================

/// First-order allpass filter for fractional delay.
///
/// Transfer function: H(z) = (a + z^-1) / (1 + a * z^-1).
/// Used for interpolating between samples to achieve precise tuning.
pub struct Allpass {
    /// Allpass coefficient, in [-0.99, 0.99].
    pub coefficient: i64,
    /// Previous input (state).
    pub z1_in: i64,
    /// Previous output (state).
    pub z1_out: i64,
}

/// One step of the allpass recurrence: y = a*x + x_prev - a*y_prev.
pub open spec fn allpass_step(f: Allpass, x: int) -> int {
    fmul(x, f.coefficient as int) + f.z1_in - fmul(f.z1_out as int, f.coefficient as int)
}

proof fn lemma_allpass_bound(x: int, zi: int, zo: int, c: int, t1: int, t2: int)
    by (nonlinear_arith)
    requires
        absv(t1) * (SCALE as int) <= absv(x) * absv(c),
        absv(t2) * (SCALE as int) <= absv(zo) * absv(c),
        absv(c) <= 990_000,
        absv(x) <= AP_IN_MAX as int,
        absv(zi) <= AP_IN_MAX as int,
        absv(zo) <= AP_OUT_MAX as int,
    ensures
        absv(t1 + zi - t2) <= AP_OUT_MAX as int,
{
}

impl Allpass {
    pub open spec fn wf(self) -> bool {
        &&& absv(self.coefficient as int) <= 990_000
        &&& absv(self.z1_in as int) <= AP_IN_MAX as int
        &&& absv(self.z1_out as int) <= AP_OUT_MAX as int
    }

    pub open spec fn quiescent(self) -> bool {
        self.z1_in == 0 && self.z1_out == 0
    }

    /// Create a new allpass filter.
    pub fn new(coefficient: i64) -> (r: Allpass)
        requires
            absv(coefficient as int) <= 990_000,
        ensures
            r.wf(),
            r.quiescent(),
            r.coefficient == coefficient,
    {
        Allpass { coefficient, z1_in: 0, z1_out: 0 }
    }

    /// Set the allpass coefficient.
    pub fn set_coefficient(&mut self, coefficient: i64)
        requires
            old(self).wf(),
        ensures
            final(self).wf(),
            final(self).coefficient == clampv(coefficient as int, -990_000, 990_000),
            final(self).z1_in == old(self).z1_in,
            final(self).z1_out == old(self).z1_out,
    {
        self.coefficient = clamp_fix(coefficient, -990_000, 990_000);
    }

    /// Process one sample: y[n] = a * x[n] + x[n-1] - a * y[n-1].
    pub fn process(&mut self, input: i64) -> (r: i64)
        requires
            old(self).wf(),
            absv(input as int) <= AP_IN_MAX as int,
        ensures
            final(self).wf(),
            r == allpass_step(*old(self), input as int),
            absv(r as int) <= AP_OUT_MAX as int,
            final(self).z1_in == input,
            final(self).z1_out == r,
            final(self).coefficient == old(self).coefficient,
            old(self).quiescent() && input == 0 ==> r == 0 && final(self).quiescent(),
    {
        let t1 = mul_fix(input, self.coefficient);
        let t2 = mul_fix(self.z1_out, self.coefficient);
        proof {
            lemma_allpass_bound(
                input as int,
                self.z1_in as int,
                self.z1_out as int,
                self.coefficient as int,
                t1 as int,
                t2 as int,
            );
        }
        let output = t1 + self.z1_in - t2;
        self.z1_in = input;
        self.z1_out = output;
        output
    }

    /// Reset filter state.
    pub fn reset(&mut self)
        ensures
            final(self).quiescent(),
            final(self).coefficient == old(self).coefficient,
            old(self).wf() ==> final(self).wf(),
    {
        self.z1_in = 0;
        self.z1_out = 0;
    }
}

// ===========================================================================
// Comb
// ===========================================================================

/// Comb filter for resonance effects: a damped recirculating delay.
/// The feedback path passes through an internal one-pole damper before
/// being added back into the written sample.
pub struct Comb {
    /// Delay buffer.
    pub buffer: Vec<i64>,
    /// Current write position.
    pub write_pos: usize,
    /// Delay in samples.
    pub delay: usize,
    /// Feedback gain, in [0, 0.99].
    pub feedback: i64,
    /// Damping filter in the feedback path.
    pub damping: OnePole,
}

impl Comb {
    pub open spec fn wf(self) -> bool {
        &&& 1 <= self.buffer@.len() <= 268_435_456
        &&& self.delay <= self.buffer@.len()
        &&& self.write_pos < self.buffer@.len()
        &&& 0 <= self.feedback <= 990_000
        &&& self.damping.wf()
        &&& absv(self.damping.z1 as int) <= COMB_BUF_MAX as int
        &&& seq_bounded(self.buffer@, COMB_BUF_MAX as int)
    }

    pub open spec fn quiescent(self) -> bool {
        seq_zero(self.buffer@) && self.damping.quiescent()
    }

    /// Index of the delayed sample that this step reads.
    pub open spec fn read_index(self) -> int {
        (self.write_pos + self.buffer@.len() - self.delay) % (self.buffer@.len() as int)
    }

    /// The delayed sample after the damping filter.
    pub open spec fn filtered_spec(self) -> int {
        one_pole_step(self.damping, self.buffer@[self.read_index()] as int)
    }

    /// The comb output for an input sample: input plus damped, scaled
    /// feedback.
    pub open spec fn step_out(self, x: int) -> int {
        x + fmul(self.filtered_spec(), self.feedback as int)
    }

    /// Create a new comb filter.
    pub fn new(delay_samples: usize, feedback: i64, damping: i64) -> (r: Comb)
        requires
            delay_samples <= 268_435_456,
            0 <= feedback <= 990_000,
        ensures
            r.wf(),
            r.quiescent(),
            r.delay == delay_samples,
            r.write_pos == 0,
            r.feedback == feedback,
            r.damping.a1 == clampv(damping as int, 0, 990_000),
            r.buffer@.len() == maxv(delay_samples as int, 1),
    {
        let size = if delay_samples < 1 {
            1
        } else {
            delay_samples
        };
        let buffer = vec![0i64; size];
        Comb { buffer, write_pos: 0, delay: delay_samples, feedback, damping: OnePole::new(damping) }
    }

    /// Set feedback gain.
    pub fn set_feedback(&mut self, feedback: i64)
        requires
            old(self).wf(),
        ensures
            final(self).wf(),
            final(self).feedback == clampv(feedback as int, 0, 990_000),
            final(self).buffer == old(self).buffer,
            final(self).write_pos == old(self).write_pos,
            final(self).delay == old(self).delay,
            final(self).damping == old(self).damping,
    {
        self.feedback = clamp_fix(feedback, 0, 990_000);
    }

    /// Set damping amount.
    pub fn set_damping(&mut self, damping: i64)
        requires
            old(self).wf(),
        ensures
            final(self).wf(),
            final(self).damping.a1 == clampv(damping as int, 0, 990_000),
            final(self).damping.z1 == old(self).damping.z1,
            final(self).buffer == old(self).buffer,
            final(self).write_pos == old(self).write_pos,
            final(self).delay == old(self).delay,
            final(self).feedback == old(self).feedback,
    {
        self.damping.set_coefficient(damping);
    }

    /// Process one sample: read the delayed sample, damp it, add the
    /// scaled feedback to the input, and write the result back.
    pub fn process(&mut self, input: i64) -> (r: i64)
        requires
            old(self).wf(),
            absv(input as int) <= COMB_IN_MAX as int,
        ensures
            final(self).wf(),
            r == old(self).step_out(input as int),
            absv(r as int) <= COMB_BUF_MAX as int,
            final(self).buffer@ == old(self).buffer@.update(old(self).write_pos as int, r),
            final(self).write_pos == (old(self).write_pos + 1) % (old(self).buffer@.len() as int),
            final(self).delay == old(self).delay,
            final(self).feedback == old(self).feedback,
            final(self).damping.a1 == old(self).damping.a1,
            final(self).damping.z1 == old(self).filtered_spec(),
            old(self).quiescent() && input == 0 ==> r == 0 && final(self).quiescent(),
    {
        let len = self.buffer.len();
        let read_pos = (self.write_pos + len - self.delay) % len;
        let delayed = self.buffer[read_pos];
        let filtered = self.damping.process(delayed);
        let scaled = mul_fix(filtered, self.feedback);
        proof {
            lemma_scaled_bound(
                filtered as int,
                self.feedback as int,
                scaled as int,
                COMB_BUF_MAX as int,
            );
        }
        let output = input + scaled;
        self.buffer[self.write_pos] = output;
        self.write_pos = (self.write_pos + 1) % len;
        output
    }

    /// Clear the buffer and the damper state.
    pub fn clear(&mut self)
        requires
            old(self).wf(),
        ensures
            final(self).wf(),
            final(self).quiescent(),
            final(self).buffer@.len() == old(self).buffer@.len(),
            final(self).write_pos == old(self).write_pos,
            final(self).delay == old(self).delay,
            final(self).feedback == old(self).feedback,
            final(self).damping.a1 == old(self).damping.a1,
    {
        let ghost orig = *self;
        let len = self.buffer.len();
        let mut i: usize = 0;
        while i < len
            invariant
                len == self.buffer@.len(),
                i <= len,
                forall|j: int| 0 <= j < i ==> #[trigger] self.buffer@[j] == 0,
                self.write_pos == orig.write_pos,
                self.delay == orig.delay,
                self.feedback == orig.feedback,
                self.damping == orig.damping,
                orig.wf(),
                *old(self) == orig,
            decreases len - i,
        {
            self.buffer[i] = 0;
            i = i + 1;
        }
        self.damping.reset();
    }
}

// ===========================================================================
// Laws: reset equals fresh construction
// ===========================================================================

/// Law: after `reset`, an allpass processes a zero-input stream exactly
/// as a freshly constructed one with the same coefficient. Both are
/// quiescent, one quiescent step on zero emits zero, and `process`
/// guarantees the successor state is quiescent again — so the two
/// zero-input output streams coincide forever.
pub proof fn lemma_allpass_reset_like_fresh(f: Allpass)
    requires
        f.quiescent(),
    ensures
        allpass_step(f, 0) == 0,
{
    lemma_fmul_zero(f.coefficient as int);
}

/// Law: after `reset`, a DC blocker processes a zero-input stream
/// exactly as a freshly constructed one with the same pole: both are
/// quiescent, and one quiescent step on zero emits zero.
pub proof fn lemma_dc_blocker_reset_like_fresh(f: DCBlocker)
    requires
        f.quiescent(),
    ensures
        dc_step(f, 0) == 0,
{
    lemma_fmul_zero(f.r_coef as int);
}

/// Law: after `clear`, a comb processes a zero-input stream exactly as
/// a freshly constructed one with the same delay, feedback and damping:
/// both are quiescent, and one quiescent step on zero emits zero.
pub proof fn lemma_comb_clear_like_fresh(f: Comb)
    requires
        f.wf(),
        f.quiescent(),
    ensures
        f.step_out(0) == 0,
{
    assert(f.buffer@[f.read_index()] == 0);
    lemma_fmul_zero(f.damping.b0 as int);
    lemma_fmul_zero(f.damping.a1 as int);
    lemma_fmul_zero(f.feedback as int);
}

// ===========================================================================
// Biquad
// ===========================================================================

/// Second-order biquad filter (Direct Form II Transposed), built by the
/// cookbook lowpass/highpass constructions. Present as a reusable
/// primitive; the default signal path does not use it.
pub struct Biquad {
    pub b0: i64,
    pub b1: i64,
    pub b2: i64,
    pub a1: i64,
    pub a2: i64,
    pub z1: i64,
    pub z2: i64,
}

/// The digital angular frequency 2*pi*fc/fs in fixed-point radians,
/// held to the [0, pi] cookbook domain.
pub open spec fn biquad_omega(cutoff: int, rate: int) -> int {
    let w = tdiv(TWO_PI_FIX as int * cutoff, rate * (SCALE as int));
    if w > PI_FIX as int {
        PI_FIX as int
    } else {
        w
    }
}

/// alpha = sin(omega) / (2 q) in fixed point.
pub open spec fn biquad_alpha(cutoff: int, q: int, rate: int) -> int {
    tdiv(sin_fix_spec(biquad_omega(cutoff, rate)) * (SCALE as int), 2 * q)
}

/// A raw cookbook coefficient divided by a0 = 1 + alpha.
pub open spec fn coef_norm(x: int, a0: int) -> int {
    tdiv(x * (SCALE as int), a0)
}

/// Divide a raw cookbook coefficient by a0, keeping its magnitude.
fn normalize_coef(x: i64, a0: i64) -> (r: i64)
    requires
        absv(x as int) <= 100_000_000,
        SCALE <= a0 <= 100_000_000,
    ensures
        r == coef_norm(x as int, a0 as int),
        absv(r as int) <= absv(x as int),
        absv(x as int) <= a0 ==> absv(r as int) <= SCALE as int,
    {
    proof {
        lemma_div_unit(x as int, a0 as int);
        if absv(x as int) <= a0 {
            lemma_div_ratio(x as int, a0 as int);
        }
    }
    div_fix(x * SCALE, a0)
}

impl Biquad {
    pub open spec fn wf(self) -> bool {
        &&& absv(self.b0 as int) <= 2_000_000
        &&& absv(self.b1 as int) <= 2_000_000
        &&& absv(self.b2 as int) <= 2_000_000
        &&& absv(self.a1 as int) <= 2_000_000
        &&& absv(self.a2 as int) <= SCALE as int
        &&& absv(self.z1 as int) <= BQ_STATE_MAX as int
        &&& absv(self.z2 as int) <= BQ_STATE_MAX as int
    }

    /// Shared tail of the cookbook constructions: normalize the raw
    /// coefficients by a0 = 1 + alpha.
    fn from_raw(b0_raw: i64, b1_raw: i64, a1_raw: i64, a2_raw: i64, a0: i64) -> (r: Biquad)
        requires
            absv(b0_raw as int) <= 2_000_000,
            absv(b1_raw as int) <= 2_000_000,
            absv(a1_raw as int) <= 2_000_000,
            absv(a2_raw as int) <= 100_000_000,
            absv(a2_raw as int) <= a0,
            SCALE <= a0 <= 100_000_000,
        ensures
            r.wf(),
            r.z1 == 0,
            r.z2 == 0,
            r.b0 == coef_norm(b0_raw as int, a0 as int),
            r.b1 == coef_norm(b1_raw as int, a0 as int),
            r.b2 == coef_norm(b0_raw as int, a0 as int),
            r.a1 == coef_norm(a1_raw as int, a0 as int),
            r.a2 == coef_norm(a2_raw as int, a0 as int),
    {
        Biquad {
            b0: normalize_coef(b0_raw, a0),
            b1: normalize_coef(b1_raw, a0),
            b2: normalize_coef(b0_raw, a0),
            a1: normalize_coef(a1_raw, a0),
            a2: normalize_coef(a2_raw, a0),
            z1: 0,
            z2: 0,
        }
    }

    /// Create a lowpass biquad filter from a cutoff (fixed-point Hz), a
    /// quality factor, and a sample rate in whole Hz.
    pub fn lowpass(cutoff_hz: i64, q: i64, sample_rate: i64) -> (r: Biquad)
        requires
            0 <= cutoff_hz <= 100_000_000_000,
            10_000 <= q <= 100_000_000,
            1 <= sample_rate <= 1_000_000,
        ensures
            r.wf(),
            r.z1 == 0,
            r.z2 == 0,
            ({
                let omega = biquad_omega(cutoff_hz as int, sample_rate as int);
                let cos_w = sin_fix_spec(omega + HALF_PI_FIX as int);
                let a0 = SCALE + biquad_alpha(cutoff_hz as int, q as int, sample_rate as int);
                &&& r.b0 == coef_norm(tdiv(SCALE - cos_w, 2), a0)
                &&& r.b1 == coef_norm(SCALE - cos_w, a0)
                &&& r.b2 == r.b0
                &&& r.a1 == coef_norm(-2 * cos_w, a0)
                &&& r.a2 == coef_norm(
                    SCALE - biquad_alpha(cutoff_hz as int, q as int, sample_rate as int),
                    a0,
                )
            }),
    {
        let (sin_w, cos_w, a0, alpha) = Self::cookbook_terms(cutoff_hz, q, sample_rate);
        let b1_raw = SCALE - cos_w;
        let b0_raw = div_fix(b1_raw, 2);
        let a1_raw = -2 * cos_w;
        let a2_raw = SCALE - alpha;
        Self::from_raw(b0_raw, b1_raw, a1_raw, a2_raw, a0)
    }

    /// Create a highpass biquad filter.
    pub fn highpass(cutoff_hz: i64, q: i64, sample_rate: i64) -> (r: Biquad)
        requires
            0 <= cutoff_hz <= 100_000_000_000,
            10_000 <= q <= 100_000_000,
            1 <= sample_rate <= 1_000_000,
        ensures
            r.wf(),
            r.z1 == 0,
            r.z2 == 0,
            ({
                let omega = biquad_omega(cutoff_hz as int, sample_rate as int);
                let cos_w = sin_fix_spec(omega + HALF_PI_FIX as int);
                let a0 = SCALE + biquad_alpha(cutoff_hz as int, q as int, sample_rate as int);
                &&& r.b0 == coef_norm(tdiv(SCALE + cos_w, 2), a0)
                &&& r.b1 == coef_norm(-(SCALE + cos_w), a0)
                &&& r.b2 == r.b0
                &&& r.a1 == coef_norm(-2 * cos_w, a0)
                &&& r.a2 == coef_norm(
                    SCALE - biquad_alpha(cutoff_hz as int, q as int, sample_rate as int),
                    a0,
                )
            }),
    {
        let (sin_w, cos_w, a0, alpha) = Self::cookbook_terms(cutoff_hz, q, sample_rate);
        let b1_raw = -(SCALE + cos_w);
        let b0_raw = div_fix(SCALE + cos_w, 2);
        let a1_raw = -2 * cos_w;
        let a2_raw = SCALE - alpha;
        Self::from_raw(b0_raw, b1_raw, a1_raw, a2_raw, a0)
    }

    /// Compute sin(omega), cos(omega), a0 and alpha for the cookbook
    /// constructions.
    fn cookbook_terms(cutoff_hz: i64, q: i64, sample_rate: i64) -> (r: (i64, i64, i64, i64))
        requires
            0 <= cutoff_hz <= 100_000_000_000,
            10_000 <= q <= 100_000_000,
            1 <= sample_rate <= 1_000_000,
        ensures
            ({
                let omega = biquad_omega(cutoff_hz as int, sample_rate as int);
                let alpha = biquad_alpha(cutoff_hz as int, q as int, sample_rate as int);
                &&& r.0 == sin_fix_spec(omega)
                &&& r.1 == sin_fix_spec(omega + HALF_PI_FIX as int)
                &&& r.2 == SCALE + alpha
                &&& r.3 == alpha
                &&& 0 <= r.0 <= SCALE
                &&& absv(r.1 as int) <= SCALE as int
                &&& SCALE <= r.2 <= 51_000_000
                &&& 0 <= r.3 <= 50_000_000
            }),
    {
        let num = TWO_PI_FIX * cutoff_hz;
        let den = sample_rate * SCALE;
        let omega_raw = div_fix(num, den);
        let omega = if omega_raw > PI_FIX {
            PI_FIX
        } else {
            omega_raw
        };
        proof {
            assert(omega as int % (TWO_PI_FIX as int) == omega as int);
            assert((omega + HALF_PI_FIX) as int % (TWO_PI_FIX as int) == (omega
                + HALF_PI_FIX) as int);
        }
        let sin_w = sin_fix(omega as u64);
        let cos_w = sin_fix((omega + HALF_PI_FIX) as u64);
        let alpha = div_fix(sin_w * SCALE, 2 * q);
        proof {
            crate::fixed::lemma_div_bounded((sin_w * SCALE) as int, 2 * (q as int), 20_000, 50_000_000);
        }
        let a0 = SCALE + alpha;
        (sin_w, cos_w, a0, alpha)
    }

    /// Process one sample (Direct Form II Transposed). The state
    /// registers saturate at a generous headroom, the fixed-point
    /// containment of runaway recursions.
    pub fn process(&mut self, input: i64) -> (r: i64)
        requires
            old(self).wf(),
            absv(input as int) <= BQ_IN_MAX as int,
        ensures
            final(self).wf(),
            r == fmul(input as int, old(self).b0 as int) + old(self).z1,
            final(self).z1 == clampv(
                fmul(input as int, old(self).b1 as int) - fmul(r as int, old(self).a1 as int)
                    + old(self).z2,
                -(BQ_STATE_MAX as int),
                BQ_STATE_MAX as int,
            ),
            final(self).z2 == clampv(
                fmul(input as int, old(self).b2 as int) - fmul(r as int, old(self).a2 as int),
                -(BQ_STATE_MAX as int),
                BQ_STATE_MAX as int,
            ),
            final(self).b0 == old(self).b0,
            final(self).b1 == old(self).b1,
            final(self).b2 == old(self).b2,
            final(self).a1 == old(self).a1,
            final(self).a2 == old(self).a2,
            absv(r as int) <= BQ_STATE_MAX as int + 2 * (BQ_IN_MAX as int),
    {
        let output = mul_fix(input, self.b0) + self.z1;
        let t1 = mul_fix(input, self.b1);
        let t2 = mul_fix(output, self.a1);
        let t3 = mul_fix(input, self.b2);
        let t4 = mul_fix(output, self.a2);
        self.z1 = clamp_fix(t1 - t2 + self.z2, -BQ_STATE_MAX, BQ_STATE_MAX);
        self.z2 = clamp_fix(t3 - t4, -BQ_STATE_MAX, BQ_STATE_MAX);
        output
    }

    /// Reset filter state.
    pub fn reset(&mut self)
        ensures
            final(self).z1 == 0,
            final(self).z2 == 0,
            final(self).b0 == old(self).b0,
            final(self).b1 == old(self).b1,
            final(self).b2 == old(self).b2,
            final(self).a1 == old(self).a1,
            final(self).a2 == old(self).a2,
            old(self).wf() ==> final(self).wf(),
    {
        self.z1 = 0;
        self.z2 = 0;
    }
}

} // verus!
