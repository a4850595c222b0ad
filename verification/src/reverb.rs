//! Feedback-delay-network reverb (Schroeder/Moorer).
//!
//! A stereo reverb from 8 parallel comb filters and 4 series allpass
//! filters per channel, with distinct delay sets per channel for
//! decorrelation, a shared input lowpass, and a mid/side width stage.
//! Room size maps onto comb feedback, damping onto the combs' internal
//! lowpass.

use vstd::prelude::*;
use crate::fixed::{
    SCALE, absv, tdiv, fmul, clampv, clamp_fix, div_fix, mul_fix, seq_bounded, seq_zero,
};
use crate::filters::{OnePole, Comb, one_pole_step, COMB_BUF_MAX};

verus! {

/// Number of comb filters per channel.
pub const NUM_COMBS: usize = 8;

/// Number of allpass filters per channel.
pub const NUM_ALLPASS: usize = 4;

/// Prime delay times for the left-channel combs (samples at 44100 Hz);
/// primes avoid coincident resonances.
pub open spec fn comb_delay_left(k: int) -> int {
    if k == 0 {
        1557
    } else if k == 1 {
        1617
    } else if k == 2 {
        1491
    } else if k == 3 {
        1422
    } else if k == 4 {
        1277
    } else if k == 5 {
        1356
    } else if k == 6 {
        1188
    } else {
        1116
    }
}

/// Right-channel comb delays: the left set, pairwise swapped.
pub open spec fn comb_delay_right(k: int) -> int {
    if k == 0 {
        1617
    } else if k == 1 {
        1557
    } else if k == 2 {
        1422
    } else if k == 3 {
        1491
    } else if k == 4 {
        1356
    } else if k == 5 {
        1277
    } else if k == 6 {
        1116
    } else {
        1188
    }
}

/// Allpass delays (shorter, for diffusion).
pub open spec fn allpass_delay_left(k: int) -> int {
    if k == 0 {
        225
    } else if k == 1 {
        556
    } else if k == 2 {
        441
    } else {
        341
    }
}

pub open spec fn allpass_delay_right(k: int) -> int {
    if k == 0 {
        241
    } else if k == 1 {
        571
    } else if k == 2 {
        457
    } else {
        349
    }
}

fn comb_delay_left_of(k: usize) -> (r: usize)
    requires
        k < NUM_COMBS,
    ensures
        r == comb_delay_left(k as int),
{
    if k == 0 {
        1557
    } else if k == 1 {
        1617
    } else if k == 2 {
        1491
    } else if k == 3 {
        1422
    } else if k == 4 {
        1277
    } else if k == 5 {
        1356
    } else if k == 6 {
        1188
    } else {
        1116
    }
}

fn comb_delay_right_of(k: usize) -> (r: usize)
    requires
        k < NUM_COMBS,
    ensures
        r == comb_delay_right(k as int),
{
    if k == 0 {
        1617
    } else if k == 1 {
        1557
    } else if k == 2 {
        1422
    } else if k == 3 {
        1491
    } else if k == 4 {
        1356
    } else if k == 5 {
        1277
    } else if k == 6 {
        1116
    } else {
        1188
    }
}

fn allpass_delay_left_of(k: usize) -> (r: usize)
    requires
        k < NUM_ALLPASS,
    ensures
        r == allpass_delay_left(k as int),
{
    if k == 0 {
        225
    } else if k == 1 {
        556
    } else if k == 2 {
        441
    } else {
        341
    }
}

fn allpass_delay_right_of(k: usize) -> (r: usize)
    requires
        k < NUM_ALLPASS,
    ensures
        r == allpass_delay_right(k as int),
{
    if k == 0 {
        241
    } else if k == 1 {
        571
    } else if k == 2 {
        457
    } else {
        349
    }
}

/// A comb delay rescaled from 44100 Hz to the running sample rate.
pub open spec fn scaled_delay(d: int, rate: int) -> int {
    (d * rate) / 44100
}

/// Headroom bound of the diffusion allpass at chain position `k`: each
/// stage's output can reach three times its input bound, so the chain
/// bounds grow geometrically.
pub open spec fn ra_stage_bound(k: int) -> int {
    if k == 0 {
        400_000_000
    } else if k == 1 {
        1_200_000_000
    } else if k == 2 {
        3_600_000_000
    } else {
        10_800_000_000
    }
}

/// Allpass filter with a longer delay, for reverb diffusion.
pub struct ReverbAllpass {
    pub buffer: Vec<i64>,
    pub write_pos: usize,
    pub delay: usize,
    pub feedback: i64,
}

proof fn lemma_half_bound(d: int, f: int, r: int, b: int)
    by (nonlinear_arith)
    requires
        absv(r) * (SCALE as int) <= absv(d) * absv(f),
        absv(d) <= b,
        0 <= f <= 500_000,
        0 <= b,
    ensures
        2 * absv(r) <= b,
{
}

impl ReverbAllpass {
    /// Shape invariant, with the buffer headroom as a parameter: each
    /// chain position carries its own bound.
    pub open spec fn rwf(self, b: int) -> bool {
        &&& 1 <= self.buffer@.len() <= 268_435_456
        &&& self.delay <= self.buffer@.len()
        &&& self.write_pos < self.buffer@.len()
        &&& 0 <= self.feedback <= 500_000
        &&& seq_bounded(self.buffer@, b)
    }

    pub open spec fn quiescent(self) -> bool {
        seq_zero(self.buffer@)
    }

    pub open spec fn read_index(self) -> int {
        (self.write_pos + self.buffer@.len() - self.delay) % (self.buffer@.len() as int)
    }

    /// The stage output for an input sample: the delayed sample minus
    /// the input.
    pub open spec fn step_out(self, x: int) -> int {
        -x + self.buffer@[self.read_index()]
    }

    fn new(delay: usize, feedback: i64) -> (r: ReverbAllpass)
        requires
            delay <= 268_435_456,
            0 <= feedback <= 500_000,
        ensures
            r.quiescent(),
            forall|b: int| 0 <= b ==> r.rwf(b),
            r.delay == delay,
            r.feedback == feedback,
            r.write_pos == 0,
    {
        let size = if delay < 1 {
            1
        } else {
            delay
        };
        let buffer = vec![0i64; size];
        ReverbAllpass { buffer, write_pos: 0, delay, feedback }
    }

    /// Process one sample; the ghost argument names the headroom this
    /// instance lives under.
    fn process(&mut self, input: i64, Ghost(b): Ghost<int>) -> (r: i64)
        requires
            old(self).rwf(b),
            0 <= b <= 4_000_000_000_000,
            2 * absv(input as int) <= b,
        ensures
            final(self).rwf(b),
            r == old(self).step_out(input as int),
            absv(r as int) <= absv(input as int) + b,
            final(self).buffer@ == old(self).buffer@.update(
                old(self).write_pos as int,
                (input + fmul(old(self).buffer@[old(self).read_index()] as int, old(self).feedback as int)) as i64,
            ),
            final(self).write_pos == (old(self).write_pos + 1) % (old(self).buffer@.len() as int),
            final(self).delay == old(self).delay,
            final(self).feedback == old(self).feedback,
            old(self).quiescent() && input == 0 ==> r == 0 && final(self).quiescent(),
    {
        let len = self.buffer.len();
        let read_pos = (self.write_pos + len - self.delay) % len;
        let delayed = self.buffer[read_pos];

        let output = -input + delayed;
        let fb = mul_fix(delayed, self.feedback);
        proof {
            lemma_half_bound(delayed as int, self.feedback as int, fb as int, b);
        }
        self.buffer[self.write_pos] = input + fb;
        self.write_pos = (self.write_pos + 1) % len;

        output
    }

    fn clear(&mut self)
        ensures
            final(self).quiescent(),
            final(self).buffer@.len() == old(self).buffer@.len(),
            final(self).write_pos == old(self).write_pos,
            final(self).delay == old(self).delay,
            final(self).feedback == old(self).feedback,
    {
        let len = self.buffer.len();
        let mut i: usize = 0;
        while i < len
            invariant
                i <= len,
                self.buffer@.len() == len,
                self.write_pos == old(self).write_pos,
                self.delay == old(self).delay,
                self.feedback == old(self).feedback,
                forall|j: int| 0 <= j < i ==> #[trigger] self.buffer@[j] == 0,
            decreases len - i,
        {
            self.buffer[i] = 0;
            i = i + 1;
        }
    }
}

/// The sum the parallel comb bank yields for an input sample, over the
/// first `n` combs.
pub open spec fn comb_bank_sum(combs: Seq<Comb>, x: int, n: int) -> int
    decreases n,
{
    if n <= 0 {
        0
    } else {
        comb_bank_sum(combs, x, n - 1) + combs[n - 1].step_out(x)
    }
}

/// The signal after the first `n` stages of a diffusion allpass chain.
pub open spec fn ap_chain_out(aps: Seq<ReverbAllpass>, x: int, n: int) -> int
    decreases n,
{
    if n <= 0 {
        x
    } else {
        aps[n - 1].step_out(ap_chain_out(aps, x, n - 1))
    }
}

/// Run an input sample through a bank of parallel combs and return the
/// sum of their outputs.
fn comb_bank(combs: &mut Vec<Comb>, x: i64) -> (sum: i64)
    requires
        old(combs)@.len() == NUM_COMBS,
        forall|k: int| 0 <= k < NUM_COMBS ==> (#[trigger] old(combs)@[k]).wf(),
        absv(x as int) <= 2_000_000,
    ensures
        final(combs)@.len() == NUM_COMBS,
        forall|k: int| 0 <= k < NUM_COMBS ==> (#[trigger] final(combs)@[k]).wf(),
        sum == comb_bank_sum(old(combs)@, x as int, NUM_COMBS as int),
        absv(sum as int) <= (NUM_COMBS as int) * (COMB_BUF_MAX as int),
        forall|k: int|
            0 <= k < NUM_COMBS ==> ({
                &&& (#[trigger] final(combs)@[k]).delay == old(combs)@[k].delay
                &&& final(combs)@[k].feedback == old(combs)@[k].feedback
                &&& final(combs)@[k].damping.a1 == old(combs)@[k].damping.a1
                &&& final(combs)@[k].buffer@ == old(combs)@[k].buffer@.update(
                    old(combs)@[k].write_pos as int,
                    old(combs)@[k].step_out(x as int) as i64,
                )
                &&& final(combs)@[k].write_pos == (old(combs)@[k].write_pos + 1) % (
                old(combs)@[k].buffer@.len() as int)
                &&& final(combs)@[k].damping.z1 == old(combs)@[k].filtered_spec()
            }),
        (forall|k: int| 0 <= k < NUM_COMBS ==> (#[trigger] old(combs)@[k]).quiescent()) && x == 0
            ==> sum == 0 && forall|k: int|
            0 <= k < NUM_COMBS ==> (#[trigger] final(combs)@[k]).quiescent(),
    {
    let ghost oc = old(combs)@;
    let ghost quiet = (forall|k: int| 0 <= k < NUM_COMBS ==> (#[trigger] oc[k]).quiescent()) && x
        == 0;
    let mut sum: i64 = 0;
    let mut k: usize = 0;
    while k < NUM_COMBS
        invariant
            k <= NUM_COMBS,
            combs@.len() == NUM_COMBS,
            forall|j: int| k <= j < NUM_COMBS ==> #[trigger] combs@[j] == oc[j],
            forall|j: int| 0 <= j < NUM_COMBS ==> (#[trigger] combs@[j]).wf(),
            forall|j: int|
                0 <= j < k ==> ({
                    &&& (#[trigger] combs@[j]).delay == oc[j].delay
                    &&& combs@[j].feedback == oc[j].feedback
                    &&& combs@[j].damping.a1 == oc[j].damping.a1
                    &&& combs@[j].buffer@ == oc[j].buffer@.update(
                        oc[j].write_pos as int,
                        oc[j].step_out(x as int) as i64,
                    )
                    &&& combs@[j].write_pos == (oc[j].write_pos + 1) % (oc[j].buffer@.len() as int)
                    &&& combs@[j].damping.z1 == oc[j].filtered_spec()
                }),
            sum == comb_bank_sum(oc, x as int, k as int),
            absv(sum as int) <= (k as int) * (COMB_BUF_MAX as int),
            quiet ==> sum == 0 && forall|j: int| 0 <= j < k ==> (#[trigger] combs@[j]).quiescent(),
        decreases NUM_COMBS - k,
    {
        let out = combs[k].process(x);
        sum = sum + out;
        k = k + 1;
    }
    sum
}

/// Run a sample through the serial diffusion allpass chain.
fn ap_chain(aps: &mut Vec<ReverbAllpass>, x: i64) -> (r: i64)
    requires
        old(aps)@.len() == NUM_ALLPASS,
        forall|k: int| 0 <= k < NUM_ALLPASS ==> (#[trigger] old(aps)@[k]).rwf(ra_stage_bound(k)),
        absv(x as int) <= 200_000_000,
    ensures
        final(aps)@.len() == NUM_ALLPASS,
        forall|k: int| 0 <= k < NUM_ALLPASS ==> (#[trigger] final(aps)@[k]).rwf(ra_stage_bound(k)),
        r == ap_chain_out(old(aps)@, x as int, NUM_ALLPASS as int),
        absv(r as int) <= 16_200_000_000,
        forall|k: int|
            0 <= k < NUM_ALLPASS ==> ({
                &&& (#[trigger] final(aps)@[k]).delay == old(aps)@[k].delay
                &&& final(aps)@[k].feedback == old(aps)@[k].feedback
                &&& final(aps)@[k].buffer@ == old(aps)@[k].buffer@.update(
                    old(aps)@[k].write_pos as int,
                    (ap_chain_out(old(aps)@, x as int, k) + fmul(
                        old(aps)@[k].buffer@[old(aps)@[k].read_index()] as int,
                        old(aps)@[k].feedback as int,
                    )) as i64,
                )
                &&& final(aps)@[k].write_pos == (old(aps)@[k].write_pos + 1) % (
                old(aps)@[k].buffer@.len() as int)
            }),
        (forall|k: int| 0 <= k < NUM_ALLPASS ==> (#[trigger] old(aps)@[k]).quiescent()) && x == 0
            ==> r == 0 && forall|k: int|
            0 <= k < NUM_ALLPASS ==> (#[trigger] final(aps)@[k]).quiescent(),
    {
    let ghost oa = old(aps)@;
    let ghost quiet = (forall|k: int| 0 <= k < NUM_ALLPASS ==> (#[trigger] oa[k]).quiescent()) && x
        == 0;
    let mut cur: i64 = x;
    let mut k: usize = 0;
    while k < NUM_ALLPASS
        invariant
            k <= NUM_ALLPASS,
            aps@.len() == NUM_ALLPASS,
            forall|j: int| k <= j < NUM_ALLPASS ==> #[trigger] aps@[j] == oa[j],
            forall|j: int| 0 <= j < NUM_ALLPASS ==> (#[trigger] aps@[j]).rwf(ra_stage_bound(j)),
            forall|j: int|
                0 <= j < k ==> ({
                    &&& (#[trigger] aps@[j]).delay == oa[j].delay
                    &&& aps@[j].feedback == oa[j].feedback
                    &&& aps@[j].buffer@ == oa[j].buffer@.update(
                        oa[j].write_pos as int,
                        (ap_chain_out(oa, x as int, j) + fmul(
                            oa[j].buffer@[oa[j].read_index()] as int,
                            oa[j].feedback as int,
                        )) as i64,
                    )
                    &&& aps@[j].write_pos == (oa[j].write_pos + 1) % (oa[j].buffer@.len() as int)
                }),
            cur == ap_chain_out(oa, x as int, k as int),
            absv(cur as int) <= 200_000_000 + (if k >= 1 {
                ra_stage_bound(0)
            } else {
                0
            }) + (if k >= 2 {
                ra_stage_bound(1)
            } else {
                0
            }) + (if k >= 3 {
                ra_stage_bound(2)
            } else {
                0
            }) + (if k >= 4 {
                ra_stage_bound(3)
            } else {
                0
            }),
            quiet ==> cur == 0 && forall|j: int| 0 <= j < k ==> (#[trigger] aps@[j]).quiescent(),
        decreases NUM_ALLPASS - k,
    {
        cur = aps[k].process(cur, Ghost(ra_stage_bound(k as int)));
        k = k + 1;
    }
    cur
}

/// The stereo pair one reverb step emits for a mono input: input
/// lowpass, parallel comb banks, serial diffusion chains, then the
/// mid/side width and gain stage, clamped into [-1, 1].
pub open spec fn reverb_step_out(rv: FDNReverb, input: int) -> (int, int) {
    let filtered = one_pole_step(rv.input_lowpass, input);
    let lsum = tdiv(comb_bank_sum(rv.combs_left@, filtered, NUM_COMBS as int), NUM_COMBS as int);
    let rsum = tdiv(comb_bank_sum(rv.combs_right@, filtered, NUM_COMBS as int), NUM_COMBS as int);
    let lout = ap_chain_out(rv.allpasses_left@, lsum, NUM_ALLPASS as int);
    let rout = ap_chain_out(rv.allpasses_right@, rsum, NUM_ALLPASS as int);
    let mono = tdiv(lout + rout, 2);
    let stereo = tdiv(lout - rout, 2);
    let wide = fmul(stereo, rv.width as int);
    (
        clampv(fmul(mono + wide, rv.gain as int), -(SCALE as int), SCALE as int),
        clampv(fmul(mono - wide, rv.gain as int), -(SCALE as int), SCALE as int),
    )
}

/// Feedback-delay-network reverb.
pub struct FDNReverb {
    /// Left-channel comb filters.
    pub combs_left: Vec<Comb>,
    /// Right-channel comb filters.
    pub combs_right: Vec<Comb>,
    /// Left-channel diffusion allpasses.
    pub allpasses_left: Vec<ReverbAllpass>,
    /// Right-channel diffusion allpasses.
    pub allpasses_right: Vec<ReverbAllpass>,
    /// Input lowpass (removes harshness).
    pub input_lowpass: OnePole,
    /// Room size (maps onto comb feedback).
    pub room_size: i64,
    /// Damping (maps onto the combs' internal lowpass).
    pub damping: i64,
    /// Stereo width (0 to 2).
    pub width: i64,
    /// Output gain.
    pub gain: i64,
}

impl FDNReverb {
    pub open spec fn wf(self) -> bool {
        &&& self.combs_left@.len() == NUM_COMBS
        &&& self.combs_right@.len() == NUM_COMBS
        &&& forall|k: int| 0 <= k < NUM_COMBS ==> (#[trigger] self.combs_left@[k]).wf()
        &&& forall|k: int| 0 <= k < NUM_COMBS ==> (#[trigger] self.combs_right@[k]).wf()
        &&& self.allpasses_left@.len() == NUM_ALLPASS
        &&& self.allpasses_right@.len() == NUM_ALLPASS
        &&& forall|k: int|
            0 <= k < NUM_ALLPASS ==> (#[trigger] self.allpasses_left@[k]).rwf(ra_stage_bound(k))
        &&& forall|k: int|
            0 <= k < NUM_ALLPASS ==> (#[trigger] self.allpasses_right@[k]).rwf(ra_stage_bound(k))
        &&& self.input_lowpass.wf()
        &&& absv(self.input_lowpass.z1 as int) <= 2_000_000
        &&& 0 <= self.room_size <= SCALE
        &&& 0 <= self.damping <= SCALE
        &&& 0 <= self.width <= 2_000_000
        &&& 0 <= self.gain <= SCALE
    }

    /// Every internal line and filter state is zero.
    pub open spec fn quiescent(self) -> bool {
        &&& forall|k: int| 0 <= k < NUM_COMBS ==> (#[trigger] self.combs_left@[k]).quiescent()
        &&& forall|k: int| 0 <= k < NUM_COMBS ==> (#[trigger] self.combs_right@[k]).quiescent()
        &&& forall|k: int|
            0 <= k < NUM_ALLPASS ==> (#[trigger] self.allpasses_left@[k]).quiescent()
        &&& forall|k: int|
            0 <= k < NUM_ALLPASS ==> (#[trigger] self.allpasses_right@[k]).quiescent()
        &&& self.input_lowpass.quiescent()
    }

    /// Create a new reverb, its delay sets rescaled to the sample rate.
    pub fn new(sample_rate: i64) -> (r: FDNReverb)
        requires
            1 <= sample_rate <= 1_000_000,
        ensures
            r.wf(),
            r.quiescent(),
            r.room_size == 500_000,
            r.damping == 500_000,
            r.width == 1_000_000,
            r.gain == 15_000,
            r.input_lowpass.a1 == 300_000,
            forall|k: int|
                0 <= k < NUM_COMBS ==> ({
                    &&& (#[trigger] r.combs_left@[k]).delay == scaled_delay(
                        comb_delay_left(k),
                        sample_rate as int,
                    )
                    &&& r.combs_left@[k].feedback == 840_000
                    &&& r.combs_left@[k].damping.a1 == 200_000
                }),
            forall|k: int|
                0 <= k < NUM_COMBS ==> ({
                    &&& (#[trigger] r.combs_right@[k]).delay == scaled_delay(
                        comb_delay_right(k),
                        sample_rate as int,
                    )
                    &&& r.combs_right@[k].feedback == 840_000
                    &&& r.combs_right@[k].damping.a1 == 200_000
                }),
            forall|k: int|
                0 <= k < NUM_ALLPASS ==> ({
                    &&& (#[trigger] r.allpasses_left@[k]).delay == scaled_delay(
                        allpass_delay_left(k),
                        sample_rate as int,
                    )
                    &&& r.allpasses_left@[k].feedback == 500_000
                }),
            forall|k: int|
                0 <= k < NUM_ALLPASS ==> ({
                    &&& (#[trigger] r.allpasses_right@[k]).delay == scaled_delay(
                        allpass_delay_right(k),
                        sample_rate as int,
                    )
                    &&& r.allpasses_right@[k].feedback == 500_000
                }),
    {
        let mut combs_left: Vec<Comb> = Vec::new();
        let mut k: usize = 0;
        while k < NUM_COMBS
            invariant
                k <= NUM_COMBS,
                combs_left@.len() == k,
                forall|j: int|
                    0 <= j < k ==> ({
                        &&& (#[trigger] combs_left@[j]).wf()
                        &&& combs_left@[j].quiescent()
                        &&& combs_left@[j].delay == scaled_delay(
                            comb_delay_left(j),
                            sample_rate as int,
                        )
                        &&& combs_left@[j].feedback == 840_000
                        &&& combs_left@[j].damping.a1 == 200_000
                    }),
            decreases NUM_COMBS - k,
        {
            let d = Self::scale_delay(comb_delay_left_of(k), sample_rate);
            combs_left.push(Comb::new(d, 840_000, 200_000));
            k = k + 1;
        }
        let mut combs_right: Vec<Comb> = Vec::new();
        let mut k: usize = 0;
        while k < NUM_COMBS
            invariant
                k <= NUM_COMBS,
                combs_right@.len() == k,
                forall|j: int|
                    0 <= j < k ==> ({
                        &&& (#[trigger] combs_right@[j]).wf()
                        &&& combs_right@[j].quiescent()
                        &&& combs_right@[j].delay == scaled_delay(
                            comb_delay_right(j),
                            sample_rate as int,
                        )
                        &&& combs_right@[j].feedback == 840_000
                        &&& combs_right@[j].damping.a1 == 200_000
                    }),
            decreases NUM_COMBS - k,
        {
            let d = Self::scale_delay(comb_delay_right_of(k), sample_rate);
            combs_right.push(Comb::new(d, 840_000, 200_000));
            k = k + 1;
        }
        let mut allpasses_left: Vec<ReverbAllpass> = Vec::new();
        let mut k: usize = 0;
        while k < NUM_ALLPASS
            invariant
                k <= NUM_ALLPASS,
                allpasses_left@.len() == k,
                forall|j: int|
                    0 <= j < k ==> ({
                        &&& (#[trigger] allpasses_left@[j]).rwf(ra_stage_bound(j))
                        &&& allpasses_left@[j].quiescent()
                        &&& allpasses_left@[j].delay == scaled_delay(
                            allpass_delay_left(j),
                            sample_rate as int,
                        )
                        &&& allpasses_left@[j].feedback == 500_000
                    }),
            decreases NUM_ALLPASS - k,
        {
            let d = Self::scale_delay(allpass_delay_left_of(k), sample_rate);
            allpasses_left.push(ReverbAllpass::new(d, 500_000));
            k = k + 1;
        }
        let mut allpasses_right: Vec<ReverbAllpass> = Vec::new();
        let mut k: usize = 0;
        while k < NUM_ALLPASS
            invariant
                k <= NUM_ALLPASS,
                allpasses_right@.len() == k,
                forall|j: int|
                    0 <= j < k ==> ({
                        &&& (#[trigger] allpasses_right@[j]).rwf(ra_stage_bound(j))
                        &&& allpasses_right@[j].quiescent()
                        &&& allpasses_right@[j].delay == scaled_delay(
                            allpass_delay_right(j),
                            sample_rate as int,
                        )
                        &&& allpasses_right@[j].feedback == 500_000
                    }),
            decreases NUM_ALLPASS - k,
        {
            let d = Self::scale_delay(allpass_delay_right_of(k), sample_rate);
            allpasses_right.push(ReverbAllpass::new(d, 500_000));
            k = k + 1;
        }
        FDNReverb {
            combs_left,
            combs_right,
            allpasses_left,
            allpasses_right,
            input_lowpass: OnePole::new(300_000),
            room_size: 500_000,
            damping: 500_000,
            width: 1_000_000,
            gain: 15_000,  // reverb is added to the dry signal, so keep it low
        }
    }

    /// Rescale a 44100 Hz delay time to the running sample rate.
    fn scale_delay(d: usize, sample_rate: i64) -> (r: usize)
        requires
            d <= 2000,
            1 <= sample_rate <= 1_000_000,
        ensures
            r == scaled_delay(d as int, sample_rate as int),
            r <= 50_000_000,
    {
        proof {
            assert(0 <= (d as int) * (sample_rate as int) <= 2_000_000_000_000)
                by (nonlinear_arith)
                requires
                    d <= 2000,
                    1 <= sample_rate <= 1_000_000,
            ;
        }
        let n = (d as u64) * (sample_rate as u64);
        let q = n / 44100;
        proof {
            assert(q <= 50_000_000) by (nonlinear_arith)
                requires
                    q == (n as int) / 44100,
                    n <= 2_000_000_000_000,
            ;
        }
        q as usize
    }

    /// Process one mono input sample into a stereo pair.
    ///
    /// Both outputs always land in [-1, 1], and a quiescent reverb fed
    /// zero yields zero and stays quiescent.
    pub fn process(&mut self, input: i64) -> (r: (i64, i64))
        requires
            old(self).wf(),
            absv(input as int) <= 2_000_000,
        ensures
            final(self).wf(),
            ({
                let filtered = one_pole_step(old(self).input_lowpass, input as int);
                let lsum = tdiv(comb_bank_sum(old(self).combs_left@, filtered, NUM_COMBS as int), NUM_COMBS as int);
                let rsum = tdiv(
                    comb_bank_sum(old(self).combs_right@, filtered, NUM_COMBS as int),
                    NUM_COMBS as int,
                );
                let lout = ap_chain_out(old(self).allpasses_left@, lsum, NUM_ALLPASS as int);
                let rout = ap_chain_out(old(self).allpasses_right@, rsum, NUM_ALLPASS as int);
                let mono = tdiv(lout + rout, 2);
                let stereo = tdiv(lout - rout, 2);
                let wide = fmul(stereo, old(self).width as int);
                &&& r.0 == clampv(
                    fmul(mono + wide, old(self).gain as int),
                    -(SCALE as int),
                    SCALE as int,
                )
                &&& r.1 == clampv(
                    fmul(mono - wide, old(self).gain as int),
                    -(SCALE as int),
                    SCALE as int,
                )
            }),
            r.0 == reverb_step_out(*old(self), input as int).0,
            r.1 == reverb_step_out(*old(self), input as int).1,
            absv(r.0 as int) <= SCALE as int,
            absv(r.1 as int) <= SCALE as int,
            final(self).input_lowpass.a1 == old(self).input_lowpass.a1,
            final(self).input_lowpass.z1 == one_pole_step(old(self).input_lowpass, input as int),
            ({
                let filtered = one_pole_step(old(self).input_lowpass, input as int);
                let lsum = tdiv(
                    comb_bank_sum(old(self).combs_left@, filtered, NUM_COMBS as int),
                    NUM_COMBS as int,
                );
                let rsum = tdiv(
                    comb_bank_sum(old(self).combs_right@, filtered, NUM_COMBS as int),
                    NUM_COMBS as int,
                );
                &&& forall|k: int|
                    0 <= k < NUM_COMBS ==> ({
                        &&& (#[trigger] final(self).combs_left@[k]).buffer@ == old(
                            self,
                        ).combs_left@[k].buffer@.update(
                            old(self).combs_left@[k].write_pos as int,
                            old(self).combs_left@[k].step_out(filtered) as i64,
                        )
                        &&& final(self).combs_left@[k].damping.z1 == old(
                            self,
                        ).combs_left@[k].filtered_spec()
                        &&& final(self).combs_left@[k].write_pos == (old(
                            self,
                        ).combs_left@[k].write_pos + 1) % (
                        old(self).combs_left@[k].buffer@.len() as int)
                    })
                &&& forall|k: int|
                    0 <= k < NUM_COMBS ==> ({
                        &&& (#[trigger] final(self).combs_right@[k]).buffer@ == old(
                            self,
                        ).combs_right@[k].buffer@.update(
                            old(self).combs_right@[k].write_pos as int,
                            old(self).combs_right@[k].step_out(filtered) as i64,
                        )
                        &&& final(self).combs_right@[k].damping.z1 == old(
                            self,
                        ).combs_right@[k].filtered_spec()
                        &&& final(self).combs_right@[k].write_pos == (old(
                            self,
                        ).combs_right@[k].write_pos + 1) % (
                        old(self).combs_right@[k].buffer@.len() as int)
                    })
                &&& forall|k: int|
                    0 <= k < NUM_ALLPASS ==> ({
                        &&& (#[trigger] final(self).allpasses_left@[k]).buffer@ == old(
                            self,
                        ).allpasses_left@[k].buffer@.update(
                            old(self).allpasses_left@[k].write_pos as int,
                            (ap_chain_out(old(self).allpasses_left@, lsum, k) + fmul(
                                old(self).allpasses_left@[k].buffer@[old(
                                    self,
                                ).allpasses_left@[k].read_index()] as int,
                                old(self).allpasses_left@[k].feedback as int,
                            )) as i64,
                        )
                        &&& final(self).allpasses_left@[k].write_pos == (old(
                            self,
                        ).allpasses_left@[k].write_pos + 1) % (
                        old(self).allpasses_left@[k].buffer@.len() as int)
                    })
                &&& forall|k: int|
                    0 <= k < NUM_ALLPASS ==> ({
                        &&& (#[trigger] final(self).allpasses_right@[k]).buffer@ == old(
                            self,
                        ).allpasses_right@[k].buffer@.update(
                            old(self).allpasses_right@[k].write_pos as int,
                            (ap_chain_out(old(self).allpasses_right@, rsum, k) + fmul(
                                old(self).allpasses_right@[k].buffer@[old(
                                    self,
                                ).allpasses_right@[k].read_index()] as int,
                                old(self).allpasses_right@[k].feedback as int,
                            )) as i64,
                        )
                        &&& final(self).allpasses_right@[k].write_pos == (old(
                            self,
                        ).allpasses_right@[k].write_pos + 1) % (
                        old(self).allpasses_right@[k].buffer@.len() as int)
                    })
            }),
            final(self).room_size == old(self).room_size,
            final(self).damping == old(self).damping,
            final(self).width == old(self).width,
            final(self).gain == old(self).gain,
            old(self).quiescent() && input == 0 ==> ({
                &&& r.0 == 0
                &&& r.1 == 0
                &&& final(self).quiescent()
            }),
    {
        let filtered = self.input_lowpass.process(input);

        let left_raw = comb_bank(&mut self.combs_left, filtered);
        let right_raw = comb_bank(&mut self.combs_right, filtered);
        let left_sum = div_fix(left_raw, NUM_COMBS as i64);
        let right_sum = div_fix(right_raw, NUM_COMBS as i64);
        proof {
            assert(absv(left_sum as int) <= 200_000_000);
            assert(absv(right_sum as int) <= 200_000_000);
        }

        let left_out = ap_chain(&mut self.allpasses_left, left_sum);
        let right_out = ap_chain(&mut self.allpasses_right, right_sum);

        // Mid/side width, then output gain.
        let mono = div_fix(left_out + right_out, 2);
        let stereo = div_fix(left_out - right_out, 2);
        let wide = mul_fix(stereo, self.width);
        let final_left = mul_fix(mono + wide, self.gain);
        let final_right = mul_fix(mono - wide, self.gain);

        (clamp_fix(final_left, -SCALE, SCALE), clamp_fix(final_right, -SCALE, SCALE))
    }

    /// Set room size (0-1): a larger room means a longer decay, so a
    /// higher comb feedback, within [0.7, 0.98].
    pub fn set_room_size(&mut self, size: i64)
        requires
            old(self).wf(),
        ensures
            final(self).wf(),
            final(self).room_size == clampv(size as int, 0, SCALE as int),
            ({
                let fb = 700_000 + fmul(clampv(size as int, 0, SCALE as int), 280_000);
                &&& forall|k: int|
                    0 <= k < NUM_COMBS ==> (#[trigger] final(self).combs_left@[k]).feedback == fb
                        && final(self).combs_left@[k].buffer == old(self).combs_left@[k].buffer
                        && final(self).combs_left@[k].damping == old(self).combs_left@[k].damping
                        && final(self).combs_left@[k].delay == old(self).combs_left@[k].delay
                &&& forall|k: int|
                    0 <= k < NUM_COMBS ==> (#[trigger] final(self).combs_right@[k]).feedback == fb
                        && final(self).combs_right@[k].buffer == old(self).combs_right@[k].buffer
                        && final(self).combs_right@[k].damping == old(self).combs_right@[k].damping
                        && final(self).combs_right@[k].delay == old(self).combs_right@[k].delay
            }),
            final(self).allpasses_left == old(self).allpasses_left,
            final(self).allpasses_right == old(self).allpasses_right,
            final(self).input_lowpass == old(self).input_lowpass,
            final(self).damping == old(self).damping,
            final(self).width == old(self).width,
            final(self).gain == old(self).gain,
    {
        self.room_size = clamp_fix(size, 0, SCALE);
        let feedback = 700_000 + mul_fix(self.room_size, 280_000);
        let mut k: usize = 0;
        while k < NUM_COMBS
            invariant
                k <= NUM_COMBS,
                self.combs_left@.len() == NUM_COMBS,
                0 <= feedback <= 980_000,
                feedback == 700_000 + fmul(clampv(size as int, 0, SCALE as int), 280_000),
                self.room_size == clampv(size as int, 0, SCALE as int),
                forall|j: int|
                    0 <= j < k ==> (#[trigger] self.combs_left@[j]).feedback == feedback
                        && self.combs_left@[j].buffer == old(self).combs_left@[j].buffer
                        && self.combs_left@[j].damping == old(self).combs_left@[j].damping
                        && self.combs_left@[j].delay == old(self).combs_left@[j].delay
                        && self.combs_left@[j].write_pos == old(self).combs_left@[j].write_pos,
                forall|j: int| k <= j < NUM_COMBS ==> #[trigger] self.combs_left@[j] == old(self).combs_left@[j],
                self.combs_right == old(self).combs_right,
                self.allpasses_left == old(self).allpasses_left,
                self.allpasses_right == old(self).allpasses_right,
                self.input_lowpass == old(self).input_lowpass,
                self.damping == old(self).damping,
                self.width == old(self).width,
                self.gain == old(self).gain,
            decreases NUM_COMBS - k,
        {
            self.combs_left[k].set_feedback(feedback);
            k = k + 1;
        }
        let mut k: usize = 0;
        while k < NUM_COMBS
            invariant
                k <= NUM_COMBS,
                self.combs_right@.len() == NUM_COMBS,
                0 <= feedback <= 980_000,
                feedback == 700_000 + fmul(clampv(size as int, 0, SCALE as int), 280_000),
                self.room_size == clampv(size as int, 0, SCALE as int),
                forall|j: int|
                    0 <= j < NUM_COMBS ==> (#[trigger] self.combs_left@[j]).feedback == feedback
                        && self.combs_left@[j].buffer == old(self).combs_left@[j].buffer
                        && self.combs_left@[j].damping == old(self).combs_left@[j].damping
                        && self.combs_left@[j].delay == old(self).combs_left@[j].delay
                        && self.combs_left@[j].wf(),
                self.combs_left@.len() == NUM_COMBS,
                forall|j: int|
                    0 <= j < k ==> (#[trigger] self.combs_right@[j]).feedback == feedback
                        && self.combs_right@[j].buffer == old(self).combs_right@[j].buffer
                        && self.combs_right@[j].damping == old(self).combs_right@[j].damping
                        && self.combs_right@[j].delay == old(self).combs_right@[j].delay
                        && self.combs_right@[j].write_pos == old(self).combs_right@[j].write_pos,
                forall|j: int| k <= j < NUM_COMBS ==> #[trigger] self.combs_right@[j] == old(self).combs_right@[j],
                self.allpasses_left == old(self).allpasses_left,
                self.allpasses_right == old(self).allpasses_right,
                self.input_lowpass == old(self).input_lowpass,
                self.damping == old(self).damping,
                self.width == old(self).width,
                self.gain == old(self).gain,
            decreases NUM_COMBS - k,
        {
            self.combs_right[k].set_feedback(feedback);
            k = k + 1;
        }
    }

    /// Set damping (0-1): forwarded to each comb's internal lowpass.
    pub fn set_damping(&mut self, damping: i64)
        requires
            old(self).wf(),
        ensures
            final(self).wf(),
            final(self).damping == clampv(damping as int, 0, SCALE as int),
            ({
                let a = clampv(clampv(damping as int, 0, SCALE as int), 0, 990_000);
                &&& forall|k: int|
                    0 <= k < NUM_COMBS ==> (#[trigger] final(self).combs_left@[k]).damping.a1 == a
                        && final(self).combs_left@[k].buffer == old(self).combs_left@[k].buffer
                        && final(self).combs_left@[k].feedback == old(self).combs_left@[k].feedback
                        && final(self).combs_left@[k].delay == old(self).combs_left@[k].delay
                &&& forall|k: int|
                    0 <= k < NUM_COMBS ==> (#[trigger] final(self).combs_right@[k]).damping.a1 == a
                        && final(self).combs_right@[k].buffer == old(self).combs_right@[k].buffer
                        && final(self).combs_right@[k].feedback == old(self).combs_right@[k].feedback && final(self).combs_right@[k].delay == old(self).combs_right@[k].delay
            }),
            final(self).allpasses_left == old(self).allpasses_left,
            final(self).allpasses_right == old(self).allpasses_right,
            final(self).input_lowpass == old(self).input_lowpass,
            final(self).room_size == old(self).room_size,
            final(self).width == old(self).width,
            final(self).gain == old(self).gain,
    {
        self.damping = clamp_fix(damping, 0, SCALE);
        let d = self.damping;
        let mut k: usize = 0;
        while k < NUM_COMBS
            invariant
                k <= NUM_COMBS,
                self.combs_left@.len() == NUM_COMBS,
                d == clampv(damping as int, 0, SCALE as int),
                self.damping == d,
                forall|j: int|
                    0 <= j < k ==> (#[trigger] self.combs_left@[j]).damping.a1 == clampv(
                        d as int,
                        0,
                        990_000,
                    ) && self.combs_left@[j].buffer == old(self).combs_left@[j].buffer
                        && self.combs_left@[j].feedback == old(self).combs_left@[j].feedback
                        && self.combs_left@[j].delay == old(self).combs_left@[j].delay
                        && self.combs_left@[j].write_pos == old(self).combs_left@[j].write_pos
                        && self.combs_left@[j].damping.z1 == old(self).combs_left@[j].damping.z1
                        && self.combs_left@[j].wf(),
                forall|j: int| k <= j < NUM_COMBS ==> #[trigger] self.combs_left@[j] == old(self).combs_left@[j],
                self.combs_right == old(self).combs_right,
                self.allpasses_left == old(self).allpasses_left,
                self.allpasses_right == old(self).allpasses_right,
                self.input_lowpass == old(self).input_lowpass,
                self.room_size == old(self).room_size,
                self.width == old(self).width,
                self.gain == old(self).gain,
            decreases NUM_COMBS - k,
        {
            self.combs_left[k].set_damping(d);
            k = k + 1;
        }
        let mut k: usize = 0;
        while k < NUM_COMBS
            invariant
                k <= NUM_COMBS,
                self.combs_right@.len() == NUM_COMBS,
                d == clampv(damping as int, 0, SCALE as int),
                self.damping == d,
                forall|j: int|
                    0 <= j < NUM_COMBS ==> (#[trigger] self.combs_left@[j]).damping.a1 == clampv(
                        d as int,
                        0,
                        990_000,
                    ) && self.combs_left@[j].buffer == old(self).combs_left@[j].buffer
                        && self.combs_left@[j].feedback == old(self).combs_left@[j].feedback
                        && self.combs_left@[j].delay == old(self).combs_left@[j].delay
                        && self.combs_left@[j].wf(),
                self.combs_left@.len() == NUM_COMBS,
                forall|j: int|
                    0 <= j < k ==> (#[trigger] self.combs_right@[j]).damping.a1 == clampv(
                        d as int,
                        0,
                        990_000,
                    ) && self.combs_right@[j].buffer == old(self).combs_right@[j].buffer
                        && self.combs_right@[j].feedback == old(self).combs_right@[j].feedback
                        && self.combs_right@[j].delay == old(self).combs_right@[j].delay
                        && self.combs_right@[j].write_pos == old(self).combs_right@[j].write_pos
                        && self.combs_right@[j].damping.z1 == old(self).combs_right@[j].damping.z1
                        && self.combs_right@[j].wf(),
                forall|j: int| k <= j < NUM_COMBS ==> #[trigger] self.combs_right@[j] == old(self).combs_right@[j],
                self.allpasses_left == old(self).allpasses_left,
                self.allpasses_right == old(self).allpasses_right,
                self.input_lowpass == old(self).input_lowpass,
                self.room_size == old(self).room_size,
                self.width == old(self).width,
                self.gain == old(self).gain,
            decreases NUM_COMBS - k,
        {
            self.combs_right[k].set_damping(d);
            k = k + 1;
        }
    }

    /// Set stereo width (0-2, 1 is normal).
    pub fn set_width(&mut self, width: i64)
        requires
            old(self).wf(),
        ensures
            final(self).wf(),
            final(self).width == clampv(width as int, 0, 2_000_000),
            *final(self) == (FDNReverb { width: final(self).width, ..*old(self) }),
    {
        self.width = clamp_fix(width, 0, 2_000_000);
    }

    /// Set output gain (0-1).
    pub fn set_gain(&mut self, gain: i64)
        requires
            old(self).wf(),
        ensures
            final(self).wf(),
            final(self).gain == clampv(gain as int, 0, SCALE as int),
            *final(self) == (FDNReverb { gain: final(self).gain, ..*old(self) }),
    {
        self.gain = clamp_fix(gain, 0, SCALE);
    }

    /// Clear all internal lines and filter states; every configured
    /// parameter is kept.
    pub fn clear(&mut self)
        requires
            old(self).wf(),
        ensures
            final(self).wf(),
            final(self).quiescent(),
            final(self).room_size == old(self).room_size,
            final(self).damping == old(self).damping,
            final(self).width == old(self).width,
            final(self).gain == old(self).gain,
            final(self).input_lowpass.a1 == old(self).input_lowpass.a1,
            forall|k: int|
                0 <= k < NUM_COMBS ==> ({
                    &&& (#[trigger] final(self).combs_left@[k]).delay == old(
                        self,
                    ).combs_left@[k].delay
                    &&& final(self).combs_left@[k].feedback == old(self).combs_left@[k].feedback
                    &&& final(self).combs_left@[k].damping.a1 == old(
                        self,
                    ).combs_left@[k].damping.a1
                    &&& final(self).combs_left@[k].buffer@.len() == old(
                        self,
                    ).combs_left@[k].buffer@.len()
                }),
            forall|k: int|
                0 <= k < NUM_COMBS ==> ({
                    &&& (#[trigger] final(self).combs_right@[k]).delay == old(
                        self,
                    ).combs_right@[k].delay
                    &&& final(self).combs_right@[k].feedback == old(self).combs_right@[k].feedback
                    &&& final(self).combs_right@[k].damping.a1 == old(
                        self,
                    ).combs_right@[k].damping.a1
                    &&& final(self).combs_right@[k].buffer@.len() == old(
                        self,
                    ).combs_right@[k].buffer@.len()
                }),
            forall|k: int|
                0 <= k < NUM_ALLPASS ==> ({
                    &&& (#[trigger] final(self).allpasses_left@[k]).delay == old(
                        self,
                    ).allpasses_left@[k].delay
                    &&& final(self).allpasses_left@[k].feedback == old(
                        self,
                    ).allpasses_left@[k].feedback
                    &&& final(self).allpasses_left@[k].buffer@.len() == old(
                        self,
                    ).allpasses_left@[k].buffer@.len()
                }),
            forall|k: int|
                0 <= k < NUM_ALLPASS ==> ({
                    &&& (#[trigger] final(self).allpasses_right@[k]).delay == old(
                        self,
                    ).allpasses_right@[k].delay
                    &&& final(self).allpasses_right@[k].feedback == old(
                        self,
                    ).allpasses_right@[k].feedback
                    &&& final(self).allpasses_right@[k].buffer@.len() == old(
                        self,
                    ).allpasses_right@[k].buffer@.len()
                }),
    {
        let mut k: usize = 0;
        while k < NUM_COMBS
            invariant
                k <= NUM_COMBS,
                self.combs_left@.len() == NUM_COMBS,
                forall|j: int| 0 <= j < NUM_COMBS ==> (#[trigger] self.combs_left@[j]).wf(),
                forall|j: int|
                    0 <= j < k ==> (#[trigger] self.combs_left@[j]).quiescent()
                        && self.combs_left@[j].delay == old(self).combs_left@[j].delay
                        && self.combs_left@[j].feedback == old(self).combs_left@[j].feedback
                        && self.combs_left@[j].damping.a1 == old(self).combs_left@[j].damping.a1
                        && self.combs_left@[j].buffer@.len() == old(
                        self,
                    ).combs_left@[j].buffer@.len(),
                forall|j: int| k <= j < NUM_COMBS ==> #[trigger] self.combs_left@[j] == old(
                    self,
                ).combs_left@[j],
                self.combs_right == old(self).combs_right,
                self.allpasses_left == old(self).allpasses_left,
                self.allpasses_right == old(self).allpasses_right,
                self.input_lowpass == old(self).input_lowpass,
                self.room_size == old(self).room_size,
                self.damping == old(self).damping,
                self.width == old(self).width,
                self.gain == old(self).gain,
            decreases NUM_COMBS - k,
        {
            self.combs_left[k].clear();
            k = k + 1;
        }
        let mut k: usize = 0;
        while k < NUM_COMBS
            invariant
                k <= NUM_COMBS,
                self.combs_right@.len() == NUM_COMBS,
                forall|j: int| 0 <= j < NUM_COMBS ==> (#[trigger] self.combs_left@[j]).wf(),
                forall|j: int|
                    0 <= j < NUM_COMBS ==> (#[trigger] self.combs_left@[j]).quiescent()
                        && self.combs_left@[j].delay == old(self).combs_left@[j].delay
                        && self.combs_left@[j].feedback == old(self).combs_left@[j].feedback
                        && self.combs_left@[j].damping.a1 == old(self).combs_left@[j].damping.a1
                        && self.combs_left@[j].buffer@.len() == old(
                        self,
                    ).combs_left@[j].buffer@.len(),
                self.combs_left@.len() == NUM_COMBS,
                forall|j: int| 0 <= j < NUM_COMBS ==> (#[trigger] self.combs_right@[j]).wf(),
                forall|j: int|
                    0 <= j < k ==> (#[trigger] self.combs_right@[j]).quiescent()
                        && self.combs_right@[j].delay == old(self).combs_right@[j].delay
                        && self.combs_right@[j].feedback == old(self).combs_right@[j].feedback
                        && self.combs_right@[j].damping.a1 == old(self).combs_right@[j].damping.a1
                        && self.combs_right@[j].buffer@.len() == old(
                        self,
                    ).combs_right@[j].buffer@.len(),
                forall|j: int| k <= j < NUM_COMBS ==> #[trigger] self.combs_right@[j] == old(
                    self,
                ).combs_right@[j],
                self.allpasses_left == old(self).allpasses_left,
                self.allpasses_right == old(self).allpasses_right,
                self.input_lowpass == old(self).input_lowpass,
                self.room_size == old(self).room_size,
                self.damping == old(self).damping,
                self.width == old(self).width,
                self.gain == old(self).gain,
            decreases NUM_COMBS - k,
        {
            self.combs_right[k].clear();
            k = k + 1;
        }
        let mut k: usize = 0;
        while k < NUM_ALLPASS
            invariant
                k <= NUM_ALLPASS,
                self.allpasses_left@.len() == NUM_ALLPASS,
                forall|j: int| 0 <= j < NUM_COMBS ==> (#[trigger] self.combs_left@[j]).wf(),
                forall|j: int| 0 <= j < NUM_COMBS ==> (#[trigger] self.combs_left@[j]).quiescent(),
                forall|j: int| 0 <= j < NUM_COMBS ==> (#[trigger] self.combs_right@[j]).wf(),
                forall|j: int| 0 <= j < NUM_COMBS ==> (#[trigger] self.combs_right@[j]).quiescent(),
                self.combs_left@.len() == NUM_COMBS,
                self.combs_right@.len() == NUM_COMBS,
                forall|j: int|
                    0 <= j < NUM_ALLPASS ==> (#[trigger] self.allpasses_left@[j]).rwf(
                        ra_stage_bound(j),
                    ),
                forall|j: int|
                    0 <= j < k ==> (#[trigger] self.allpasses_left@[j]).quiescent()
                        && self.allpasses_left@[j].delay == old(self).allpasses_left@[j].delay
                        && self.allpasses_left@[j].feedback == old(
                        self,
                    ).allpasses_left@[j].feedback && self.allpasses_left@[j].buffer@.len() == old(
                        self,
                    ).allpasses_left@[j].buffer@.len(),
                forall|j: int| k <= j < NUM_ALLPASS ==> #[trigger] self.allpasses_left@[j] == old(
                    self,
                ).allpasses_left@[j],
                forall|j: int|
                    0 <= j < NUM_COMBS ==> (#[trigger] self.combs_left@[j]).delay == old(
                        self,
                    ).combs_left@[j].delay && self.combs_left@[j].feedback == old(
                        self,
                    ).combs_left@[j].feedback && self.combs_left@[j].damping.a1 == old(
                        self,
                    ).combs_left@[j].damping.a1 && self.combs_left@[j].buffer@.len() == old(
                        self,
                    ).combs_left@[j].buffer@.len(),
                forall|j: int|
                    0 <= j < NUM_COMBS ==> (#[trigger] self.combs_right@[j]).delay == old(
                        self,
                    ).combs_right@[j].delay && self.combs_right@[j].feedback == old(
                        self,
                    ).combs_right@[j].feedback && self.combs_right@[j].damping.a1 == old(
                        self,
                    ).combs_right@[j].damping.a1 && self.combs_right@[j].buffer@.len() == old(
                        self,
                    ).combs_right@[j].buffer@.len(),
                self.allpasses_right == old(self).allpasses_right,
                self.input_lowpass == old(self).input_lowpass,
                self.room_size == old(self).room_size,
                self.damping == old(self).damping,
                self.width == old(self).width,
                self.gain == old(self).gain,
            decreases NUM_ALLPASS - k,
        {
            self.allpasses_left[k].clear();
            k = k + 1;
        }
        let mut k: usize = 0;
        while k < NUM_ALLPASS
            invariant
                k <= NUM_ALLPASS,
                self.allpasses_right@.len() == NUM_ALLPASS,
                forall|j: int| 0 <= j < NUM_COMBS ==> (#[trigger] self.combs_left@[j]).wf(),
                forall|j: int| 0 <= j < NUM_COMBS ==> (#[trigger] self.combs_left@[j]).quiescent(),
                forall|j: int| 0 <= j < NUM_COMBS ==> (#[trigger] self.combs_right@[j]).wf(),
                forall|j: int| 0 <= j < NUM_COMBS ==> (#[trigger] self.combs_right@[j]).quiescent(),
                self.combs_left@.len() == NUM_COMBS,
                self.combs_right@.len() == NUM_COMBS,
                forall|j: int|
                    0 <= j < NUM_ALLPASS ==> (#[trigger] self.allpasses_left@[j]).rwf(
                        ra_stage_bound(j),
                    ),
                forall|j: int|
                    0 <= j < NUM_ALLPASS ==> (#[trigger] self.allpasses_left@[j]).quiescent()
                        && self.allpasses_left@[j].delay == old(self).allpasses_left@[j].delay
                        && self.allpasses_left@[j].feedback == old(
                        self,
                    ).allpasses_left@[j].feedback && self.allpasses_left@[j].buffer@.len() == old(
                        self,
                    ).allpasses_left@[j].buffer@.len(),
                self.allpasses_left@.len() == NUM_ALLPASS,
                forall|j: int|
                    0 <= j < NUM_ALLPASS ==> (#[trigger] self.allpasses_right@[j]).rwf(
                        ra_stage_bound(j),
                    ),
                forall|j: int|
                    0 <= j < k ==> (#[trigger] self.allpasses_right@[j]).quiescent()
                        && self.allpasses_right@[j].delay == old(self).allpasses_right@[j].delay
                        && self.allpasses_right@[j].feedback == old(
                        self,
                    ).allpasses_right@[j].feedback && self.allpasses_right@[j].buffer@.len()
                        == old(self).allpasses_right@[j].buffer@.len(),
                forall|j: int| k <= j < NUM_ALLPASS ==> #[trigger] self.allpasses_right@[j] == old(
                    self,
                ).allpasses_right@[j],
                forall|j: int|
                    0 <= j < NUM_COMBS ==> (#[trigger] self.combs_left@[j]).delay == old(
                        self,
                    ).combs_left@[j].delay && self.combs_left@[j].feedback == old(
                        self,
                    ).combs_left@[j].feedback && self.combs_left@[j].damping.a1 == old(
                        self,
                    ).combs_left@[j].damping.a1 && self.combs_left@[j].buffer@.len() == old(
                        self,
                    ).combs_left@[j].buffer@.len(),
                forall|j: int|
                    0 <= j < NUM_COMBS ==> (#[trigger] self.combs_right@[j]).delay == old(
                        self,
                    ).combs_right@[j].delay && self.combs_right@[j].feedback == old(
                        self,
                    ).combs_right@[j].feedback && self.combs_right@[j].damping.a1 == old(
                        self,
                    ).combs_right@[j].damping.a1 && self.combs_right@[j].buffer@.len() == old(
                        self,
                    ).combs_right@[j].buffer@.len(),
                self.input_lowpass == old(self).input_lowpass,
                self.room_size == old(self).room_size,
                self.damping == old(self).damping,
                self.width == old(self).width,
                self.gain == old(self).gain,
            decreases NUM_ALLPASS - k,
        {
            self.allpasses_right[k].clear();
            k = k + 1;
        }
        self.input_lowpass.reset();
    }
}

impl Default for FDNReverb {
    fn default() -> (r: FDNReverb)
        ensures
            r.wf(),
            r.quiescent(),
    {
        Self::new(44100)
    }
}

} // verus!
