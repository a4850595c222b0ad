//! Sympathetic resonance matrix.
//!
//! Models the coupling between strings based on their interval
//! relationships: when one string vibrates, it excites the others
//! proportionally to their harmonic relationship. A 12x12 matrix entry
//! `[source][target]` (stored row-major) gives the coupling strength in
//! [0, 1]; the per-sample cross-excitation is deliberately tiny, since
//! audible resonance builds up through each target string's own
//! feedback loop rather than through any smoothing state here.

use vstd::prelude::*;
use crate::NUM_STRINGS;
use crate::fixed::{SCALE, absv, fmul, clampv, clamp_fix, mul_fix, seq_bounded};

verus! {

/// The energy gate: a source below this level excites nothing.
pub const ENERGY_GATE: i64 = 10_000;

/// Per-sample excitation is clamped into [-EXCITATION_MAX, EXCITATION_MAX].
pub const EXCITATION_MAX: i64 = 100_000;

/// The interval class from a source pitch class to a target pitch
/// class: (target - source) mod 12.
pub open spec fn interval_class(source: int, target: int) -> int {
    (target - source) % 12
}

/// Default coupling strength for each interval class: perfect intervals
/// couple strongly, dissonant ones weakly.
pub open spec fn default_coupling(iv: int) -> int {
    if iv == 0 {
        1_000_000  // unison
    } else if iv == 1 {
        80_000  // minor second
    } else if iv == 2 {
        200_000  // major second
    } else if iv == 3 {
        350_000  // minor third
    } else if iv == 4 {
        400_000  // major third
    } else if iv == 5 {
        550_000  // perfect fourth
    } else if iv == 6 {
        150_000  // tritone
    } else if iv == 7 {
        700_000  // perfect fifth
    } else if iv == 8 {
        350_000  // minor sixth
    } else if iv == 9 {
        300_000  // major sixth
    } else if iv == 10 {
        150_000  // minor seventh
    } else {
        180_000  // major seventh
    }
}

/// The interval class, computed on in-range pitch classes.
fn interval_of(source: usize, target: usize) -> (r: usize)
    requires
        source < NUM_STRINGS,
        target < NUM_STRINGS,
    ensures
        r == interval_class(source as int, target as int),
        r < 12,
{
    (target + 12 - source) % 12
}

/// Default coupling strength as an executable table.
fn default_coupling_of(iv: usize) -> (r: i64)
    requires
        iv < 12,
    ensures
        r == default_coupling(iv as int),
{
    if iv == 0 {
        1_000_000
    } else if iv == 1 {
        80_000
    } else if iv == 2 {
        200_000
    } else if iv == 3 {
        350_000
    } else if iv == 4 {
        400_000
    } else if iv == 5 {
        550_000
    } else if iv == 6 {
        150_000
    } else if iv == 7 {
        700_000
    } else if iv == 8 {
        350_000
    } else if iv == 9 {
        300_000
    } else if iv == 10 {
        150_000
    } else {
        180_000
    }
}

/// The gated, scaled contribution of one source string to one target.
pub open spec fn coupling_term(
    m: Seq<i64>,
    outs: Seq<i64>,
    energies: Seq<i64>,
    scale: int,
    source: int,
    target: int,
) -> int {
    if energies[source] >= ENERGY_GATE && source != target {
        fmul(fmul(outs[source] as int, m[source * 12 + target] as int), scale)
    } else {
        0
    }
}

/// Sum of the contributions of the first `n` sources to one target.
pub open spec fn excitation_sum(
    m: Seq<i64>,
    outs: Seq<i64>,
    energies: Seq<i64>,
    scale: int,
    target: int,
    n: int,
) -> int
    decreases n,
{
    if n <= 0 {
        0
    } else {
        excitation_sum(m, outs, energies, scale, target, n - 1) + coupling_term(
            m,
            outs,
            energies,
            scale,
            n - 1,
            target,
        )
    }
}

proof fn lemma_contrib_bound(inner: int, scale: int, outer: int)
    by (nonlinear_arith)
    requires
        absv(outer) * (SCALE as int) <= absv(inner) * absv(scale),
        absv(inner) <= 2_000_000,
        0 <= scale <= 2000,
    ensures
        absv(outer) <= 4000,
{
}

/// Strings that are not moving excite nothing, whatever their stored
/// energy: the excitation sum over all-zero outputs vanishes.
pub proof fn lemma_sum_zero_outputs(
    m: Seq<i64>,
    outs: Seq<i64>,
    energies: Seq<i64>,
    scale: int,
    target: int,
    n: int,
)
    requires
        0 <= n <= outs.len(),
        forall|s: int| 0 <= s < n ==> (#[trigger] outs[s]) == 0,
    ensures
        excitation_sum(m, outs, energies, scale, target, n) == 0,
    decreases n,
{
    if n > 0 {
        lemma_sum_zero_outputs(m, outs, energies, scale, target, n - 1);
        let a = outs[n - 1] as int;
        let b = m[(n - 1) * 12 + target] as int;
        assert(a == 0);
        assert(a * b == 0) by (nonlinear_arith)
            requires
                a == 0,
        ;
        let c = fmul(a, b);
        assert(c == 0);
        assert(c * scale == 0) by (nonlinear_arith)
            requires
                c == 0,
        ;
        assert(coupling_term(m, outs, energies, scale, n - 1, target) == 0);
    }
}

proof fn lemma_sum_gated(
    m: Seq<i64>,
    outs: Seq<i64>,
    energies: Seq<i64>,
    scale: int,
    target: int,
    n: int,
)
    requires
        forall|s: int| 0 <= s < n ==> (#[trigger] energies[s]) < ENERGY_GATE,
    ensures
        excitation_sum(m, outs, energies, scale, target, n) == 0,
    decreases n,
{
    if n > 0 {
        lemma_sum_gated(m, outs, energies, scale, target, n - 1);
    }
}

/// Sympathetic resonance matrix.
pub struct SympatheticMatrix {
    /// 12x12 coupling matrix, row-major: entry `source * 12 + target`
    /// is the strength with which `source` excites `target`.
    pub matrix: Vec<i64>,
    /// Resonance buffers for each string.
    pub resonance_buffers: Vec<i64>,
    /// Smoothing coefficient for resonance buildup.
    pub smoothing: i64,
}

impl SympatheticMatrix {
    pub open spec fn wf(self) -> bool {
        &&& self.matrix@.len() == 144
        &&& forall|k: int| 0 <= k < 144 ==> 0 <= #[trigger] self.matrix@[k] <= SCALE
        &&& self.resonance_buffers@.len() == NUM_STRINGS
        &&& 900_000 <= self.smoothing <= 999_900
    }

    /// Every matrix entry carries the default interval coupling.
    pub open spec fn is_default(self) -> bool {
        forall|s: int, t: int|
            0 <= s < 12 && 0 <= t < 12 ==> #[trigger] self.matrix@[s * 12 + t] == default_coupling(
                interval_class(s, t),
            )
    }

    /// Create a new matrix with the default interval-based coupling.
    pub fn new() -> (r: SympatheticMatrix)
        ensures
            r.wf(),
            r.is_default(),
            r.smoothing == 999_000,
            forall|k: int|
                0 <= k < NUM_STRINGS ==> #[trigger] r.resonance_buffers@[k] == 0,
    {
        let mut matrix: Vec<i64> = Vec::new();
        let mut k: usize = 0;
        while k < 144
            invariant
                k <= 144,
                matrix@.len() == k,
                forall|kk: int|
                    0 <= kk < k ==> #[trigger] matrix@[kk] == default_coupling(
                        interval_class(kk / 12, kk % 12),
                    ),
            decreases 144 - k,
        {
            let s = k / 12;
            let t = k % 12;
            let iv = interval_of(s, t);
            matrix.push(default_coupling_of(iv));
            k = k + 1;
        }
        let resonance_buffers = vec![0i64; NUM_STRINGS];
        let r = SympatheticMatrix { matrix, resonance_buffers, smoothing: 999_000 };
        proof {
            assert forall|s: int, t: int| 0 <= s < 12 && 0 <= t < 12 implies #[trigger] r.matrix@[s
                * 12 + t] == default_coupling(interval_class(s, t)) by {
                let kk = s * 12 + t;
                assert(kk / 12 == s && kk % 12 == t);
            }
            assert forall|kk: int| 0 <= kk < 144 implies 0 <= #[trigger] r.matrix@[kk] <= SCALE
                by {
                assert(r.matrix@[kk] == default_coupling(interval_class(kk / 12, kk % 12)));
            }
        }
        r
    }

    /// Compute the sympathetic excitation each string receives from the
    /// current outputs and energies of all the others.
    ///
    /// A source below the energy gate contributes nothing, so a fully
    /// gated network provably hands every target a zero. Each target's
    /// accumulator is clamped into the containment band.
    pub fn process(
        &mut self,
        string_outputs: &Vec<i64>,
        string_energies: &Vec<i64>,
        amount: i64,
    ) -> (r: Vec<i64>)
        requires
            old(self).wf(),
            string_outputs@.len() == NUM_STRINGS,
            string_energies@.len() == NUM_STRINGS,
            seq_bounded(string_outputs@, 2_000_000),
            0 <= amount <= SCALE,
        ensures
            *final(self) == *old(self),
            r@.len() == NUM_STRINGS,
            ({
                let scale = fmul(amount as int, 2000);
                forall|t: int|
                    0 <= t < NUM_STRINGS ==> #[trigger] r@[t] == clampv(
                        excitation_sum(
                            old(self).matrix@,
                            string_outputs@,
                            string_energies@,
                            scale,
                            t,
                            NUM_STRINGS as int,
                        ),
                        -(EXCITATION_MAX as int),
                        EXCITATION_MAX as int,
                    )
            }),
            (forall|s: int|
                0 <= s < NUM_STRINGS ==> (#[trigger] string_energies@[s]) < ENERGY_GATE) ==> forall|
                t: int,
            |
                0 <= t < NUM_STRINGS ==> #[trigger] r@[t] == 0,
            seq_bounded(r@, EXCITATION_MAX as int),
    {
        let scale = mul_fix(amount, 2000);
        let ghost sc = fmul(amount as int, 2000);
        proof {
            assert(absv(scale as int) * (SCALE as int) <= absv(amount as int) * 2000);
            assert(0 <= scale <= 2000);
        }
        let mut excitation: Vec<i64> = Vec::new();
        let mut t: usize = 0;
        while t < NUM_STRINGS
            invariant
                t <= NUM_STRINGS,
                excitation@.len() == t,
                0 <= scale <= 2000,
                scale == sc,
                forall|tt: int|
                    0 <= tt < t ==> #[trigger] excitation@[tt] == clampv(
                        excitation_sum(
                            self.matrix@,
                            string_outputs@,
                            string_energies@,
                            sc,
                            tt,
                            NUM_STRINGS as int,
                        ),
                        -(EXCITATION_MAX as int),
                        EXCITATION_MAX as int,
                    ),
                *self == *old(self),
            decreases NUM_STRINGS - t,
        {
            let mut acc: i64 = 0;
            let mut source: usize = 0;
            while source < NUM_STRINGS
                invariant
                    source <= NUM_STRINGS,
                    t < NUM_STRINGS,
                    0 <= scale <= 2000,
                    scale == sc,
                    *self == *old(self),
                    absv(acc as int) <= 4000 * source,
                    acc == excitation_sum(
                        self.matrix@,
                        string_outputs@,
                        string_energies@,
                        sc,
                        t as int,
                        source as int,
                    ),
                decreases NUM_STRINGS - source,
            {
                if string_energies[source] >= ENERGY_GATE && source != t {
                    let coupling = self.matrix[source * 12 + t];
                    let inner = mul_fix(string_outputs[source], coupling);
                    let outer = mul_fix(inner, scale);
                    proof {
                        lemma_contrib_bound(inner as int, sc, outer as int);
                    }
                    acc = acc + outer;
                }
                source = source + 1;
            }
            excitation.push(clamp_fix(acc, -EXCITATION_MAX, EXCITATION_MAX));
            t = t + 1;
        }
        proof {
            if forall|s: int|
                0 <= s < NUM_STRINGS ==> (#[trigger] string_energies@[s]) < ENERGY_GATE {
                assert forall|tt: int| 0 <= tt < NUM_STRINGS implies #[trigger] excitation@[tt]
                    == 0 by {
                    lemma_sum_gated(
                        self.matrix@,
                        string_outputs@,
                        string_energies@,
                        sc,
                        tt,
                        NUM_STRINGS as int,
                    );
                }
            }
        }
        excitation
    }

    /// Get the raw coupling matrix, flattened row-major.
    pub fn get_matrix(&self) -> (r: Vec<i64>)
        requires
            self.wf(),
        ensures
            r@ == self.matrix@,
    {
        let mut flat: Vec<i64> = Vec::new();
        let mut k: usize = 0;
        while k < 144
            invariant
                k <= 144,
                flat@.len() == k,
                forall|kk: int| 0 <= kk < k ==> #[trigger] flat@[kk] == self.matrix@[kk],
            decreases 144 - k,
        {
            flat.push(self.matrix[k]);
            k = k + 1;
        }
        proof {
            assert(flat@ =~= self.matrix@);
        }
        flat
    }

    /// Set the coupling strength of every pair at a given interval
    /// class; intervals outside 0..11 are ignored.
    pub fn set_interval_coupling(&mut self, interval: usize, strength: i64)
        requires
            old(self).wf(),
        ensures
            final(self).wf(),
            final(self).smoothing == old(self).smoothing,
            final(self).resonance_buffers == old(self).resonance_buffers,
            interval >= 12 ==> *final(self) == *old(self),
            interval < 12 ==> final(self).matrix@.len() == 144 && forall|s: int, t: int|
                0 <= s < 12 && 0 <= t < 12 ==> #[trigger] final(self).matrix@[s * 12 + t] == (
                if interval_class(s, t) == interval {
                    clampv(strength as int, 0, SCALE as int)
                } else {
                    old(self).matrix@[s * 12 + t] as int
                }),
    {
        if interval >= 12 {
            return ;
        }
        let value = clamp_fix(strength, 0, SCALE);
        let mut k: usize = 0;
        while k < 144
            invariant
                k <= 144,
                self.matrix@.len() == 144,
                self.smoothing == old(self).smoothing,
                self.resonance_buffers == old(self).resonance_buffers,
                forall|kk: int|
                    0 <= kk < k ==> #[trigger] self.matrix@[kk] == (if interval_class(
                        kk / 12,
                        kk % 12,
                    ) == interval {
                        clampv(strength as int, 0, SCALE as int)
                    } else {
                        old(self).matrix@[kk] as int
                    }),
                forall|kk: int| k <= kk < 144 ==> #[trigger] self.matrix@[kk] == old(self).matrix@[kk],
            decreases 144 - k,
        {
            let s = k / 12;
            let t = k % 12;
            if interval_of(s, t) == interval {
                self.matrix[k] = value;
            }
            k = k + 1;
        }
        proof {
            assert forall|s: int, t: int| 0 <= s < 12 && 0 <= t < 12 implies #[trigger] self.matrix@[s
                * 12 + t] == (if interval_class(s, t) == interval {
                clampv(strength as int, 0, SCALE as int)
            } else {
                old(self).matrix@[s * 12 + t] as int
            }) by {
                let kk = s * 12 + t;
                assert(kk / 12 == s && kk % 12 == t);
            }
        }
    }

    /// Set a custom coupling between two specific strings; out-of-range
    /// indices are ignored.
    pub fn set_coupling(&mut self, source: usize, target: usize, strength: i64)
        requires
            old(self).wf(),
        ensures
            final(self).wf(),
            final(self).smoothing == old(self).smoothing,
            final(self).resonance_buffers == old(self).resonance_buffers,
            source < 12 && target < 12 ==> final(self).matrix@ == old(self).matrix@.update(
                source * 12 + target,
                clamp_fix_spec(strength as int),
            ),
            !(source < 12 && target < 12) ==> *final(self) == *old(self),
    {
        if source < NUM_STRINGS && target < NUM_STRINGS {
            self.matrix[source * 12 + target] = clamp_fix(strength, 0, SCALE);
        }
    }

    /// Reset the matrix to the default interval-based coupling.
    pub fn reset_to_default(&mut self)
        ensures
            final(self).wf(),
            final(self).is_default(),
            final(self).smoothing == 999_000,
            forall|k: int|
                0 <= k < NUM_STRINGS ==> #[trigger] final(self).resonance_buffers@[k] == 0,
    {
        *self = Self::new();
    }

    /// Set the smoothing coefficient.
    pub fn set_smoothing(&mut self, smoothing: i64)
        requires
            old(self).wf(),
        ensures
            final(self).wf(),
            final(self).smoothing == clampv(smoothing as int, 900_000, 999_900),
            final(self).matrix == old(self).matrix,
            final(self).resonance_buffers == old(self).resonance_buffers,
    {
        self.smoothing = clamp_fix(smoothing, 900_000, 999_900);
    }

    /// Clear the resonance buffers.
    pub fn clear(&mut self)
        requires
            old(self).wf(),
        ensures
            final(self).wf(),
            final(self).matrix == old(self).matrix,
            final(self).smoothing == old(self).smoothing,
            forall|k: int|
                0 <= k < NUM_STRINGS ==> #[trigger] final(self).resonance_buffers@[k] == 0,
    {
        let mut k: usize = 0;
        while k < NUM_STRINGS
            invariant
                k <= NUM_STRINGS,
                self.resonance_buffers@.len() == NUM_STRINGS,
                self.matrix == old(self).matrix,
                self.smoothing == old(self).smoothing,
                forall|kk: int| 0 <= kk < k ==> #[trigger] self.resonance_buffers@[kk] == 0,
            decreases NUM_STRINGS - k,
        {
            self.resonance_buffers[k] = 0;
            k = k + 1;
        }
    }
}

/// Coupling strengths clamp into [0, 1].
pub open spec fn clamp_fix_spec(strength: int) -> i64 {
    clampv(strength, 0, SCALE as int) as i64
}

/// Piano-like coupling: mainly octaves and fifths.
pub open spec fn piano_coupling(iv: int) -> int {
    if iv == 0 {
        1_000_000
    } else if iv == 7 {
        500_000
    } else if iv == 5 {
        300_000
    } else if iv == 4 {
        200_000
    } else if iv == 3 {
        150_000
    } else if iv == 1 {
        20_000
    } else if iv == 2 {
        50_000
    } else if iv == 6 {
        20_000
    } else if iv == 8 {
        100_000
    } else if iv == 9 {
        80_000
    } else {
        30_000  // minor and major sevenths
    }
}

/// Sitar-like coupling: strong sympathetic strings.
pub open spec fn sitar_coupling(iv: int) -> int {
    if iv == 0 {
        1_000_000
    } else if iv == 7 {
        800_000
    } else if iv == 5 {
        700_000
    } else if iv == 4 {
        500_000
    } else if iv == 3 {
        400_000
    } else if iv == 9 {
        350_000
    } else if iv == 2 {
        250_000
    } else if iv == 10 {
        200_000
    } else if iv == 8 {
        300_000
    } else if iv == 6 {
        150_000
    } else {
        100_000  // minor second and major seventh
    }
}

/// Chromatic coupling: all intervals equal.
pub open spec fn chromatic_coupling(iv: int) -> int {
    if iv == 0 {
        1_000_000
    } else {
        300_000
    }
}

/// Pentatonic coupling: only pentatonic intervals and their inversions.
pub open spec fn pentatonic_coupling(iv: int) -> int {
    if iv == 0 {
        1_000_000
    } else if iv == 2 || iv == 10 {
        500_000
    } else if iv == 4 || iv == 8 {
        500_000
    } else if iv == 7 {
        600_000
    } else if iv == 5 {
        600_000
    } else if iv == 9 || iv == 3 {
        400_000
    } else {
        0
    }
}

/// Whole-tone coupling: only even interval classes.
pub open spec fn whole_tone_coupling(iv: int) -> int {
    if iv == 0 {
        1_000_000
    } else if iv == 2 || iv == 4 || iv == 8 || iv == 10 {
        500_000
    } else if iv == 6 {
        400_000
    } else {
        0
    }
}

impl SympatheticMatrix {
    fn piano_coupling_of(iv: usize) -> (r: i64)
        requires
            iv < 12,
        ensures
            r == piano_coupling(iv as int),
            0 <= r <= SCALE,
    {
        if iv == 0 {
            1_000_000
        } else if iv == 7 {
            500_000
        } else if iv == 5 {
            300_000
        } else if iv == 4 {
            200_000
        } else if iv == 3 {
            150_000
        } else if iv == 1 {
            20_000
        } else if iv == 2 {
            50_000
        } else if iv == 6 {
            20_000
        } else if iv == 8 {
            100_000
        } else if iv == 9 {
            80_000
        } else {
            30_000
        }
    }

    fn sitar_coupling_of(iv: usize) -> (r: i64)
        requires
            iv < 12,
        ensures
            r == sitar_coupling(iv as int),
            0 <= r <= SCALE,
    {
        if iv == 0 {
            1_000_000
        } else if iv == 7 {
            800_000
        } else if iv == 5 {
            700_000
        } else if iv == 4 {
            500_000
        } else if iv == 3 {
            400_000
        } else if iv == 9 {
            350_000
        } else if iv == 2 {
            250_000
        } else if iv == 10 {
            200_000
        } else if iv == 8 {
            300_000
        } else if iv == 6 {
            150_000
        } else {
            100_000
        }
    }

    fn chromatic_coupling_of(iv: usize) -> (r: i64)
        requires
            iv < 12,
        ensures
            r == chromatic_coupling(iv as int),
            0 <= r <= SCALE,
    {
        if iv == 0 {
            1_000_000
        } else {
            300_000
        }
    }

    fn pentatonic_coupling_of(iv: usize) -> (r: i64)
        requires
            iv < 12,
        ensures
            r == pentatonic_coupling(iv as int),
            0 <= r <= SCALE,
    {
        if iv == 0 {
            1_000_000
        } else if iv == 2 || iv == 10 {
            500_000
        } else if iv == 4 || iv == 8 {
            500_000
        } else if iv == 7 {
            600_000
        } else if iv == 5 {
            600_000
        } else if iv == 9 || iv == 3 {
            400_000
        } else {
            0
        }
    }

    fn whole_tone_coupling_of(iv: usize) -> (r: i64)
        requires
            iv < 12,
        ensures
            r == whole_tone_coupling(iv as int),
            0 <= r <= SCALE,
    {
        if iv == 0 {
            1_000_000
        } else if iv == 2 || iv == 4 || iv == 8 || iv == 10 {
            500_000
        } else if iv == 6 {
            400_000
        } else {
            0
        }
    }

    /// Every matrix entry carries the given preset's value for its
    /// interval class. The presets below each name their table.
    pub open spec fn matches_table(self, table: spec_fn(int) -> int) -> bool {
        forall|s: int, t: int|
            0 <= s < 12 && 0 <= t < 12 ==> #[trigger] self.matrix@[s * 12 + t] == table(
                interval_class(s, t),
            )
    }

    /// Piano preset: mainly octaves and fifths.
    pub fn preset_piano(&mut self)
        requires
            old(self).wf(),
        ensures
            final(self).wf(),
            final(self).matches_table(|iv: int| piano_coupling(iv)),
            final(self).smoothing == old(self).smoothing,
            final(self).resonance_buffers == old(self).resonance_buffers,
    {
        let mut iv: usize = 0;
        while iv < 12
            invariant
                iv <= 12,
                self.wf(),
                self.smoothing == old(self).smoothing,
                self.resonance_buffers == old(self).resonance_buffers,
                forall|s: int, t: int|
                    0 <= s < 12 && 0 <= t < 12 && interval_class(s, t) < iv
                        ==> #[trigger] self.matrix@[s * 12 + t] == piano_coupling(
                        interval_class(s, t),
                    ),
            decreases 12 - iv,
        {
            self.set_interval_coupling(iv, Self::piano_coupling_of(iv));
            iv = iv + 1;
        }
    }

    /// Sitar preset: strong sympathetic strings.
    pub fn preset_sitar(&mut self)
        requires
            old(self).wf(),
        ensures
            final(self).wf(),
            final(self).matches_table(|iv: int| sitar_coupling(iv)),
            final(self).smoothing == old(self).smoothing,
            final(self).resonance_buffers == old(self).resonance_buffers,
    {
        let mut iv: usize = 0;
        while iv < 12
            invariant
                iv <= 12,
                self.wf(),
                self.smoothing == old(self).smoothing,
                self.resonance_buffers == old(self).resonance_buffers,
                forall|s: int, t: int|
                    0 <= s < 12 && 0 <= t < 12 && interval_class(s, t) < iv
                        ==> #[trigger] self.matrix@[s * 12 + t] == sitar_coupling(
                        interval_class(s, t),
                    ),
            decreases 12 - iv,
        {
            self.set_interval_coupling(iv, Self::sitar_coupling_of(iv));
            iv = iv + 1;
        }
    }

    /// Chromatic preset: all intervals equal.
    pub fn preset_chromatic(&mut self)
        requires
            old(self).wf(),
        ensures
            final(self).wf(),
            final(self).matches_table(|iv: int| chromatic_coupling(iv)),
            final(self).smoothing == old(self).smoothing,
            final(self).resonance_buffers == old(self).resonance_buffers,
    {
        let mut iv: usize = 0;
        while iv < 12
            invariant
                iv <= 12,
                self.wf(),
                self.smoothing == old(self).smoothing,
                self.resonance_buffers == old(self).resonance_buffers,
                forall|s: int, t: int|
                    0 <= s < 12 && 0 <= t < 12 && interval_class(s, t) < iv
                        ==> #[trigger] self.matrix@[s * 12 + t] == chromatic_coupling(
                        interval_class(s, t),
                    ),
            decreases 12 - iv,
        {
            self.set_interval_coupling(iv, Self::chromatic_coupling_of(iv));
            iv = iv + 1;
        }
    }

    /// Pentatonic preset: only pentatonic intervals couple.
    pub fn preset_pentatonic(&mut self)
        requires
            old(self).wf(),
        ensures
            final(self).wf(),
            final(self).matches_table(|iv: int| pentatonic_coupling(iv)),
            final(self).smoothing == old(self).smoothing,
            final(self).resonance_buffers == old(self).resonance_buffers,
    {
        let mut iv: usize = 0;
        while iv < 12
            invariant
                iv <= 12,
                self.wf(),
                self.smoothing == old(self).smoothing,
                self.resonance_buffers == old(self).resonance_buffers,
                forall|s: int, t: int|
                    0 <= s < 12 && 0 <= t < 12 && interval_class(s, t) < iv
                        ==> #[trigger] self.matrix@[s * 12 + t] == pentatonic_coupling(
                        interval_class(s, t),
                    ),
            decreases 12 - iv,
        {
            self.set_interval_coupling(iv, Self::pentatonic_coupling_of(iv));
            iv = iv + 1;
        }
    }

    /// Whole-tone preset: only even interval classes couple.
    pub fn preset_whole_tone(&mut self)
        requires
            old(self).wf(),
        ensures
            final(self).wf(),
            final(self).matches_table(|iv: int| whole_tone_coupling(iv)),
            final(self).smoothing == old(self).smoothing,
            final(self).resonance_buffers == old(self).resonance_buffers,
    {
        let mut iv: usize = 0;
        while iv < 12
            invariant
                iv <= 12,
                self.wf(),
                self.smoothing == old(self).smoothing,
                self.resonance_buffers == old(self).resonance_buffers,
                forall|s: int, t: int|
                    0 <= s < 12 && 0 <= t < 12 && interval_class(s, t) < iv
                        ==> #[trigger] self.matrix@[s * 12 + t] == whole_tone_coupling(
                        interval_class(s, t),
                    ),
            decreases 12 - iv,
        {
            self.set_interval_coupling(iv, Self::whole_tone_coupling_of(iv));
            iv = iv + 1;
        }
    }
}

impl Default for SympatheticMatrix {
    fn default() -> (r: SympatheticMatrix)
        ensures
            r.wf(),
            r.is_default(),
    {
        Self::new()
    }
}

} // verus!
