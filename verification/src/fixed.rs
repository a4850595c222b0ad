//! Decimal fixed-point arithmetic for the audio signal path.
//!
//! Every signal sample, coefficient and parameter in this crate is a
//! fixed-point number: an `i64` holding the represented value times
//! `SCALE` (millionths). Products are rescaled with truncation toward
//! zero, so the whole signal chain is exact integer arithmetic and every
//! range bound in the filter network can be proved rather than patched
//! up after a non-finite value appears.

use vstd::prelude::*;

verus! {

/// Fixed-point unit: a stored integer represents `value / SCALE`.
pub const SCALE: i64 = 1_000_000;

/// pi in fixed-point units.
pub const PI_FIX: i64 = 3_141_592;

/// 2*pi in fixed-point units.
pub const TWO_PI_FIX: i64 = 6_283_185;

/// pi/2 in fixed-point units.
pub const HALF_PI_FIX: i64 = 1_570_796;

/// |x| as a mathematical integer.
pub open spec fn absv(x: int) -> int {
    if x >= 0 {
        x
    } else {
        -x
    }
}

/// Maximum of two mathematical integers.
pub open spec fn maxv(a: int, b: int) -> int {
    if a >= b {
        a
    } else {
        b
    }
}

/// Division truncating toward zero, the rounding the executable
/// arithmetic uses (spec-level `/` is Euclidean).
pub open spec fn tdiv(a: int, d: int) -> int {
    if a >= 0 {
        a / d
    } else {
        -((-a) / d)
    }
}

/// Fixed-point product: the full product rescaled by SCALE, truncated
/// toward zero.
pub open spec fn fmul(a: int, b: int) -> int {
    tdiv(a * b, SCALE as int)
}

/// x clamped into [lo, hi].
pub open spec fn clampv(x: int, lo: int, hi: int) -> int {
    if x < lo {
        lo
    } else if x > hi {
        hi
    } else {
        x
    }
}

pub fn clamp_fix(x: i64, lo: i64, hi: i64) -> (r: i64)
    requires
        lo <= hi,
    ensures
        r == clampv(x as int, lo as int, hi as int),
{
    if x < lo {
        lo
    } else if x > hi {
        hi
    } else {
        x
    }
}

proof fn lemma_div_le(a: int, d: int)
    by (nonlinear_arith)
    requires
        a >= 0,
        d >= 1,
    ensures
        0 <= a / d <= a,
{
}

/// Truncating division by a positive divisor.
pub fn div_fix(a: i64, d: i64) -> (r: i64)
    requires
        0 < d,
        i64::MIN < a,
    ensures
        r == tdiv(a as int, d as int),
        absv(r as int) <= absv(a as int),
        0 <= a ==> 0 <= r,
{
    if a >= 0 {
        let q: u64 = (a as u64) / (d as u64);
        proof {
            lemma_div_le(a as int, d as int);
        }
        q as i64
    } else {
        let m: u64 = (-a) as u64;
        let q: u64 = m / (d as u64);
        proof {
            lemma_div_le(-(a as int), d as int);
        }
        -(q as i64)
    }
}

/// Multiply a signal by a coefficient and rescale.
///
/// The coefficient is at most 2.0 in magnitude and the signal has
/// generous headroom, so the wide product always fits an `i64`.
pub fn mul_fix(x: i64, c: i64) -> (r: i64)
    requires
        absv(x as int) <= 4_000_000_000_000,
        absv(c as int) <= 2_000_000,
    ensures
        r == fmul(x as int, c as int),
        absv(r as int) * (SCALE as int) <= absv(x as int) * absv(c as int),
        absv(c as int) <= SCALE as int ==> absv(r as int) <= absv(x as int),
        absv(r as int) <= 2 * absv(x as int),
        x == 0 || c == 0 ==> r == 0,
        0 <= x && 0 <= c ==> 0 <= r,
{
    proof {
        assert(-8_000_000_000_000_000_000 <= (x as int) * (c as int) <= 8_000_000_000_000_000_000)
            by (nonlinear_arith)
            requires
                absv(x as int) <= 4_000_000_000_000,
                absv(c as int) <= 2_000_000,
        ;
    }
    let p: i64 = x * c;
    let r = div_fix(p, SCALE);
    proof {
        lemma_mul_fix_bounds(x as int, c as int, r as int);
    }
    r
}

proof fn lemma_mul_fix_bounds(x: int, c: int, r: int)
    by (nonlinear_arith)
    requires
        absv(x) <= 4_000_000_000_000,
        absv(c) <= 2_000_000,
        r == fmul(x, c),
    ensures
        absv(r) * (SCALE as int) <= absv(x) * absv(c),
        absv(c) <= SCALE as int ==> absv(r) <= absv(x),
        absv(r) <= 2 * absv(x),
        x == 0 || c == 0 ==> r == 0,
        0 <= x && 0 <= c ==> 0 <= r,
{
}

/// Rescaling by a full unit is exact: multiplying by SCALE and rescaling
/// gives the signal back unchanged.
pub proof fn lemma_fmul_unit(x: int)
    by (nonlinear_arith)
    ensures
        fmul(x, SCALE as int) == x,
        fmul(x, 0) == 0,
{
}

/// A zero signal stays zero through any rescaled product.
pub proof fn lemma_fmul_zero(b: int)
    by (nonlinear_arith)
    ensures
        fmul(0, b) == 0,
{
}

/// Every sample of the sequence is within [-b, b].
pub open spec fn seq_bounded(s: Seq<i64>, b: int) -> bool {
    forall|i: int| 0 <= i < s.len() ==> absv(#[trigger] s[i] as int) <= b
}

/// Every sample of the sequence is zero.
pub open spec fn seq_zero(s: Seq<i64>) -> bool {
    forall|i: int| 0 <= i < s.len() ==> #[trigger] s[i] == 0
}

/// A product rescaled against a sub-unit coefficient keeps 99/100 of the
/// magnitude bound of its signal operand.
pub(crate) proof fn lemma_scaled_bound(v: int, c: int, r: int, m: int)
    by (nonlinear_arith)
    requires
        absv(r) * (SCALE as int) <= absv(v) * absv(c),
        absv(v) <= m,
        absv(c) <= 990_000,
        0 <= m,
    ensures
        100 * absv(r) <= 99 * m,
        absv(r) <= m,
{
}

/// Rescaled division by a divisor of at least one unit does not grow the
/// magnitude of the numerator.
pub(crate) proof fn lemma_div_unit(x: int, d: int)
    by (nonlinear_arith)
    requires
        d >= SCALE as int,
        absv(x) <= 4_000_000_000_000,
    ensures
        absv(tdiv(x * (SCALE as int), d)) <= absv(x),
{
}

/// A rescaled ratio whose numerator magnitude is at most its divisor is
/// at most one unit.
pub(crate) proof fn lemma_div_ratio(n: int, d: int)
    by (nonlinear_arith)
    requires
        0 < d,
        absv(n) <= d,
        absv(n) <= 4_000_000_000_000,
    ensures
        absv(tdiv(n * (SCALE as int), d)) <= SCALE as int,
{
}

/// A non-negative quotient is capped by any bound whose product with
/// the smallest possible divisor dominates the numerator.
pub proof fn lemma_div_bounded(n: int, d: int, dmin: int, cap: int)
    by (nonlinear_arith)
    requires
        0 <= n,
        0 < dmin <= d,
        n <= cap * dmin,
        0 <= cap,
    ensures
        0 <= n / d <= cap,
{
}

/// The integer square root, as picked out by its defining bracket.
pub open spec fn sqrt_val(x: int) -> int {
    choose|r: int| 0 <= r && #[trigger] (r * r) <= x && x < (r + 1) * (r + 1)
}

proof fn lemma_sqrt_unique(a: int, b: int, x: int)
    by (nonlinear_arith)
    requires
        0 <= a && a * a <= x && x < (a + 1) * (a + 1),
        0 <= b && b * b <= x && x < (b + 1) * (b + 1),
    ensures
        a == b,
{
}

/// Integer square root by bisection.
pub fn isqrt_fix(x: u64) -> (r: u64)
    requires
        x <= 4_000_000_000_000_000_000,
    ensures
        r == sqrt_val(x as int),
        (r as int) * (r as int) <= x as int,
        (x as int) < (r as int + 1) * (r as int + 1),
        x <= 1_000_000_000_000 ==> r <= 1_000_000,
{
    let mut lo: u64 = 0;
    let mut hi: u64 = 2_000_000_001;
    proof {
        assert((2_000_000_001int) * 2_000_000_001int > 4_000_000_000_000_000_000int)
            by (nonlinear_arith);
    }
    while hi - lo > 1
        invariant
            lo < hi <= 2_000_000_001,
            (lo as int) * (lo as int) <= x as int,
            (x as int) < (hi as int) * (hi as int),
        decreases hi - lo,
    {
        let mid: u64 = lo + (hi - lo) / 2;
        proof {
            assert((mid as int) * (mid as int) <= 4_100_000_000_000_000_000int) by (nonlinear_arith)
                requires
                    mid <= 2_000_000_001,
            ;
        }
        if mid * mid <= x {
            lo = mid;
        } else {
            hi = mid;
        }
    }
    proof {
        assert((x as int) < (lo as int + 1) * (lo as int + 1));
        let ch = sqrt_val(x as int);
        assert(0 <= lo as int && (lo as int) * (lo as int) <= x as int && (x as int) < (lo as int
            + 1) * (lo as int + 1));
        assert(ch == sqrt_val(x as int) && 0 <= ch && ch * ch <= x as int && (x as int) < (ch + 1)
            * (ch + 1));
        lemma_sqrt_unique(ch, lo as int, x as int);
        if x <= 1_000_000_000_000 {
            assert(lo <= 1_000_000) by (nonlinear_arith)
                requires
                    (lo as int) * (lo as int) <= x as int,
                    x <= 1_000_000_000_000,
                    lo >= 0,
            ;
        }
    }
    lo
}

/// The rational half-wave sine approximation on [0, pi], in fixed point.
pub open spec fn sin_half_spec(y: int) -> int {
    (16 * (y * (PI_FIX as int - y))) / (49_348_020 - (4 * (y * (PI_FIX as int - y))) / 1_000_000)
}

/// A full-period fixed-point sine of a non-negative angle in scaled
/// radians: the angle is reduced modulo 2*pi, and the second half-wave
/// is the negated first.
pub open spec fn sin_fix_spec(x: int) -> int {
    let y = x % (TWO_PI_FIX as int);
    if y <= PI_FIX as int {
        sin_half_spec(y)
    } else {
        -sin_half_spec(y - PI_FIX as int)
    }
}

fn sin_half(y: i64) -> (r: i64)
    requires
        0 <= y <= PI_FIX,
    ensures
        r == sin_half_spec(y as int),
        0 <= r <= SCALE,
        y == 0 ==> r == 0,
{
    proof {
        assert((y as int) * (PI_FIX as int - y as int) <= 2_467_401_000_000
            && 0 <= (y as int) * (PI_FIX as int - y as int)) by (nonlinear_arith)
            requires
                0 <= y as int <= PI_FIX as int,
        ;
    }
    let p: i64 = y * (PI_FIX - y);
    let den: i64 = 49_348_020 - (4 * p) / 1_000_000;
    proof {
        assert(1_000_000int * ((4 * (p as int)) / 1_000_000int) <= 4 * (p as int));
        assert((4 * (p as int)) / 1_000_000int >= 0);
    }
    let num: i64 = 16 * p;
    let q: u64 = (num as u64) / (den as u64);
    proof {
        // num <= SCALE * den, so the quotient stays within one unit.
        assert(16 * (p as int) <= 1_000_000int * (den as int));
        assert((num as int) / (den as int) <= SCALE as int) by (nonlinear_arith)
            requires
                num as int <= 1_000_000int * (den as int),
                num >= 0,
                den >= 1,
        ;
        lemma_div_le(num as int, den as int);
    }
    q as i64
}

/// Fixed-point sine of a non-negative scaled-radian angle.
pub fn sin_fix(x: u64) -> (r: i64)
    ensures
        r == sin_fix_spec(x as int),
        -SCALE <= r <= SCALE,
        x == 0 ==> r == 0,
        (x as int) % (TWO_PI_FIX as int) <= PI_FIX as int ==> 0 <= r,
{
    let y: u64 = x % 6_283_185;
    if y <= 3_141_592 {
        sin_half(y as i64)
    } else {
        -sin_half((y - 3_141_592) as i64)
    }
}

} // verus!
