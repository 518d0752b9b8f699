//! Fixed-point scalar arithmetic.
//!
//! A scalar is an `i64` whose real value is `raw / FX_ONE`. All operations
//! saturate at `i64::MIN` / `i64::MAX` and round toward zero, so they are
//! total; the spec functions `fx_add_s`, `fx_sub_s`, `fx_mul_s`, `fx_div_s`
//! and `isqrt_s` give each result exactly.

use vstd::prelude::*;

verus! {

/// One in fixed-point representation (2^16).
pub const FX_ONE: i64 = 65536;

/// One half, scaled by `FX_ONE`.
pub const FX_HALF: i64 = 32768;

/// Two, scaled by `FX_ONE`.
pub const FX_TWO: i64 = 131072;

/// Four, scaled by `FX_ONE`.
pub const FX_FOUR: i64 = 262144;

/// Pi, scaled by `FX_ONE`.
pub const FX_PI: i64 = 205887;

/// Two pi, scaled by `FX_ONE`.
pub const FX_TWO_PI: i64 = 411775;

/// 1/pi, scaled by `FX_ONE`.
pub const FX_FRAC_1_PI: i64 = 20861;

/// 1/(2 pi), scaled by `FX_ONE`.
pub const FX_FRAC_1_2PI: i64 = 10430;

/// 1/(4 pi), scaled by `FX_ONE`.
pub const FX_FRAC_1_4PI: i64 = 5215;

/// Cosines below this are treated as grazing or below the horizon.
pub const EPS_COSINE: i64 = 1;

/// Offset applied along a new ray to avoid immediate self-intersection.
pub const EPS_RAY: i64 = 16;

/// Sentinel probability density standing for negative infinity: it marks an
/// illumination sample that must never be selected.
pub const PDF_NONE: i64 = i64::MIN;

/// Sentinel distance standing for an effectively infinite distance.
pub const DIST_FAR: i64 = 0x7fff_ffff_ffff;

/// Magnitude of an integer.
pub open spec fn abs_s(x: int) -> int {
    if x < 0 {
        -x
    } else {
        x
    }
}

/// Clip to the representable range of `i64`.
pub open spec fn sat64(x: int) -> int {
    if x > i64::MAX as int {
        i64::MAX as int
    } else if x < i64::MIN as int {
        i64::MIN as int
    } else {
        x
    }
}

/// Division rounding toward zero, defined for `d != 0`.
pub open spec fn tdiv(n: int, d: int) -> int {
    let q = abs_s(n) / abs_s(d);
    if (n < 0) != (d < 0) {
        -q
    } else {
        q
    }
}

/// Saturating fixed-point addition.
pub open spec fn fx_add_s(a: int, b: int) -> int {
    sat64(a + b)
}

/// Saturating fixed-point subtraction.
pub open spec fn fx_sub_s(a: int, b: int) -> int {
    sat64(a - b)
}

/// Saturating fixed-point multiplication: `a * b / FX_ONE`, toward zero.
pub open spec fn fx_mul_s(a: int, b: int) -> int {
    sat64(tdiv(a * b, FX_ONE as int))
}

/// Saturating fixed-point division: `a * FX_ONE / b`, toward zero.
pub open spec fn fx_div_s(a: int, b: int) -> int {
    sat64(tdiv(a * FX_ONE as int, b))
}

/// Integer square root: the greatest `r` with `r * r <= n` (0 for `n <= 0`).
pub open spec fn isqrt_s(n: int) -> int
    decreases n,
{
    if n <= 0 {
        0
    } else {
        let r = 2 * isqrt_s(n / 4);
        if (r + 1) * (r + 1) <= n {
            r + 1
        } else {
            r
        }
    }
}

/// Fixed-point square root: `isqrt_s` of the value rescaled so that the
/// result is again scaled by `FX_ONE`.
pub open spec fn fx_sqrt_s(x: int) -> int {
    isqrt_s(x * FX_ONE as int)
}

proof fn lemma_lt_sqrt(r: int, n: int, rb: int)
    by (nonlinear_arith)
    requires
        r >= 0,
        rb >= 0,
        r * r <= n,
        n < rb * rb,
    ensures
        r < rb,
{
}

proof fn lemma_sq_mono(x: int, m: int)
    by (nonlinear_arith)
    requires
        0 <= x < m,
    ensures
        x * x < m * m,
{
}

proof fn lemma_mul_le(a: int, b: int, c: int, d: int)
    by (nonlinear_arith)
    requires
        0 <= a <= c,
        0 <= b <= d,
    ensures
        a * b <= c * d,
{
}

proof fn lemma_mul_signs(a: int, b: int, ma: int, mb: int)
    by (nonlinear_arith)
    requires
        ma == if a < 0 { -a } else { a },
        mb == if b < 0 { -b } else { b },
    ensures
        ma * mb == if a * b < 0 { -(a * b) } else { a * b },
        ((a < 0) != (b < 0)) ==> a * b <= 0,
        (!((a < 0) != (b < 0))) ==> a * b >= 0,
{
}

/// A fixed-point quotient of non-negative values is non-negative.
pub proof fn lemma_fx_div_nonneg(a: int, b: int)
    requires
        0 <= a,
        1 <= b,
    ensures
        0 <= fx_div_s(a, b),
{
    assert(tdiv(a * 65536, b) == (a * 65536) / b);
    vstd::arithmetic::div_mod::lemma_div_pos_is_pos(a * 65536, b);
}

/// Multiplying by one is the identity on every representable scalar.
pub proof fn lemma_fx_one_mul(x: int)
    requires
        i64::MIN as int <= x <= i64::MAX as int,
    ensures
        fx_mul_s(FX_ONE as int, x) == x,
{
    if x >= 0 {
        assert(tdiv(65536 * x, 65536) == (65536 * x) / 65536);
        vstd::arithmetic::div_mod::lemma_div_multiples_vanish(x, 65536);
    } else {
        assert(65536 * x < 0);
        assert(tdiv(65536 * x, 65536) == -((65536 * (-x)) / 65536));
        vstd::arithmetic::div_mod::lemma_div_multiples_vanish(-x, 65536);
    }
}

/// Fixed-point multiplication does not depend on the argument order.
pub proof fn lemma_fx_mul_comm(a: int, b: int)
    ensures
        fx_mul_s(a, b) == fx_mul_s(b, a),
{
    assert(a * b == b * a) by (nonlinear_arith);
}

/// `isqrt_s` is the integer square root.
pub proof fn lemma_isqrt(n: int)
    requires
        n >= 0,
    ensures
        isqrt_s(n) >= 0,
        isqrt_s(n) * isqrt_s(n) <= n,
        n < (isqrt_s(n) + 1) * (isqrt_s(n) + 1),
    decreases n,
{
    if n > 0 {
        lemma_isqrt(n / 4);
        let m = n / 4;
        let r0 = isqrt_s(m);
        let r = 2 * r0;
        assert(n == 4 * m + n % 4);
        assert(r * r <= 4 * m) by (nonlinear_arith)
            requires
                r == 2 * r0,
                r0 * r0 <= m,
        ;
        assert(4 * m + 4 <= (r + 2) * (r + 2)) by (nonlinear_arith)
            requires
                r == 2 * r0,
                m < (r0 + 1) * (r0 + 1),
        ;
    }
}

fn abs64(a: i64) -> (r: u64)
    ensures
        r as int == abs_s(a as int),
{
    if a >= 0 {
        a as u64
    } else {
        (-(a as i128)) as u64
    }
}

fn clip_mag(q: u128, neg: bool) -> (r: i64)
    ensures
        r as int == sat64(if neg { -(q as int) } else { q as int }),
{
    if neg {
        if q >= 9223372036854775808u128 {
            i64::MIN
        } else {
            -(q as i64)
        }
    } else {
        if q > i64::MAX as u128 {
            i64::MAX
        } else {
            q as i64
        }
    }
}

/// Saturating addition.
pub fn fx_add(a: i64, b: i64) -> (r: i64)
    ensures
        r as int == fx_add_s(a as int, b as int),
{
    let s: i128 = a as i128 + b as i128;
    if s > i64::MAX as i128 {
        i64::MAX
    } else if s < i64::MIN as i128 {
        i64::MIN
    } else {
        s as i64
    }
}

/// Saturating subtraction.
pub fn fx_sub(a: i64, b: i64) -> (r: i64)
    ensures
        r as int == fx_sub_s(a as int, b as int),
{
    let s: i128 = a as i128 - b as i128;
    if s > i64::MAX as i128 {
        i64::MAX
    } else if s < i64::MIN as i128 {
        i64::MIN
    } else {
        s as i64
    }
}

/// Saturating fixed-point multiplication.
pub fn fx_mul(a: i64, b: i64) -> (r: i64)
    ensures
        r as int == fx_mul_s(a as int, b as int),
{
    let neg = (a < 0) != (b < 0);
    let ma: u64 = abs64(a);
    let mb: u64 = abs64(b);
    proof {
        lemma_mul_le(ma as int, mb as int, 0x8000_0000_0000_0000int, 0x8000_0000_0000_0000int);
    }
    let p: u128 = (ma as u128) * (mb as u128);
    let q: u128 = p / 65536u128;
    proof {
        lemma_mul_signs(a as int, b as int, ma as int, mb as int);
    }
    clip_mag(q, neg)
}

/// Saturating fixed-point division.
pub fn fx_div(a: i64, b: i64) -> (r: i64)
    requires
        b != 0,
    ensures
        r as int == fx_div_s(a as int, b as int),
{
    let neg = (a < 0) != (b < 0);
    let ma: u64 = abs64(a);
    let mb: u64 = abs64(b);
    let p: u128 = (ma as u128) * 65536u128;
    let q: u128 = p / (mb as u128);
    proof {
        lemma_mul_signs(a as int, FX_ONE as int, ma as int, FX_ONE as int);
    }
    clip_mag(q, neg)
}

fn isqrt_u128(n: u128) -> (r: u128)
    ensures
        r as int == isqrt_s(n as int),
    decreases n,
{
    if n == 0 {
        0
    } else {
        let r0: u128 = isqrt_u128(n / 4);
        proof {
            lemma_isqrt(n as int / 4);
            lemma_lt_sqrt(r0 as int, n as int / 4, 0x8000_0000_0000_0000int);
            lemma_sq_mono(2 * r0 as int + 1, 0x1_0000_0000_0000_0000int);
        }
        let r: u128 = 2 * r0;
        if (r + 1) * (r + 1) <= n {
            r + 1
        } else {
            r
        }
    }
}

/// Fixed-point square root of a non-negative scalar.
pub fn fx_sqrt(x: i64) -> (r: i64)
    requires
        x >= 0,
    ensures
        r as int == fx_sqrt_s(x as int),
{
    let n: u128 = (x as u128) * 65536u128;
    let root: u128 = isqrt_u128(n);
    proof {
        lemma_isqrt(n as int);
        assert(0x100_0000_0000int * 0x100_0000_0000int == 0x1_0000_0000_0000_0000_0000int)
            by (nonlinear_arith);
        lemma_lt_sqrt(root as int, n as int, 0x100_0000_0000int);
    }
    root as i64
}

/// Magnitude of a scalar (saturating at `i64::MAX`).
pub fn abs_i64(a: i64) -> (r: i64)
    ensures
        r as int == sat64(abs_s(a as int)),
{
    if a >= 0 {
        a
    } else if a == i64::MIN {
        i64::MAX
    } else {
        -a
    }
}

/// The smaller of two scalars.
pub fn fx_min(a: i64, b: i64) -> (r: i64)
    ensures
        r == if a <= b { a } else { b },
{
    if a <= b {
        a
    } else {
        b
    }
}

/// The larger of two scalars.
pub fn fx_max(a: i64, b: i64) -> (r: i64)
    ensures
        r == if a >= b { a } else { b },
{
    if a >= b {
        a
    } else {
        b
    }
}

/// Clamp a scalar to `[lo, hi]`.
pub fn fx_clamp(x: i64, lo: i64, hi: i64) -> (r: i64)
    requires
        lo <= hi,
    ensures
        r == if x < lo { lo } else if x > hi { hi } else { x },
{
    if x < lo {
        lo
    } else if x > hi {
        hi
    } else {
        x
    }
}

} // verus!
