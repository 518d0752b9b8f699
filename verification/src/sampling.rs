//! Drawing directions from probability distributions: a cosine-weighted
//! hemisphere, a power-cosine (glossy) lobe, and the uniform sphere.
//!
//! Angles use a rational approximation of the sine (accurate to about two
//! thousandths over a half turn); the renderer is isotropic about the azimuth,
//! so the approximation only shifts which direction a random pair maps to.
//! Every returned probability density is computed from the returned direction
//! itself, so the density contracts are exact.

use vstd::prelude::*;
use vstd::arithmetic::div_mod::{
    lemma_div_is_ordered,
    lemma_div_multiples_vanish,
    lemma_div_pos_is_pos,
};
use crate::fx::{abs_s, tdiv, fx_sub_s, fx_mul_s, fx_div_s, fx_sqrt_s, isqrt_s, fx_sub, fx_mul, fx_div, fx_sqrt, lemma_isqrt, FX_ONE, FX_FOUR, FX_PI, FX_TWO_PI, FX_FRAC_1_PI, FX_FRAC_1_2PI, FX_FRAC_1_4PI};
use crate::vec3::{V3, Vec3};

verus! {

/// Half pi, scaled by `FX_ONE`.
pub const FX_HALF_PI: i64 = 102944;

/// `5 * pi * pi` in fixed point: the constant term of the sine denominator.
pub const SINE_DENOM: i64 = 3234060;

/// `16` scaled by `FX_ONE`.
pub const SIXTEEN_FX: i64 = 1048576;

proof fn lemma_mul_le(a: int, b: int, c: int, d: int)
    by (nonlinear_arith)
    requires
        0 <= a <= c,
        0 <= b <= d,
    ensures
        a * b <= c * d,
        a * b >= 0,
{
}

/// A product scaled down by `FX_ONE` keeps a factor in `[0, FX_ONE]` as an
/// upper bound: `fx_mul_s(a, b) <= b` whenever `0 <= a <= FX_ONE`.
pub proof fn lemma_fx_mul_unit(a: int, b: int)
    requires
        0 <= a <= FX_ONE as int,
        0 <= b <= i64::MAX as int,
    ensures
        0 <= fx_mul_s(a, b) <= b,
{
    lemma_mul_le(a, b, FX_ONE as int, b);
    let p = a * b;
    assert(tdiv(p, FX_ONE as int) == p / 65536);
    lemma_div_pos_is_pos(p, 65536);
    lemma_div_is_ordered(p, 65536 * b, 65536);
    lemma_div_multiples_vanish(b, 65536);
}

/// The square of a scalar in `[-FX_ONE, FX_ONE]` lies in `[0, FX_ONE]`.
pub proof fn lemma_fx_sq_unit(z: int)
    requires
        -(FX_ONE as int) <= z <= FX_ONE as int,
    ensures
        0 <= fx_mul_s(z, z) <= FX_ONE as int,
{
    let m = abs_s(z);
    assert(z * z == m * m && m * m >= 0) by (nonlinear_arith)
        requires
            m == if z < 0 { -z } else { z },
    ;
    lemma_mul_le(m, m, FX_ONE as int, FX_ONE as int);
    let p = z * z;
    assert(tdiv(p, FX_ONE as int) == p / 65536);
    lemma_div_pos_is_pos(p, 65536);
    lemma_div_is_ordered(p, 65536int * 65536, 65536);
    lemma_div_multiples_vanish(65536, 65536);
}

/// The rational sine approximation on `[0, pi]` (tolerating one unit above).
pub open spec fn bhaskara_s(x: int) -> int {
    let t = fx_mul_s(x, fx_sub_s(FX_PI as int, x));
    fx_div_s(
        fx_mul_s(t, SIXTEEN_FX as int),
        fx_sub_s(SINE_DENOM as int, fx_mul_s(t, FX_FOUR as int)),
    )
}

/// Sine on `[0, 2 pi]`: the approximation on the first half turn, negated on
/// the second.
pub open spec fn fx_sin_s(x: int) -> int {
    if x <= FX_PI as int {
        bhaskara_s(x)
    } else {
        fx_sub_s(0, bhaskara_s(x - FX_PI as int))
    }
}

/// Cosine on `[0, 2 pi]`: the sine shifted by a quarter turn.
pub open spec fn fx_cos_s(x: int) -> int {
    if x + FX_HALF_PI as int <= FX_TWO_PI as int {
        fx_sin_s(x + FX_HALF_PI as int)
    } else {
        fx_sin_s(x + FX_HALF_PI as int - FX_TWO_PI as int)
    }
}

proof fn lemma_bhaskara_den(t: int)
    requires
        -4 <= t <= 646812,
    ensures
        646000 <= fx_sub_s(SINE_DENOM as int, fx_mul_s(t, FX_FOUR as int)),
        -16 <= fx_mul_s(t, FX_FOUR as int) <= 2587248,
{
    let p = t * (FX_FOUR as int);
    if t >= 0 {
        assert(tdiv(p, FX_ONE as int) == p / 65536);
        lemma_div_pos_is_pos(p, 65536);
        lemma_div_is_ordered(p, 169557884928, 65536);
    } else {
        assert(tdiv(p, FX_ONE as int) == -((-p) / 65536));
        lemma_div_pos_is_pos(-p, 65536);
        lemma_div_is_ordered(-p, 1048576, 65536);
    }
}

proof fn lemma_bhaskara_t(x: int)
    requires
        0 <= x <= FX_PI as int + 1,
    ensures
        -4 <= fx_mul_s(x, fx_sub_s(FX_PI as int, x)) <= 646812,
{
    let d = fx_sub_s(FX_PI as int, x);
    if x <= FX_PI as int {
        lemma_mul_le(x, d, FX_PI as int, FX_PI as int);
        let p = x * d;
        assert(tdiv(p, FX_ONE as int) == p / 65536);
        lemma_div_pos_is_pos(p, 65536);
        lemma_div_is_ordered(p, 42389456769, 65536);
    } else {
        assert(x == FX_PI as int + 1 && d == -1);
        assert(x * d == -x) by (nonlinear_arith)
            requires
                d == -1,
        ;
        assert(tdiv(-x, FX_ONE as int) == -(x / 65536));
    }
}

fn bhaskara(x: i64) -> (r: i64)
    requires
        0 <= x <= FX_PI as int + 1,
    ensures
        r as int == bhaskara_s(x as int),
{
    let d: i64 = fx_sub(FX_PI, x);
    let t: i64 = fx_mul(x, d);
    proof {
        lemma_bhaskara_t(x as int);
        lemma_bhaskara_den(t as int);
    }
    let num: i64 = fx_mul(t, SIXTEEN_FX);
    let den: i64 = fx_sub(SINE_DENOM, fx_mul(t, FX_FOUR));
    fx_div(num, den)
}

/// Sine of an angle in `[0, 2 pi]` (rational approximation).
pub fn fx_sin(x: i64) -> (r: i64)
    requires
        0 <= x <= FX_TWO_PI as int,
    ensures
        r as int == fx_sin_s(x as int),
{
    if x <= FX_PI {
        bhaskara(x)
    } else {
        fx_sub(0, bhaskara(x - FX_PI))
    }
}

/// Cosine of an angle in `[0, 2 pi]` (rational approximation).
pub fn fx_cos(x: i64) -> (r: i64)
    requires
        0 <= x <= FX_TWO_PI as int,
    ensures
        r as int == fx_cos_s(x as int),
{
    let shifted: i64 = x + FX_HALF_PI;
    if shifted <= FX_TWO_PI {
        fx_sin(shifted)
    } else {
        fx_sin(shifted - FX_TWO_PI)
    }
}

/// Fixed-point power: `x` multiplied into one `k` times.
pub open spec fn fxpow_s(x: int, k: nat) -> int
    decreases k,
{
    if k == 0 {
        FX_ONE as int
    } else {
        fx_mul_s(x, fxpow_s(x, (k - 1) as nat))
    }
}

/// A power of a scalar in `[0, FX_ONE]` stays in `[0, FX_ONE]`.
pub proof fn lemma_fxpow_unit(x: int, k: nat)
    requires
        0 <= x <= FX_ONE as int,
    ensures
        0 <= fxpow_s(x, k) <= FX_ONE as int,
    decreases k,
{
    if k > 0 {
        lemma_fxpow_unit(x, (k - 1) as nat);
        lemma_fx_mul_unit(x, fxpow_s(x, (k - 1) as nat));
    }
}

proof fn lemma_fxpow_above_one(k: nat)
    requires
        k >= 1,
    ensures
        fxpow_s(FX_ONE as int + 1, k) >= FX_ONE as int + 1,
    decreases k,
{
    if k == 1 {
        assert(fxpow_s(FX_ONE as int + 1, 0) == FX_ONE as int);
        assert(tdiv(65537int * 65536, 65536) == 65537) by {
            lemma_div_multiples_vanish(65537, 65536);
        }
    } else {
        lemma_fxpow_above_one((k - 1) as nat);
        let p = fxpow_s(FX_ONE as int + 1, (k - 1) as nat);
        assert(65537 * p >= 65537 * 65537) by (nonlinear_arith)
            requires
                p >= 65537,
        ;
        assert(tdiv(65537 * p, 65536) == (65537 * p) / 65536);
        lemma_div_is_ordered(65537int * 65537, 65537 * p, 65536);
        assert((65537int * 65537) / 65536 == 65538);
    }
}

/// Fixed-point power of a scalar.
pub fn fxpow(x: i64, k: u32) -> (r: i64)
    ensures
        r as int == fxpow_s(x as int, k as nat),
{
    let mut acc: i64 = FX_ONE;
    let mut i: u32 = 0;
    while i < k
        invariant
            i <= k,
            acc as int == fxpow_s(x as int, i as nat),
        decreases k - i,
    {
        acc = fx_mul(x, acc);
        i = i + 1;
    }
    acc
}

/// The `k`-th root of a scalar in `[0, FX_ONE)`: the greatest `r` in
/// `[0, FX_ONE]` whose `k`-th fixed-point power does not exceed `a`.
pub fn nth_root(a: i64, k: u32) -> (r: i64)
    requires
        0 <= a < FX_ONE as int,
        k >= 1,
    ensures
        0 <= r <= FX_ONE as int,
        fxpow_s(r as int, k as nat) <= a as int,
        (a as int) < fxpow_s(r as int + 1, k as nat),
{
    let mut lo: i64 = 0;
    let mut hi: i64 = FX_ONE;
    proof {
        assert(fxpow_s(0, k as nat) == fx_mul_s(0, fxpow_s(0, (k - 1) as nat)));
        assert(fxpow_s(0, k as nat) == 0);
        lemma_fxpow_above_one(k as nat);
    }
    while lo < hi
        invariant
            0 <= lo <= hi <= FX_ONE as int,
            fxpow_s(lo as int, k as nat) <= a as int,
            (a as int) < fxpow_s(hi as int + 1, k as nat),
        decreases hi - lo,
    {
        let mid: i64 = lo + (hi - lo + 1) / 2;
        let p: i64 = fxpow(mid, k);
        if p <= a {
            lo = mid;
        } else {
            hi = mid - 1;
        }
    }
    lo
}

/// A spherical direction from an azimuth `phi` and the sine and cosine of the
/// polar angle.
pub open spec fn sph_dir_s(phi: int, sin_t: int, cos_t: int) -> V3 {
    V3 {
        x: fx_mul_s(sin_t, fx_cos_s(phi)),
        y: fx_mul_s(sin_t, fx_sin_s(phi)),
        z: cos_t,
    }
}

/// The direction drawn from the cosine-weighted hemisphere by a random pair.
pub open spec fn cos_hemisphere_dir_s(r0: int, r1: int) -> V3 {
    sph_dir_s(
        fx_mul_s(r0, FX_TWO_PI as int),
        fx_sqrt_s(fx_sub_s(FX_ONE as int, r1)),
        fx_sqrt_s(r1),
    )
}

/// Draw a direction from the cosine-weighted hemisphere around the local z
/// axis. The returned density equals `cos(theta) / pi` for the returned
/// direction, in solid-angle measure.
pub fn cos_hemisphere_sample_w(rnd: (i64, i64)) -> (r: (Vec3, i64))
    requires
        0 <= rnd.0 < FX_ONE as int,
        0 <= rnd.1 < FX_ONE as int,
    ensures
        r.0@ == cos_hemisphere_dir_s(rnd.0 as int, rnd.1 as int),
        r.1 as int == fx_mul_s(r.0@.z, FX_FRAC_1_PI as int),
        0 <= r.0@.z <= FX_ONE as int,
{
    proof {
        lemma_fx_mul_unit(rnd.0 as int, FX_TWO_PI as int);
        lemma_isqrt(rnd.1 as int * 65536);
        lemma_sqrt_of_unit(fx_sqrt_s(rnd.1 as int), rnd.1 as int * 65536);
    }
    let phi: i64 = fx_mul(rnd.0, FX_TWO_PI);
    let cos_theta: i64 = fx_sqrt(rnd.1);
    let sin_theta: i64 = fx_sqrt(fx_sub(FX_ONE, rnd.1));
    let cs: i64 = fx_cos(phi);
    let sn: i64 = fx_sin(phi);
    let dir = Vec3 { x: fx_mul(sin_theta, cs), y: fx_mul(sin_theta, sn), z: cos_theta };
    let pdf: i64 = fx_mul(cos_theta, FX_FRAC_1_PI);
    (dir, pdf)
}

proof fn lemma_sqrt_of_unit(r: int, n: int)
    requires
        0 <= n,
        r == isqrt_s(n),
        n < 4294967296,
    ensures
        r <= FX_ONE as int,
{
    lemma_isqrt(n);
    assert(65537int * 65537 > 4294967296) by (nonlinear_arith);
    assert(r < 65537) by (nonlinear_arith)
        requires
            r >= 0,
            r * r <= n,
            n < 65537 * 65537,
    ;
}

/// The glossy-lobe density for a local cosine `c` and exponent `n`:
/// `c^n * (n + 1) / (2 pi)`.
pub open spec fn phong_density_s(c: int, n: nat) -> int {
    (n + 1) * fx_mul_s(fxpow_s(c, n), FX_FRAC_1_2PI as int)
}

/// The glossy-lobe density, evaluated.
pub fn phong_density(c: i64, n: u32) -> (r: i64)
    requires
        0 <= c <= FX_ONE as int,
        n <= 65536,
    ensures
        r as int == phong_density_s(c as int, n as nat),
        r >= 0,
{
    let pw: i64 = fxpow(c, n);
    proof {
        lemma_fxpow_unit(c as int, n as nat);
        lemma_fx_mul_unit(pw as int, FX_FRAC_1_2PI as int);
        lemma_mul_le(n as int + 1, fx_mul_s(pw as int, FX_FRAC_1_2PI as int), 65537, 10430);
    }
    let base: i64 = fx_mul(pw, FX_FRAC_1_2PI);
    (n as i64 + 1) * base
}

/// Draw a direction from the power-cosine (glossy) lobe of exponent `n`
/// around the local z axis. The polar cosine is the `(n+1)`-th root of the
/// second random number; the returned density is the lobe's own density at
/// that cosine.
pub fn pow_cos_hemisphere_sample_w(n: u32, rnd: (i64, i64)) -> (r: (Vec3, i64))
    requires
        0 <= rnd.0 < FX_ONE as int,
        0 <= rnd.1 < FX_ONE as int,
        n <= 65535,
    ensures
        0 <= r.0@.z <= FX_ONE as int,
        fxpow_s(r.0@.z, (n + 1) as nat) <= rnd.1 as int,
        (rnd.1 as int) < fxpow_s(r.0@.z + 1, (n + 1) as nat),
        r.0@ == sph_dir_s(
            fx_mul_s(rnd.0 as int, FX_TWO_PI as int),
            fx_sqrt_s(fx_sub_s(FX_ONE as int, fx_mul_s(r.0@.z, r.0@.z))),
            r.0@.z,
        ),
        r.1 as int == phong_density_s(r.0@.z, n as nat),
{
    let cos_theta: i64 = nth_root(rnd.1, n + 1);
    proof {
        lemma_fx_mul_unit(rnd.0 as int, FX_TWO_PI as int);
        lemma_fx_sq_unit(cos_theta as int);
    }
    let phi: i64 = fx_mul(rnd.0, FX_TWO_PI);
    let sin_theta: i64 = fx_sqrt(fx_sub(FX_ONE, fx_mul(cos_theta, cos_theta)));
    let cs: i64 = fx_cos(phi);
    let sn: i64 = fx_sin(phi);
    let dir = Vec3 { x: fx_mul(sin_theta, cs), y: fx_mul(sin_theta, sn), z: cos_theta };
    let pdf: i64 = phong_density(cos_theta, n);
    (dir, pdf)
}

/// The direction drawn uniformly from the sphere by a random pair.
pub open spec fn uniform_sphere_dir_s(r0: int, r1: int) -> V3 {
    let z = fx_sub_s(FX_ONE as int, 2 * r1);
    sph_dir_s(
        fx_mul_s(r0, FX_TWO_PI as int),
        fx_sqrt_s(fx_sub_s(FX_ONE as int, fx_mul_s(z, z))),
        z,
    )
}

/// Draw a direction uniformly from the full sphere; the density is the
/// constant `1 / (4 pi)`.
pub fn uniform_sphere_sample_w(rnd: (i64, i64)) -> (r: (Vec3, i64))
    requires
        0 <= rnd.0 < FX_ONE as int,
        0 <= rnd.1 < FX_ONE as int,
    ensures
        r.0@ == uniform_sphere_dir_s(rnd.0 as int, rnd.1 as int),
        r.1 == FX_FRAC_1_4PI,
{
    let z: i64 = fx_sub(FX_ONE, 2 * rnd.1);
    proof {
        lemma_fx_mul_unit(rnd.0 as int, FX_TWO_PI as int);
        lemma_fx_sq_unit(z as int);
    }
    let phi: i64 = fx_mul(rnd.0, FX_TWO_PI);
    let sin_theta: i64 = fx_sqrt(fx_sub(FX_ONE, fx_mul(z, z)));
    let cs: i64 = fx_cos(phi);
    let sn: i64 = fx_sin(phi);
    let dir = Vec3 { x: fx_mul(sin_theta, cs), y: fx_mul(sin_theta, sn), z };
    (dir, FX_FRAC_1_4PI)
}

} // verus!
