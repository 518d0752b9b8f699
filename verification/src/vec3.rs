//! Three-component fixed-point vectors: RGB colors, points and directions.

use vstd::prelude::*;
use crate::fx::{fx_add_s, fx_sub_s, fx_mul_s, fx_div_s, fx_sqrt_s, fx_add, fx_sub, fx_mul, fx_div, fx_sqrt, lemma_isqrt, FX_ONE};

verus! {

/// Luminance weight of the red channel, scaled by `FX_ONE`.
pub const LUM_R: i64 = 13939;

/// Luminance weight of the green channel, scaled by `FX_ONE`.
pub const LUM_G: i64 = 46877;

/// Luminance weight of the blue channel, scaled by `FX_ONE`.
pub const LUM_B: i64 = 4730;

/// Mathematical model of a vector: unbounded integer components, each raw
/// value standing for `component / FX_ONE`.
pub ghost struct V3 {
    pub x: int,
    pub y: int,
    pub z: int,
}

/// A fixed-point vector; used for points, directions and RGB values.
#[derive(Clone, Copy, Debug, PartialEq, Eq, Structural)]
pub struct Vec3 {
    pub x: i64,
    pub y: i64,
    pub z: i64,
}

impl View for Vec3 {
    type V = V3;

    open spec fn view(&self) -> V3 {
        V3 { x: self.x as int, y: self.y as int, z: self.z as int }
    }
}

pub open spec fn v3_add_s(a: V3, b: V3) -> V3 {
    V3 { x: fx_add_s(a.x, b.x), y: fx_add_s(a.y, b.y), z: fx_add_s(a.z, b.z) }
}

pub open spec fn v3_sub_s(a: V3, b: V3) -> V3 {
    V3 { x: fx_sub_s(a.x, b.x), y: fx_sub_s(a.y, b.y), z: fx_sub_s(a.z, b.z) }
}

pub open spec fn v3_neg_s(a: V3) -> V3 {
    V3 { x: fx_sub_s(0, a.x), y: fx_sub_s(0, a.y), z: fx_sub_s(0, a.z) }
}

pub open spec fn v3_scale_s(a: V3, k: int) -> V3 {
    V3 { x: fx_mul_s(a.x, k), y: fx_mul_s(a.y, k), z: fx_mul_s(a.z, k) }
}

/// Component-wise product; the product of two colors.
pub open spec fn v3_mul_s(a: V3, b: V3) -> V3 {
    V3 { x: fx_mul_s(a.x, b.x), y: fx_mul_s(a.y, b.y), z: fx_mul_s(a.z, b.z) }
}

/// Component-wise quotient by a scalar.
pub open spec fn v3_div_s(a: V3, k: int) -> V3 {
    V3 { x: fx_div_s(a.x, k), y: fx_div_s(a.y, k), z: fx_div_s(a.z, k) }
}

pub open spec fn v3_dot_s(a: V3, b: V3) -> int {
    fx_add_s(fx_add_s(fx_mul_s(a.x, b.x), fx_mul_s(a.y, b.y)), fx_mul_s(a.z, b.z))
}

pub open spec fn v3_cross_s(a: V3, b: V3) -> V3 {
    V3 {
        x: fx_sub_s(fx_mul_s(a.y, b.z), fx_mul_s(a.z, b.y)),
        y: fx_sub_s(fx_mul_s(a.z, b.x), fx_mul_s(a.x, b.z)),
        z: fx_sub_s(fx_mul_s(a.x, b.y), fx_mul_s(a.y, b.x)),
    }
}

pub open spec fn v3_sqnorm_s(a: V3) -> int {
    v3_dot_s(a, a)
}

pub open spec fn v3_norm_s(a: V3) -> int {
    fx_sqrt_s(v3_sqnorm_s(a))
}

/// Scale a vector to unit length; a vector whose norm rounds to zero is
/// returned unchanged.
pub open spec fn v3_normalize_s(a: V3) -> V3 {
    if v3_norm_s(a) <= 0 {
        a
    } else {
        v3_div_s(a, v3_norm_s(a))
    }
}

/// Perceptual brightness of a color.
pub open spec fn luminance_s(a: V3) -> int {
    fx_add_s(fx_add_s(fx_mul_s(a.x, LUM_R as int), fx_mul_s(a.y, LUM_G as int)),
        fx_mul_s(a.z, LUM_B as int))
}

/// Mirror a local direction about the z axis (the frame's normal).
pub open spec fn v3_reflect_local_s(a: V3) -> V3 {
    V3 { x: fx_sub_s(0, a.x), y: fx_sub_s(0, a.y), z: a.z }
}

proof fn lemma_sq_nonneg(x: int)
    by (nonlinear_arith)
    ensures
        x * x >= 0,
{
}

/// A vector's squared norm is never negative.
pub proof fn lemma_sqnorm_nonneg(a: V3)
    ensures
        v3_sqnorm_s(a) >= 0,
{
    lemma_sq_nonneg(a.x);
    lemma_sq_nonneg(a.y);
    lemma_sq_nonneg(a.z);
}

impl Vec3 {
    /// Build a vector from its components.
    pub fn new(x: i64, y: i64, z: i64) -> (r: Vec3)
        ensures
            r@ == (V3 { x: x as int, y: y as int, z: z as int }),
    {
        Vec3 { x, y, z }
    }

    /// The zero vector.
    pub fn zero() -> (r: Vec3)
        ensures
            r@ == (V3 { x: 0, y: 0, z: 0 }),
    {
        Vec3 { x: 0, y: 0, z: 0 }
    }

    /// The all-ones vector.
    pub fn one() -> (r: Vec3)
        ensures
            r@ == (V3 { x: FX_ONE as int, y: FX_ONE as int, z: FX_ONE as int }),
    {
        Vec3 { x: FX_ONE, y: FX_ONE, z: FX_ONE }
    }
}

/// Vector sum.
pub fn v3_add(a: &Vec3, b: &Vec3) -> (r: Vec3)
    ensures
        r@ == v3_add_s(a@, b@),
{
    Vec3 { x: fx_add(a.x, b.x), y: fx_add(a.y, b.y), z: fx_add(a.z, b.z) }
}

/// Vector difference.
pub fn v3_sub(a: &Vec3, b: &Vec3) -> (r: Vec3)
    ensures
        r@ == v3_sub_s(a@, b@),
{
    Vec3 { x: fx_sub(a.x, b.x), y: fx_sub(a.y, b.y), z: fx_sub(a.z, b.z) }
}

/// Negation.
pub fn v3_neg(a: &Vec3) -> (r: Vec3)
    ensures
        r@ == v3_neg_s(a@),
{
    Vec3 { x: fx_sub(0, a.x), y: fx_sub(0, a.y), z: fx_sub(0, a.z) }
}

/// Product with a scalar.
pub fn v3_scale(a: &Vec3, k: i64) -> (r: Vec3)
    ensures
        r@ == v3_scale_s(a@, k as int),
{
    Vec3 { x: fx_mul(a.x, k), y: fx_mul(a.y, k), z: fx_mul(a.z, k) }
}

/// Component-wise product.
pub fn v3_mul(a: &Vec3, b: &Vec3) -> (r: Vec3)
    ensures
        r@ == v3_mul_s(a@, b@),
{
    Vec3 { x: fx_mul(a.x, b.x), y: fx_mul(a.y, b.y), z: fx_mul(a.z, b.z) }
}

/// Component-wise quotient by a scalar.
pub fn v3_div(a: &Vec3, k: i64) -> (r: Vec3)
    requires
        k != 0,
    ensures
        r@ == v3_div_s(a@, k as int),
{
    Vec3 { x: fx_div(a.x, k), y: fx_div(a.y, k), z: fx_div(a.z, k) }
}

/// Dot product.
pub fn v3_dot(a: &Vec3, b: &Vec3) -> (r: i64)
    ensures
        r as int == v3_dot_s(a@, b@),
{
    fx_add(fx_add(fx_mul(a.x, b.x), fx_mul(a.y, b.y)), fx_mul(a.z, b.z))
}

/// Cross product.
pub fn v3_cross(a: &Vec3, b: &Vec3) -> (r: Vec3)
    ensures
        r@ == v3_cross_s(a@, b@),
{
    Vec3 {
        x: fx_sub(fx_mul(a.y, b.z), fx_mul(a.z, b.y)),
        y: fx_sub(fx_mul(a.z, b.x), fx_mul(a.x, b.z)),
        z: fx_sub(fx_mul(a.x, b.y), fx_mul(a.y, b.x)),
    }
}

/// Squared norm.
pub fn v3_sqnorm(a: &Vec3) -> (r: i64)
    ensures
        r as int == v3_sqnorm_s(a@),
        r >= 0,
{
    proof {
        lemma_sqnorm_nonneg(a@);
    }
    v3_dot(a, a)
}

/// Norm.
pub fn v3_norm(a: &Vec3) -> (r: i64)
    ensures
        r as int == v3_norm_s(a@),
        r >= 0,
{
    let sq: i64 = v3_sqnorm(a);
    proof {
        lemma_isqrt(sq as int * FX_ONE as int);
    }
    fx_sqrt(sq)
}

/// Scale a vector to unit length; a vector whose norm rounds to zero is
/// returned unchanged.
pub fn v3_normalize(a: &Vec3) -> (r: Vec3)
    ensures
        r@ == v3_normalize_s(a@),
{
    let n: i64 = v3_norm(a);
    if n <= 0 {
        *a
    } else {
        v3_div(a, n)
    }
}

/// Perceptual brightness of a color.
pub fn luminance(a: &Vec3) -> (r: i64)
    ensures
        r as int == luminance_s(a@),
{
    fx_add(fx_add(fx_mul(a.x, LUM_R), fx_mul(a.y, LUM_G)), fx_mul(a.z, LUM_B))
}

/// Mirror a local direction about the z axis (the frame's normal).
pub fn v3_reflect_local(a: &Vec3) -> (r: Vec3)
    ensures
        r@ == v3_reflect_local_s(a@),
{
    Vec3 { x: fx_sub(0, a.x), y: fx_sub(0, a.y), z: a.z }
}

} // verus!
