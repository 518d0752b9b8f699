//! The reflectance model: per-surface material parameters and the per-hit
//! mixture of a cosine-weighted diffuse lobe and a power-cosine glossy lobe,
//! with importance sampling and closed-form densities.

use vstd::prelude::*;
use vstd::arithmetic::div_mod::{
    lemma_div_is_ordered,
    lemma_div_multiples_vanish,
    lemma_div_pos_is_pos,
    lemma_fundamental_div_mod,
    lemma_mod_bound,
};
use crate::fx::{tdiv, fx_add_s, fx_sub_s, fx_mul_s, fx_div_s, fx_sqrt_s, fx_add, fx_mul, fx_div, lemma_fx_mul_comm, FX_ONE, FX_FRAC_1_PI, EPS_COSINE};
use crate::vec3::{V3, Vec3, v3_add_s, v3_add, v3_scale_s, v3_scale, v3_neg_s, v3_neg, v3_dot_s, v3_dot, v3_normalize_s, v3_normalize, v3_reflect_local_s, v3_reflect_local, luminance_s, luminance};
use crate::frame::{F3, Frame, frame_from_z_s, frame_to_local_s, frame_to_world_s};
use crate::sampling::{fxpow_s, phong_density_s, phong_density, cos_hemisphere_dir_s, cos_hemisphere_sample_w, pow_cos_hemisphere_sample_w, sph_dir_s, lemma_fx_mul_unit};

verus! {

/// Largest magnitude a material color component may have (about 1.7e4 in
/// real units): it keeps every albedo computation exact, away from the
/// saturation bounds.
pub const COLOR_MAX: i64 = 0x4000_0000;

/// Largest glossiness exponent a material may have.
pub const PHONG_EXP_MAX: u32 = 65535;

/// The total-albedo threshold below which a surface counts as fully
/// absorptive. One raw unit is the smallest positive fixed-point value, so
/// this is the representable form of a vanishing albedo.
pub const ALBEDO_EPS: i64 = 1;

/// Mathematical model of a material.
pub ghost struct M3 {
    pub diffuse: V3,
    pub specular: V3,
    pub phong_exp: nat,
}

/// Immutable per-surface reflectance parameters.
#[derive(Clone, Copy, Debug, PartialEq, Eq, Structural)]
pub struct Material {
    /// Diffuse albedo per color channel.
    pub diffuse: Vec3,
    /// Specular albedo per color channel.
    pub specular: Vec3,
    /// Glossiness: the power-cosine lobe exponent.
    pub phong_exp: u32,
}

impl View for Material {
    type V = M3;

    open spec fn view(&self) -> M3 {
        M3 { diffuse: self.diffuse@, specular: self.specular@, phong_exp: self.phong_exp as nat }
    }
}

/// A well-formed material: non-negative bounded albedos and a bounded
/// exponent.
pub open spec fn mat_wf_s(m: M3) -> bool {
    &&& 0 <= m.diffuse.x <= COLOR_MAX as int
    &&& 0 <= m.diffuse.y <= COLOR_MAX as int
    &&& 0 <= m.diffuse.z <= COLOR_MAX as int
    &&& 0 <= m.specular.x <= COLOR_MAX as int
    &&& 0 <= m.specular.y <= COLOR_MAX as int
    &&& 0 <= m.specular.z <= COLOR_MAX as int
    &&& m.phong_exp <= PHONG_EXP_MAX as nat
}

pub open spec fn albedo_diffuse_s(m: M3) -> int {
    luminance_s(m.diffuse)
}

pub open spec fn albedo_specular_s(m: M3) -> int {
    luminance_s(m.specular)
}

pub open spec fn total_albedo_s(m: M3) -> int {
    fx_add_s(albedo_specular_s(m), albedo_diffuse_s(m))
}

/// Mathematical model of the lobe probabilities.
pub ghost struct P3m {
    pub diffuse: int,
    pub phong: int,
    pub continuation: int,
}

/// Lobe selection probabilities, derived from the luminance-weighted albedos.
#[derive(Clone, Copy, Debug)]
pub struct Probabilities {
    /// Probability of sampling the diffuse lobe.
    pub diffuse: i64,
    /// Probability of sampling the glossy lobe.
    pub phong: i64,
    /// Overall reflectance: the throughput factor for Russian roulette.
    pub continuation: i64,
}

impl View for Probabilities {
    type V = P3m;

    open spec fn view(&self) -> P3m {
        P3m {
            diffuse: self.diffuse as int,
            phong: self.phong as int,
            continuation: self.continuation as int,
        }
    }
}

/// The probability split of a material: proportional to each albedo when the
/// total is above the absorption threshold, all zero otherwise.
pub open spec fn probabilities_s(m: M3) -> P3m {
    let ad = albedo_diffuse_s(m);
    let asp = albedo_specular_s(m);
    let total = total_albedo_s(m);
    if total < ALBEDO_EPS as int {
        P3m { diffuse: 0, phong: 0, continuation: 0 }
    } else {
        P3m { diffuse: fx_div_s(ad, total), phong: fx_div_s(asp, total), continuation: total }
    }
}

/// The luminance of a color with components in `[0, COLOR_MAX]` lies in
/// `[0, 2 * COLOR_MAX]`.
pub proof fn lemma_luminance_range(c: V3)
    requires
        0 <= c.x <= COLOR_MAX as int,
        0 <= c.y <= COLOR_MAX as int,
        0 <= c.z <= COLOR_MAX as int,
    ensures
        0 <= luminance_s(c) <= 3 * COLOR_MAX as int,
{
    lemma_fx_mul_comm(c.x, 13939);
    lemma_fx_mul_comm(c.y, 46877);
    lemma_fx_mul_comm(c.z, 4730);
    lemma_fx_mul_unit(13939, c.x);
    lemma_fx_mul_unit(46877, c.y);
    lemma_fx_mul_unit(4730, c.z);
}

/// A quotient of a numerator by a larger positive denominator, rescaled by
/// `FX_ONE`, is a probability: it lies in `[0, FX_ONE]`.
pub proof fn lemma_fx_div_prob(a: int, b: int)
    requires
        0 <= a <= b,
        1 <= b,
    ensures
        0 <= fx_div_s(a, b) <= FX_ONE as int,
{
    let p = a * 65536;
    assert(p <= b * 65536);
    assert(p >= 0);
    assert(tdiv(p, b) == p / b);
    lemma_div_pos_is_pos(p, b);
    lemma_div_is_ordered(p, b * 65536, b);
    lemma_div_multiples_vanish(65536, b);
}

/// Sums of quotients by one denominator fall short of the quotient of the sum
/// by less than one: the two lobe probabilities reach at least one less a
/// rounding unit.
proof fn lemma_div_sum_ge(a: int, b: int, d: int)
    requires
        0 <= a,
        0 <= b,
        1 <= d,
    ensures
        a / d + b / d >= (a + b) / d - 1,
{
    lemma_fundamental_div_mod(a, d);
    lemma_fundamental_div_mod(b, d);
    lemma_fundamental_div_mod(a + b, d);
    lemma_mod_bound(a, d);
    lemma_mod_bound(b, d);
    lemma_mod_bound(a + b, d);
    let qa = a / d;
    let qb = b / d;
    let qs = (a + b) / d;
    assert(d * qa + d * qb >= d * qs - 2 * d + 2) by (nonlinear_arith)
        requires
            d * qa + a % d + (d * qb + b % d) == d * qs + (a + b) % d,
            a % d <= d - 1,
            b % d <= d - 1,
            0 <= (a + b) % d,
    ;
    assert(qa + qb >= qs - 1) by (nonlinear_arith)
        requires
            d * qa + d * qb >= d * qs - 2 * d + 2,
            1 <= d,
    ;
}

/// Sums of quotients by one denominator never exceed the quotient of the sum:
/// the two lobe probabilities cannot add to more than one.
proof fn lemma_div_sum_le(a: int, b: int, d: int)
    requires
        0 <= a,
        0 <= b,
        1 <= d,
    ensures
        a / d + b / d <= (a + b) / d,
{
    lemma_fundamental_div_mod(a, d);
    lemma_fundamental_div_mod(b, d);
    lemma_fundamental_div_mod(a + b, d);
    lemma_mod_bound(a, d);
    lemma_mod_bound(b, d);
    lemma_mod_bound(a + b, d);
    let qa = a / d;
    let qb = b / d;
    let qs = (a + b) / d;
    assert(d * qa + d * qb <= d * qs + d - 1) by (nonlinear_arith)
        requires
            d * qa + a % d + (d * qb + b % d) == d * qs + (a + b) % d,
            0 <= a % d,
            0 <= b % d,
            (a + b) % d <= d - 1,
    ;
    assert(qa + qb <= qs) by (nonlinear_arith)
        requires
            d * qa + d * qb <= d * qs + d - 1,
            1 <= d,
    ;
}

/// The probability split of a well-formed material: the diffuse and glossy
/// probabilities are the albedo ratios, both are in `[0, FX_ONE]`, their sum
/// never exceeds one, and all three values are zero exactly when the total
/// albedo falls below the absorption threshold.
pub proof fn lemma_probability_split(m: M3)
    requires
        mat_wf_s(m),
    ensures
        probabilities_s(m).diffuse + probabilities_s(m).phong <= FX_ONE as int,
        total_albedo_s(m) >= ALBEDO_EPS as int ==> probabilities_s(m).diffuse
            + probabilities_s(m).phong >= FX_ONE as int - 1,
        0 <= probabilities_s(m).diffuse <= FX_ONE as int,
        0 <= probabilities_s(m).phong <= FX_ONE as int,
        total_albedo_s(m) >= ALBEDO_EPS as int ==> {
            &&& probabilities_s(m).diffuse == fx_div_s(albedo_diffuse_s(m), total_albedo_s(m))
            &&& probabilities_s(m).phong == fx_div_s(albedo_specular_s(m), total_albedo_s(m))
            &&& probabilities_s(m).continuation == total_albedo_s(m)
        },
        total_albedo_s(m) < ALBEDO_EPS as int ==> probabilities_s(m) == (P3m {
            diffuse: 0,
            phong: 0,
            continuation: 0,
        }),
        (probabilities_s(m).continuation == 0) <==> (total_albedo_s(m) < ALBEDO_EPS as int),
{
    lemma_luminance_range(m.diffuse);
    lemma_luminance_range(m.specular);
    let ad = albedo_diffuse_s(m);
    let asp = albedo_specular_s(m);
    let total = total_albedo_s(m);
    if total >= ALBEDO_EPS as int {
        lemma_fx_div_prob(ad, total);
        lemma_fx_div_prob(asp, total);
        assert(tdiv(ad * 65536, total) == (ad * 65536) / total);
        assert(tdiv(asp * 65536, total) == (asp * 65536) / total);
        lemma_div_pos_is_pos(ad * 65536, total);
        lemma_div_pos_is_pos(asp * 65536, total);
        lemma_div_sum_le(ad * 65536, asp * 65536, total);
        lemma_div_sum_ge(ad * 65536, asp * 65536, total);
        assert(ad * 65536 + asp * 65536 == total * 65536) by (nonlinear_arith)
            requires
                ad + asp == total,
        ;
        lemma_div_multiples_vanish(65536, total);
    }
}

impl Material {
    /// The all-absorbing material: zero albedos, zero glossiness.
    pub fn new_identity() -> (r: Material)
        ensures
            r@ == (M3 {
                diffuse: V3 { x: 0, y: 0, z: 0 },
                specular: V3 { x: 0, y: 0, z: 0 },
                phong_exp: 0,
            }),
            mat_wf_s(r@),
    {
        Material { diffuse: Vec3::zero(), specular: Vec3::zero(), phong_exp: 0 }
    }

    /// Perceptual brightness of the diffuse albedo.
    pub fn albedo_diffuse(&self) -> (r: i64)
        ensures
            r as int == albedo_diffuse_s(self@),
    {
        luminance(&self.diffuse)
    }

    /// Perceptual brightness of the specular albedo.
    pub fn albedo_specular(&self) -> (r: i64)
        ensures
            r as int == albedo_specular_s(self@),
    {
        luminance(&self.specular)
    }

    /// Sum of both albedo brightnesses.
    pub fn total_albedo(&self) -> (r: i64)
        ensures
            r as int == total_albedo_s(self@),
    {
        fx_add(self.albedo_specular(), self.albedo_diffuse())
    }
}

impl Probabilities {
    /// Derive the lobe probabilities of a material.
    pub fn new(mat: &Material) -> (r: Probabilities)
        requires
            mat_wf_s(mat@),
        ensures
            r@ == probabilities_s(mat@),
    {
        let albedo_diffuse: i64 = mat.albedo_diffuse();
        let albedo_specular: i64 = mat.albedo_specular();
        let total_albedo: i64 = mat.total_albedo();
        proof {
            lemma_luminance_range(mat@.diffuse);
            lemma_luminance_range(mat@.specular);
        }
        if total_albedo < ALBEDO_EPS {
            Probabilities { diffuse: 0, phong: 0, continuation: 0 }
        } else {
            Probabilities {
                diffuse: fx_div(albedo_diffuse, total_albedo),
                phong: fx_div(albedo_specular, total_albedo),
                continuation: total_albedo,
            }
        }
    }
}

/// Mathematical model of a reflectance-model instance.
pub ghost struct B3 {
    pub material: M3,
    pub own_basis: F3,
    pub wo_local: V3,
    pub probs: P3m,
}

/// The reflectance model built at one ray-surface hit: a shading frame, the
/// outgoing direction in local space, and the lobe probabilities.
#[derive(Clone, Debug)]
pub struct Brdf {
    /// The surface's material.
    pub material: Material,
    /// Shading frame aligned to the hit normal.
    pub own_basis: Frame,
    /// Outgoing direction (toward the viewer) in the local frame.
    pub wo_local: Vec3,
    /// Lobe probabilities of the material.
    pub probs: Probabilities,
}

impl View for Brdf {
    type V = B3;

    open spec fn view(&self) -> B3 {
        B3 {
            material: self.material@,
            own_basis: self.own_basis@,
            wo_local: self.wo_local@,
            probs: self.probs@,
        }
    }
}

/// A well-formed instance: its material is well-formed, its probabilities are
/// the material's split, and the cached outgoing cosine is above the horizon.
pub open spec fn brdf_wf_s(b: B3) -> bool {
    &&& mat_wf_s(b.material)
    &&& b.probs == probabilities_s(b.material)
    &&& EPS_COSINE as int <= b.wo_local.z
}

/// Mathematical model of a sample drawn from the reflectance model.
pub ghost struct SampleS {
    pub wi: V3,
    pub cos_theta_in: int,
    pub radiance: V3,
    pub pdf: int,
}

/// A direction sampled from the reflectance model.
pub struct BrdfSample {
    /// Sampled incoming direction, world space.
    pub wi: Vec3,
    /// Cosine of the sampled direction against the surface normal.
    pub cos_theta_in: i64,
    /// Importance-sampling weight: the sampled lobe's albedo.
    pub radiance: Vec3,
    /// The sampled lobe's own density at the drawn direction.
    pub pdf: i64,
}

impl View for BrdfSample {
    type V = SampleS;

    open spec fn view(&self) -> SampleS {
        SampleS {
            wi: self.wi@,
            cos_theta_in: self.cos_theta_in as int,
            radiance: self.radiance@,
            pdf: self.pdf as int,
        }
    }
}

pub open spec fn view_sample_opt(r: Option<BrdfSample>) -> Option<SampleS> {
    match r {
        Some(s) => Some(s@),
        None => None,
    }
}

/// Mathematical model of an evaluation of the reflectance model.
pub ghost struct EvalS {
    pub radiance: V3,
    pub pdf: int,
}

/// The reflectance model evaluated at a queried direction.
pub struct BrdfEval {
    /// Reflectance times cosine, mixed over both lobes.
    pub radiance: Vec3,
    /// Mixture probability density of the queried direction.
    pub pdf: i64,
}

impl View for BrdfEval {
    type V = EvalS;

    open spec fn view(&self) -> EvalS {
        EvalS { radiance: self.radiance@, pdf: self.pdf as int }
    }
}

pub open spec fn view_eval_opt(r: Option<BrdfEval>) -> Option<EvalS> {
    match r {
        Some(e) => Some(e@),
        None => None,
    }
}

/// The model instance built from an outgoing direction, a normal and a
/// material; absent when the outgoing cosine is below the horizon epsilon.
pub open spec fn brdf_new_s(out_dir: V3, normal: V3, m: M3) -> Option<B3> {
    let basis = frame_from_z_s(normal);
    let wo = frame_to_local_s(basis, v3_neg_s(out_dir));
    if wo.z < EPS_COSINE as int {
        None
    } else {
        Some(B3 { material: m, own_basis: basis, wo_local: wo, probs: probabilities_s(m) })
    }
}

/// The diffuse lobe's sample at a random pair: a cosine-weighted direction,
/// the diffuse albedo as weight, and density `cos(theta) / pi`; absent when
/// the drawn cosine is below the horizon epsilon or the density rounds to
/// nothing, so a present sample always carries a positive density.
pub open spec fn lambert_sample_s(b: B3, r0: int, r1: int) -> Option<SampleS> {
    let dir = cos_hemisphere_dir_s(r0, r1);
    let pdf = fx_mul_s(dir.z, FX_FRAC_1_PI as int);
    if dir.z < EPS_COSINE as int || pdf <= 0 {
        None
    } else {
        Some(SampleS {
            wi: frame_to_world_s(b.own_basis, dir),
            cos_theta_in: dir.z,
            radiance: b.material.diffuse,
            pdf,
        })
    }
}

/// Whether `c` is the `k`-th fixed-point root of `a`.
pub open spec fn root_ok(c: int, a: int, k: nat) -> bool {
    &&& 0 <= c <= FX_ONE as int
    &&& fxpow_s(c, k) <= a
    &&& a < fxpow_s(c + 1, k)
}

/// The glossy lobe's sample, given the azimuth random number and the polar
/// cosine `c` drawn around the mirror direction: the drawn direction moved
/// from the mirror frame to the local frame and on to world space, the
/// specular albedo as weight, and the lobe's own density at `c`; absent when
/// the local cosine against the surface's own frame is below the horizon
/// epsilon or the density rounds to nothing, so a present sample always
/// carries a positive density.
pub open spec fn phong_outcome_s(b: B3, r0: int, c: int) -> Option<SampleS> {
    let dir = sph_dir_s(
        fx_mul_s(r0, crate::fx::FX_TWO_PI as int),
        fx_sqrt_s(fx_sub_s(FX_ONE as int, fx_mul_s(c, c))),
        c,
    );
    let reflect_dir = v3_reflect_local_s(b.wo_local);
    let reflect_basis = frame_from_z_s(reflect_dir);
    let wi_local = frame_to_world_s(reflect_basis, dir);
    let wi = frame_to_world_s(b.own_basis, wi_local);
    let pdf = phong_density_s(c, b.material.phong_exp);
    if wi_local.z < EPS_COSINE as int || pdf <= 0 {
        None
    } else {
        Some(SampleS {
            wi,
            cos_theta_in: wi_local.z,
            radiance: b.material.specular,
            pdf,
        })
    }
}

/// The diffuse lobe of the evaluation: reflectance and density are both
/// `cos(theta) / pi`, the former times the diffuse albedo.
pub open spec fn lambert_eval_s(b: B3, wi_local: V3) -> EvalS {
    let c = if wi_local.z < 0 { 0 } else { wi_local.z };
    let d = fx_mul_s(c, FX_FRAC_1_PI as int);
    EvalS { radiance: v3_scale_s(b.material.diffuse, d), pdf: d }
}

/// The glossy lobe of the evaluation: the power-cosine density at the angle
/// between the queried direction and the mirror direction, times the specular
/// albedo for the reflectance.
pub open spec fn phong_eval_s(b: B3, wi_local: V3) -> EvalS {
    let refl = v3_reflect_local_s(b.wo_local);
    let dc = v3_dot_s(refl, wi_local);
    let c = if dc < 0 { 0 } else if dc > FX_ONE as int { FX_ONE as int } else { dc };
    let d = phong_density_s(c, b.material.phong_exp);
    EvalS { radiance: v3_scale_s(b.material.specular, d), pdf: d }
}

/// The full evaluation: the probability-weighted mixture of both lobes,
/// absent when the normalized local cosine is below the horizon epsilon or
/// the mixture density rounds to nothing, so a present evaluation always
/// carries a positive density and a consumer may divide by it without
/// testing the value first.
pub open spec fn brdf_eval_s(b: B3, wi: V3) -> Option<EvalS> {
    let wi_local = v3_normalize_s(frame_to_local_s(b.own_basis, wi));
    if wi_local.z < EPS_COSINE as int {
        None
    } else {
        let lambert = lambert_eval_s(b, wi_local);
        let phong = phong_eval_s(b, wi_local);
        let pdf = fx_add_s(
            fx_mul_s(lambert.pdf, b.probs.diffuse),
            fx_mul_s(phong.pdf, b.probs.phong),
        );
        if pdf <= 0 {
            None
        } else {
            Some(EvalS {
                radiance: v3_add_s(
                    v3_scale_s(lambert.radiance, b.probs.diffuse),
                    v3_scale_s(phong.radiance, b.probs.phong),
                ),
                pdf,
            })
        }
    }
}

impl Brdf {
    /// Build the reflectance model at a hit: frame the normal, move the
    /// negated outgoing direction into local space, and fail on a grazing or
    /// back-facing view.
    pub fn new(out_dir_world: &Vec3, hit_normal: &Vec3, material: &Material) -> (r: Option<Brdf>)
        requires
            mat_wf_s(material@),
        ensures
            view_brdf_opt(r) == brdf_new_s(out_dir_world@, hit_normal@, material@),
            r matches Some(b) ==> brdf_wf_s(b@),
    {
        let own_basis: Frame = Frame::from_z(hit_normal);
        let wo_local: Vec3 = own_basis.to_local(&v3_neg(out_dir_world));
        if wo_local.z < EPS_COSINE {
            None
        } else {
            Some(Brdf {
                material: *material,
                own_basis,
                wo_local,
                probs: Probabilities::new(material),
            })
        }
    }

    /// Draw a direction from the reflectance model. The first random number
    /// selects the lobe against the diffuse probability; the other two drive
    /// the chosen lobe. A fully absorptive material never yields a sample.
    pub fn sample(&self, rnd: (i64, i64, i64)) -> (r: Option<BrdfSample>)
        requires
            brdf_wf_s(self@),
            0 <= rnd.0 < FX_ONE as int,
            0 <= rnd.1 < FX_ONE as int,
            0 <= rnd.2 < FX_ONE as int,
        ensures
            self@.probs.continuation == 0 ==> r is None,
            total_albedo_s(self@.material) < ALBEDO_EPS as int ==> r is None,
            self@.probs.continuation != 0 && rnd.0 as int <= self@.probs.diffuse
                ==> view_sample_opt(r) == lambert_sample_s(self@, rnd.1 as int, rnd.2 as int),
            self@.probs.continuation != 0 && rnd.0 as int > self@.probs.diffuse ==> exists|c: int|
                root_ok(c, rnd.2 as int, (self@.material.phong_exp + 1) as nat)
                    && view_sample_opt(r) == phong_outcome_s(self@, rnd.1 as int, c),
            r matches Some(s) ==> (s@.radiance == self@.material.diffuse || s@.radiance
                == self@.material.specular) && s@.pdf > 0,
    {
        if self.probs.continuation == 0 {
            None
        } else if rnd.0 <= self.probs.diffuse {
            self.lambert_sample((rnd.1, rnd.2))
        } else {
            self.phong_sample((rnd.1, rnd.2))
        }
    }

    /// Draw from the diffuse lobe: a cosine-weighted direction around the
    /// normal. The weight is exactly the diffuse albedo and the density is
    /// exactly `cos(theta) / pi` for the returned direction, whatever the
    /// random numbers were.
    pub fn lambert_sample(&self, rnd: (i64, i64)) -> (r: Option<BrdfSample>)
        requires
            brdf_wf_s(self@),
            0 <= rnd.0 < FX_ONE as int,
            0 <= rnd.1 < FX_ONE as int,
        ensures
            view_sample_opt(r) == lambert_sample_s(self@, rnd.0 as int, rnd.1 as int),
            r matches Some(s) ==> s@.radiance == self@.material.diffuse && s@.pdf == fx_mul_s(
                s@.cos_theta_in,
                FX_FRAC_1_PI as int,
            ) && s@.pdf > 0,
    {
        let (wi_local, pdf) = cos_hemisphere_sample_w((rnd.0, rnd.1));
        let cos_theta_in: i64 = wi_local.z;
        if cos_theta_in < EPS_COSINE || pdf <= 0 {
            None
        } else {
            let wi: Vec3 = self.own_basis.to_world(&wi_local);
            Some(BrdfSample { wi, cos_theta_in, radiance: self.material.diffuse, pdf })
        }
    }

    /// Draw from the glossy lobe: a power-cosine direction around the mirror
    /// of the cached outgoing direction, moved back to world space. The
    /// weight is exactly the specular albedo; the density is the lobe's own
    /// density at the drawn polar cosine.
    pub fn phong_sample(&self, rnd: (i64, i64)) -> (r: Option<BrdfSample>)
        requires
            brdf_wf_s(self@),
            0 <= rnd.0 < FX_ONE as int,
            0 <= rnd.1 < FX_ONE as int,
        ensures
            exists|c: int|
                root_ok(c, rnd.1 as int, (self@.material.phong_exp + 1) as nat)
                    && view_sample_opt(r) == phong_outcome_s(self@, rnd.0 as int, c),
            r matches Some(s) ==> s@.radiance == self@.material.specular && s@.pdf > 0,
    {
        let (wi_local_reflect, pdf) = pow_cos_hemisphere_sample_w(
            self.material.phong_exp,
            (rnd.0, rnd.1),
        );
        let ghost c = wi_local_reflect@.z;
        let reflect_dir: Vec3 = v3_reflect_local(&self.wo_local);
        let reflect_basis: Frame = Frame::from_z(&reflect_dir);
        let wi_local: Vec3 = reflect_basis.to_world(&wi_local_reflect);
        let wi: Vec3 = self.own_basis.to_world(&wi_local);
        let cos_theta: i64 = wi_local.z;
        if wi_local.z < EPS_COSINE || pdf <= 0 {
            proof {
                assert(root_ok(c, rnd.1 as int, (self@.material.phong_exp + 1) as nat)
                    && view_sample_opt(None) == phong_outcome_s(self@, rnd.0 as int, c));
            }
            None
        } else {
            let s = BrdfSample {
                wi,
                cos_theta_in: cos_theta,
                radiance: self.material.specular,
                pdf,
            };
            proof {
                assert(root_ok(c, rnd.1 as int, (self@.material.phong_exp + 1) as nat)
                    && view_sample_opt(Some(s)) == phong_outcome_s(self@, rnd.0 as int, c));
            }
            Some(s)
        }
    }

    /// Evaluate the reflectance model at a world-space incoming direction:
    /// the probability-weighted mixture of both lobes' reflectance and
    /// density. A direction whose normalized local cosine is below the
    /// horizon epsilon always evaluates to an absent result, and so does one
    /// whose mixture density rounds to nothing: a present evaluation always
    /// carries a strictly positive density, so a consumer may divide by it
    /// without testing the value first.
    pub fn eval(&self, wi: &Vec3) -> (r: Option<BrdfEval>)
        requires
            brdf_wf_s(self@),
        ensures
            view_eval_opt(r) == brdf_eval_s(self@, wi@),
            (v3_normalize_s(frame_to_local_s(self@.own_basis, wi@)).z < EPS_COSINE as int)
                ==> r is None,
            r matches Some(e) ==> e@.pdf > 0,
    {
        let wi_local: Vec3 = v3_normalize(&self.own_basis.to_local(wi));
        if wi_local.z < EPS_COSINE {
            None
        } else {
            let lambert: BrdfEval = self.lambert_eval(&wi_local);
            let phong: BrdfEval = self.phong_eval(&wi_local);
            let pdf: i64 = fx_add(
                fx_mul(lambert.pdf, self.probs.diffuse),
                fx_mul(phong.pdf, self.probs.phong),
            );
            if pdf <= 0 {
                None
            } else {
                Some(BrdfEval {
                    radiance: v3_add(
                        &v3_scale(&lambert.radiance, self.probs.diffuse),
                        &v3_scale(&phong.radiance, self.probs.phong),
                    ),
                    pdf,
                })
            }
        }
    }

    /// The diffuse lobe's reflectance and density at a local direction.
    pub fn lambert_eval(&self, wi_local: &Vec3) -> (r: BrdfEval)
        ensures
            r@ == lambert_eval_s(self@, wi_local@),
    {
        let cos_theta: i64 = if wi_local.z < 0 {
            0
        } else {
            wi_local.z
        };
        let d: i64 = fx_mul(cos_theta, FX_FRAC_1_PI);
        BrdfEval { radiance: v3_scale(&self.material.diffuse, d), pdf: d }
    }

    /// The glossy lobe's reflectance and density at a local direction.
    pub fn phong_eval(&self, wi_local: &Vec3) -> (r: BrdfEval)
        requires
            mat_wf_s(self@.material),
        ensures
            r@ == phong_eval_s(self@, wi_local@),
    {
        let refl_local: Vec3 = v3_reflect_local(&self.wo_local);
        let dc: i64 = v3_dot(&refl_local, wi_local);
        let cos_theta: i64 = if dc < 0 {
            0
        } else if dc > FX_ONE {
            FX_ONE
        } else {
            dc
        };
        let d: i64 = phong_density(cos_theta, self.material.phong_exp);
        BrdfEval { radiance: v3_scale(&self.material.specular, d), pdf: d }
    }
}

pub open spec fn view_brdf_opt(r: Option<Brdf>) -> Option<B3> {
    match r {
        Some(b) => Some(b@),
        None => None,
    }
}

} // verus!
