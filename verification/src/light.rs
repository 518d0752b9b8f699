//! Light sources: an area light sampled uniformly over a triangle, a
//! background (environment) light sampled uniformly over the sphere of
//! directions, and a point light (a singular source, kept for the capability
//! even though the core scenes carry none).
//!
//! Every probability density returned beside a non-zero intensity is strictly
//! positive; a zero intensity comes with the `PDF_NONE` sentinel (standing
//! for negative infinity), so a consumer may skip the sample without testing
//! the intensity first.

use vstd::prelude::*;
use crate::fx::{fx_sub_s, fx_mul_s, fx_div_s, fx_sqrt_s, fx_sub, fx_mul, fx_div, fx_sqrt, FX_ONE, FX_TWO, FX_FRAC_1_4PI, EPS_COSINE, PDF_NONE, DIST_FAR};
use crate::vec3::{V3, Vec3, v3_add_s, v3_add, v3_sub_s, v3_sub, v3_scale_s, v3_scale, v3_neg_s, v3_neg, v3_dot_s, v3_dot, v3_cross_s, v3_cross, v3_sqnorm_s, v3_sqnorm, v3_norm_s, v3_norm, v3_normalize_s, v3_normalize, v3_div_s, v3_div};
use crate::frame::{Frame, frame_from_z_s};
use crate::geom::{Ray, RayS};
use crate::sampling::{uniform_sphere_dir_s, uniform_sphere_sample_w};

verus! {

/// Mathematical model of an illumination sample.
pub ghost struct IllumS {
    pub radiance: V3,
    pub dir_to_light: V3,
    pub dist_to_light: int,
    pub dir_pdf_w: int,
}

/// A sample of a light as seen from a shading point.
pub struct Illumination {
    /// Emitted intensity arriving along the sampled direction.
    pub radiance: Vec3,
    /// Direction from the shading point toward the light.
    pub dir_to_light: Vec3,
    /// Distance to the sampled point on the light.
    pub dist_to_light: i64,
    /// Solid-angle density of the sample; `PDF_NONE` marks a sample that
    /// must never be selected.
    pub dir_pdf_w: i64,
}

impl View for Illumination {
    type V = IllumS;

    open spec fn view(&self) -> IllumS {
        IllumS {
            radiance: self.radiance@,
            dir_to_light: self.dir_to_light@,
            dist_to_light: self.dist_to_light as int,
            dir_pdf_w: self.dir_pdf_w as int,
        }
    }
}

pub open spec fn view_illum_opt(r: Option<Illumination>) -> Option<IllumS> {
    match r {
        Some(i) => Some(i@),
        None => None,
    }
}

/// Mathematical model of radiance along a ray.
pub ghost struct RadS {
    pub radiance: V3,
    pub pdf: int,
}

/// Radiance a light emits along a queried ray, with the density that a
/// sampler would have given that direction or point.
pub struct Radiation {
    /// Emitted intensity.
    pub radiance: Vec3,
    /// Density, in area or solid-angle measure depending on the light.
    pub pdf: i64,
}

impl View for Radiation {
    type V = RadS;

    open spec fn view(&self) -> RadS {
        RadS { radiance: self.radiance@, pdf: self.pdf as int }
    }
}

pub open spec fn view_rad_opt(r: Option<Radiation>) -> Option<RadS> {
    match r {
        Some(i) => Some(i@),
        None => None,
    }
}

/// An environment light: constant intensity over all directions.
#[derive(Clone, Copy, Debug)]
pub struct BackgroundLight {
    pub intensity: Vec3,
    pub scale: i64,
}

/// A point light: all intensity from one position.
#[derive(Clone, Copy, Debug)]
pub struct PointLight {
    pub intensity: Vec3,
    pub position: Vec3,
}

/// An area light: a one-sided triangle of constant intensity.
#[derive(Clone, Copy, Debug)]
pub struct AreaLight {
    /// First vertex.
    pub p0: Vec3,
    /// Edge from the first to the second vertex.
    pub e1: Vec3,
    /// Edge from the first to the third vertex.
    pub e2: Vec3,
    /// Frame aligned to the triangle normal.
    pub frame: Frame,
    /// Emitted intensity.
    pub intensity: Vec3,
    /// Reciprocal of the triangle area.
    pub inv_area: i64,
}

/// The fixed set of light variants.
#[derive(Clone, Copy, Debug)]
pub enum Light {
    Background(BackgroundLight),
    Point(PointLight),
    Area(AreaLight),
}

/// The point of a triangle picked by barycentric sampling of a random pair.
pub open spec fn area_sample_point_s(p0: V3, e1: V3, e2: V3, r0: int, r1: int) -> V3 {
    let anu = fx_sqrt_s(r0);
    let u = fx_sub_s(FX_ONE as int, anu);
    let v = fx_mul_s(r1, anu);
    v3_add_s(v3_add_s(p0, v3_scale_s(e1, u)), v3_scale_s(e2, v))
}

/// The area light's illumination of a point: the sampled triangle point, the
/// direction and squared distance toward it, and the uniform area density
/// converted to solid angle by `inv_area * dist_sq / cos`. A receiving point
/// behind the light plane (cosine at or below the epsilon), or a converted
/// density that rounds below one unit, yields zero intensity and the
/// `PDF_NONE` sentinel. Only a sample point coinciding with the receiver is
/// absent.
pub open spec fn area_illuminate_s(l: AreaLight, pos: V3, r0: int, r1: int) -> Option<IllumS> {
    let target = area_sample_point_s(l.p0@, l.e1@, l.e2@, r0, r1);
    let full = v3_sub_s(target, pos);
    let dist_sq = v3_sqnorm_s(full);
    if dist_sq <= 0 {
        None
    } else {
        let dist = v3_norm_s(full);
        let dir = v3_normalize_s(full);
        let cos_normal_dir = v3_dot_s(l.frame@.oz, v3_neg_s(dir));
        let pdf = fx_mul_s(l.inv_area as int, fx_div_s(dist_sq, cos_normal_dir));
        if cos_normal_dir <= EPS_COSINE as int || pdf <= 0 {
            Some(IllumS {
                radiance: V3 { x: 0, y: 0, z: 0 },
                dir_to_light: dir,
                dist_to_light: dist,
                dir_pdf_w: PDF_NONE as int,
            })
        } else {
            Some(IllumS {
                radiance: l.intensity@,
                dir_to_light: dir,
                dist_to_light: dist,
                dir_pdf_w: pdf,
            })
        }
    }
}

/// The background light's illumination: a uniform direction over the sphere,
/// an effectively infinite distance, and the constant density `1 / (4 pi)`.
pub open spec fn background_illuminate_s(l: BackgroundLight, r0: int, r1: int) -> Option<
    IllumS,
> {
    Some(IllumS {
        radiance: v3_scale_s(l.intensity@, l.scale as int),
        dir_to_light: uniform_sphere_dir_s(r0, r1),
        dist_to_light: DIST_FAR as int,
        dir_pdf_w: FX_FRAC_1_4PI as int,
    })
}

/// The point light's illumination: the direction and distance to its
/// position, intensity falling with the squared distance, and a unit density
/// (the sample is the light's one point). Absent only when the receiver
/// coincides with the light.
pub open spec fn point_illuminate_s(l: PointLight, pos: V3) -> Option<IllumS> {
    let full = v3_sub_s(l.position@, pos);
    let dist_sq = v3_sqnorm_s(full);
    if dist_sq <= 0 {
        None
    } else {
        Some(IllumS {
            radiance: v3_div_s(l.intensity@, dist_sq),
            dir_to_light: v3_normalize_s(full),
            dist_to_light: v3_norm_s(full),
            dir_pdf_w: FX_ONE as int,
        })
    }
}

/// What a light variant's sample of a point is.
pub open spec fn light_illuminate_s(l: Light, pos: V3, r0: int, r1: int) -> Option<IllumS> {
    match l {
        Light::Background(b) => background_illuminate_s(b, r0, r1),
        Light::Point(p) => point_illuminate_s(p, pos),
        Light::Area(a) => area_illuminate_s(a, pos, r0, r1),
    }
}

/// The area light's radiance along a ray: its intensity with the area-measure
/// density `inv_area` when the ray faces the emitting side, absent otherwise.
pub open spec fn area_radiate_s(l: AreaLight, r: RayS) -> Option<RadS> {
    let cos_out = v3_dot_s(l.frame@.oz, v3_neg_s(r.dir));
    if cos_out > 0 {
        Some(RadS { radiance: l.intensity@, pdf: l.inv_area as int })
    } else {
        None
    }
}

/// The background light's radiance: intensity times scale in every
/// direction, with the constant sphere density.
pub open spec fn background_radiate_s(l: BackgroundLight) -> Option<RadS> {
    Some(RadS { radiance: v3_scale_s(l.intensity@, l.scale as int), pdf: FX_FRAC_1_4PI as int })
}

/// The point light's radiance: its intensity, with a unit density.
pub open spec fn point_radiate_s(l: PointLight) -> Option<RadS> {
    Some(RadS { radiance: l.intensity@, pdf: FX_ONE as int })
}

/// What a light variant emits along a ray.
pub open spec fn light_radiate_s(l: Light, r: RayS) -> Option<RadS> {
    match l {
        Light::Background(b) => background_radiate_s(b),
        Light::Point(p) => point_radiate_s(p),
        Light::Area(a) => area_radiate_s(a, r),
    }
}

impl AreaLight {
    /// Build an area light from a triangle and an intensity; absent when the
    /// triangle is degenerate (its edge cross product has no length) or so
    /// large that the reciprocal of its area rounds to nothing, so every
    /// constructed light prices its samples with a positive density.
    pub fn new(p0: Vec3, p1: Vec3, p2: Vec3, intensity: Vec3) -> (r: Option<AreaLight>)
        ensures
            ({
                let e1 = v3_sub_s(p1@, p0@);
                let e2 = v3_sub_s(p2@, p0@);
                let normal = v3_cross_s(e1, e2);
                let len = v3_norm_s(normal);
                match r {
                    Some(l) => len > 0 && l.p0@ == p0@ && l.e1@ == e1 && l.e2@ == e2
                        && l.frame@ == frame_from_z_s(normal) && l.intensity@ == intensity@
                        && l.inv_area as int == fx_div_s(FX_TWO as int, len) && l.inv_area > 0,
                    None => len <= 0 || fx_div_s(FX_TWO as int, len) <= 0,
                }
            }),
    {
        let e1: Vec3 = v3_sub(&p1, &p0);
        let e2: Vec3 = v3_sub(&p2, &p0);
        let normal: Vec3 = v3_cross(&e1, &e2);
        let len: i64 = v3_norm(&normal);
        if len <= 0 {
            None
        } else {
            let inv_area: i64 = fx_div(FX_TWO, len);
            if inv_area <= 0 {
                None
            } else {
                Some(AreaLight {
                    p0,
                    e1,
                    e2,
                    frame: Frame::from_z(&normal),
                    intensity,
                    inv_area,
                })
            }
        }
    }
}

impl Light {
    /// Sample this light as seen from `pos`, driven by two uniform random
    /// numbers. A non-zero returned intensity always comes with a strictly
    /// positive density; an invalid sample carries zero intensity and the
    /// `PDF_NONE` sentinel.
    pub fn illuminate(&self, pos: &Vec3, rnd: (i64, i64)) -> (r: Option<Illumination>)
        requires
            0 <= rnd.0 < FX_ONE as int,
            0 <= rnd.1 < FX_ONE as int,
        ensures
            view_illum_opt(r) == light_illuminate_s(*self, pos@, rnd.0 as int, rnd.1 as int),
            r matches Some(i) ==> i@.dir_pdf_w > 0 || (i@.dir_pdf_w == PDF_NONE as int
                && i@.radiance == (V3 { x: 0, y: 0, z: 0 })),
    {
        match self {
            Light::Background(b) => {
                let (dir, pdf) = uniform_sphere_sample_w(rnd);
                Some(Illumination {
                    radiance: v3_scale(&b.intensity, b.scale),
                    dir_to_light: dir,
                    dist_to_light: DIST_FAR,
                    dir_pdf_w: pdf,
                })
            },
            Light::Point(p) => {
                let full: Vec3 = v3_sub(&p.position, pos);
                let dist_sq: i64 = v3_sqnorm(&full);
                if dist_sq <= 0 {
                    None
                } else {
                    Some(Illumination {
                        radiance: v3_div(&p.intensity, dist_sq),
                        dir_to_light: v3_normalize(&full),
                        dist_to_light: v3_norm(&full),
                        dir_pdf_w: FX_ONE,
                    })
                }
            },
            Light::Area(a) => {
                let anu: i64 = fx_sqrt(rnd.0);
                let u: i64 = fx_sub(FX_ONE, anu);
                let v: i64 = fx_mul(rnd.1, anu);
                let target: Vec3 = v3_add(&v3_add(&a.p0, &v3_scale(&a.e1, u)), &v3_scale(&a.e2, v));
                let full: Vec3 = v3_sub(&target, pos);
                let dist_sq: i64 = v3_sqnorm(&full);
                if dist_sq <= 0 {
                    None
                } else {
                    let dist: i64 = v3_norm(&full);
                    let dir: Vec3 = v3_normalize(&full);
                    let cos_normal_dir: i64 = v3_dot(&a.frame.normal(), &v3_neg(&dir));
                    if cos_normal_dir <= EPS_COSINE {
                        Some(Illumination {
                            radiance: Vec3::zero(),
                            dir_to_light: dir,
                            dist_to_light: dist,
                            dir_pdf_w: PDF_NONE,
                        })
                    } else {
                        let pdf: i64 = fx_mul(a.inv_area, fx_div(dist_sq, cos_normal_dir));
                        if pdf <= 0 {
                            Some(Illumination {
                                radiance: Vec3::zero(),
                                dir_to_light: dir,
                                dist_to_light: dist,
                                dir_pdf_w: PDF_NONE,
                            })
                        } else {
                            Some(Illumination {
                                radiance: a.intensity,
                                dir_to_light: dir,
                                dist_to_light: dist,
                                dir_pdf_w: pdf,
                            })
                        }
                    }
                }
            },
        }
    }

    /// The radiance this light sends along a ray that reached it (or, for the
    /// background, missed everything).
    pub fn radiate(&self, out_ray: &Ray) -> (r: Option<Radiation>)
        ensures
            view_rad_opt(r) == light_radiate_s(*self, out_ray@),
    {
        match self {
            Light::Background(b) => Some(Radiation {
                radiance: v3_scale(&b.intensity, b.scale),
                pdf: FX_FRAC_1_4PI,
            }),
            Light::Point(p) => Some(Radiation { radiance: p.intensity, pdf: FX_ONE }),
            Light::Area(a) => {
                let cos_out: i64 = v3_dot(&a.frame.normal(), &v3_neg(&out_ray.dir));
                if cos_out > 0 {
                    Some(Radiation { radiance: a.intensity, pdf: a.inv_area })
                } else {
                    None
                }
            },
        }
    }

    /// Whether the light has zero-measure sampling support (a point light).
    pub fn is_delta(&self) -> (r: bool)
        ensures
            r == (self is Point),
    {
        match self {
            Light::Point(_) => true,
            _ => false,
        }
    }
}

/// The sample an area light returns for a visible receiving point prices the
/// uniform triangle sample in solid angle: density `inv_area * dist_sq / cos`
/// exactly, with the light's intensity; a point behind the light plane gets
/// zero intensity and the sentinel instead.
pub proof fn lemma_area_light_pdf(l: AreaLight, pos: V3, r0: int, r1: int)
    ensures
        ({
            let target = area_sample_point_s(l.p0@, l.e1@, l.e2@, r0, r1);
            let full = v3_sub_s(target, pos);
            let dist_sq = v3_sqnorm_s(full);
            let cos_normal_dir = v3_dot_s(l.frame@.oz, v3_neg_s(v3_normalize_s(full)));
            let pdf = fx_mul_s(l.inv_area as int, fx_div_s(dist_sq, cos_normal_dir));
            dist_sq > 0 ==> match area_illuminate_s(l, pos, r0, r1) {
                Some(i) => {
                    &&& (cos_normal_dir > EPS_COSINE as int && pdf > 0) ==> (i.dir_pdf_w == pdf
                        && i.radiance == l.intensity@)
                    &&& (cos_normal_dir <= EPS_COSINE as int || pdf <= 0) ==> (i.dir_pdf_w
                        == PDF_NONE as int && i.radiance == (V3 { x: 0, y: 0, z: 0 }))
                },
                None => false,
            }
        }),
{
}

} // verus!
