//! Rays and the primitive shapes a scene can hold, with their intersection
//! routines and bounding volumes.

use vstd::prelude::*;
use crate::fx::{FX_FOUR, fx_add_s, fx_sub_s, fx_mul_s, fx_div_s, fx_sqrt_s, fx_add, fx_sub, fx_mul, fx_div, fx_sqrt, FX_ONE, EPS_RAY};
use crate::vec3::{V3, Vec3, v3_add_s, v3_add, v3_sub_s, v3_sub, v3_scale_s, v3_scale, v3_dot_s, v3_dot, v3_cross_s, v3_cross, v3_sqnorm_s, v3_sqnorm, v3_normalize_s, v3_normalize};

verus! {

/// Mathematical model of a ray.
pub ghost struct RayS {
    pub orig: V3,
    pub dir: V3,
}

/// A ray: an origin and a direction.
#[derive(Clone, Copy, Debug)]
pub struct Ray {
    pub orig: Vec3,
    pub dir: Vec3,
}

impl View for Ray {
    type V = RayS;

    open spec fn view(&self) -> RayS {
        RayS { orig: self.orig@, dir: self.dir@ }
    }
}

/// A bounding sphere of the scene.
#[derive(Clone, Copy, Debug)]
pub struct BSphere {
    pub center: Vec3,
    pub radius: i64,
    pub inv_radius_sqr: i64,
}

/// A primitive shape.
#[derive(Clone, Copy, Debug)]
pub enum Geom {
    /// A sphere given by center and radius.
    Sphere { center: Vec3, radius: i64 },
    /// A triangle given by its vertices; the normal is derived from the
    /// edges at construction.
    Triangle { p0: Vec3, p1: Vec3, p2: Vec3, normal: Vec3 },
}

/// The normal a triangle's vertices derive: the normalized edge cross
/// product.
pub open spec fn triangle_normal_s(p0: V3, p1: V3, p2: V3) -> V3 {
    v3_normalize_s(v3_cross_s(v3_sub_s(p1, p0), v3_sub_s(p2, p0)))
}

impl Geom {
    /// Build a sphere.
    pub fn sphere(center: Vec3, radius: i64) -> (r: Geom)
        ensures
            r == (Geom::Sphere { center, radius }),
    {
        Geom::Sphere { center, radius }
    }

    /// Build a triangle; its normal is the normalized cross product of its
    /// edges.
    pub fn triangle(p0: Vec3, p1: Vec3, p2: Vec3) -> (r: Geom)
        ensures
            r matches Geom::Triangle { p0: q0, p1: q1, p2: q2, normal } && q0 == p0 && q1 == p1
                && q2 == p2 && normal@ == triangle_normal_s(p0@, p1@, p2@),
    {
        let normal: Vec3 = v3_normalize(&v3_cross(&v3_sub(&p1, &p0), &v3_sub(&p2, &p0)));
        Geom::Triangle { p0, p1, p2, normal }
    }
}

/// The point a ray reaches at parameter `t`.
pub open spec fn ray_at_s(r: RayS, t: int) -> V3 {
    v3_add_s(r.orig, v3_scale_s(r.dir, t))
}

/// The intersection of a ray with a sphere: the smaller quadratic root at
/// least `EPS_RAY` along the ray, else the larger, else absent; the normal
/// points from the center through the hit point.
pub open spec fn sphere_intersect_s(center: V3, radius: int, r: RayS) -> Option<(int, V3)> {
    let oc = v3_sub_s(r.orig, center);
    let a = v3_dot_s(r.dir, r.dir);
    if a <= 0 {
        None
    } else {
        let b = fx_add_s(v3_dot_s(r.dir, oc), v3_dot_s(r.dir, oc));
        let c = fx_sub_s(v3_sqnorm_s(oc), fx_mul_s(radius, radius));
        let disc = fx_sub_s(fx_mul_s(b, b), fx_mul_s(FX_FOUR as int, fx_mul_s(a, c)));
        if disc < 0 {
            None
        } else {
            let sq = fx_sqrt_s(disc);
            let denom = fx_add_s(a, a);
            let t1 = fx_div_s(fx_sub_s(fx_sub_s(0, b), sq), denom);
            let t2 = fx_div_s(fx_add_s(fx_sub_s(0, b), sq), denom);
            let t = if t1 >= EPS_RAY as int {
                t1
            } else {
                t2
            };
            if t < EPS_RAY as int {
                None
            } else {
                Some((t, v3_normalize_s(v3_sub_s(ray_at_s(r, t), center))))
            }
        }
    }
}

/// The intersection of a ray with a triangle by the determinant method:
/// absent for a parallel ray, barycentric coordinates outside the triangle,
/// or a parameter below `EPS_RAY`.
pub open spec fn triangle_intersect_s(p0: V3, p1: V3, p2: V3, n: V3, r: RayS) -> Option<
    (int, V3),
> {
    let e1 = v3_sub_s(p1, p0);
    let e2 = v3_sub_s(p2, p0);
    let pv = v3_cross_s(r.dir, e2);
    let det = v3_dot_s(e1, pv);
    if det == 0 {
        None
    } else {
        let tv = v3_sub_s(r.orig, p0);
        let u = fx_div_s(v3_dot_s(tv, pv), det);
        if u < 0 || u > FX_ONE as int {
            None
        } else {
            let qv = v3_cross_s(tv, e1);
            let v = fx_div_s(v3_dot_s(r.dir, qv), det);
            if v < 0 || fx_add_s(u, v) > FX_ONE as int {
                None
            } else {
                let t = fx_div_s(v3_dot_s(e2, qv), det);
                if t < EPS_RAY as int {
                    None
                } else {
                    Some((t, n))
                }
            }
        }
    }
}

/// The intersection of a ray with a shape.
pub open spec fn geom_intersect_s(g: Geom, r: RayS) -> Option<(int, V3)> {
    match g {
        Geom::Sphere { center, radius } => sphere_intersect_s(center@, radius as int, r),
        Geom::Triangle { p0, p1, p2, normal } => triangle_intersect_s(
            p0@,
            p1@,
            p2@,
            normal@,
            r,
        ),
    }
}

/// Intersect a ray with a shape: the distance along the ray and the surface
/// normal at the hit, or absent.
pub fn geom_intersect(g: &Geom, r: &Ray) -> (res: Option<(i64, Vec3)>)
    ensures
        match res {
            Some(hit) => geom_intersect_s(*g, r@) == Some((hit.0 as int, hit.1@)),
            None => geom_intersect_s(*g, r@) is None,
        },
        res matches Some(hit) ==> hit.0 >= EPS_RAY,
{
    match g {
        Geom::Sphere { center, radius } => {
            let oc: Vec3 = v3_sub(&r.orig, center);
            let a: i64 = v3_dot(&r.dir, &r.dir);
            if a <= 0 {
                return None;
            }
            let hb: i64 = v3_dot(&r.dir, &oc);
            let b: i64 = fx_add(hb, hb);
            let c: i64 = fx_sub(v3_sqnorm(&oc), fx_mul(*radius, *radius));
            let disc: i64 = fx_sub(fx_mul(b, b), fx_mul(FX_FOUR, fx_mul(a, c)));
            if disc < 0 {
                return None;
            }
            let sq: i64 = fx_sqrt(disc);
            let denom: i64 = fx_add(a, a);
            let t1: i64 = fx_div(fx_sub(fx_sub(0, b), sq), denom);
            let t2: i64 = fx_div(fx_add(fx_sub(0, b), sq), denom);
            let t: i64 = if t1 >= EPS_RAY {
                t1
            } else {
                t2
            };
            if t < EPS_RAY {
                None
            } else {
                let hit: Vec3 = v3_add(&r.orig, &v3_scale(&r.dir, t));
                Some((t, v3_normalize(&v3_sub(&hit, center))))
            }
        },
        Geom::Triangle { p0, p1, p2, normal } => {
            let e1: Vec3 = v3_sub(p1, p0);
            let e2: Vec3 = v3_sub(p2, p0);
            let pv: Vec3 = v3_cross(&r.dir, &e2);
            let det: i64 = v3_dot(&e1, &pv);
            if det == 0 {
                return None;
            }
            let tv: Vec3 = v3_sub(&r.orig, p0);
            let u: i64 = fx_div(v3_dot(&tv, &pv), det);
            if u < 0 || u > FX_ONE {
                return None;
            }
            let qv: Vec3 = v3_cross(&tv, &e1);
            let v: i64 = fx_div(v3_dot(&r.dir, &qv), det);
            if v < 0 || fx_add(u, v) > FX_ONE {
                return None;
            }
            let t: i64 = fx_div(v3_dot(&e2, &qv), det);
            if t < EPS_RAY {
                None
            } else {
                Some((t, *normal))
            }
        },
    }
}

/// The axis-aligned bounds of a shape, as component-wise minimum and maximum
/// corners.
pub open spec fn geom_bounds_s(g: Geom) -> (V3, V3) {
    match g {
        Geom::Sphere { center, radius } => (
            V3 {
                x: fx_sub_s(center@.x, radius as int),
                y: fx_sub_s(center@.y, radius as int),
                z: fx_sub_s(center@.z, radius as int),
            },
            V3 {
                x: fx_add_s(center@.x, radius as int),
                y: fx_add_s(center@.y, radius as int),
                z: fx_add_s(center@.z, radius as int),
            },
        ),
        Geom::Triangle { p0, p1, p2, normal } => (
            v3_min_s(v3_min_s(p0@, p1@), p2@),
            v3_max_s(v3_max_s(p0@, p1@), p2@),
        ),
    }
}

pub open spec fn v3_min_s(a: V3, b: V3) -> V3 {
    V3 {
        x: if a.x <= b.x { a.x } else { b.x },
        y: if a.y <= b.y { a.y } else { b.y },
        z: if a.z <= b.z { a.z } else { b.z },
    }
}

pub open spec fn v3_max_s(a: V3, b: V3) -> V3 {
    V3 {
        x: if a.x >= b.x { a.x } else { b.x },
        y: if a.y >= b.y { a.y } else { b.y },
        z: if a.z >= b.z { a.z } else { b.z },
    }
}

/// Component-wise minimum.
pub fn v3_min(a: &Vec3, b: &Vec3) -> (r: Vec3)
    ensures
        r@ == v3_min_s(a@, b@),
{
    Vec3 {
        x: if a.x <= b.x { a.x } else { b.x },
        y: if a.y <= b.y { a.y } else { b.y },
        z: if a.z <= b.z { a.z } else { b.z },
    }
}

/// Component-wise maximum.
pub fn v3_max(a: &Vec3, b: &Vec3) -> (r: Vec3)
    ensures
        r@ == v3_max_s(a@, b@),
{
    Vec3 {
        x: if a.x >= b.x { a.x } else { b.x },
        y: if a.y >= b.y { a.y } else { b.y },
        z: if a.z >= b.z { a.z } else { b.z },
    }
}

/// The axis-aligned bounds of a shape, evaluated.
pub fn geom_bounds(g: &Geom) -> (r: (Vec3, Vec3))
    ensures
        (r.0@, r.1@) == geom_bounds_s(*g),
{
    match g {
        Geom::Sphere { center, radius } => (
            Vec3 {
                x: fx_sub(center.x, *radius),
                y: fx_sub(center.y, *radius),
                z: fx_sub(center.z, *radius),
            },
            Vec3 {
                x: fx_add(center.x, *radius),
                y: fx_add(center.y, *radius),
                z: fx_add(center.z, *radius),
            },
        ),
        Geom::Triangle { p0, p1, p2, normal } => (
            v3_min(&v3_min(p0, p1), p2),
            v3_max(&v3_max(p0, p1), p2),
        ),
    }
}

} // verus!
