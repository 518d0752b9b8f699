//! Shading frame: an orthonormal basis aligned to a surface normal, used to
//! move directions between world space and a local space whose z axis is the
//! normal. The renderer is isotropic about the choice of tangents, so any
//! consistent construction is acceptable.

use vstd::prelude::*;
use crate::fx::{abs_s, sat64, abs_i64, fx_sub_s, fx_sub, FX_ONE};
use crate::vec3::{V3, Vec3, v3_add_s, v3_add, v3_scale_s, v3_scale, v3_dot_s, v3_dot, v3_cross_s, v3_cross, v3_sqnorm_s, v3_sqnorm, v3_normalize_s, v3_normalize};

verus! {

/// Mathematical model of a frame: the three basis vectors.
pub ghost struct F3 {
    pub ox: V3,
    pub oy: V3,
    pub oz: V3,
}

/// An orthonormal basis; `oz` is the surface normal.
#[derive(Clone, Copy, Debug)]
pub struct Frame {
    pub ox: Vec3,
    pub oy: Vec3,
    pub oz: Vec3,
}

impl View for Frame {
    type V = F3;

    open spec fn view(&self) -> F3 {
        F3 { ox: self.ox@, oy: self.oy@, oz: self.oz@ }
    }
}

/// The tangent candidate picked before normalization: it avoids the larger
/// of the first two components, so it cannot be parallel to `oz`.
pub open spec fn frame_tangent_s(oz: V3) -> V3 {
    if sat64(abs_s(oz.x)) > sat64(abs_s(oz.y)) {
        V3 { x: fx_sub_s(0, oz.z), y: 0, z: oz.x }
    } else {
        V3 { x: 0, y: oz.z, z: fx_sub_s(0, oz.y) }
    }
}

/// The frame built from a direction. A degenerate input whose tangent
/// candidate has zero squared norm falls back to the canonical basis.
pub open spec fn frame_from_z_s(n: V3) -> F3 {
    let oz = v3_normalize_s(n);
    let t = frame_tangent_s(oz);
    if v3_sqnorm_s(t) <= 0 {
        F3 {
            ox: V3 { x: FX_ONE as int, y: 0, z: 0 },
            oy: V3 { x: 0, y: FX_ONE as int, z: 0 },
            oz,
        }
    } else {
        let ox = v3_normalize_s(t);
        F3 { ox, oy: v3_cross_s(oz, ox), oz }
    }
}

pub open spec fn frame_to_local_s(f: F3, v: V3) -> V3 {
    V3 { x: v3_dot_s(f.ox, v), y: v3_dot_s(f.oy, v), z: v3_dot_s(f.oz, v) }
}

pub open spec fn frame_to_world_s(f: F3, v: V3) -> V3 {
    v3_add_s(v3_add_s(v3_scale_s(f.ox, v.x), v3_scale_s(f.oy, v.y)), v3_scale_s(f.oz, v.z))
}

impl Frame {
    /// Build a frame whose z axis points along `n`.
    pub fn from_z(n: &Vec3) -> (r: Frame)
        ensures
            r@ == frame_from_z_s(n@),
    {
        let oz: Vec3 = v3_normalize(n);
        let t: Vec3 = if abs_i64(oz.x) > abs_i64(oz.y) {
            Vec3 { x: fx_sub(0, oz.z), y: 0, z: oz.x }
        } else {
            Vec3 { x: 0, y: oz.z, z: fx_sub(0, oz.y) }
        };
        if v3_sqnorm(&t) <= 0 {
            Frame {
                ox: Vec3 { x: FX_ONE, y: 0, z: 0 },
                oy: Vec3 { x: 0, y: FX_ONE, z: 0 },
                oz,
            }
        } else {
            let ox: Vec3 = v3_normalize(&t);
            Frame { ox, oy: v3_cross(&oz, &ox), oz }
        }
    }

    /// Express a world-space vector in this frame.
    pub fn to_local(&self, v: &Vec3) -> (r: Vec3)
        ensures
            r@ == frame_to_local_s(self@, v@),
    {
        Vec3 { x: v3_dot(&self.ox, v), y: v3_dot(&self.oy, v), z: v3_dot(&self.oz, v) }
    }

    /// Express a local-space vector in world space.
    pub fn to_world(&self, v: &Vec3) -> (r: Vec3)
        ensures
            r@ == frame_to_world_s(self@, v@),
    {
        v3_add(
            &v3_add(&v3_scale(&self.ox, v.x), &v3_scale(&self.oy, v.y)),
            &v3_scale(&self.oz, v.z),
        )
    }

    /// The frame's z axis: the direction it was built from, normalized.
    pub fn normal(&self) -> (r: Vec3)
        ensures
            r@ == self@.oz,
    {
        self.oz
    }
}

} // verus!
