//! A simple perspective camera: rays leave one origin through an image plane
//! one fixed distance along the view direction.

use vstd::prelude::*;
use crate::fx::{fx_sub_s, fx_sub};
use crate::vec3::{V3, Vec3, v3_normalize_s, v3_normalize};
use crate::frame::{Frame, frame_from_z_s, frame_to_world_s};
use crate::geom::{Ray, RayS};

verus! {

/// Largest image dimension a camera accepts: it keeps the pixel count within
/// a 32-bit address space and every screen coordinate exactly representable.
pub const RES_MAX: u32 = 32768;

/// A perspective camera.
pub struct Camera {
    /// Eye position.
    pub origin: Vec3,
    /// View basis; `oz` is the view direction.
    pub frame: Frame,
    /// Horizontal resolution in pixels.
    pub res_x: u32,
    /// Vertical resolution in pixels.
    pub res_y: u32,
    /// Distance from the eye to the image plane, in fixed-point units.
    pub plane_dist: i64,
}

/// A camera's well-formedness: positive bounded resolution and a plane far
/// enough that ray directions cannot degenerate to zero.
pub open spec fn cam_wf_s(c: &Camera) -> bool {
    &&& 1 <= c.res_x <= RES_MAX
    &&& 1 <= c.res_y <= RES_MAX
    &&& 256 <= c.plane_dist
}

/// The ray a screen-space sample maps to: from the eye through the image
/// plane point whose offsets from the screen center are the sample
/// coordinates (y growing downward).
pub open spec fn ray_from_screen_s(c: &Camera, sx: int, sy: int) -> RayS {
    let half_w = c.res_x as int * 32768;
    let half_h = c.res_y as int * 32768;
    let local = V3 {
        x: fx_sub_s(sx, half_w),
        y: fx_sub_s(half_h, sy),
        z: c.plane_dist as int,
    };
    RayS { orig: c.origin@, dir: v3_normalize_s(frame_to_world_s(c.frame@, local)) }
}

impl Camera {
    /// Build a camera looking along `forward`.
    pub fn new(origin: Vec3, forward: Vec3, res_x: u32, res_y: u32, plane_dist: i64) -> (r:
        Camera)
        requires
            1 <= res_x <= RES_MAX,
            1 <= res_y <= RES_MAX,
            256 <= plane_dist,
        ensures
            cam_wf_s(&r),
            r.origin == origin,
            r.frame@ == frame_from_z_s(forward@),
            r.res_x == res_x,
            r.res_y == res_y,
            r.plane_dist == plane_dist,
    {
        Camera { origin, frame: Frame::from_z(&forward), res_x, res_y, plane_dist }
    }

    /// The ray through a screen-space sample (fixed-point pixel coordinates).
    pub fn ray_from_screen(&self, sample: (i64, i64)) -> (r: Ray)
        requires
            cam_wf_s(self),
        ensures
            r@ == ray_from_screen_s(self, sample.0 as int, sample.1 as int),
    {
        let half_w: i64 = self.res_x as i64 * 32768;
        let half_h: i64 = self.res_y as i64 * 32768;
        let local = Vec3 {
            x: fx_sub(sample.0, half_w),
            y: fx_sub(half_h, sample.1),
            z: self.plane_dist,
        };
        Ray { orig: self.origin, dir: v3_normalize(&self.frame.to_world(&local)) }
    }

    /// Resolution as `(width, height)`.
    pub fn get_view_size(&self) -> (r: (u32, u32))
        ensures
            r == (self.res_x, self.res_y),
    {
        (self.res_x, self.res_y)
    }
}

} // verus!
