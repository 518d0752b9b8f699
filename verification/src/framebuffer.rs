//! The output image: a grid of accumulated colors, one cell per pixel.

use vstd::prelude::*;
use crate::vec3::{V3, Vec3, v3_add_s, v3_add};

verus! {

/// An accumulating image buffer; `add_color` adds into a cell, never
/// overwrites, so iterations pile their estimates up.
pub struct FrameBuffer {
    width: usize,
    height: usize,
    data: Vec<Vec3>,
}

impl FrameBuffer {
    /// The buffer's well-formedness: one cell for every pixel.
    pub closed spec fn wf_s(&self) -> bool {
        self.data@.len() == self.width * self.height
    }

    /// Width in pixels.
    pub closed spec fn width_s(&self) -> int {
        self.width as int
    }

    /// Height in pixels.
    pub closed spec fn height_s(&self) -> int {
        self.height as int
    }

    /// The cells, row by row.
    pub closed spec fn data_s(&self) -> Seq<V3> {
        self.data@.map_values(|c: Vec3| c@)
    }

    /// A well-formed buffer has one cell for every pixel.
    pub proof fn lemma_wf_len(&self)
        requires
            self.wf_s(),
        ensures
            self.data_s().len() == self.width_s() * self.height_s(),
    {
    }

    /// A black image of the given resolution.
    pub fn new(width: usize, height: usize) -> (r: FrameBuffer)
        requires
            width * height <= usize::MAX,
        ensures
            r.wf_s(),
            r.width_s() == width,
            r.height_s() == height,
            r.data_s() == Seq::new((width * height) as nat, |i: int| V3 { x: 0, y: 0, z: 0 }),
    {
        let n: usize = width * height;
        let mut data: Vec<Vec3> = Vec::new();
        let mut i: usize = 0;
        while i < n
            invariant
                i <= n,
                data@.len() == i,
                forall|j: int| 0 <= j < i ==> data@[j]@ == (V3 { x: 0, y: 0, z: 0 }),
            decreases n - i,
        {
            data.push(Vec3::zero());
            i = i + 1;
        }
        let r = FrameBuffer { width, height, data };
        proof {
            assert(r.data_s() =~= Seq::new((width * height) as nat, |i: int| V3 { x: 0, y: 0, z: 0 }));
        }
        r
    }

    /// Resolution as `(width, height)`.
    pub fn resolution(&self) -> (r: (usize, usize))
        ensures
            r.0 as int == self.width_s(),
            r.1 as int == self.height_s(),
    {
        (self.width, self.height)
    }

    /// Accumulate a color into the cell of pixel `(x, y)`.
    pub fn add_color(&mut self, coords: (usize, usize), color: Vec3)
        requires
            old(self).wf_s(),
            (coords.0 as int) < old(self).width_s(),
            (coords.1 as int) < old(self).height_s(),
        ensures
            final(self).wf_s(),
            final(self).width_s() == old(self).width_s(),
            final(self).height_s() == old(self).height_s(),
            final(self).data_s() == old(self).data_s().update(
                coords.1 * old(self).width_s() + coords.0,
                v3_add_s(old(self).data_s()[coords.1 * old(self).width_s() + coords.0], color@),
            ),
    {
        let n: usize = self.data.len();
        proof {
            mul_bound_helper(coords.1 as int, self.width as int, self.height as int);
        }
        let idx: usize = coords.1 * self.width + coords.0;
        let updated: Vec3 = v3_add(&self.data[idx], &color);
        self.data[idx] = updated;
        proof {
            assert(final(self).data_s() =~= old(self).data_s().update(
                coords.1 * old(self).width_s() + coords.0,
                v3_add_s(old(self).data_s()[coords.1 * old(self).width_s() + coords.0], color@),
            ));
        }
    }

    /// The accumulated color of pixel `(x, y)`.
    pub fn get_pixel(&self, x: usize, y: usize) -> (r: Vec3)
        requires
            self.wf_s(),
            (x as int) < self.width_s(),
            (y as int) < self.height_s(),
        ensures
            r@ == self.data_s()[y * self.width_s() + x],
    {
        let n: usize = self.data.len();
        proof {
            mul_bound_helper(y as int, self.width as int, self.height as int);
        }
        self.data[y * self.width + x]
    }
}

proof fn mul_bound_helper(y: int, w: int, h: int)
    by (nonlinear_arith)
    requires
        0 <= y,
        0 <= w,
        y < h,
    ensures
        y * w + w <= h * w,
        w * h == h * w,
{
}

} // verus!
