//! The path integrator: per pixel it traces a stochastic light path through
//! the scene, performing next-event estimation against every light at each
//! bounce, importance-sampling the continuation direction, and terminating by
//! Russian roulette or a hard bounce cap.
//!
//! Each iteration adds exactly one color into every pixel's cell. Where the
//! first intersection of the pixel's primary ray already decides the path —
//! a miss that reaches the background, or a first-bounce hit on an emissive
//! surface — the added color is pinned exactly by the contract of `iterate`;
//! a hit on a reflective material starts a random walk whose estimate the
//! random draws decide.

use vstd::prelude::*;
use vstd::arithmetic::div_mod::{
    lemma_div_is_ordered,
    lemma_div_multiples_vanish_fancy,
    lemma_fundamental_div_mod,
    lemma_mod_bound,
};
use vstd::arithmetic::mul::lemma_mul_is_commutative;
use crate::fx::{
    fx_add_s, fx_mul_s, fx_div_s, lemma_fx_one_mul,
    fx_add, fx_mul, fx_div, fx_min,
    FX_ONE, EPS_RAY,
};
use crate::vec3::{V3, Vec3, v3_add_s, v3_add, v3_mul, v3_scale, v3_div, v3_norm};
use crate::brdf::{Brdf, brdf_wf_s};
use crate::camera::{Camera, cam_wf_s, ray_from_screen_s};
use crate::framebuffer::FrameBuffer;
use crate::geom::Ray;
use crate::light::{RadS, light_radiate_s};
use crate::rng::{next_unit, rng_from_seed, rng_from_entropy};
use crate::scene::{Scene, SurfaceProperties, SurfaceIntersection};

verus! {

/// Hard cap on the number of bounces of one path: a bias bound against
/// runaway paths.
pub const MAX_PATH_LENGTH: u32 = 100;

/// The power heuristic over two sampling densities.
pub open spec fn mis2_s(brdf_pdf_w: int, light_dir_pdf_w: int) -> int {
    let b2 = fx_mul_s(brdf_pdf_w, brdf_pdf_w);
    let l2 = fx_mul_s(light_dir_pdf_w, light_dir_pdf_w);
    if fx_add_s(b2, l2) <= 0 {
        0
    } else {
        fx_div_s(b2, fx_add_s(b2, l2))
    }
}

/// Power heuristic: the weight the first of two combined sampling strategies
/// gets, from the two densities; zero when both densities square to nothing.
pub fn mis2(brdf_pdf_w: i64, light_dir_pdf_w: i64) -> (r: i64)
    ensures
        r as int == mis2_s(brdf_pdf_w as int, light_dir_pdf_w as int),
{
    let b2: i64 = fx_mul(brdf_pdf_w, brdf_pdf_w);
    let l2: i64 = fx_mul(light_dir_pdf_w, light_dir_pdf_w);
    let s: i64 = fx_add(b2, l2);
    if s <= 0 {
        0
    } else {
        fx_div(b2, s)
    }
}

/// The Russian-roulette decision: a path stops when its throughput magnitude
/// falls below the drawn random number. A throughput magnitude of one or
/// more never terminates the path at this step.
pub fn roulette_terminate(weight_norm: i64, rnd: i64) -> (r: bool)
    requires
        0 <= rnd < FX_ONE as int,
    ensures
        r == (weight_norm < rnd),
        weight_norm >= FX_ONE as int ==> !r,
{
    weight_norm < rnd
}

/// The radiance a light answered with, or black where it answered nothing.
pub open spec fn radiance_or_zero_s(r: Option<RadS>) -> V3 {
    match r {
        Some(rad) => rad.radiance,
        None => V3 { x: 0, y: 0, z: 0 },
    }
}

/// What a path whose first intersection already decides it contributes: the
/// background's radiance on a miss, an emissive surface's radiance on a
/// first-bounce light hit; a reflective hit starts a random walk, so nothing
/// is pinned for it.
pub open spec fn head_outcome_s<S: Scene>(scene: S, ray: crate::geom::RayS) -> Option<V3> {
    match scene.nearest_s(ray) {
        None => Some(radiance_or_zero_s(light_radiate_s(scene.background_s(), ray))),
        Some(i) => match i.surface {
            SurfaceProperties::Light(lid) => Some(
                radiance_or_zero_s(light_radiate_s(scene.light_at(lid as int), ray)),
            ),
            SurfaceProperties::Material(_) => None,
        },
    }
}

/// Whether `c`, added onto pixel cell `p`, is a legitimate contribution for
/// the in-range jitter pair `(j0, j1)`: wherever the jittered primary ray's
/// first intersection decides the path, `c` is exactly that head outcome.
pub open spec fn contribution_ok_s<S: Scene>(
    pre: Seq<V3>,
    post: Seq<V3>,
    scene: S,
    cam: Camera,
    p: int,
    j0: int,
    j1: int,
    c: V3,
) -> bool {
    let x = p % (cam.res_x as int);
    let y = p / (cam.res_x as int);
    &&& 0 <= j0 < FX_ONE as int
    &&& 0 <= j1 < FX_ONE as int
    &&& post[p] == v3_add_s(pre[p], c)
    &&& (match head_outcome_s(
        scene,
        ray_from_screen_s(&cam, x * 65536 + j0, y * 65536 + j1),
    ) {
        Some(pinned) => c == pinned,
        None => true,
    })
}

/// Whether pixel cell `p` has received one iteration's contribution: one
/// color was added into it, legitimate for some in-range jitter of the
/// pixel's primary sample; on iteration zero the jitter is the pixel center,
/// so the added color is pinned exactly wherever the centered primary ray's
/// first intersection decides the path.
pub open spec fn pixel_done_s<S: Scene>(
    pre: Seq<V3>,
    post: Seq<V3>,
    scene: S,
    cam: Camera,
    p: int,
    iter_nb: int,
) -> bool {
    exists|j0: int, j1: int, c: V3|
        (iter_nb == 0 ==> j0 == 32768 && j1 == 32768) && #[trigger] contribution_ok_s(
            pre,
            post,
            scene,
            cam,
            p,
            j0,
            j1,
            c,
        )
}

proof fn lemma_pix_coords(pix: int, rx: int, ry: int)
    requires
        0 <= pix,
        1 <= rx,
        1 <= ry,
        pix < rx * ry,
    ensures
        pix % rx < rx,
        0 <= pix % rx,
        0 <= pix / rx < ry,
        (pix / rx) * rx + pix % rx == pix,
    decreases 0int,
{
    lemma_mod_bound(pix, rx);
    assert(rx * (ry - 1) + (rx - 1) == rx * ry - 1) by (nonlinear_arith);
    lemma_div_is_ordered(pix, rx * ry - 1, rx);
    lemma_div_multiples_vanish_fancy(ry - 1, rx - 1, rx);
    vstd::arithmetic::div_mod::lemma_div_pos_is_pos(pix, rx);
    lemma_fundamental_div_mod(pix, rx);
    lemma_mul_is_commutative(pix / rx, rx);
}

proof fn lemma_res_fits(rx: int, ry: int)
    by (nonlinear_arith)
    requires
        0 <= rx <= 32768,
        0 <= ry <= 32768,
    ensures
        rx * ry <= 0x4000_0000,
{
}

/// The renderer: a camera, a scene, an accumulating image and the random
/// stream that drives the estimator.
pub struct CpuPathTracer<S: Scene> {
    frame: FrameBuffer,
    scene: S,
    camera: Camera,
    rng: rand::rngs::StdRng,
}

impl<S: Scene> CpuPathTracer<S> {
    /// The tracer's well-formedness: camera, scene and image agree.
    pub closed spec fn wf_s(&self) -> bool {
        &&& self.frame.wf_s()
        &&& cam_wf_s(&self.camera)
        &&& self.scene.wf_s()
        &&& self.frame.width_s() == self.camera.res_x as int
        &&& self.frame.height_s() == self.camera.res_y as int
    }

    /// The image resolution.
    pub closed spec fn res_s(&self) -> (int, int) {
        (self.camera.res_x as int, self.camera.res_y as int)
    }

    /// The scene being rendered.
    pub closed spec fn scene_s(&self) -> S {
        self.scene
    }

    /// The camera rays are generated from.
    pub closed spec fn camera_s(&self) -> Camera {
        self.camera
    }

    /// The image cells accumulated so far, row by row.
    pub closed spec fn frame_data(&self) -> Seq<V3> {
        self.frame.data_s()
    }

    fn with_rng(cam: Camera, scene: S, rng: rand::rngs::StdRng) -> (r: CpuPathTracer<S>)
        requires
            cam_wf_s(&cam),
            scene.wf_s(),
        ensures
            r.wf_s(),
            r.res_s() == (cam.res_x as int, cam.res_y as int),
            r.scene_s() == scene,
            r.camera_s() == cam,
            r.frame_data() == Seq::new(
                (cam.res_x * cam.res_y) as nat,
                |i: int| V3 { x: 0, y: 0, z: 0 },
            ),
    {
        let resolution: (u32, u32) = cam.get_view_size();
        proof {
            lemma_res_fits(resolution.0 as int, resolution.1 as int);
        }
        let frame: FrameBuffer = FrameBuffer::new(resolution.0 as usize, resolution.1 as usize);
        let r = CpuPathTracer { rng, camera: cam, scene, frame };
        proof {
            assert(r.frame_data() =~= Seq::new(
                (cam.res_x * cam.res_y) as nat,
                |i: int| V3 { x: 0, y: 0, z: 0 },
            ));
        }
        r
    }

    /// Build a renderer whose random stream is seeded from the system (this
    /// aborts only if the operating system's entropy source fails; use
    /// `new_seeded` for a deterministic stream). The image starts black; the
    /// camera and scene are stored unchanged.
    pub fn new(cam: Camera, scene: S) -> (r: CpuPathTracer<S>)
        requires
            cam_wf_s(&cam),
            scene.wf_s(),
        ensures
            r.wf_s(),
            r.res_s() == (cam.res_x as int, cam.res_y as int),
            r.scene_s() == scene,
            r.camera_s() == cam,
            r.frame_data() == Seq::new(
                (cam.res_x * cam.res_y) as nat,
                |i: int| V3 { x: 0, y: 0, z: 0 },
            ),
    {
        Self::with_rng(cam, scene, rng_from_entropy())
    }

    /// Build a renderer whose random stream is deterministic in the seed, so
    /// a render can be reproduced. The image starts black; the camera and
    /// scene are stored unchanged.
    pub fn new_seeded(cam: Camera, scene: S, seed: u64) -> (r: CpuPathTracer<S>)
        requires
            cam_wf_s(&cam),
            scene.wf_s(),
        ensures
            r.wf_s(),
            r.res_s() == (cam.res_x as int, cam.res_y as int),
            r.scene_s() == scene,
            r.camera_s() == cam,
            r.frame_data() == Seq::new(
                (cam.res_x * cam.res_y) as nat,
                |i: int| V3 { x: 0, y: 0, z: 0 },
            ),
    {
        Self::with_rng(cam, scene, rng_from_seed(seed))
    }

    /// The image accumulated so far: exactly the cells every prior iteration
    /// added into.
    pub fn get_framebuffer(&self) -> (r: &FrameBuffer)
        requires
            self.wf_s(),
        ensures
            r.wf_s(),
            r.width_s() == self.res_s().0,
            r.height_s() == self.res_s().1,
            r.data_s() == self.frame_data(),
    {
        &self.frame
    }

    /// Next-event estimation at one hit: draw an illumination sample from
    /// every light, price the sampled direction with the reflectance model,
    /// test occlusion with a shadow ray, and accumulate the unoccluded
    /// contributions (divided by the illumination density) onto `color`.
    /// Only the random stream advances.
    fn next_event(
        &mut self,
        brdf: &Brdf,
        hit_pos: &Vec3,
        path_weight: &Vec3,
        color: Vec3,
        lights_nb: usize,
    ) -> (c: Vec3)
        requires
            old(self).wf_s(),
            brdf_wf_s(brdf@),
            lights_nb as int == old(self).scene_s().lights_nb_s(),
            lights_nb <= 0x7fff_ffff,
        ensures
            final(self).wf_s(),
            final(self).scene_s() == old(self).scene_s(),
            final(self).camera_s() == old(self).camera_s(),
            final(self).frame_data() == old(self).frame_data(),
            final(self).res_s() == old(self).res_s(),
    {
        let mut color: Vec3 = color;
        let mut i: usize = 0;
        while i < lights_nb
            invariant
                self.wf_s(),
                self.scene_s() == old(self).scene_s(),
                self.camera_s() == old(self).camera_s(),
                self.frame_data() == old(self).frame_data(),
                self.res_s() == old(self).res_s(),
                lights_nb as int == self.scene_s().lights_nb_s(),
                lights_nb <= 0x7fff_ffff,
                brdf_wf_s(brdf@),
            decreases lights_nb - i,
        {
            let rands: (i64, i64) = (next_unit(&mut self.rng), next_unit(&mut self.rng));
            let rand_light = self.scene.get_light(i as i32);
            if let Some(illum) = rand_light.illuminate(hit_pos, rands) {
                if illum.dir_pdf_w > 0 {
                    if let Some(brdf_eval) = brdf.eval(&illum.dir_to_light) {
                        let ray_to_light = Ray { orig: *hit_pos, dir: illum.dir_to_light };
                        let was_occluded: bool = match self.scene.nearest_intersection(
                            &ray_to_light,
                        ) {
                            Some(shadow_isect) => {
                                if shadow_isect.dist < illum.dist_to_light {
                                    match shadow_isect.surface {
                                        SurfaceProperties::Light(lid) => lid != (i as i32),
                                        SurfaceProperties::Material(_) => true,
                                    }
                                } else {
                                    false
                                }
                            },
                            None => false,
                        };
                        if !was_occluded {
                            let contribution: Vec3 = v3_div(
                                &v3_mul(
                                    &v3_mul(&illum.radiance, path_weight),
                                    &brdf_eval.radiance,
                                ),
                                illum.dir_pdf_w,
                            );
                            color = v3_add(&color, &contribution);
                        }
                    }
                }
            }
            i = i + 1;
        }
        color
    }

    /// Trace one light path from a primary ray and return its radiance
    /// estimate. Only the random stream advances: the image, camera and
    /// scene are untouched. When the first intersection already decides the
    /// path (a miss, or an emissive hit at path length zero), the estimate
    /// is pinned exactly; a reflective hit starts the random walk.
    #[verifier::rlimit(100)]
    #[verifier::spinoff_prover]
    fn trace_path(&mut self, ray0: Ray, lights_nb: usize) -> (c: Vec3)
        requires
            old(self).wf_s(),
            lights_nb as int == old(self).scene_s().lights_nb_s(),
            lights_nb <= 0x7fff_ffff,
        ensures
            final(self).wf_s(),
            final(self).scene_s() == old(self).scene_s(),
            final(self).camera_s() == old(self).camera_s(),
            final(self).frame_data() == old(self).frame_data(),
            final(self).res_s() == old(self).res_s(),
            (match head_outcome_s(old(self).scene_s(), ray0@) {
                Some(pinned) => c@ == pinned,
                None => true,
            }),
    {
        let mut color: Vec3 = Vec3::zero();
        let mut path_weight: Vec3 = Vec3::one();
        let isect0: SurfaceIntersection = match self.scene.nearest_intersection(&ray0) {
            Some(isect) => isect,
            None => {
                if let Some(back_rad) = self.scene.get_background_light().radiate(&ray0) {
                    color = v3_add(&color, &v3_mul(&path_weight, &back_rad.radiance));
                    proof {
                        lemma_fx_one_mul(back_rad.radiance.x as int);
                        lemma_fx_one_mul(back_rad.radiance.y as int);
                        lemma_fx_one_mul(back_rad.radiance.z as int);
                    }
                }
                return color;
            },
        };
        let mut hit_pos: Vec3 = v3_add(&ray0.orig, &v3_scale(&ray0.dir, isect0.dist));
        let mut brdf: Brdf = match isect0.surface {
            SurfaceProperties::Light(light_id) => {
                if let Some(rad) = self.scene.get_light(light_id).radiate(&ray0) {
                    color = rad.radiance;
                }
                return color;
            },
            SurfaceProperties::Material(mat_id) => {
                match Brdf::new(&ray0.dir, &isect0.normal, self.scene.get_material(mat_id)) {
                    Some(b) => b,
                    None => {
                        return color;
                    },
                }
            },
        };
        proof {
            assert(head_outcome_s(old(self).scene_s(), ray0@) is None);
        }
        let mut ray: Ray = ray0;
        let mut path_length: u32 = 0;
        loop
            invariant
                self.wf_s(),
                self.scene_s() == old(self).scene_s(),
                self.camera_s() == old(self).camera_s(),
                self.frame_data() == old(self).frame_data(),
                self.res_s() == old(self).res_s(),
                lights_nb as int == self.scene_s().lights_nb_s(),
                lights_nb <= 0x7fff_ffff,
                brdf_wf_s(brdf@),
                path_length <= MAX_PATH_LENGTH + 1,
                head_outcome_s(old(self).scene_s(), ray0@) is None,
            decreases MAX_PATH_LENGTH + 2 - path_length,
        {
            color = self.next_event(&brdf, &hit_pos, &path_weight, color, lights_nb);
            let rnd3: (i64, i64, i64) = (
                next_unit(&mut self.rng),
                next_unit(&mut self.rng),
                next_unit(&mut self.rng),
            );
            match brdf.sample(rnd3) {
                Some(sample) => {
                    path_weight = v3_mul(&path_weight, &sample.radiance);
                    let dir: Vec3 = sample.wi;
                    ray = Ray { orig: v3_add(&hit_pos, &v3_scale(&dir, EPS_RAY)), dir };
                },
                None => {
                    return color;
                },
            }
            if path_length > MAX_PATH_LENGTH {
                return color;
            }
            let weight_norm: i64 = v3_norm(&path_weight);
            let rr: i64 = next_unit(&mut self.rng);
            if roulette_terminate(weight_norm, rr) {
                return color;
            }
            let survival: i64 = fx_min(weight_norm, FX_ONE);
            if survival <= 0 {
                return color;
            }
            path_weight = v3_div(&path_weight, survival);
            path_length = path_length + 1;
            let isect: SurfaceIntersection = match self.scene.nearest_intersection(&ray) {
                Some(isect) => isect,
                None => {
                    if let Some(back_rad) = self.scene.get_background_light().radiate(&ray) {
                        color = v3_add(&color, &v3_mul(&path_weight, &back_rad.radiance));
                    }
                    return color;
                },
            };
            match isect.surface {
                SurfaceProperties::Light(_) => {
                    // A later-bounce emissive hit adds nothing: next-event
                    // estimation already priced that light.
                    return color;
                },
                SurfaceProperties::Material(mat_id) => {
                    hit_pos = v3_add(&ray.orig, &v3_scale(&ray.dir, isect.dist));
                    match Brdf::new(&ray.dir, &isect.normal, self.scene.get_material(mat_id)) {
                        Some(b) => {
                            brdf = b;
                        },
                        None => {
                            return color;
                        },
                    }
                },
            }
        }
    }

    /// Render one iteration: for every pixel, trace one light path and add
    /// its radiance estimate into the image. The first iteration samples
    /// pixel centers; later ones jitter inside the pixel. The camera and
    /// scene are untouched; every pixel's cell grows by exactly one added
    /// color, legitimate for the pixel's jitter (centered on iteration
    /// zero): wherever the primary ray's first intersection decides the
    /// path, the added color is pinned exactly — a miss adds the
    /// background's radiance, a first-bounce emissive hit adds that light's
    /// radiance.
    #[verifier::rlimit(60)]
    pub fn iterate(&mut self, iter_nb: usize)
        requires
            old(self).wf_s(),
        ensures
            final(self).wf_s(),
            final(self).res_s() == old(self).res_s(),
            final(self).scene_s() == old(self).scene_s(),
            final(self).camera_s() == old(self).camera_s(),
            final(self).frame_data().len() == old(self).frame_data().len(),
            forall|p: int|
                0 <= p < old(self).frame_data().len() ==> #[trigger] pixel_done_s(
                    old(self).frame_data(),
                    final(self).frame_data(),
                    old(self).scene_s(),
                    old(self).camera_s(),
                    p,
                    iter_nb as int,
                ),
    {
        let resolution: (u32, u32) = self.camera.get_view_size();
        let res_x: usize = resolution.0 as usize;
        let res_y: usize = resolution.1 as usize;
        proof {
            lemma_res_fits(res_x as int, res_y as int);
        }
        let n_pix: usize = res_x * res_y;
        proof {
            self.frame.lemma_wf_len();
        }
        let lights_nb: usize = self.scene.get_lights_nb();
        let mut pix_nb: usize = 0;
        while pix_nb < n_pix
            invariant
                self.wf_s(),
                self.res_s() == old(self).res_s(),
                self.scene_s() == old(self).scene_s(),
                self.camera_s() == old(self).camera_s(),
                res_x as int == self.res_s().0,
                res_y as int == self.res_s().1,
                n_pix == res_x * res_y,
                lights_nb as int == self.scene_s().lights_nb_s(),
                lights_nb <= 0x7fff_ffff,
                1 <= res_x,
                1 <= res_y,
                pix_nb <= n_pix,
                self.frame_data().len() == old(self).frame_data().len(),
                n_pix as int == old(self).frame_data().len(),
                forall|p: int|
                    pix_nb <= p < n_pix ==> #[trigger] self.frame_data()[p] == old(
                        self,
                    ).frame_data()[p],
                forall|p: int|
                    0 <= p < pix_nb ==> #[trigger] pixel_done_s(
                        old(self).frame_data(),
                        self.frame_data(),
                        old(self).scene_s(),
                        old(self).camera_s(),
                        p,
                        iter_nb as int,
                    ),
            decreases n_pix - pix_nb,
        {
            proof {
                lemma_pix_coords(pix_nb as int, res_x as int, res_y as int);
            }
            let x: usize = pix_nb % res_x;
            let y: usize = pix_nb / res_x;
            let jitter: (i64, i64) = if iter_nb == 0 {
                (32768, 32768)
            } else {
                (next_unit(&mut self.rng), next_unit(&mut self.rng))
            };
            let sample: (i64, i64) = (
                (x as i64) * 65536 + jitter.0,
                (y as i64) * 65536 + jitter.1,
            );
            let ray: Ray = self.camera.ray_from_screen(sample);
            let color: Vec3 = self.trace_path(ray, lights_nb);
            proof {
                lemma_mul_is_commutative(pix_nb as int / res_x as int, res_x as int);
            }
            let ghost prev = self.frame_data();
            self.frame.add_color((x, y), color);
            proof {
                let pre = old(self).frame_data();
                let scene = old(self).scene_s();
                let cam = old(self).camera_s();
                let it = iter_nb as int;
                assert(self.frame_data() == prev.update(pix_nb as int, v3_add_s(
                    prev[pix_nb as int],
                    color@,
                )));
                assert(self.frame_data()[pix_nb as int] == v3_add_s(pre[pix_nb as int], color@));
                assert(contribution_ok_s(
                    pre,
                    self.frame_data(),
                    scene,
                    cam,
                    pix_nb as int,
                    jitter.0 as int,
                    jitter.1 as int,
                    color@,
                ));
                assert(pixel_done_s(pre, self.frame_data(), scene, cam, pix_nb as int, it));
                assert forall|p: int| 0 <= p < pix_nb implies #[trigger] pixel_done_s(
                    pre,
                    self.frame_data(),
                    scene,
                    cam,
                    p,
                    it,
                ) by {
                    assert(pixel_done_s(pre, prev, scene, cam, p, it));
                    let (j0, j1, c0) = choose|j0: int, j1: int, c0: V3|
                        (it == 0 ==> j0 == 32768 && j1 == 32768) && #[trigger] contribution_ok_s(
                            pre,
                            prev,
                            scene,
                            cam,
                            p,
                            j0,
                            j1,
                            c0,
                        );
                    assert(self.frame_data()[p] == prev[p]);
                    assert(contribution_ok_s(pre, self.frame_data(), scene, cam, p, j0, j1, c0));
                }
            }
            pix_nb = pix_nb + 1;
        }
    }
}

} // verus!
