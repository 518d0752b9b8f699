//! The scene: surfaces with material or emissive identities, the lights, and
//! nearest-intersection queries over the stored shapes.

use vstd::prelude::*;
use crate::fx::{fx_div, fx_sqrt, fx_sqrt_s, fx_div_s, FX_ONE, FX_HALF, EPS_RAY};
use crate::vec3::{V3, Vec3, v3_add, v3_add_s, v3_sub, v3_sub_s, v3_scale, v3_scale_s, v3_sqnorm, v3_sqnorm_s};
use crate::geom::{Ray, RayS, Geom, BSphere, geom_intersect, geom_intersect_s, geom_bounds, geom_bounds_s, v3_min, v3_min_s, v3_max, v3_max_s};
use crate::brdf::{Material, mat_wf_s};
use crate::light::{Light, BackgroundLight};

verus! {

/// Identity of a material in its scene.
pub type MaterialID = i32;

/// Identity of a light in its scene.
pub type LightID = i32;

/// What a surface is: a reflective material or an emissive light.
#[derive(Clone, Copy, Debug, PartialEq, Eq, Structural)]
pub enum SurfaceProperties {
    Material(MaterialID),
    Light(LightID),
}

/// Mathematical model of an intersection.
pub ghost struct ISectS {
    pub dist: int,
    pub normal: V3,
    pub surface: SurfaceProperties,
}

/// A ray-surface intersection: distance along the ray, surface normal at the
/// hit, and the surface's identity.
#[derive(Clone, Copy, Debug)]
pub struct SurfaceIntersection {
    pub dist: i64,
    pub normal: Vec3,
    pub surface: SurfaceProperties,
}

impl View for SurfaceIntersection {
    type V = ISectS;

    open spec fn view(&self) -> ISectS {
        ISectS { dist: self.dist as int, normal: self.normal@, surface: self.surface }
    }
}

/// A shape together with its surface identity.
#[derive(Clone, Copy, Debug)]
pub struct Surface {
    pub geometry: Geom,
    pub properties: SurfaceProperties,
}

/// What the integrator asks of a scene: intersection queries and access to
/// the material and light tables. Every intersection a scene hands out points
/// into those tables, and every stored material is well-formed.
pub trait Scene: Sized {
    /// How many materials the scene holds.
    spec fn materials_nb_s(&self) -> int;

    /// How many lights the scene holds.
    spec fn lights_nb_s(&self) -> int;

    /// The scene's well-formedness: its tables are consistent and every
    /// stored material is well-formed.
    spec fn wf_s(&self) -> bool;

    /// What the closest hit of a ray is.
    spec fn nearest_s(&self, ray: RayS) -> Option<ISectS>;

    /// The material stored behind an identity.
    spec fn material_at(&self, id: int) -> Material;

    /// The light stored behind an identity.
    spec fn light_at(&self, id: int) -> Light;

    /// The background light.
    spec fn background_s(&self) -> Light;

    /// An empty scene.
    fn new() -> (r: Self)
        ensures
            r.materials_nb_s() == 0,
            r.lights_nb_s() == 0,
            r.wf_s(),
    ;

    /// The closest surface a ray meets, if any: exactly `nearest_s`.
    fn nearest_intersection(&self, ray: &Ray) -> (r: Option<SurfaceIntersection>)
        requires
            self.wf_s(),
        ensures
            (match r {
                Some(i) => self.nearest_s(ray@) == Some(i@),
                None => self.nearest_s(ray@) is None,
            }),
            r matches Some(i) ==> i.dist >= EPS_RAY && (match i.surface {
                SurfaceProperties::Material(id) => 0 <= id as int && (id as int)
                    < self.materials_nb_s(),
                SurfaceProperties::Light(id) => 0 <= id as int && (id as int)
                    < self.lights_nb_s(),
            }),
    ;

    /// Add a shape with a reflective material.
    fn add_object(&mut self, geo: Geom, material: Material)
        requires
            mat_wf_s(material@),
            old(self).wf_s(),
            old(self).materials_nb_s() < 0x7fff_ffff,
        ensures
            final(self).materials_nb_s() == old(self).materials_nb_s() + 1,
            final(self).lights_nb_s() == old(self).lights_nb_s(),
            final(self).wf_s(),
            final(self).material_at(old(self).materials_nb_s()) == material,
            forall|i: int|
                0 <= i < old(self).materials_nb_s() ==> final(self).material_at(i) == old(
                    self,
                ).material_at(i),
            forall|i: int|
                0 <= i < old(self).lights_nb_s() ==> final(self).light_at(i) == old(
                    self,
                ).light_at(i),
            final(self).background_s() == old(self).background_s(),
    ;

    /// A sphere that bounds every stored shape.
    fn bounding_sphere(&self) -> (r: BSphere)
        ensures
            r.radius >= 0,
            r.inv_radius_sqr >= 0,
    ;

    /// The material behind an identity.
    fn get_material(&self, id: MaterialID) -> (m: &Material)
        requires
            self.wf_s(),
            0 <= id as int && (id as int) < self.materials_nb_s(),
        ensures
            *m == self.material_at(id as int),
            mat_wf_s(m@),
    ;

    /// The light behind an identity.
    fn get_light(&self, id: LightID) -> (l: &Light)
        requires
            self.wf_s(),
            0 <= id as int && (id as int) < self.lights_nb_s(),
        ensures
            *l == self.light_at(id as int),
    ;

    /// How many lights the scene holds.
    fn get_lights_nb(&self) -> (n: usize)
        requires
            self.wf_s(),
        ensures
            n as int == self.lights_nb_s(),
            n <= 0x7fff_ffff,
    ;

    /// The light a ray that escapes the scene reaches.
    fn get_background_light(&self) -> (l: &Light)
        ensures
            *l == self.background_s(),
    ;
}

/// The closest hit among the first `i` stored shapes: distance, normal and
/// surface identity, an earlier shape winning ties.
pub open spec fn nearest_upto_s(objs: Seq<Surface>, ray: RayS, i: int) -> Option<
    (int, V3, SurfaceProperties),
>
    decreases i,
{
    if i <= 0 {
        None
    } else {
        let prev = nearest_upto_s(objs, ray, i - 1);
        match geom_intersect_s(objs[i - 1].geometry, ray) {
            Some(hit) => match prev {
                Some(p) => if hit.0 < p.0 {
                    Some((hit.0, hit.1, objs[i - 1].properties))
                } else {
                    prev
                },
                None => Some((hit.0, hit.1, objs[i - 1].properties)),
            },
            None => prev,
        }
    }
}

/// The component-wise bounds of the first `i` stored shapes, folded from the
/// origin.
pub open spec fn bounds_upto_s(objs: Seq<Surface>, i: int) -> (V3, V3)
    decreases i,
{
    if i <= 0 {
        (V3 { x: 0, y: 0, z: 0 }, V3 { x: 0, y: 0, z: 0 })
    } else {
        let prev = bounds_upto_s(objs, i - 1);
        let g = geom_bounds_s(objs[i - 1].geometry);
        (v3_min_s(prev.0, g.0), v3_max_s(prev.1, g.1))
    }
}

/// The bounding sphere the stored shapes derive: centered on the folded
/// bounds, with the radius of their diagonal.
pub open spec fn bounding_sphere_s(objs: Seq<Surface>) -> (V3, int, int) {
    let b = bounds_upto_s(objs, objs.len() as int);
    let center = v3_scale_s(v3_add_s(b.0, b.1), FX_HALF as int);
    let radius_sq = v3_sqnorm_s(v3_sub_s(b.1, b.0));
    let inv = if radius_sq <= 0 {
        FX_ONE as int
    } else {
        fx_div_s(FX_ONE as int, radius_sq)
    };
    (center, fx_sqrt_s(radius_sq), inv)
}

/// The scene the renderer uses: flat tables of shapes, materials and lights.
pub struct DefaultScene {
    objects: Vec<Surface>,
    materials: Vec<Material>,
    lights: Vec<Light>,
    background: Light,
}

impl DefaultScene {
    /// The stored shapes with their surface identities.
    pub closed spec fn objects_s(&self) -> Seq<Surface> {
        self.objects@
    }

    /// Add an emissive light; an area light also stands in the scene as an
    /// emissive triangle that rays can hit.
    pub fn add_light(&mut self, light: Light)
        requires
            old(self).wf_s(),
            old(self).lights_nb_s() < 0x7fff_ffff,
        ensures
            final(self).lights_nb_s() == old(self).lights_nb_s() + 1,
            final(self).materials_nb_s() == old(self).materials_nb_s(),
            final(self).wf_s(),
            final(self).light_at(old(self).lights_nb_s()) == light,
            forall|i: int|
                0 <= i < old(self).lights_nb_s() ==> final(self).light_at(i) == old(
                    self,
                ).light_at(i),
            final(self).background_s() == old(self).background_s(),
    {
        let id: i32 = self.lights.len() as i32;
        match &light {
            Light::Area(a) => {
                let p1: Vec3 = v3_add(&a.p0, &a.e1);
                let p2: Vec3 = v3_add(&a.p0, &a.e2);
                self.objects.push(
                    Surface {
                        geometry: Geom::triangle(a.p0, p1, p2),
                        properties: SurfaceProperties::Light(id),
                    },
                );
            },
            _ => {},
        }
        self.lights.push(light);
    }

    /// The closest surface a ray meets: exactly the fold of the stored
    /// shapes' own intersections, an earlier shape winning ties.
    pub fn nearest_hit(&self, ray: &Ray) -> (r: Option<SurfaceIntersection>)
        requires
            self.wf_s(),
        ensures
            match r {
                Some(i) => nearest_upto_s(self.objects_s(), ray@, self.objects_s().len() as int)
                    == Some((i.dist as int, i.normal@, i.surface)),
                None => nearest_upto_s(self.objects_s(), ray@, self.objects_s().len() as int)
                    is None,
            },
            r matches Some(i) ==> i.dist >= EPS_RAY && (match i.surface {
                SurfaceProperties::Material(id) => 0 <= id as int && (id as int)
                    < self.materials_nb_s(),
                SurfaceProperties::Light(id) => 0 <= id as int && (id as int)
                    < self.lights_nb_s(),
            }),
    {
        let mut best: Option<SurfaceIntersection> = None;
        let mut idx: usize = 0;
        while idx < self.objects.len()
            invariant
                idx <= self.objects@.len(),
                self.wf_s(),
                match best {
                    Some(i) => nearest_upto_s(self.objects@, ray@, idx as int) == Some(
                        (i.dist as int, i.normal@, i.surface),
                    ),
                    None => nearest_upto_s(self.objects@, ray@, idx as int) is None,
                },
                best matches Some(i) ==> i.dist >= EPS_RAY && (match i.surface {
                    SurfaceProperties::Material(id) => 0 <= id as int && (id as int)
                        < self.materials@.len() as int,
                    SurfaceProperties::Light(id) => 0 <= id as int && (id as int)
                        < self.lights@.len() as int,
                }),
            decreases self.objects@.len() - idx,
        {
            let obj: &Surface = &self.objects[idx];
            if let Some((dist, normal)) = geom_intersect(&obj.geometry, ray) {
                let closer: bool = match &best {
                    Some(b) => dist < b.dist,
                    None => true,
                };
                if closer {
                    best = Some(
                        SurfaceIntersection { dist, normal, surface: obj.properties },
                    );
                }
            }
            idx = idx + 1;
        }
        best
    }

    /// The bounding sphere of the stored shapes: exactly the fold that
    /// `bounding_sphere_s` describes.
    pub fn bounds_sphere(&self) -> (r: BSphere)
        ensures
            (r.center@, r.radius as int, r.inv_radius_sqr as int) == bounding_sphere_s(
                self.objects_s(),
            ),
            r.radius >= 0,
            r.inv_radius_sqr >= 0,
    {
        let mut mn: Vec3 = Vec3::zero();
        let mut mx: Vec3 = Vec3::zero();
        let mut idx: usize = 0;
        while idx < self.objects.len()
            invariant
                idx <= self.objects@.len(),
                (mn@, mx@) == bounds_upto_s(self.objects@, idx as int),
            decreases self.objects@.len() - idx,
        {
            let b: (Vec3, Vec3) = geom_bounds(&self.objects[idx].geometry);
            mn = v3_min(&mn, &b.0);
            mx = v3_max(&mx, &b.1);
            idx = idx + 1;
        }
        let center: Vec3 = v3_scale(&v3_add(&mn, &mx), FX_HALF);
        let radius_sq: i64 = v3_sqnorm(&v3_sub(&mx, &mn));
        let radius: i64 = fx_sqrt(radius_sq);
        let inv: i64 = if radius_sq <= 0 {
            FX_ONE
        } else {
            fx_div(FX_ONE, radius_sq)
        };
        proof {
            crate::fx::lemma_isqrt(radius_sq as int * 65536);
            if radius_sq > 0 {
                crate::fx::lemma_fx_div_nonneg(FX_ONE as int, radius_sq as int);
            }
        }
        BSphere { center, radius, inv_radius_sqr: inv }
    }

    /// Replace the background light.
    pub fn set_background(&mut self, light: Light)
        requires
            old(self).wf_s(),
        ensures
            final(self).lights_nb_s() == old(self).lights_nb_s(),
            final(self).materials_nb_s() == old(self).materials_nb_s(),
            final(self).wf_s(),
            final(self).background_s() == light,
            forall|ray: RayS| final(self).nearest_s(ray) == old(self).nearest_s(ray),
            forall|i: int|
                0 <= i < old(self).lights_nb_s() ==> final(self).light_at(i) == old(
                    self,
                ).light_at(i),
    {
        self.background = light;
    }
}

impl Scene for DefaultScene {
    closed spec fn wf_s(&self) -> bool {
        &&& self.materials@.len() <= 0x7fff_ffff
        &&& self.lights@.len() <= 0x7fff_ffff
        &&& forall|i: int|
            0 <= i < self.materials@.len() ==> mat_wf_s(#[trigger] self.materials@[i]@)
        &&& forall|i: int|
            0 <= i < self.objects@.len() ==> match (#[trigger] self.objects@[i]).properties {
                SurfaceProperties::Material(id) => 0 <= id as int && (id as int) < self.materials@.len() as int,
                SurfaceProperties::Light(id) => 0 <= id as int && (id as int) < self.lights@.len() as int,
            }
    }

    closed spec fn materials_nb_s(&self) -> int {
        self.materials@.len() as int
    }

    closed spec fn lights_nb_s(&self) -> int {
        self.lights@.len() as int
    }

    closed spec fn nearest_s(&self, ray: RayS) -> Option<ISectS> {
        match nearest_upto_s(self.objects@, ray, self.objects@.len() as int) {
            Some(hit) => Some(ISectS { dist: hit.0, normal: hit.1, surface: hit.2 }),
            None => None,
        }
    }

    closed spec fn material_at(&self, id: int) -> Material {
        self.materials@[id]
    }

    closed spec fn light_at(&self, id: int) -> Light {
        self.lights@[id]
    }

    closed spec fn background_s(&self) -> Light {
        self.background
    }

    fn new() -> (r: DefaultScene) {
        DefaultScene {
            objects: Vec::new(),
            materials: Vec::new(),
            lights: Vec::new(),
            background: Light::Background(
                BackgroundLight { intensity: Vec3::zero(), scale: FX_ONE },
            ),
        }
    }

    fn nearest_intersection(&self, ray: &Ray) -> (r: Option<SurfaceIntersection>) {
        self.nearest_hit(ray)
    }

    fn add_object(&mut self, geo: Geom, material: Material) {
        self.materials.push(material);
        let material_id: i32 = self.materials.len() as i32 - 1;
        self.objects.push(
            Surface { geometry: geo, properties: SurfaceProperties::Material(material_id) },
        );
    }

    fn bounding_sphere(&self) -> (r: BSphere) {
        self.bounds_sphere()
    }

    fn get_material(&self, id: MaterialID) -> (m: &Material) {
        &self.materials[id as usize]
    }

    fn get_light(&self, id: LightID) -> (l: &Light) {
        &self.lights[id as usize]
    }

    fn get_lights_nb(&self) -> (n: usize) {
        self.lights.len()
    }

    fn get_background_light(&self) -> &Light {
        &self.background
    }
}

} // verus!
