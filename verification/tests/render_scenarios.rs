use pathtracer::brdf::Material;
use pathtracer::camera::Camera;
use pathtracer::fx::FX_ONE;
use pathtracer::geom::Geom;
use pathtracer::light::{AreaLight, BackgroundLight, Light};
use pathtracer::pathtracer::{mis2, roulette_terminate, CpuPathTracer};
use pathtracer::scene::{DefaultScene, Scene};
use pathtracer::vec3::Vec3;

fn forward_camera(res: u32) -> Camera {
    Camera::new(Vec3::zero(), Vec3::new(0, 0, FX_ONE), res, res, FX_ONE)
}

#[test]
fn new_tracer_starts_with_a_black_image() {
    let scene = DefaultScene::new();
    let tracer = CpuPathTracer::new_seeded(forward_camera(3), scene, 5);
    let frame = tracer.get_framebuffer();
    for y in 0..3usize {
        for x in 0..3usize {
            assert_eq!(frame.get_pixel(x, y), Vec3::zero());
        }
    }
}

#[test]
fn scene_tables_return_what_was_stored() {
    let mut scene = DefaultScene::new();
    let mat = Material {
        diffuse: Vec3::new(1, 2, 3),
        specular: Vec3::new(4, 5, 6),
        phong_exp: 7,
    };
    scene.add_object(Geom::sphere(Vec3::zero(), FX_ONE), mat);
    assert_eq!(scene.get_lights_nb(), 0);
    assert_eq!(*scene.get_material(0), mat);
}

#[test]
fn empty_scene_renders_pure_background() {
    // One background light of intensity (1,1,1), no geometry: every pixel
    // must come out exactly (1,1,1) after one iteration.
    let mut scene = DefaultScene::new();
    scene.set_background(Light::Background(BackgroundLight {
        intensity: Vec3::one(),
        scale: FX_ONE,
    }));
    let mut tracer = CpuPathTracer::new_seeded(forward_camera(4), scene, 7);
    tracer.iterate(0);
    let frame = tracer.get_framebuffer();
    for y in 0..4usize {
        for x in 0..4usize {
            assert_eq!(frame.get_pixel(x, y), Vec3::one());
        }
    }
}

#[test]
fn emissive_triangle_covers_pixels_with_its_intensity() {
    // A single emissive triangle directly in front of the camera: every
    // covered pixel records exactly the light's intensity, with no
    // next-event or bounce contribution on top.
    let mut scene = DefaultScene::new();
    let big = 64 * FX_ONE;
    let intensity = Vec3::new(2 * FX_ONE, 3 * FX_ONE, 4 * FX_ONE);
    // Winding chosen so the emitting side faces the camera (normal -z).
    let light = AreaLight::new(
        Vec3::new(-big, -big, 2 * FX_ONE),
        Vec3::new(-big, 2 * big, 2 * FX_ONE),
        Vec3::new(2 * big, -big, 2 * FX_ONE),
        intensity,
    )
    .expect("non-degenerate triangle");
    scene.add_light(Light::Area(light));
    let mut tracer = CpuPathTracer::new_seeded(forward_camera(4), scene, 3);
    tracer.iterate(0);
    let frame = tracer.get_framebuffer();
    for y in 0..4usize {
        for x in 0..4usize {
            assert_eq!(frame.get_pixel(x, y), intensity);
        }
    }
}

#[test]
fn diffuse_sphere_under_environment_is_deterministic_for_a_seed() {
    // A purely diffuse sphere lit only by the background: with a fixed seed
    // the render is reproducible pixel for pixel, and the estimate is
    // non-negative everywhere.
    let material = Material {
        diffuse: Vec3::new(32768, 32768, 32768),
        specular: Vec3::zero(),
        phong_exp: 0,
    };
    let render = || {
        let mut scene = DefaultScene::new();
        scene.set_background(Light::Background(BackgroundLight {
            intensity: Vec3::one(),
            scale: FX_ONE,
        }));
        scene.add_object(
            Geom::sphere(Vec3::new(0, 0, 8 * FX_ONE), 2 * FX_ONE),
            material,
        );
        let mut tracer = CpuPathTracer::new_seeded(forward_camera(8), scene, 42);
        tracer.iterate(1);
        let mut pixels = Vec::new();
        for y in 0..8usize {
            for x in 0..8usize {
                pixels.push(tracer.get_framebuffer().get_pixel(x, y));
            }
        }
        pixels
    };
    let first = render();
    let second = render();
    assert_eq!(first, second);
    for p in &first {
        assert!(p.x >= 0 && p.y >= 0 && p.z >= 0);
    }
}

#[test]
fn iterations_accumulate_into_the_framebuffer() {
    let mut scene = DefaultScene::new();
    scene.set_background(Light::Background(BackgroundLight {
        intensity: Vec3::one(),
        scale: FX_ONE,
    }));
    let mut tracer = CpuPathTracer::new_seeded(forward_camera(2), scene, 9);
    tracer.iterate(0);
    tracer.iterate(1);
    let frame = tracer.get_framebuffer();
    // Two miss-only iterations: each pixel accumulated (1,1,1) twice.
    for y in 0..2usize {
        for x in 0..2usize {
            assert_eq!(frame.get_pixel(x, y), Vec3::new(2 * FX_ONE, 2 * FX_ONE, 2 * FX_ONE));
        }
    }
}

#[test]
fn roulette_never_terminates_at_full_throughput() {
    // A throughput magnitude of one or more survives every possible draw.
    for rnd in 0..FX_ONE {
        assert!(!roulette_terminate(FX_ONE, rnd));
        if rnd % 999 == 0 {
            assert!(!roulette_terminate(3 * FX_ONE, rnd));
        }
    }
    // Below one, a large enough draw terminates.
    assert!(roulette_terminate(32768, 40000));
    assert!(!roulette_terminate(32768, 20000));
}

#[test]
fn power_heuristic_balances_equal_densities() {
    assert_eq!(mis2(FX_ONE, FX_ONE), 32768);
    assert_eq!(mis2(0, 0), 0);
    assert_eq!(mis2(FX_ONE, 0), FX_ONE);
}
