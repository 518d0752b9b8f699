use pathtracer::fx::{
    fx_add, fx_div, fx_mul, fx_sqrt, EPS_RAY, FX_FRAC_1_PI, FX_ONE, FX_PI, FX_TWO_PI,
};
use pathtracer::frame::Frame;
use pathtracer::geom::{geom_intersect, Geom, Ray};
use pathtracer::sampling::{cos_hemisphere_sample_w, fx_cos, fx_sin, fxpow, nth_root};
use pathtracer::scene::{DefaultScene, Scene, SurfaceProperties};
use pathtracer::vec3::{luminance, v3_dot, Vec3};

#[test]
fn fixed_point_arithmetic_exact_values() {
    assert_eq!(fx_mul(2 * FX_ONE, 3 * FX_ONE), 6 * FX_ONE);
    assert_eq!(fx_mul(-2 * FX_ONE, 3 * FX_ONE), -6 * FX_ONE);
    assert_eq!(fx_div(6 * FX_ONE, 3 * FX_ONE), 2 * FX_ONE);
    assert_eq!(fx_div(FX_ONE, 2 * FX_ONE), 32768);
    assert_eq!(fx_sqrt(4 * FX_ONE), 2 * FX_ONE);
    assert_eq!(fx_sqrt(0), 0);
    assert_eq!(fx_add(i64::MAX, i64::MAX), i64::MAX);
    assert_eq!(fxpow(32768, 2), FX_ONE / 4);
}

#[test]
fn luminance_of_white_is_the_weight_sum() {
    assert_eq!(luminance(&Vec3::one()), 65546);
}

#[test]
fn sine_approximation_hits_the_key_angles() {
    // sin(0) = 0, sin(pi/2) = 1, sin(pi) = 0, sin(3pi/2) = -1.
    assert_eq!(fx_sin(0), 0);
    assert!((fx_sin(FX_PI / 2) - FX_ONE).abs() <= 64);
    assert!(fx_sin(FX_PI).abs() <= 64);
    assert!((fx_sin(FX_PI + FX_PI / 2) + FX_ONE).abs() <= 64);
    assert!((fx_cos(0) - FX_ONE).abs() <= 64);
    assert!(fx_cos(FX_PI / 2).abs() <= 64);
    assert!((fx_cos(FX_PI) + FX_ONE).abs() <= 64);
    assert!(fx_sin(FX_TWO_PI).abs() <= 64);
}

#[test]
fn nth_root_brackets_its_argument() {
    for k in 1..6u32 {
        for a in [0i64, 1, 100, 32768, 65535] {
            let r = nth_root(a, k);
            assert!(0 <= r && r <= FX_ONE);
            assert!(fxpow(r, k) <= a);
            assert!(a < fxpow(r + 1, k));
        }
    }
    // The square root of a quarter is a half.
    assert_eq!(nth_root(FX_ONE / 4, 2), FX_ONE / 2);
}

#[test]
fn cosine_hemisphere_pdf_tracks_the_cosine() {
    for a in 0..16i64 {
        for b in 0..16i64 {
            let (dir, pdf) = cos_hemisphere_sample_w((a * 4096, b * 4096));
            assert!(dir.z >= 0);
            assert_eq!(pdf, fx_mul(dir.z, FX_FRAC_1_PI));
        }
    }
}

#[test]
fn frame_round_trips_are_close() {
    let n = Vec3::new(FX_ONE / 3, FX_ONE / 2, FX_ONE);
    let frame = Frame::from_z(&n);
    let v = Vec3::new(20000, -30000, 40000);
    let back = frame.to_world(&frame.to_local(&v));
    assert!((back.x - v.x).abs() <= 256);
    assert!((back.y - v.y).abs() <= 256);
    assert!((back.z - v.z).abs() <= 256);
    // The basis is orthogonal up to rounding.
    assert!(v3_dot(&frame.ox, &frame.oy).abs() <= 16);
    assert!(v3_dot(&frame.ox, &frame.oz).abs() <= 16);
    assert!(v3_dot(&frame.oy, &frame.oz).abs() <= 16);
}

#[test]
fn ray_hits_sphere_at_exact_distance() {
    let g = Geom::sphere(Vec3::new(0, 0, 10 * FX_ONE), FX_ONE);
    let ray = Ray { orig: Vec3::zero(), dir: Vec3::new(0, 0, FX_ONE) };
    let (dist, normal) = geom_intersect(&g, &ray).expect("ray aims at the sphere");
    assert_eq!(dist, 9 * FX_ONE);
    assert_eq!(normal, Vec3::new(0, 0, -FX_ONE));
    // A ray pointing away misses.
    let away = Ray { orig: Vec3::zero(), dir: Vec3::new(0, 0, -FX_ONE) };
    assert!(geom_intersect(&g, &away).is_none());
}

#[test]
fn ray_hits_triangle_inside_only() {
    let g = Geom::triangle(
        Vec3::new(-FX_ONE, -FX_ONE, 4 * FX_ONE),
        Vec3::new(3 * FX_ONE, -FX_ONE, 4 * FX_ONE),
        Vec3::new(-FX_ONE, 3 * FX_ONE, 4 * FX_ONE),
    );
    let hit = Ray { orig: Vec3::zero(), dir: Vec3::new(0, 0, FX_ONE) };
    let (dist, _normal) = geom_intersect(&g, &hit).expect("center is inside");
    assert_eq!(dist, 4 * FX_ONE);
    // Aiming far out of the triangle's plane footprint misses.
    let miss = Ray {
        orig: Vec3::new(10 * FX_ONE, 10 * FX_ONE, 0),
        dir: Vec3::new(0, 0, FX_ONE),
    };
    assert!(geom_intersect(&g, &miss).is_none());
    // A parallel ray misses.
    let parallel = Ray { orig: Vec3::zero(), dir: Vec3::new(FX_ONE, 0, 0) };
    assert!(geom_intersect(&g, &parallel).is_none());
}

#[test]
fn nearest_intersection_picks_the_closest_surface() {
    let mut scene = DefaultScene::new();
    let mat = pathtracer::brdf::Material::new_identity();
    scene.add_object(Geom::sphere(Vec3::new(0, 0, 10 * FX_ONE), FX_ONE), mat);
    scene.add_object(Geom::sphere(Vec3::new(0, 0, 5 * FX_ONE), FX_ONE), mat);
    let ray = Ray { orig: Vec3::zero(), dir: Vec3::new(0, 0, FX_ONE) };
    let isect = scene.nearest_intersection(&ray).expect("both spheres are ahead");
    assert_eq!(isect.dist, 4 * FX_ONE);
    assert!(matches!(isect.surface, SurfaceProperties::Material(1)));
    assert!(isect.dist >= EPS_RAY);
}

#[test]
fn bounding_sphere_wraps_a_sphere() {
    let mut scene = DefaultScene::new();
    let mat = pathtracer::brdf::Material::new_identity();
    scene.add_object(Geom::sphere(Vec3::zero(), FX_ONE), mat);
    let b = scene.bounding_sphere();
    assert_eq!(b.center, Vec3::zero());
    // Diagonal of the 2x2x2 box: sqrt(12) = 3.4641...
    assert_eq!(b.radius, 227023);
    assert_eq!(b.inv_radius_sqr, 5461);
}
