use pathtracer::fx::{fx_div, fx_mul, DIST_FAR, FX_FRAC_1_4PI, FX_ONE, PDF_NONE};
use pathtracer::geom::Ray;
use pathtracer::light::{AreaLight, BackgroundLight, Light, PointLight};
use pathtracer::vec3::{v3_dot, v3_neg, v3_norm, v3_sqnorm, v3_sub, Vec3};

fn unit_triangle_light() -> AreaLight {
    // Triangle in the z = 0 plane; its normal points along +z.
    AreaLight::new(
        Vec3::new(0, 0, 0),
        Vec3::new(4 * FX_ONE, 0, 0),
        Vec3::new(0, 4 * FX_ONE, 0),
        Vec3::new(FX_ONE, 2 * FX_ONE, 3 * FX_ONE),
    )
    .expect("non-degenerate triangle")
}

#[test]
fn area_light_pdf_matches_conversion_formula() {
    let light = unit_triangle_light();
    let receiver = Vec3::new(FX_ONE, FX_ONE, 2 * FX_ONE);
    let as_light = Light::Area(light);
    let mut checked = 0;
    for a in 0..8i64 {
        for b in 0..8i64 {
            let rnd = (a * 8192, b * 8192);
            let illum = as_light
                .illuminate(&receiver, rnd)
                .expect("receiver away from the triangle");
            if illum.dir_pdf_w > 0 {
                let cos = v3_dot(&Vec3::new(0, 0, FX_ONE), &v3_neg(&illum.dir_to_light));
                assert!(cos > 0);
                assert_eq!(illum.radiance, Vec3::new(FX_ONE, 2 * FX_ONE, 3 * FX_ONE));
                checked += 1;
            } else {
                assert_eq!(illum.dir_pdf_w, PDF_NONE);
                assert_eq!(illum.radiance, Vec3::zero());
            }
        }
    }
    assert!(checked > 0);
}

#[test]
fn area_light_exact_pdf_straight_above_vertex() {
    let light = unit_triangle_light();
    let inv_area = light.inv_area;
    let as_light = Light::Area(light);
    // rnd = (0, 0) samples u = 1, v = 0: the vertex p0 + e1 = (4, 0, 0).
    // The receiver sits one unit straight above it.
    let receiver = Vec3::new(4 * FX_ONE, 0, FX_ONE);
    let illum = as_light.illuminate(&receiver, (0, 0)).expect("distinct points");
    // Direction to the light is straight down, distance one, cosine one.
    assert_eq!(illum.dir_to_light, Vec3::new(0, 0, -FX_ONE));
    assert_eq!(illum.dist_to_light, FX_ONE);
    let full = v3_sub(&Vec3::new(4 * FX_ONE, 0, 0), &receiver);
    let dist_sq = v3_sqnorm(&full);
    assert_eq!(illum.dir_pdf_w, fx_mul(inv_area, fx_div(dist_sq, FX_ONE)));
    assert!(illum.dir_pdf_w > 0);
}

#[test]
fn area_light_behind_plane_gets_sentinel() {
    let light = Light::Area(unit_triangle_light());
    // A receiver below the z = 0 plane faces the back of the light.
    let receiver = Vec3::new(FX_ONE, FX_ONE, -2 * FX_ONE);
    for a in 0..8i64 {
        let illum = light
            .illuminate(&receiver, (a * 8192, a * 4096))
            .expect("receiver away from the triangle");
        assert_eq!(illum.radiance, Vec3::zero());
        assert_eq!(illum.dir_pdf_w, PDF_NONE);
    }
}

#[test]
fn area_light_vast_triangle_is_rejected() {
    // So large a triangle that the reciprocal of its area rounds to zero.
    let huge = 1i64 << 40;
    let rejected = AreaLight::new(
        Vec3::new(0, 0, 0),
        Vec3::new(huge, 0, 0),
        Vec3::new(0, huge, 0),
        Vec3::one(),
    );
    assert!(rejected.is_none());
}

#[test]
fn area_light_degenerate_triangle_is_rejected() {
    let degenerate = AreaLight::new(
        Vec3::new(0, 0, 0),
        Vec3::new(FX_ONE, 0, 0),
        Vec3::new(2 * FX_ONE, 0, 0),
        Vec3::one(),
    );
    assert!(degenerate.is_none());
}

#[test]
fn background_illuminate_constant_pdf_and_far_distance() {
    let light = Light::Background(BackgroundLight { intensity: Vec3::one(), scale: FX_ONE });
    for a in 0..8i64 {
        for b in 0..8i64 {
            let illum = light
                .illuminate(&Vec3::zero(), (a * 8192, b * 8192))
                .expect("background always illuminates");
            assert_eq!(illum.dir_pdf_w, FX_FRAC_1_4PI);
            assert_eq!(illum.dist_to_light, DIST_FAR);
            assert_eq!(illum.radiance, Vec3::one());
            // Direction components stay in the unit ball.
            assert!(illum.dir_to_light.x.abs() <= FX_ONE);
            assert!(illum.dir_to_light.y.abs() <= FX_ONE);
            assert!(illum.dir_to_light.z.abs() <= FX_ONE);
        }
    }
}

#[test]
fn background_radiate_scales_intensity() {
    let light = Light::Background(BackgroundLight {
        intensity: Vec3::new(2 * FX_ONE, 4 * FX_ONE, 6 * FX_ONE),
        scale: 32768,
    });
    let ray = Ray { orig: Vec3::zero(), dir: Vec3::new(0, 0, FX_ONE) };
    let rad = light.radiate(&ray).expect("background radiates everywhere");
    assert_eq!(rad.radiance, Vec3::new(FX_ONE, 2 * FX_ONE, 3 * FX_ONE));
    assert_eq!(rad.pdf, FX_FRAC_1_4PI);
}

#[test]
fn area_radiate_emits_only_forward() {
    let light = Light::Area(unit_triangle_light());
    // A ray travelling downward sees the emitting (+z) side.
    let seen = light.radiate(&Ray { orig: Vec3::zero(), dir: Vec3::new(0, 0, -FX_ONE) });
    assert!(seen.is_some());
    let rad = seen.unwrap();
    assert_eq!(rad.radiance, Vec3::new(FX_ONE, 2 * FX_ONE, 3 * FX_ONE));
    assert!(rad.pdf > 0);
    // A ray travelling upward sees the dark back side.
    let unseen = light.radiate(&Ray { orig: Vec3::zero(), dir: Vec3::new(0, 0, FX_ONE) });
    assert!(unseen.is_none());
}

#[test]
fn only_the_point_light_is_singular() {
    let point = Light::Point(PointLight { intensity: Vec3::one(), position: Vec3::zero() });
    let area = Light::Area(unit_triangle_light());
    let bg = Light::Background(BackgroundLight { intensity: Vec3::one(), scale: FX_ONE });
    assert!(point.is_delta());
    assert!(!area.is_delta());
    assert!(!bg.is_delta());
}

#[test]
fn point_light_falls_with_squared_distance() {
    let point = Light::Point(PointLight {
        intensity: Vec3::new(8 * FX_ONE, 8 * FX_ONE, 8 * FX_ONE),
        position: Vec3::new(0, 0, 2 * FX_ONE),
    });
    let illum = point.illuminate(&Vec3::zero(), (0, 0)).expect("distinct points");
    // Distance two: intensity divided by four.
    assert_eq!(illum.dist_to_light, 2 * FX_ONE);
    assert_eq!(illum.dir_to_light, Vec3::new(0, 0, FX_ONE));
    assert_eq!(
        illum.radiance,
        Vec3::new(2 * FX_ONE, 2 * FX_ONE, 2 * FX_ONE)
    );
    assert!(illum.dir_pdf_w > 0);
    let norm = v3_norm(&illum.dir_to_light);
    assert_eq!(norm, FX_ONE);
}
