use pathtracer::brdf::{Brdf, Material, Probabilities};
use pathtracer::frame::Frame;
use pathtracer::fx::{fx_div, fx_mul, FX_ONE, FX_FRAC_1_PI};
use pathtracer::vec3::Vec3;

fn down_ray() -> Vec3 {
    // A ray direction looking straight down at a surface whose normal is +z.
    Vec3::new(0, 0, -FX_ONE)
}

fn up_normal() -> Vec3 {
    Vec3::new(0, 0, FX_ONE)
}

#[test]
fn absorptive_material_never_samples() {
    let mat = Material::new_identity();
    let brdf = Brdf::new(&down_ray(), &up_normal(), &mat).expect("front-facing hit");
    for a in 0..16i64 {
        for b in 0..16i64 {
            let rnd = (a * 4096, b * 4096, (a * 7 + b) % 16 * 4096);
            assert!(brdf.sample(rnd).is_none());
        }
    }
}

#[test]
fn probability_split_pure_diffuse() {
    let mat = Material {
        diffuse: Vec3::one(),
        specular: Vec3::zero(),
        phong_exp: 0,
    };
    let probs = Probabilities::new(&mat);
    // luminance of (1,1,1) is 65546 raw; diffuse share is exactly one.
    assert_eq!(probs.continuation, 65546);
    assert_eq!(probs.diffuse, FX_ONE);
    assert_eq!(probs.phong, 0);
}

#[test]
fn probability_split_mixture_sums_to_one() {
    let mat = Material {
        diffuse: Vec3::new(32768, 32768, 32768),
        specular: Vec3::new(16384, 16384, 16384),
        phong_exp: 30,
    };
    let probs = Probabilities::new(&mat);
    let total = mat.total_albedo();
    assert_eq!(probs.continuation, total);
    assert_eq!(probs.diffuse, fx_div(mat.albedo_diffuse(), total));
    assert_eq!(probs.phong, fx_div(mat.albedo_specular(), total));
    assert!(probs.diffuse >= 0 && probs.phong >= 0);
    assert!(probs.diffuse + probs.phong <= FX_ONE);
    // The two shares make the whole, up to one rounding unit.
    assert!(probs.diffuse + probs.phong >= FX_ONE - 1);
}

#[test]
fn probability_split_zero_albedo_material() {
    let probs = Probabilities::new(&Material::new_identity());
    assert_eq!(probs.diffuse, 0);
    assert_eq!(probs.phong, 0);
    assert_eq!(probs.continuation, 0);
}

#[test]
fn diffuse_sample_weight_and_pdf_cancellation() {
    let mat = Material {
        diffuse: Vec3::new(30000, 20000, 10000),
        specular: Vec3::zero(),
        phong_exp: 0,
    };
    let brdf = Brdf::new(&down_ray(), &up_normal(), &mat).expect("front-facing hit");
    let mut seen = 0;
    for a in 0..16i64 {
        for b in 0..16i64 {
            if let Some(s) = brdf.lambert_sample((a * 4096, b * 4096)) {
                // The weight is the diffuse albedo itself and the density is
                // cos(theta)/pi, whatever the random numbers were.
                assert_eq!(s.radiance, mat.diffuse);
                assert_eq!(s.pdf, fx_mul(s.cos_theta_in, FX_FRAC_1_PI));
                assert!(s.cos_theta_in >= 0);
                seen += 1;
            }
        }
    }
    assert!(seen > 0);
}

#[test]
fn specular_sample_weight_is_specular_albedo() {
    let mat = Material {
        diffuse: Vec3::zero(),
        specular: Vec3::new(25000, 25000, 25000),
        phong_exp: 20,
    };
    let brdf = Brdf::new(&down_ray(), &up_normal(), &mat).expect("front-facing hit");
    let mut seen = 0;
    for a in 0..8i64 {
        for b in 0..8i64 {
            // With a zero diffuse probability every draw picks the glossy lobe.
            if let Some(s) = brdf.sample((FX_ONE - 1, a * 8192, b * 8192)) {
                assert_eq!(s.radiance, mat.specular);
                // A present sample always carries a positive density.
                assert!(s.pdf > 0);
                seen += 1;
            }
        }
    }
    assert!(seen > 0);
}

#[test]
fn eval_below_horizon_is_absent() {
    let mat = Material {
        diffuse: Vec3::one(),
        specular: Vec3::one(),
        phong_exp: 5,
    };
    let brdf = Brdf::new(&down_ray(), &up_normal(), &mat).expect("front-facing hit");
    // Directions at or below the surface plane must evaluate to nothing.
    assert!(brdf.eval(&Vec3::new(0, 0, -FX_ONE)).is_none());
    assert!(brdf.eval(&Vec3::new(FX_ONE, 0, -FX_ONE)).is_none());
    assert!(brdf.eval(&Vec3::new(FX_ONE, 0, 0)).is_none());
}

#[test]
fn eval_above_horizon_mixes_lobes() {
    let mat = Material {
        diffuse: Vec3::one(),
        specular: Vec3::zero(),
        phong_exp: 0,
    };
    let brdf = Brdf::new(&down_ray(), &up_normal(), &mat).expect("front-facing hit");
    let e = brdf.eval(&Vec3::new(0, 0, FX_ONE)).expect("straight up is visible");
    // Pure diffuse seen straight on: density is cos/pi with cos == one, and
    // the diffuse probability is one, so the pdf is 1/pi exactly.
    assert_eq!(e.pdf, FX_FRAC_1_PI);
    assert_eq!(e.radiance, Vec3::new(FX_FRAC_1_PI, FX_FRAC_1_PI, FX_FRAC_1_PI));
}

#[test]
fn eval_never_pairs_value_with_zero_density() {
    // A mixed material queried at a near-grazing direction: the mixture
    // density would truncate to zero while a value channel survives, so the
    // evaluation must be absent rather than break the pdf invariant.
    let mat = Material {
        diffuse: Vec3::new(0x4000_0000, 0, 0),
        specular: Vec3::new(0, 0x4000_0000, 0),
        phong_exp: 1,
    };
    let canonical = Frame {
        ox: Vec3::new(FX_ONE, 0, 0),
        oy: Vec3::new(0, FX_ONE, 0),
        oz: Vec3::new(0, 0, FX_ONE),
    };
    let brdf = Brdf {
        material: mat,
        own_basis: canonical,
        wo_local: Vec3::new(0, FX_ONE, 1),
        probs: Probabilities::new(&mat),
    };
    let grazing = brdf.eval(&Vec3::new(FX_ONE, 0, 10));
    assert!(grazing.is_none());
    // Every present evaluation of this instance has a positive density.
    for z in [1i64, 10, 100, 1000, 10000, FX_ONE] {
        if let Some(e) = brdf.eval(&Vec3::new(FX_ONE, 0, z)) {
            assert!(e.pdf > 0);
        }
    }
}

#[test]
fn grazing_construction_fails() {
    let mat = Material {
        diffuse: Vec3::one(),
        specular: Vec3::zero(),
        phong_exp: 0,
    };
    // Viewing from behind the surface: construction must fail.
    let behind = Brdf::new(&Vec3::new(0, 0, FX_ONE), &up_normal(), &mat);
    assert!(behind.is_none());
    // Grazing incidence (outgoing direction in the surface plane) fails too.
    let grazing = Brdf::new(&Vec3::new(FX_ONE, 0, 0), &up_normal(), &mat);
    assert!(grazing.is_none());
}
