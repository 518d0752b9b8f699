//! Core of a small physically based renderer: a mixed diffuse/glossy
//! reflectance model with importance sampling, area and background light
//! sources, and a stochastic path integrator.
//!
//! All scalar quantities are fixed-point numbers (see [`fx`]): signed 64-bit
//! integers that stand for the real value `raw / 65536`. Arithmetic saturates
//! at the representation's bounds, so every operation is total and each
//! function's contract states its result exactly over the integer model.

pub mod fx;
pub mod vec3;
pub mod frame;
pub mod sampling;
pub mod brdf;
pub mod geom;
pub mod light;
pub mod scene;
pub mod framebuffer;
pub mod camera;
pub mod rng;
pub mod pathtracer;
