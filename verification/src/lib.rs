//! A Whitted-style recursive ray tracer: nearest-hit resolution over a scene
//! of spheres, shadow-filtered diffuse lighting, and reflection/refraction
//! ray splitting, with a fixed recursion depth bound.
//!
//! All scalar quantities (coordinates, colors, coefficients) are 16.16
//! fixed-point numbers held in `i64`, so that every arithmetic step has an
//! exact, verifiable meaning. Saturation at the `i64` range replaces
//! overflow; degenerate cases (zero-length normalization, zero divisors)
//! resolve to zero by documented policy rather than failing.

pub mod fixed;
pub mod vec3;
pub mod types;
pub mod sphere;
pub mod scene;
pub mod shade;
pub mod laws;
