//! The data model of the renderer: rays, materials, lights, intersections,
//! the tunable rendering constants, and the capability every geometric
//! primitive offers: a ray intersection test.

use vstd::prelude::*;

use crate::vec3::Vec3;

verus! {

/// A ray: an origin and a direction. The direction is expected to be unit
/// length by convention; the type does not enforce it.
#[derive(Clone, Copy, PartialEq, Eq, Structural, Debug)]
pub struct Ray {
    pub origin: Vec3,
    pub dir: Vec3,
}

/// A point light with an intensity and a falloff-floor radius that keeps
/// the attenuation denominator away from zero near the light.
#[derive(Clone, Copy, PartialEq, Eq, Structural, Debug)]
pub struct PointLight {
    pub origin: Vec3,
    pub color: Vec3,
    pub intensity: i64,
    pub radius: i64,
}

/// A surface material: ambient color `ia`, per-channel diffuse (`kd`),
/// specular (`ks`) and transmissive (`kt`) weights, and the scalar
/// refractive index `kn`.
#[derive(Clone, Copy, PartialEq, Eq, Structural, Debug)]
pub struct Material {
    pub ia: Vec3,
    pub kd: Vec3,
    pub ks: Vec3,
    pub kt: Vec3,
    pub kn: i64,
}

/// The result of a ray hitting a primitive: the distance along the ray,
/// the unit outward surface normal at the hit point, and a copy of the hit
/// primitive's material.
#[derive(Clone, Copy, PartialEq, Eq, Structural, Debug)]
pub struct Intersection {
    pub distance: i64,
    pub normal: Vec3,
    pub material: Material,
}

/// The tunable constants the renderer consumes: the self-intersection
/// epsilon (the least distance a hit may report) and the recursion bound.
#[derive(Clone, Copy, PartialEq, Eq, Structural, Debug)]
pub struct RenderConfig {
    pub min_ray_distance: i64,
    pub max_depth: u32,
}

impl RenderConfig {
    /// A configuration is usable when the epsilon is a positive distance
    /// and one more recursion level can still be counted.
    pub open spec fn wf(self) -> bool {
        self.min_ray_distance > 0 && self.max_depth < u32::MAX
    }

    /// Builds a configuration from the two tunables.
    pub fn new(min_ray_distance: i64, max_depth: u32) -> (r: RenderConfig)
        requires
            min_ray_distance > 0,
            max_depth < u32::MAX,
        ensures
            r == (RenderConfig { min_ray_distance, max_depth }),
            r.wf(),
    {
        RenderConfig { min_ray_distance, max_depth }
    }
}

/// The capability of a geometric primitive: finding the first intersection
/// of a ray with itself. Hits nearer than the configured epsilon are
/// ignored, suppressing self-intersection artifacts at the ray's origin.
pub trait Object {
    /// What the intersection test returns, as a mathematical function of
    /// the primitive, the ray, and the epsilon.
    spec fn spec_intersect(&self, ray: Ray, eps: i64) -> Option<Intersection>;

    /// Finds the nearest intersection of `ray` with this primitive at a
    /// distance greater than the epsilon, or none.
    fn intersect(&self, ray: &Ray, cfg: &RenderConfig) -> (r: Option<Intersection>)
        ensures
            r == self.spec_intersect(*ray, cfg.min_ray_distance),
    ;
}

} // verus!
