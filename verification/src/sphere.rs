//! The sphere primitive and its analytic line-sphere intersection test.

use vstd::prelude::*;

use crate::fixed::fx_add;
use crate::fixed::fx_mul;
use crate::fixed::fx_neg;
use crate::fixed::fx_sqrt;
use crate::fixed::fx_sub;
use crate::fixed::fxa;
use crate::fixed::fxm;
use crate::fixed::fxn;
use crate::fixed::fxs;
use crate::fixed::fxsq;
use crate::types::Intersection;
use crate::types::Material;
use crate::types::Object;
use crate::types::Ray;
use crate::types::RenderConfig;
use crate::vec3::spec_dot;
use crate::vec3::spec_len2;
use crate::vec3::spec_normalize;
use crate::vec3::spec_vadd;
use crate::vec3::spec_vscale;
use crate::vec3::spec_vsub;
use crate::vec3::Vec3;

verus! {

/// A sphere: a center, a radius, and the material of its surface.
#[derive(Clone, Copy, PartialEq, Eq, Structural, Debug)]
pub struct Sphere {
    pub origin: Vec3,
    pub radius: i64,
    pub material: Material,
}

/// The offset from the sphere's center to the ray's origin.
pub open spec fn spec_center_diff(s: Sphere, ray: Ray) -> Vec3 {
    spec_vsub(ray.origin, s.origin)
}

/// The projection of the center offset onto the ray direction; the two
/// intersection roots are `-d ± sqrt(delta)`.
pub open spec fn spec_sphere_d(s: Sphere, ray: Ray) -> i64 {
    spec_dot(ray.dir, spec_center_diff(s, ray))
}

/// The discriminant `d² - |diff|² + radius²` of the line-sphere equation;
/// negative exactly when the line misses the sphere.
pub open spec fn spec_sphere_delta(s: Sphere, ray: Ray) -> i64 {
    let diff = spec_center_diff(s, ray);
    let d = spec_sphere_d(s, ray);
    fxa(fxs(fxm(d, d), spec_len2(diff)), fxm(s.radius, s.radius))
}

/// The smaller intersection root, `-d - sqrt(delta)`.
pub open spec fn spec_near_root(s: Sphere, ray: Ray) -> i64 {
    fxs(fxn(spec_sphere_d(s, ray)), fxsq(spec_sphere_delta(s, ray)))
}

/// The larger intersection root, `-d + sqrt(delta)`.
pub open spec fn spec_far_root(s: Sphere, ray: Ray) -> i64 {
    fxa(fxn(spec_sphere_d(s, ray)), fxsq(spec_sphere_delta(s, ray)))
}

/// The intersection record for a hit at distance `t` along the ray: the
/// normal is the unit vector from the center through the hit point.
pub open spec fn spec_sphere_hit(s: Sphere, ray: Ray, t: i64) -> Intersection {
    let hit_point = spec_vadd(ray.origin, spec_vscale(ray.dir, t));
    (Intersection {
        distance: t,
        normal: spec_normalize(spec_vsub(hit_point, s.origin)),
        material: s.material,
    })
}

/// The nearest intersection of the ray with the sphere at a distance
/// greater than `eps`, or none: the near root where it survives the
/// epsilon filter, else the far root, else no hit.
pub open spec fn spec_sphere_intersect(s: Sphere, ray: Ray, eps: i64) -> Option<Intersection> {
    if spec_sphere_delta(s, ray) < 0 {
        None
    } else {
        let near = spec_near_root(s, ray);
        let far = spec_far_root(s, ray);
        if near > eps {
            Some(spec_sphere_hit(s, ray, near))
        } else if far > eps {
            Some(spec_sphere_hit(s, ray, far))
        } else {
            None
        }
    }
}

impl Sphere {
    /// Builds a sphere from its center, radius and material.
    pub fn new(origin: Vec3, radius: i64, material: Material) -> (r: Sphere)
        ensures
            r == (Sphere { origin, radius, material }),
    {
        Sphere { origin, radius, material }
    }
}

impl Object for Sphere {
    open spec fn spec_intersect(&self, ray: Ray, eps: i64) -> Option<Intersection> {
        spec_sphere_intersect(*self, ray, eps)
    }

    fn intersect(&self, ray: &Ray, cfg: &RenderConfig) -> (r: Option<Intersection>) {
        let diff = ray.origin.minus(&self.origin);
        let d = ray.dir.dot(&diff);
        let delta = fx_add(fx_sub(fx_mul(d, d), diff.norm2()), fx_mul(self.radius, self.radius));
        if delta < 0 {
            return None;
        }
        let sqrt_delta = fx_sqrt(delta);
        let base = fx_neg(d);
        let near = fx_sub(base, sqrt_delta);
        let far = fx_add(base, sqrt_delta);
        let t: i64 = if near > cfg.min_ray_distance {
            near
        } else if far > cfg.min_ray_distance {
            far
        } else {
            return None;
        };
        let hit_point = ray.origin.plus(&ray.dir.scale(t));
        Some(
            Intersection {
                distance: t,
                normal: hit_point.minus(&self.origin).normalize(),
                material: self.material,
            },
        )
    }
}

} // verus!
