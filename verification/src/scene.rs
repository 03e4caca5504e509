//! The scene aggregate: the primitive and light lists, the global
//! nearest-intersection resolver, the shadow test, and the direct diffuse
//! illumination sum.

use vstd::prelude::*;

use crate::fixed::fx_div;
use crate::fixed::fx_max;
use crate::fixed::fx_mul;
use crate::fixed::fxd;
use crate::fixed::fxm;
use crate::fixed::spec_max2;
use crate::sphere::spec_sphere_intersect;
use crate::sphere::Sphere;
use crate::types::Intersection;
use crate::types::Object;
use crate::types::PointLight;
use crate::types::Ray;
use crate::types::RenderConfig;
use crate::vec3::spec_dot;
use crate::vec3::spec_len2;
use crate::vec3::spec_normalize;
use crate::vec3::spec_vadd;
use crate::vec3::spec_vscale;
use crate::vec3::spec_vsub;
use crate::vec3::vec3_zero;
use crate::vec3::Vec3;

verus! {

/// The scene: an ordered list of primitives and an ordered list of point
/// lights, assembled before rendering and read-only afterwards.
pub struct Scene {
    pub primitives: Vec<Sphere>,
    pub lights: Vec<PointLight>,
}

/// The nearest intersection among the first `n` primitives. When two
/// primitives report exactly equal distances, the earlier one in the list
/// wins: a strictly smaller distance is needed to displace the current
/// best (the documented deterministic tie-break).
pub open spec fn spec_nearest_upto(prims: Seq<Sphere>, ray: Ray, eps: i64, n: int) -> Option<
    Intersection,
>
    decreases n,
{
    if n <= 0 {
        None
    } else {
        let prev = spec_nearest_upto(prims, ray, eps, n - 1);
        let cur = spec_sphere_intersect(prims[n - 1], ray, eps);
        match (prev, cur) {
            (Option::None, c) => c,
            (p, Option::None) => p,
            (Option::Some(p), Option::Some(c)) => if c.distance < p.distance {
                Some(c)
            } else {
                Some(p)
            },
        }
    }
}

/// The globally nearest intersection of the ray with the scene.
pub open spec fn spec_nearest(scene: Scene, ray: Ray, eps: i64) -> Option<Intersection> {
    spec_nearest_upto(scene.primitives@, ray, eps, scene.primitives@.len() as int)
}

/// Whether one primitive occludes the direct path from `point` to the
/// light: the shadow ray from the point toward the light hits it at a
/// distance not beyond the light (compared by squared distances).
pub open spec fn spec_light_blocked(prim: Sphere, point: Vec3, light: PointLight, eps: i64) -> bool {
    let to_light = spec_vsub(light.origin, point);
    let shadow_ray = (Ray { origin: point, dir: spec_normalize(to_light) });
    match spec_sphere_intersect(prim, shadow_ray, eps) {
        Option::Some(hit) => fxm(hit.distance, hit.distance) <= spec_len2(to_light),
        Option::None => false,
    }
}

/// Whether any of the first `n` primitives occludes the path to the light.
pub open spec fn spec_shadowed_upto(
    prims: Seq<Sphere>,
    point: Vec3,
    light: PointLight,
    eps: i64,
    n: int,
) -> bool
    decreases n,
{
    if n <= 0 {
        false
    } else {
        spec_shadowed_upto(prims, point, light, eps, n - 1) || spec_light_blocked(
            prims[n - 1],
            point,
            light,
            eps,
        )
    }
}

/// Whether the shading point lies in shadow with respect to the light.
pub open spec fn spec_shadowed(scene: Scene, point: Vec3, light: PointLight, eps: i64) -> bool {
    spec_shadowed_upto(scene.primitives@, point, light, eps, scene.primitives@.len() as int)
}

/// The diffuse contribution of one light at a shading point:
/// `color * intensity * max(0, normal . to_light) / max(dist2, radius2)`,
/// zero when the point is shadowed or the light is behind the surface.
pub open spec fn spec_light_term(
    scene: Scene,
    point: Vec3,
    normal: Vec3,
    light: PointLight,
    eps: i64,
) -> Vec3 {
    if spec_shadowed(scene, point, light, eps) {
        vec3_zero()
    } else {
        let to_light = spec_vsub(light.origin, point);
        let lambert = spec_dot(normal, spec_normalize(to_light));
        if lambert <= 0 {
            vec3_zero()
        } else {
            let denom = spec_max2(spec_len2(to_light), fxm(light.radius, light.radius));
            spec_vscale(light.color, fxd(fxm(light.intensity, lambert), denom))
        }
    }
}

/// The summed diffuse contribution of the first `n` lights.
pub open spec fn spec_diffuse_upto(scene: Scene, point: Vec3, normal: Vec3, eps: i64, n: int) -> Vec3
    decreases n,
{
    if n <= 0 {
        vec3_zero()
    } else {
        spec_vadd(
            spec_diffuse_upto(scene, point, normal, eps, n - 1),
            spec_light_term(scene, point, normal, scene.lights@[n - 1], eps),
        )
    }
}

/// The total direct diffuse illumination at a shading point, before the
/// caller scales it by the material's diffuse coefficient.
pub open spec fn spec_diffuse(scene: Scene, point: Vec3, normal: Vec3, eps: i64) -> Vec3 {
    spec_diffuse_upto(scene, point, normal, eps, scene.lights@.len() as int)
}

impl Scene {
    /// Builds a scene from its primitive and light lists.
    pub fn new(primitives: Vec<Sphere>, lights: Vec<PointLight>) -> (r: Scene)
        ensures
            r.primitives@ == primitives@,
            r.lights@ == lights@,
    {
        Scene { primitives, lights }
    }

    /// The globally nearest intersection of the ray across all
    /// primitives, or none if the ray hits nothing.
    pub fn intersect(&self, ray: &Ray, cfg: &RenderConfig) -> (r: Option<Intersection>)
        ensures
            r == spec_nearest(*self, *ray, cfg.min_ray_distance),
    {
        let mut best: Option<Intersection> = None;
        let mut i: usize = 0;
        while i < self.primitives.len()
            invariant
                i <= self.primitives.len(),
                best == spec_nearest_upto(
                    self.primitives@,
                    *ray,
                    cfg.min_ray_distance,
                    i as int,
                ),
            decreases self.primitives.len() - i,
        {
            let cur = self.primitives[i].intersect(ray, cfg);
            best = match (best, cur) {
                (None, c) => c,
                (p, None) => p,
                (Some(p), Some(c)) => if c.distance < p.distance {
                    Some(c)
                } else {
                    Some(p)
                },
            };
            i = i + 1;
        }
        best
    }

    /// Whether any primitive occludes the direct path from the shading
    /// point to the light. Every primitive is consulted, not only the one
    /// that produced the point.
    pub fn is_shadowed(&self, point: &Vec3, light: &PointLight, cfg: &RenderConfig) -> (r: bool)
        ensures
            r == spec_shadowed(*self, *point, *light, cfg.min_ray_distance),
    {
        let to_light = light.origin.minus(point);
        let dist2 = to_light.norm2();
        let shadow_ray = Ray { origin: *point, dir: to_light.normalize() };
        let mut found: bool = false;
        let mut i: usize = 0;
        while i < self.primitives.len()
            invariant
                i <= self.primitives.len(),
                shadow_ray == (Ray {
                    origin: *point,
                    dir: spec_normalize(spec_vsub(light.origin, *point)),
                }),
                dist2 == spec_len2(spec_vsub(light.origin, *point)),
                found == spec_shadowed_upto(
                    self.primitives@,
                    *point,
                    *light,
                    cfg.min_ray_distance,
                    i as int,
                ),
            decreases self.primitives.len() - i,
        {
            let blocked: bool = match self.primitives[i].intersect(&shadow_ray, cfg) {
                Some(hit) => fx_mul(hit.distance, hit.distance) <= dist2,
                None => false,
            };
            found = found || blocked;
            i = i + 1;
        }
        found
    }

    /// The attenuated, shadow-filtered diffuse contribution of all lights
    /// at a shading point with the given surface normal.
    pub fn illumination(&self, point: &Vec3, normal: &Vec3, cfg: &RenderConfig) -> (r: Vec3)
        ensures
            r == spec_diffuse(*self, *point, *normal, cfg.min_ray_distance),
    {
        let mut sum = Vec3::zero();
        let mut i: usize = 0;
        while i < self.lights.len()
            invariant
                i <= self.lights.len(),
                sum == spec_diffuse_upto(
                    *self,
                    *point,
                    *normal,
                    cfg.min_ray_distance,
                    i as int,
                ),
            decreases self.lights.len() - i,
        {
            let light = self.lights[i];
            let term: Vec3 = if self.is_shadowed(point, &light, cfg) {
                Vec3::zero()
            } else {
                let to_light = light.origin.minus(point);
                let lambert = normal.dot(&to_light.normalize());
                if lambert <= 0 {
                    Vec3::zero()
                } else {
                    let denom = fx_max(to_light.norm2(), fx_mul(light.radius, light.radius));
                    light.color.scale(fx_div(fx_mul(light.intensity, lambert), denom))
                }
            };
            sum = sum.plus(&term);
            i = i + 1;
        }
        sum
    }
}

} // verus!
