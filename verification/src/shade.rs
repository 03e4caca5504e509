//! The ray splitter and the recursive Whitted shader.
//!
//! The splitter derives the reflected and (optionally) transmitted child
//! rays from an incident ray and an intersection; the shader composes the
//! final color `ia + kd*diffuse + ks*reflected + kt*transmitted`, recursing
//! on the child rays until the depth bound is exceeded.

use vstd::prelude::*;

use crate::fixed::fx_div;
use crate::fixed::fx_mul;
use crate::fixed::fx_neg;
use crate::fixed::fx_sqrt;
use crate::fixed::fx_sub;
use crate::fixed::fxd;
use crate::fixed::fxm;
use crate::fixed::fxn;
use crate::fixed::fxs;
use crate::fixed::fxsq;
use crate::fixed::FX_ONE;
use crate::scene::spec_diffuse;
use crate::scene::spec_nearest;
use crate::scene::Scene;
use crate::types::Intersection;
use crate::types::Material;
use crate::types::Ray;
use crate::types::RenderConfig;
use crate::vec3::spec_cmul;
use crate::vec3::spec_dot;
use crate::vec3::spec_len2;
use crate::vec3::spec_normalize;
use crate::vec3::spec_vadd;
use crate::vec3::spec_vdivs;
use crate::vec3::spec_vneg;
use crate::vec3::spec_vscale;
use crate::vec3::spec_vsub;
use crate::vec3::vec3_zero;
use crate::vec3::Vec3;

verus! {

/// The point the ray reaches after traveling `t`.
pub open spec fn spec_ray_point(ray: Ray, t: i64) -> Vec3 {
    spec_vadd(ray.origin, spec_vscale(ray.dir, t))
}

/// The normal and refractive index used by the splitting equations, which
/// assume the incident direction enters the surface (`V . N < 0`). When the
/// ray exits the medium instead, the normal is flipped and the index
/// inverted, modeling the boundary crossed in the opposite sense.
pub open spec fn spec_oriented(ray: Ray, hit: Intersection) -> (Vec3, i64) {
    if spec_dot(ray.dir, hit.normal) < 0 {
        (hit.normal, hit.material.kn)
    } else {
        (spec_vneg(hit.normal), fxd(FX_ONE, hit.material.kn))
    }
}

/// The incident direction rescaled by `1 / |V . N|` (zero when the ray
/// grazes the surface exactly, by the zero-divisor policy).
pub open spec fn spec_vprime(ray: Ray, hit: Intersection) -> Vec3 {
    let n = spec_oriented(ray, hit).0;
    let vn = spec_dot(ray.dir, n);
    let mag = if vn < 0 {
        fxn(vn)
    } else {
        vn
    };
    spec_vdivs(ray.dir, mag)
}

/// The reflected ray: origin at the hit point, direction `V' + 2N`
/// normalized.
pub open spec fn spec_reflected(ray: Ray, hit: Intersection) -> Ray {
    let n = spec_oriented(ray, hit).0;
    let vp = spec_vprime(ray, hit);
    (Ray {
        origin: spec_ray_point(ray, hit.distance),
        dir: spec_normalize(spec_vadd(vp, spec_vadd(n, n))),
    })
}

/// The radicand `kn²|V'|² - |V' + N|²` of the transmission factor; not
/// positive exactly in the cases with no transmitted ray (total internal
/// reflection, or a configuration whose factor would not be finite).
pub open spec fn spec_transmission_radicand(ray: Ray, hit: Intersection) -> i64 {
    let (n, kn) = spec_oriented(ray, hit);
    let vp = spec_vprime(ray, hit);
    fxs(fxm(fxm(kn, kn), spec_len2(vp)), spec_len2(spec_vadd(vp, n)))
}

/// The transmitted ray, when one is produced: origin at the hit point,
/// direction `kf(N + V') - N` normalized, with `kf = 1 / sqrt(radicand)`.
pub open spec fn spec_refracted(ray: Ray, hit: Intersection) -> Option<Ray> {
    let n = spec_oriented(ray, hit).0;
    let vp = spec_vprime(ray, hit);
    let rad = spec_transmission_radicand(ray, hit);
    if rad <= 0 {
        None
    } else {
        let kf = fxd(FX_ONE, fxsq(rad));
        Some(
            (Ray {
                origin: spec_ray_point(ray, hit.distance),
                dir: spec_normalize(spec_vsub(spec_vscale(spec_vadd(n, vp), kf), n)),
            }),
        )
    }
}

/// The composed color of the illumination model:
/// `ia + kd*diffuse + ks*reflected + kt*transmitted`, component-wise.
pub open spec fn spec_compose(m: Material, diffuse: Vec3, reflected: Vec3, transmitted: Vec3) -> Vec3 {
    spec_vadd(
        spec_vadd(spec_vadd(m.ia, spec_cmul(m.kd, diffuse)), spec_cmul(m.ks, reflected)),
        spec_cmul(m.kt, transmitted),
    )
}

/// The color of a ray: black past the depth bound or on a miss; otherwise
/// the composed ambient, diffuse, reflected and transmitted terms, the
/// last two obtained by shading the child rays one level deeper.
pub open spec fn spec_cast_ray(scene: Scene, ray: Ray, depth: int, cfg: RenderConfig) -> Vec3
    decreases (if depth > cfg.max_depth { 0int } else { cfg.max_depth + 1 - depth }),
{
    if depth > cfg.max_depth {
        vec3_zero()
    } else {
        match spec_nearest(scene, ray, cfg.min_ray_distance) {
            Option::None => vec3_zero(),
            Option::Some(hit) => {
                let diffuse = spec_diffuse(
                    scene,
                    spec_ray_point(ray, hit.distance),
                    hit.normal,
                    cfg.min_ray_distance,
                );
                let reflected = spec_cast_ray(scene, spec_reflected(ray, hit), depth + 1, cfg);
                let transmitted = match spec_refracted(ray, hit) {
                    Option::Some(t) => spec_cast_ray(scene, t, depth + 1, cfg),
                    Option::None => vec3_zero(),
                };
                spec_compose(hit.material, diffuse, reflected, transmitted)
            },
        }
    }
}

/// Derives the reflected ray and the optional transmitted ray for a hit.
/// Both originate at the intersection point itself: self-intersection on
/// the next bounce is prevented by the epsilon filter, not by offsetting.
pub fn split_ray(ray: &Ray, hit: &Intersection) -> (r: (Ray, Option<Ray>))
    ensures
        r.0 == spec_reflected(*ray, *hit),
        r.1 == spec_refracted(*ray, *hit),
{
    let vn_raw = ray.dir.dot(&hit.normal);
    let n: Vec3 = if vn_raw < 0 {
        hit.normal
    } else {
        hit.normal.neg()
    };
    let kn: i64 = if vn_raw < 0 {
        hit.material.kn
    } else {
        fx_div(FX_ONE, hit.material.kn)
    };
    let vn = ray.dir.dot(&n);
    let mag: i64 = if vn < 0 {
        fx_neg(vn)
    } else {
        vn
    };
    let vp = ray.dir.divs(mag);
    let hit_point = ray.origin.plus(&ray.dir.scale(hit.distance));
    let reflected = Ray { origin: hit_point, dir: vp.plus(&n.plus(&n)).normalize() };
    let rad = fx_sub(fx_mul(fx_mul(kn, kn), vp.norm2()), vp.plus(&n).norm2());
    let refracted: Option<Ray> = if rad <= 0 {
        None
    } else {
        let kf = fx_div(FX_ONE, fx_sqrt(rad));
        Some(Ray { origin: hit_point, dir: n.plus(&vp).scale(kf).minus(&n).normalize() })
    };
    (reflected, refracted)
}

impl Scene {
    /// Shades one ray: resolves the nearest intersection, splits the ray,
    /// gathers the shadow-filtered diffuse light, recursively shades the
    /// child rays, and composes the final color. Absence of geometry or
    /// light yields black; no input is an error.
    pub fn cast_ray(&self, ray: &Ray, depth: u32, cfg: &RenderConfig) -> (r: Vec3)
        requires
            cfg.wf(),
        ensures
            r == spec_cast_ray(*self, *ray, depth as int, *cfg),
        decreases (if depth > cfg.max_depth { 0int } else { cfg.max_depth + 1 - depth }),
    {
        if depth > cfg.max_depth {
            return Vec3::zero();
        }
        match self.intersect(ray, cfg) {
            None => Vec3::zero(),
            Some(hit) => {
                let hit_point = ray.origin.plus(&ray.dir.scale(hit.distance));
                let diffuse = self.illumination(&hit_point, &hit.normal, cfg);
                let (reflected_ray, refracted_ray) = split_ray(ray, &hit);
                let reflected = self.cast_ray(&reflected_ray, depth + 1, cfg);
                let transmitted: Vec3 = match refracted_ray {
                    Some(t) => self.cast_ray(&t, depth + 1, cfg),
                    None => Vec3::zero(),
                };
                hit.material.ia.plus(&hit.material.kd.cmul(&diffuse)).plus(
                    &hit.material.ks.cmul(&reflected),
                ).plus(&hit.material.kt.cmul(&transmitted))
            },
        }
    }
}

} // verus!
