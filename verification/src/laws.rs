//! Proved properties of the renderer that relate several of its functions.

use vstd::prelude::*;

use crate::fixed::clip64;
use crate::fixed::fxa;
use crate::fixed::fxm;
use crate::fixed::fxn;
use crate::fixed::fxs;
use crate::fixed::fxsq;
use crate::fixed::iabs;
use crate::fixed::lemma_fxd_by_one;
use crate::fixed::lemma_fxsq_val;
use crate::fixed::lemma_sqrt_floor_bounds;
use crate::fixed::lemma_sqrt_floor_unique;
use crate::fixed::spec_fx_mul;
use crate::fixed::sqrt_floor;
use crate::fixed::FX_ONE;
use crate::scene::spec_diffuse;
use crate::scene::spec_light_blocked;
use crate::scene::spec_nearest;
use crate::scene::spec_nearest_upto;
use crate::scene::spec_shadowed;
use crate::scene::spec_shadowed_upto;
use crate::scene::Scene;
use crate::shade::spec_cast_ray;
use crate::shade::spec_compose;
use crate::shade::spec_oriented;
use crate::shade::spec_ray_point;
use crate::shade::spec_reflected;
use crate::shade::spec_refracted;
use crate::shade::spec_vprime;
use crate::sphere::spec_center_diff;
use crate::sphere::spec_far_root;
use crate::sphere::spec_near_root;
use crate::sphere::spec_sphere_d;
use crate::sphere::spec_sphere_delta;
use crate::sphere::spec_sphere_hit;
use crate::sphere::spec_sphere_intersect;
use crate::sphere::Sphere;
use crate::types::Intersection;
use crate::types::Material;
use crate::types::PointLight;
use crate::types::Ray;
use crate::types::RenderConfig;
use crate::vec3::lemma_fxm_square_nonneg;
use crate::vec3::lemma_len2_nonneg;
use crate::vec3::spec_cmul;
use crate::vec3::spec_dot;
use crate::vec3::spec_len2;
use crate::vec3::spec_normalize;
use crate::vec3::spec_vadd;
use crate::vec3::spec_vneg;
use crate::vec3::vec3_zero;
use crate::vec3::Vec3;

verus! {

/// A ray that intersects no primitive is shaded exactly black, at every
/// recursion depth.
pub proof fn lemma_miss_is_black(scene: Scene, ray: Ray, depth: int, cfg: RenderConfig)
    requires
        spec_nearest(scene, ray, cfg.min_ray_distance) is None,
    ensures
        spec_cast_ray(scene, ray, depth, cfg) == vec3_zero(),
{
}

/// Past the configured maximum recursion depth the shader returns black
/// outright, whatever the scene holds: the depth test precedes the
/// intersection query in the defining equation.
pub proof fn lemma_depth_exceeded_is_black(scene: Scene, ray: Ray, depth: int, cfg: RenderConfig)
    requires
        depth > cfg.max_depth,
    ensures
        spec_cast_ray(scene, ray, depth, cfg) == vec3_zero(),
{
}

/// A scene without primitives shades every ray black at every depth,
/// whatever lights it holds.
pub proof fn lemma_empty_scene_is_black(scene: Scene, ray: Ray, depth: int, cfg: RenderConfig)
    requires
        scene.primitives@.len() == 0,
    ensures
        spec_cast_ray(scene, ray, depth, cfg) == vec3_zero(),
{
    assert(spec_nearest(scene, ray, cfg.min_ray_distance) is None);
}

/// Scaling by a zero weight yields zero for every color.
pub proof fn lemma_cmul_zero(c: Vec3)
    ensures
        spec_cmul(vec3_zero(), c) == vec3_zero(),
{
    assert(iabs(0) * iabs(c.x as int) == 0) by (nonlinear_arith);
    assert(iabs(0) * iabs(c.y as int) == 0) by (nonlinear_arith);
    assert(iabs(0) * iabs(c.z as int) == 0) by (nonlinear_arith);
    assert(spec_fx_mul(0, c.x as int) == 0);
    assert(spec_fx_mul(0, c.y as int) == 0);
    assert(spec_fx_mul(0, c.z as int) == 0);
}

/// A material with a zero transmissive weight composes the same final
/// color whatever the transmitted ray would have contributed: a refracted
/// ray may exist geometrically, yet cannot influence the result.
pub proof fn lemma_zero_kt_ignores_transmission(
    m: Material,
    diffuse: Vec3,
    reflected: Vec3,
    t1: Vec3,
    t2: Vec3,
)
    requires
        m.kt == vec3_zero(),
    ensures
        spec_compose(m, diffuse, reflected, t1) == spec_compose(m, diffuse, reflected, t2),
{
    lemma_cmul_zero(t1);
    lemma_cmul_zero(t2);
}

/// A fully ambient material (zero diffuse, specular and transmissive
/// weights) is shaded exactly its ambient color wherever a ray hits it,
/// at every depth within the recursion bound.
pub proof fn lemma_ambient_only_hit(scene: Scene, ray: Ray, depth: int, cfg: RenderConfig, hit: Intersection)
    requires
        depth <= cfg.max_depth,
        spec_nearest(scene, ray, cfg.min_ray_distance) == Some(hit),
        hit.material.kd == vec3_zero(),
        hit.material.ks == vec3_zero(),
        hit.material.kt == vec3_zero(),
    ensures
        spec_cast_ray(scene, ray, depth, cfg) == hit.material.ia,
{
    let d = spec_diffuse(scene, spec_ray_point(ray, hit.distance), hit.normal, cfg.min_ray_distance);
    let s = spec_cast_ray(scene, spec_reflected(ray, hit), depth + 1, cfg);
    lemma_cmul_zero(d);
    lemma_cmul_zero(s);
    match spec_refracted(ray, hit) {
        Option::Some(t) => {
            lemma_cmul_zero(spec_cast_ray(scene, t, depth + 1, cfg));
        },
        Option::None => {
            lemma_cmul_zero(vec3_zero());
        },
    }
    assert(spec_vadd(hit.material.ia, vec3_zero()) == hit.material.ia);
}

/// Facts about one component of an exactly unit vector: its square fits
/// under one, so its magnitude never exceeds one unit, its negation is
/// exact, and the rescaled products with its negation carry the sign out.
proof fn lemma_unit_component(x: i64)
    requires
        fxm(x, x) <= FX_ONE,
    ensures
        iabs(x as int) <= 65536,
        fxn(x) as int == -(x as int),
        fxm(x, fxn(x)) as int == -(fxm(x, x) as int),
        fxm(fxn(x), fxn(x)) == fxm(x, x),
{
    let xm = iabs(x as int);
    let q = (xm * xm) / 65536;
    assert(xm * xm >= 0) by (nonlinear_arith)
        requires
            xm >= 0,
    ;
    assert(fxm(x, x) as int == clip64(q));
    assert(q <= 65536);
    assert(q * 65536 <= xm * xm < (q + 1) * 65536);
    assert(xm <= 65536) by (nonlinear_arith)
        requires
            xm * xm < (65536 + 1) * 65536,
            xm >= 0,
    ;
    assert(iabs(-(x as int)) == xm);
    if x == 0 {
        assert(xm * xm == 0) by (nonlinear_arith)
            requires
                xm == 0,
        ;
        assert(q == 0);
    }
}

/// A unit incident ray striking a surface exactly head-on (the surface
/// normal exactly opposite the incident direction) reflects exactly back
/// along itself, whatever the material.
pub proof fn lemma_head_on_reflection(ray: Ray, hit: Intersection)
    requires
        hit.normal == spec_vneg(ray.dir),
        spec_len2(ray.dir) == FX_ONE,
    ensures
        spec_reflected(ray, hit).dir == spec_vneg(ray.dir),
{
    let v = ray.dir;
    let a1 = fxm(v.x, v.x);
    let a2 = fxm(v.y, v.y);
    let a3 = fxm(v.z, v.z);
    lemma_fxm_square_nonneg(v.x);
    lemma_fxm_square_nonneg(v.y);
    lemma_fxm_square_nonneg(v.z);
    // the squared length saturates nowhere, else it could not equal one
    assert(a1 + a2 <= i64::MAX && a1 + a2 + a3 <= i64::MAX);
    assert(a1 + a2 + a3 == FX_ONE);
    lemma_unit_component(v.x);
    lemma_unit_component(v.y);
    lemma_unit_component(v.z);

    // head-on incidence: the dot product with the normal is exactly -1
    let n = hit.normal;
    assert(spec_dot(v, n) as int == -(a1 as int) - (a2 as int) - (a3 as int));
    assert(spec_dot(v, n) == -65536);
    assert(spec_oriented(ray, hit) == (n, hit.material.kn));

    // V' is V itself: the division by |V . N| = 1 is the identity
    lemma_fxd_by_one(v.x);
    lemma_fxd_by_one(v.y);
    lemma_fxd_by_one(v.z);
    assert(fxn(-65536i64) == FX_ONE);
    assert(spec_vprime(ray, hit) == v);

    // V' + 2N folds to -V = N, component by component
    assert(fxa(fxn(v.x), fxn(v.x)) as int == -2 * (v.x as int));
    assert(fxa(fxn(v.y), fxn(v.y)) as int == -2 * (v.y as int));
    assert(fxa(fxn(v.z), fxn(v.z)) as int == -2 * (v.z as int));
    let w = spec_vadd(v, spec_vadd(n, n));
    assert(w == spec_vneg(v));

    // -V is itself unit, so normalizing it changes nothing
    assert(spec_len2(w) == FX_ONE);
    assert(65536nat * 65536nat == 4294967296nat) by (nonlinear_arith);
    assert(65537nat * 65537nat == 4295098369nat) by (nonlinear_arith);
    lemma_sqrt_floor_unique(4294967296nat, 65536nat);
    assert(fxsq(FX_ONE) == FX_ONE);
    lemma_fxd_by_one(w.x);
    lemma_fxd_by_one(w.y);
    lemma_fxd_by_one(w.z);
    assert(spec_normalize(w) == w);
}

/// Every intersection a sphere reports lies strictly beyond the epsilon:
/// the filter that suppresses self-intersection artifacts admits no hit
/// at or below the least valid distance.
pub proof fn lemma_sphere_hit_beyond_epsilon(s: Sphere, ray: Ray, eps: i64)
    ensures
        spec_sphere_intersect(s, ray, eps) matches Some(h) ==> h.distance > eps,
{
}

/// The nearest-intersection resolver earns its name on the first `n`
/// primitives: a `None` means every one of them misses, and a hit is one
/// primitive's own result, with no other primitive reporting a strictly
/// smaller distance.
pub proof fn lemma_nearest_upto_is_minimal(prims: Seq<Sphere>, ray: Ray, eps: i64, n: int)
    requires
        0 <= n <= prims.len(),
    ensures
        (match spec_nearest_upto(prims, ray, eps, n) {
            Option::None => forall|i: int|
                0 <= i < n ==> (#[trigger] spec_sphere_intersect(prims[i], ray, eps)) is None,
            Option::Some(b) => (exists|i: int|
                0 <= i < n && spec_sphere_intersect(prims[i], ray, eps) == Some(b)) && (forall|i: int|
                0 <= i < n ==> (#[trigger] spec_sphere_intersect(prims[i], ray, eps) matches Some(
                    c,
                ) ==> b.distance <= c.distance)),
        }),
    decreases n,
{
    if n > 0 {
        lemma_nearest_upto_is_minimal(prims, ray, eps, n - 1);
        let prev = spec_nearest_upto(prims, ray, eps, n - 1);
        let cur = spec_sphere_intersect(prims[n - 1], ray, eps);
        let res = spec_nearest_upto(prims, ray, eps, n);
        match res {
            Option::None => {
            },
            Option::Some(b) => {
                if prev is Some && res == prev {
                    let w = choose|i: int|
                        0 <= i < n - 1 && spec_sphere_intersect(prims[i], ray, eps) == prev;
                    assert(0 <= w < n && spec_sphere_intersect(prims[w], ray, eps) == Some(b));
                } else {
                    assert(spec_sphere_intersect(prims[n - 1], ray, eps) == Some(b));
                }
            },
        }
    }
}

/// The scene-level form: what `spec_nearest` returns is globally minimal
/// over all primitives of the scene.
pub proof fn lemma_nearest_is_minimal(scene: Scene, ray: Ray, eps: i64)
    ensures
        (match spec_nearest(scene, ray, eps) {
            Option::None => forall|i: int|
                0 <= i < scene.primitives@.len() ==> (#[trigger] spec_sphere_intersect(
                    scene.primitives@[i],
                    ray,
                    eps,
                )) is None,
            Option::Some(b) => (exists|i: int|
                0 <= i < scene.primitives@.len() && spec_sphere_intersect(
                    scene.primitives@[i],
                    ray,
                    eps,
                ) == Some(b)) && (forall|i: int|
                0 <= i < scene.primitives@.len() ==> (#[trigger] spec_sphere_intersect(
                    scene.primitives@[i],
                    ray,
                    eps,
                ) matches Some(c) ==> b.distance <= c.distance)),
        }),
{
    lemma_nearest_upto_is_minimal(scene.primitives@, ray, eps, scene.primitives@.len() as int);
}

/// The shadow test is exactly an existence test: a point is shadowed with
/// respect to a light precisely when some primitive blocks the path.
pub proof fn lemma_shadowed_iff_some_blocker(scene: Scene, point: Vec3, light: PointLight, eps: i64)
    ensures
        spec_shadowed(scene, point, light, eps) <==> exists|i: int|
            0 <= i < scene.primitives@.len() && spec_light_blocked(
                scene.primitives@[i],
                point,
                light,
                eps,
            ),
{
    lemma_shadowed_upto_iff(scene.primitives@, point, light, eps, scene.primitives@.len() as int);
}

/// The bounded form of the shadow characterization, by induction over the
/// prefix length.
pub proof fn lemma_shadowed_upto_iff(
    prims: Seq<Sphere>,
    point: Vec3,
    light: PointLight,
    eps: i64,
    n: int,
)
    requires
        0 <= n <= prims.len(),
    ensures
        spec_shadowed_upto(prims, point, light, eps, n) <==> exists|i: int|
            0 <= i < n && spec_light_blocked(prims[i], point, light, eps),
    decreases n,
{
    if n > 0 {
        lemma_shadowed_upto_iff(prims, point, light, eps, n - 1);
        if spec_shadowed_upto(prims, point, light, eps, n) {
            if spec_shadowed_upto(prims, point, light, eps, n - 1) {
                let w = choose|i: int|
                    0 <= i < n - 1 && spec_light_blocked(prims[i], point, light, eps);
                assert(0 <= w < n && spec_light_blocked(prims[w], point, light, eps));
            } else {
                assert(spec_light_blocked(prims[n - 1], point, light, eps));
            }
        }
    }
}

/// A ray whose origin lies strictly inside a sphere (by the computed
/// squared distances) can only meet it on the far side: the near root is
/// never positive, so the epsilon filter rejects it, and the intersection
/// is the far root when that root clears the epsilon, else none.
///
/// The two representability bounds keep the squared projection and the
/// discriminant away from the saturation range, where the fixed-point
/// squares no longer mirror the mathematical ones.
pub proof fn lemma_inside_sphere_hits_far_side(s: Sphere, ray: Ray, eps: i64)
    requires
        eps > 0,
        spec_len2(spec_center_diff(s, ray)) < fxm(s.radius, s.radius),
        fxm(spec_sphere_d(s, ray), spec_sphere_d(s, ray)) < i64::MAX,
    ensures
        spec_near_root(s, ray) <= 0,
        spec_sphere_intersect(s, ray, eps) == (if spec_far_root(s, ray) > eps {
            Some(spec_sphere_hit(s, ray, spec_far_root(s, ray)))
        } else {
            None::<Intersection>
        }),
{
    let d = spec_sphere_d(s, ray);
    let dd = fxm(d, d);
    let l2 = spec_len2(spec_center_diff(s, ray));
    let rr = fxm(s.radius, s.radius);
    let delta = spec_sphere_delta(s, ray);
    lemma_fxm_square_nonneg(d);
    lemma_fxm_square_nonneg(s.radius);
    lemma_len2_nonneg(spec_center_diff(s, ray));

    // Unclipped, the square of d is d * d / 65536 rounded down.
    let q = (iabs(d as int) * iabs(d as int)) / 65536;
    assert(iabs(d as int) * iabs(d as int) >= 0) by (nonlinear_arith)
        requires
            iabs(d as int) >= 0,
    ;
    assert(dd as int == q);
    assert(q * 65536 <= iabs(d as int) * iabs(d as int) < (q + 1) * 65536);

    // The intermediate difference dd - l2 does not saturate.
    assert(fxs(dd, l2) as int == dd - l2);
    // The discriminant exceeds dd: rr is strictly larger than l2, and
    // saturation can only stop at i64::MAX, itself beyond dd.
    assert(delta as int >= dd + 1);

    // d cannot be i64::MIN: its square would have saturated.
    assert(iabs(d as int) < 0x10000000000) by (nonlinear_arith)
        requires
            iabs(d as int) * iabs(d as int) < (q + 1) * 65536,
            q + 1 <= i64::MAX as int,
            iabs(d as int) >= 0,
    ;
    assert(fxn(d) as int == -(d as int));

    // The square root of the discriminant dominates |d|.
    let w = (delta * 65536) as nat;
    let sq = sqrt_floor(w);
    lemma_fxsq_val(delta);
    lemma_sqrt_floor_bounds(w);
    assert(fxsq(delta) as int == sq as int);
    assert(iabs(d as int) * iabs(d as int) < w);
    assert(iabs(d as int) <= sq as int) by (nonlinear_arith)
        requires
            iabs(d as int) * iabs(d as int) < w,
            w < (sq + 1) * (sq + 1),
            iabs(d as int) >= 0,
            sq >= 0,
    ;

    // Hence the near root is not positive and the epsilon filter drops it.
    assert(spec_near_root(s, ray) as int == fxs(fxn(d), fxsq(delta)) as int);
    assert(-(d as int) - (sq as int) <= 0);
    assert(spec_near_root(s, ray) <= 0);
}

} // verus!
