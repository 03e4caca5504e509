use raytracer::fixed::{fx_add, fx_div, fx_mul, fx_neg, fx_sqrt, FX_ONE};
use raytracer::scene::Scene;
use raytracer::shade::split_ray;
use raytracer::sphere::Sphere;
use raytracer::types::{Intersection, Material, Object, PointLight, Ray, RenderConfig};
use raytracer::vec3::Vec3;

const ONE: i64 = FX_ONE;

fn cfg() -> RenderConfig {
    // epsilon 0.1, recursion bound 3
    RenderConfig::new(6554, 3)
}

fn plain_material(ia: i64) -> Material {
    Material {
        ia: Vec3::new(ia, ia, ia),
        kd: Vec3::new(0, 0, 0),
        ks: Vec3::new(0, 0, 0),
        kt: Vec3::new(0, 0, 0),
        kn: ONE,
    }
}

fn white_light(origin: Vec3) -> PointLight {
    PointLight { origin, color: Vec3::new(ONE, ONE, ONE), intensity: 200 * ONE, radius: ONE }
}

#[test]
fn fx_mul_scales_exactly() {
    assert_eq!(fx_mul(3 * ONE, 2 * ONE), 6 * ONE);
    assert_eq!(fx_mul(-3 * ONE, 2 * ONE), -6 * ONE);
    // products below one representable step truncate toward zero
    assert_eq!(fx_mul(1, 1), 0);
    assert_eq!(fx_mul(-1, 1), 0);
}

#[test]
fn fx_add_saturates() {
    assert_eq!(fx_add(i64::MAX, 1), i64::MAX);
    assert_eq!(fx_add(i64::MIN, -1), i64::MIN);
    assert_eq!(fx_neg(i64::MIN), i64::MAX);
}

#[test]
fn fx_div_by_zero_is_zero() {
    assert_eq!(fx_div(ONE, 0), 0);
    assert_eq!(fx_div(ONE, 2 * ONE), ONE / 2);
    assert_eq!(fx_div(-ONE, 2 * ONE), -(ONE / 2));
}

#[test]
fn fx_sqrt_exact_squares() {
    assert_eq!(fx_sqrt(4 * ONE), 2 * ONE);
    assert_eq!(fx_sqrt(100 * ONE), 10 * ONE);
    assert_eq!(fx_sqrt(0), 0);
}

#[test]
fn normalize_zero_vector_is_zero() {
    let z = Vec3::new(0, 0, 0).normalize();
    assert_eq!(z, Vec3::new(0, 0, 0));
}

#[test]
fn normalize_axis_vector_is_unit() {
    let v = Vec3::new(0, 0, 40 * ONE).normalize();
    assert_eq!(v, Vec3::new(0, 0, ONE));
}

#[test]
fn sphere_hit_from_outside_head_on() {
    // a ray 20 units from the center, aimed at it, on a sphere of radius 10:
    // the distance is |origin| - r and the normal opposes the ray
    let s = Sphere::new(Vec3::new(0, 0, 0), 10 * ONE, plain_material(655));
    let ray = Ray { origin: Vec3::new(0, 0, -20 * ONE), dir: Vec3::new(0, 0, ONE) };
    let hit = s.intersect(&ray, &cfg()).expect("the ray aims at the center");
    assert_eq!(hit.distance, 10 * ONE);
    assert_eq!(hit.normal, Vec3::new(0, 0, -ONE));
}

#[test]
fn sphere_hit_from_inside_takes_far_side() {
    // from strictly inside, the near root is negative and rejected: the
    // reported hit is the far-side surface in the ray's direction
    let s = Sphere::new(Vec3::new(0, 0, 0), 10 * ONE, plain_material(655));
    let ray = Ray { origin: Vec3::new(0, 0, 5 * ONE), dir: Vec3::new(0, 0, ONE) };
    let hit = s.intersect(&ray, &cfg()).expect("an inside ray always exits");
    assert_eq!(hit.distance, 5 * ONE);
    assert_eq!(hit.normal, Vec3::new(0, 0, ONE));
}

#[test]
fn tangent_ray_hits_once() {
    // a ray grazing the sphere at exactly radius distance: the
    // discriminant is zero, both roots coincide, and the one hit point
    // lies on the tangent circle
    let s = Sphere::new(Vec3::new(0, 0, 20 * ONE), 10 * ONE, plain_material(655));
    let ray = Ray { origin: Vec3::new(0, 10 * ONE, 0), dir: Vec3::new(0, 0, ONE) };
    let hit = s.intersect(&ray, &cfg()).expect("the grazing ray touches the sphere");
    assert_eq!(hit.distance, 20 * ONE);
    assert_eq!(hit.normal, Vec3::new(0, ONE, 0));
}

#[test]
fn light_coincident_with_point_adds_nothing() {
    // the degenerate-direction policy: a light exactly at the shading
    // point yields a zero direction, hence zero incidence and no light,
    // rather than a non-finite contribution
    let light = white_light(Vec3::new(0, 0, 0));
    let scene = Scene::new(vec![], vec![light]);
    let lit = scene.illumination(&Vec3::new(0, 0, 0), &Vec3::new(0, 0, ONE), &cfg());
    assert_eq!(lit, Vec3::new(0, 0, 0));
}

#[test]
fn sphere_missed_entirely() {
    let s = Sphere::new(Vec3::new(0, 0, 20 * ONE), 10 * ONE, plain_material(655));
    let ray = Ray { origin: Vec3::new(0, 0, 0), dir: Vec3::new(0, ONE, 0) };
    assert!(s.intersect(&ray, &cfg()).is_none());
}

#[test]
fn shadow_blocked_by_interposed_sphere() {
    // an opaque sphere sits directly between the shading point and the
    // light; removing it, all else equal, clears the shadow
    let light = white_light(Vec3::new(0, 0, 40 * ONE));
    let blocker = Sphere::new(Vec3::new(0, 0, 20 * ONE), 5 * ONE, plain_material(655));
    let with_blocker = Scene::new(vec![blocker], vec![light]);
    let without_blocker = Scene::new(vec![], vec![light]);
    let point = Vec3::new(0, 0, 0);
    assert!(with_blocker.is_shadowed(&point, &light, &cfg()));
    assert!(!without_blocker.is_shadowed(&point, &light, &cfg()));
}

#[test]
fn shadow_ignores_sphere_beyond_light() {
    // a sphere past the light does not occlude it
    let light = white_light(Vec3::new(0, 0, 40 * ONE));
    let beyond = Sphere::new(Vec3::new(0, 0, 100 * ONE), 5 * ONE, plain_material(655));
    let scene = Scene::new(vec![beyond], vec![light]);
    assert!(!scene.is_shadowed(&Vec3::new(0, 0, 0), &light, &cfg()));
}

#[test]
fn head_on_reflection_reverses_the_ray() {
    // V parallel to -N with kn = 1: the reflected direction is exactly -V,
    // and a transmitted ray continues straight through
    let s = Sphere::new(Vec3::new(0, 0, 20 * ONE), 10 * ONE, plain_material(655));
    let ray = Ray { origin: Vec3::new(0, 0, 0), dir: Vec3::new(0, 0, ONE) };
    let hit = s.intersect(&ray, &cfg()).expect("head-on hit");
    let (reflected, refracted) = split_ray(&ray, &hit);
    assert_eq!(reflected.dir, Vec3::new(0, 0, -ONE));
    assert_eq!(reflected.origin, Vec3::new(0, 0, 10 * ONE));
    let t = refracted.expect("kn = 1 refracts straight through");
    assert_eq!(t.dir, Vec3::new(0, 0, ONE));
}

#[test]
fn total_internal_reflection_yields_no_refracted_ray() {
    // a grazing exit into a less dense medium (kn = 0.5): the radicand
    // 0.25 * 4 - |V' + N|^2 = 1 - 3.25 is negative, so only the
    // reflected ray is produced
    let mut material = plain_material(655);
    material.kn = ONE / 2;
    let hit = Intersection {
        distance: ONE,
        normal: Vec3::new(0, -ONE, -(ONE / 2)),
        material,
    };
    let ray = Ray { origin: Vec3::new(0, 0, 0), dir: Vec3::new(0, 0, ONE) };
    let (_, refracted) = split_ray(&ray, &hit);
    assert!(refracted.is_none());
}

#[test]
fn zero_kt_masks_any_transmitted_color() {
    // the material refracts geometrically (kn = 1), yet with kt = 0 the
    // transmitted contribution cannot reach the final color
    let s = Sphere::new(Vec3::new(0, 0, 20 * ONE), 10 * ONE, plain_material(655));
    let scene = Scene::new(vec![s], vec![]);
    let ray = Ray { origin: Vec3::new(0, 0, 0), dir: Vec3::new(0, 0, ONE) };
    let color = scene.cast_ray(&ray, 0, &cfg());
    assert_eq!(color, Vec3::new(655, 655, 655));
}

#[test]
fn ambient_sphere_shades_exactly_its_ambient_color() {
    // one fully ambient sphere, no lights: a center-on ray returns the
    // ambient color exactly, at every starting depth within the bound
    let s = Sphere::new(Vec3::new(0, 0, 20 * ONE), 10 * ONE, plain_material(655));
    let scene = Scene::new(vec![s], vec![]);
    let ray = Ray { origin: Vec3::new(0, 0, 0), dir: Vec3::new(0, 0, ONE) };
    for depth in 0..4u32 {
        assert_eq!(scene.cast_ray(&ray, depth, &cfg()), Vec3::new(655, 655, 655));
    }
}

#[test]
fn empty_scene_shades_black_everywhere() {
    // no geometry: every ray is black, however the lights stand
    let scene = Scene::new(vec![], vec![white_light(Vec3::new(3 * ONE, 10 * ONE, 10 * ONE))]);
    let rays = [
        Ray { origin: Vec3::new(0, 0, 0), dir: Vec3::new(0, 0, ONE) },
        Ray { origin: Vec3::new(ONE, -ONE, 0), dir: Vec3::new(0, ONE, 0) },
        Ray { origin: Vec3::new(-5 * ONE, 2 * ONE, 7 * ONE), dir: Vec3::new(ONE, 0, 0) },
    ];
    for ray in rays.iter() {
        assert_eq!(scene.cast_ray(ray, 0, &cfg()), Vec3::new(0, 0, 0));
    }
}

#[test]
fn missing_ray_is_black_at_every_depth() {
    let s = Sphere::new(Vec3::new(0, 0, 20 * ONE), 10 * ONE, plain_material(655));
    let scene = Scene::new(vec![s], vec![white_light(Vec3::new(0, 30 * ONE, 0))]);
    let ray = Ray { origin: Vec3::new(0, 0, 0), dir: Vec3::new(0, ONE, 0) };
    for depth in 0..4u32 {
        assert_eq!(scene.cast_ray(&ray, depth, &cfg()), Vec3::new(0, 0, 0));
    }
}

#[test]
fn depth_past_bound_is_black() {
    // beyond the configured maximum depth the shader returns black even
    // though the ray would hit geometry
    let s = Sphere::new(Vec3::new(0, 0, 20 * ONE), 10 * ONE, plain_material(655));
    let scene = Scene::new(vec![s], vec![]);
    let ray = Ray { origin: Vec3::new(0, 0, 0), dir: Vec3::new(0, 0, ONE) };
    assert_eq!(scene.cast_ray(&ray, 4, &cfg()), Vec3::new(0, 0, 0));
    assert_eq!(scene.cast_ray(&ray, u32::MAX - 1, &cfg()), Vec3::new(0, 0, 0));
}

#[test]
fn equal_distance_tie_takes_one_color_never_a_blend() {
    // two coincident spheres report exactly equal distances; the resolver
    // picks one deterministically (the earlier in the list) and never
    // blends the two materials
    let first = Sphere::new(Vec3::new(0, 0, 20 * ONE), 10 * ONE, plain_material(655));
    let second = Sphere::new(Vec3::new(0, 0, 20 * ONE), 10 * ONE, plain_material(1310));
    let scene = Scene::new(vec![first, second], vec![]);
    let ray = Ray { origin: Vec3::new(0, 0, 0), dir: Vec3::new(0, 0, ONE) };
    let hit: Intersection = scene.intersect(&ray, &cfg()).expect("both spheres are hit");
    assert_eq!(hit.material.ia, Vec3::new(655, 655, 655));
    let color = scene.cast_ray(&ray, 0, &cfg());
    assert!(color == Vec3::new(655, 655, 655) || color == Vec3::new(1310, 1310, 1310));
    assert_eq!(color, Vec3::new(655, 655, 655));
}

#[test]
fn illumination_attenuates_by_squared_distance() {
    // a white light 10 units above a point with an upward normal:
    // 200 * max(0, 1) / max(100, 1) = 2 per channel
    let light = white_light(Vec3::new(0, 0, 10 * ONE));
    let scene = Scene::new(vec![], vec![light]);
    let lit = scene.illumination(&Vec3::new(0, 0, 0), &Vec3::new(0, 0, ONE), &cfg());
    assert_eq!(lit, Vec3::new(2 * ONE, 2 * ONE, 2 * ONE));
}

#[test]
fn light_behind_surface_adds_nothing() {
    // the light sits opposite the normal: a negative incidence angle
    // contributes zero, not negative light
    let light = white_light(Vec3::new(0, 0, -10 * ONE));
    let scene = Scene::new(vec![], vec![light]);
    let lit = scene.illumination(&Vec3::new(0, 0, 0), &Vec3::new(0, 0, ONE), &cfg());
    assert_eq!(lit, Vec3::new(0, 0, 0));
}

#[test]
fn diffuse_lit_sphere_end_to_end() {
    // a diffuse-only sphere lit head-on from the ray's side: the color is
    // ia + kd * illumination at the front hit point
    let material = Material {
        ia: Vec3::new(655, 655, 655),
        kd: Vec3::new(ONE / 2, ONE / 2, ONE / 2),
        ks: Vec3::new(0, 0, 0),
        kt: Vec3::new(0, 0, 0),
        kn: ONE,
    };
    let s = Sphere::new(Vec3::new(0, 0, 20 * ONE), 10 * ONE, material);
    // the light stands at the hit point's side of the sphere, 10 above it
    let light = white_light(Vec3::new(0, 0, 0));
    let scene = Scene::new(vec![s], vec![light]);
    let ray = Ray { origin: Vec3::new(0, 0, 0), dir: Vec3::new(0, 0, ONE) };
    // hit point (0, 0, 10): to_light (0, 0, -10), normal (0, 0, -1),
    // lambert 1, denominator max(100, 1) = 100: diffuse = 2 per channel
    let color = scene.cast_ray(&ray, 0, &cfg());
    assert_eq!(color, Vec3::new(655 + ONE, 655 + ONE, 655 + ONE));
}
