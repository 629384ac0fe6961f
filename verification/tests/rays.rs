use ray_tracing::fx::{BOUND, ONE};
use ray_tracing::light::{Directional, Light};
use ray_tracing::materials::Material;
use ray_tracing::ray::{Ray, RayHit, RayMarchingHit, EPSILON};
use ray_tracing::vec3::V3;

fn v(x: i64, y: i64, z: i64) -> V3 {
    V3::new(x, y, z)
}

fn down_ray() -> Ray {
    Ray { origin: v(0, 2 * ONE, 0), direction: v(0, -ONE, 0) }
}

fn ground_hit() -> RayHit {
    RayHit { distance: 2 * ONE, point: v(0, 0, 0), normal: v(0, ONE, 0), material_index: 0 }
}

#[test]
fn new_rays_and_hits_start_zeroed() {
    let r = Ray::new();
    assert_eq!(r.origin, v(0, 0, 0));
    assert_eq!(r.direction, v(0, 0, 0));
    let h = RayHit::default();
    assert_eq!(h.distance, -BOUND);
    assert_eq!(h.point, v(0, 0, 0));
    assert_eq!(h.normal, v(0, 0, 0));
    assert_eq!(h.material_index, 0);
    let m = RayMarchingHit::new(5 * ONE, v(ONE, 0, 0), r);
    assert_eq!(m.distance, 5 * ONE);
    assert_eq!(m.albedo, v(ONE, 0, 0));
    assert_eq!(m.transformed_ray.origin, v(0, 0, 0));
}

#[test]
fn ray_reflect_mirrors_the_direction() {
    let r = Ray { origin: v(0, 0, 0), direction: v(ONE, -ONE, 0) };
    assert_eq!(r.reflect(v(0, ONE, 0)), v(ONE, ONE, 0));
}

#[test]
fn refraction_bends_nothing_head_on() {
    // straight down onto an upward-facing surface: the transmitted
    // ray keeps going straight down, offset under the surface
    let r = down_ray();
    let out = r.refraction_ray(ground_hit(), 3 * ONE / 2).unwrap();
    assert_eq!(out.direction, v(0, -ONE, 0));
    assert_eq!(out.origin, v(0, -EPSILON, 0));
}

#[test]
fn refraction_reports_total_internal_reflection() {
    // leaving a dense medium at a grazing angle: no transmitted ray
    let r = Ray { origin: v(0, 0, 0), direction: v(ONE, ONE / 10, 0) };
    let hit = RayHit { distance: 0, point: v(0, 0, 0), normal: v(0, ONE, 0), material_index: 0 };
    assert!(r.refraction_ray(hit, 3 * ONE / 2).is_none());
    // and head-on it does leave
    let r2 = Ray { origin: v(0, 0, 0), direction: v(0, ONE, 0) };
    assert!(r2.refraction_ray(hit, 3 * ONE / 2).is_some());
}

#[test]
fn reflection_ray_without_jitter_is_the_mirror_bounce() {
    let r = down_ray();
    let mut rng = rand::rng();
    let bounce = r.reflection_ray(ground_hit(), ONE / 2, &mut rng, false, false);
    assert_eq!(bounce.direction, v(0, ONE, 0));
    assert_eq!(bounce.origin, v(0, EPSILON, 0));
    // the deterministic core agrees
    let core = r.reflection_dir(ground_hit(), ONE / 2, v(0, 0, 0), false, false);
    assert_eq!(core.origin, bounce.origin);
    assert_eq!(core.direction, bounce.direction);
}

#[test]
fn jittered_bounces_stay_rays() {
    let r = down_ray();
    let mut rng = rand::rng();
    for _ in 0..16 {
        let b = r.reflection_ray(ground_hit(), ONE / 2, &mut rng, false, true);
        // the jittered mirror direction still points away from the surface
        assert!(b.direction.y > 0);
        assert_eq!(b.origin, v(0, EPSILON, 0));
        let d = r.reflection_ray(ground_hit(), ONE / 2, &mut rng, true, true);
        assert_eq!(d.origin, v(0, EPSILON, 0));
    }
}

#[test]
fn blinn_phong_adds_ambient_diffuse_and_specular() {
    let l = Light::Directional(Directional {
        albedo: v(ONE, ONE, ONE),
        direction: v(0, -ONE, 0),
        intensity: ONE,
    });
    let m = Material::default();
    let r = down_ray();
    let color = v(ONE, ONE, ONE);
    let lit = r.blinn_phong(&v(0, ONE, 0), &v(0, 0, 0), &l, color, &m);
    // at least the ambient and full diffuse terms, on every channel
    assert!(lit.x >= m.ambience + m.diffuse);
    assert_eq!(lit.x, lit.y);
    assert_eq!(lit.y, lit.z);
    // a surface facing away keeps only ambient and specular
    let dark = r.blinn_phong(&v(0, -ONE, 0), &v(0, 0, 0), &l, color, &m);
    assert!(dark.x < lit.x);
}

#[test]
fn phong_peaks_along_the_mirror_direction() {
    let l = Light::Directional(Directional {
        albedo: v(ONE, ONE, ONE),
        direction: v(0, -ONE, 0),
        intensity: ONE,
    });
    let m = Material::default();
    let color = v(ONE, ONE, ONE);
    // travelling along the reflected light direction
    let aligned = Ray { origin: v(0, 2 * ONE, 0), direction: v(0, -ONE, 0) };
    let hit = ground_hit();
    let bright = aligned.phong(&hit, &l, color, &m);
    let side = Ray { origin: v(0, 2 * ONE, 0), direction: v(ONE, 0, 0) };
    let dim = side.phong(&hit, &l, color, &m);
    assert!(bright.x > dim.x);
}
