use ray_tracing::fx::{ONE, SCALE};
use ray_tracing::materials::Material;
use ray_tracing::ray::Ray;
use ray_tracing::ray_marching::{RayMarching, HIT_PRECISION, MAX_STEPS};
use ray_tracing::scene::{Scene, SHADOW_K};
use ray_tracing::sdfs::{box_sdf, cylinder_sdf, plane_sdf, sphere_sdf, Primitive, Shape};
use ray_tracing::vec3::V3;

fn v(x: i64, y: i64, z: i64) -> V3 {
    V3::new(x, y, z)
}

fn ground_scene() -> Scene {
    Scene::new(
        vec![Material::default()],
        vec![Shape {
            prim: Primitive::Plane { origin: v(0, 0, 0), normal: v(0, ONE, 0) },
            material_index: 0,
        }],
    )
}

fn sphere_scene() -> Scene {
    // the only geometry: a sphere of radius 0.8 centered at (0, 1, 7)
    Scene::new(
        vec![Material::default(), Material::default()],
        vec![Shape {
            prim: Primitive::Sphere { center: v(0, ONE, 7 * ONE), radius: 8 * ONE / 10 },
            material_index: 1,
        }],
    )
}

#[test]
fn primitive_distances() {
    assert_eq!(sphere_sdf(v(3 * ONE, 4 * ONE, 0), 2 * ONE), 3 * ONE);
    assert_eq!(sphere_sdf(v(0, ONE, 0), 2 * ONE), -ONE);
    assert_eq!(plane_sdf(v(0, 5 * ONE, 0), v(0, 0, 0), v(0, ONE, 0)), 5 * ONE);
    assert_eq!(plane_sdf(v(0, -ONE, 0), v(0, 0, 0), v(0, ONE, 0)), -ONE);
    // a point two units in front of a unit box face
    assert_eq!(box_sdf(v(3 * ONE, 0, 0), v(ONE, ONE, ONE), 0), 2 * ONE);
    // on the axis of a wide flat cylinder, two units above its cap
    assert_eq!(cylinder_sdf(v(0, 3 * ONE, 0), 5 * ONE, 0, ONE), 2 * ONE);
}

#[test]
fn scene_field_picks_the_closest_shape() {
    let scene = Scene::new(
        vec![Material::default(), Material::default()],
        vec![
            Shape {
                prim: Primitive::Sphere { center: v(0, 0, -10 * ONE), radius: ONE },
                material_index: 1,
            },
            Shape {
                prim: Primitive::Plane { origin: v(0, 0, 0), normal: v(0, ONE, 0) },
                material_index: 0,
            },
        ],
    );
    let ray = Ray { origin: v(0, 2 * ONE, 0), direction: v(0, 0, -ONE) };
    // at the origin the plane (two units) is closer than the sphere
    let h = scene.sdf(&ray, 0);
    assert_eq!(h.dist, 2 * ONE);
    assert_eq!(h.material_index, 0);
    // near the sphere the sphere wins
    let h2 = scene.sdf(&ray, 10 * ONE);
    assert_eq!(h2.material_index, 1);
}

#[test]
fn march_hits_a_tilted_ground_ray() {
    // from (0, 4, 7) toward normalize(0, -1, -1) against the ground
    // plane: the hit parameter is 4 / sin(45 degrees)
    let scene = ground_scene();
    let rm = RayMarching { scene: &scene };
    let ray = Ray {
        origin: v(0, 4 * ONE, 7 * ONE),
        direction: v(0, -ONE, -ONE).normalize(),
    };
    let hit = rm.march_ray(&ray).expect("the ground must be hit");
    let expected = (4.0 * std::f64::consts::SQRT_2 * SCALE as f64) as i64;
    assert!((hit.dist - expected).abs() < 2000, "got {}, want about {}", hit.dist, expected);
    assert_eq!(hit.material_index, 0);
    assert!(hit.dist >= 0);
}

#[test]
fn march_hits_the_sphere_head_on() {
    // from (0, 1, 11) toward (0, 0, -1): the sphere surface lies at
    // 11 - 7 - 0.8 = 3.2 units
    let scene = sphere_scene();
    let rm = RayMarching { scene: &scene };
    let ray = Ray { origin: v(0, ONE, 11 * ONE), direction: v(0, 0, -ONE) };
    let hit = rm.march_ray(&ray).expect("the sphere must be hit");
    let expected = 32 * ONE / 10;
    assert!((hit.dist - expected).abs() < 500, "got {}, want about {}", hit.dist, expected);
    assert_eq!(hit.material_index, 1);
    assert!(hit.dist >= 0);
}

#[test]
fn march_hits_immediately_on_a_surface() {
    // a ray starting on the sphere's surface sees a zero field
    // sample and reports a hit at once, at exactly no distance
    let scene = sphere_scene();
    let rm = RayMarching { scene: &scene };
    let ray = Ray {
        origin: v(0, ONE, 7 * ONE + 8 * ONE / 10),
        direction: v(0, 0, -ONE),
    };
    let hit = rm.march_ray(&ray).expect("an embedded origin hits at once");
    assert_eq!(hit.dist, 0);
    // even an origin buried inside the geometry reports no negative
    // distance
    let buried = Ray { origin: v(0, ONE, 7 * ONE), direction: v(0, 0, -ONE) };
    let inside = rm.march_ray(&buried).expect("a buried origin hits at once");
    assert_eq!(inside.dist, 0);
}

#[test]
fn shadow_escapes_above_the_bounding_height() {
    // geometry exists, but a probe already above the bounding height
    // exits fully lit on its first step
    let scene = ground_scene();
    let rm = RayMarching { scene: &scene };
    let high = Ray { origin: v(0, 11 * ONE, 0), direction: v(ONE, 0, 0) };
    assert_eq!(rm.shadow(&high, SHADOW_K), ONE);
}

#[test]
fn march_misses_an_escaping_ray() {
    let scene = sphere_scene();
    let rm = RayMarching { scene: &scene };
    let up = Ray { origin: v(0, 3 * ONE, 11 * ONE), direction: v(0, ONE, 0) };
    assert!(rm.march_ray(&up).is_none());
}

#[test]
fn march_step_budget_is_three_hundred() {
    assert_eq!(MAX_STEPS, 300);
    assert!(HIT_PRECISION > 0);
}

#[test]
fn shadow_is_full_through_an_empty_scene() {
    // a scene with no geometry: the probe reports fully lit, exactly
    let scene = Scene::new(vec![Material::default()], vec![]);
    let rm = RayMarching { scene: &scene };
    let ray = Ray { origin: v(0, 0, 0), direction: v(0, 0, -ONE) };
    assert_eq!(rm.shadow(&ray, SHADOW_K), ONE);
    let slanted = Ray { origin: v(ONE, ONE, ONE), direction: v(0, -ONE, 0) };
    assert_eq!(rm.shadow(&slanted, SHADOW_K), ONE);
}

#[test]
fn shadow_drops_to_zero_behind_an_occluder() {
    let scene = Scene::new(
        vec![Material::default()],
        vec![Shape {
            prim: Primitive::Sphere { center: v(0, 0, -3 * ONE), radius: ONE },
            material_index: 0,
        }],
    );
    let rm = RayMarching { scene: &scene };
    let blocked = Ray { origin: v(0, 0, 0), direction: v(0, 0, -ONE) };
    let res = rm.shadow(&blocked, SHADOW_K);
    assert!((0..=ONE).contains(&res));
    assert!(res < ONE / 100);
}

#[test]
fn occlusion_stays_in_the_unit_interval() {
    let scene = ground_scene();
    let rm = RayMarching { scene: &scene };
    // a point on open flat ground is fully unoccluded
    assert_eq!(rm.occlusion(v(0, 0, 0), v(0, ONE, 0)), ONE);
    // a probe pointing into the ground is heavily occluded, yet in range
    let inside = rm.occlusion(v(0, 0, 0), v(0, -ONE, 0));
    assert!((0..=ONE).contains(&inside));
    assert!(inside < ONE);
}

#[test]
fn normal_estimate_of_the_ground_points_up() {
    let scene = ground_scene();
    let rm = RayMarching { scene: &scene };
    let n = rm.normal(v(0, ONE / 2, 0));
    assert!(n.y > 0);
    assert!(n.x.abs() < ONE / 100 && n.z.abs() < ONE / 100);
    // the estimate is normalized, within rounding
    assert!((n.dot(n) - ONE).abs() < ONE / 100);
}

#[test]
fn normal_estimate_of_a_sphere_is_radial() {
    let scene = sphere_scene();
    let rm = RayMarching { scene: &scene };
    // on the front pole of the sphere the normal faces the camera
    let n = rm.normal(v(0, ONE, 7 * ONE + 8 * ONE / 10));
    assert!(n.z > 9 * ONE / 10);
    assert!((n.dot(n) - ONE).abs() < ONE / 100);
}
