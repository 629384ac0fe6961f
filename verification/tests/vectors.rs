use ray_tracing::fx::ONE;
use ray_tracing::vec3::{reflect, V3};

fn v(x: i64, y: i64, z: i64) -> V3 {
    V3::new(x, y, z)
}

#[test]
fn componentwise_arithmetic() {
    let a = v(ONE, 2 * ONE, 3 * ONE);
    let b = v(4 * ONE, 5 * ONE, 6 * ONE);
    assert_eq!(a.add(b), v(5 * ONE, 7 * ONE, 9 * ONE));
    assert_eq!(b.sub(a), v(3 * ONE, 3 * ONE, 3 * ONE));
    assert_eq!(a.neg(), v(-ONE, -2 * ONE, -3 * ONE));
    assert_eq!(a.mul(b), v(4 * ONE, 10 * ONE, 18 * ONE));
    assert_eq!(a.scale(2 * ONE), v(2 * ONE, 4 * ONE, 6 * ONE));
    assert_eq!(a.abs(), a);
    assert_eq!(a.neg().abs(), a);
}

#[test]
fn dot_and_length() {
    let a = v(3 * ONE, 4 * ONE, 0);
    assert_eq!(a.dot(a), 25 * ONE);
    assert_eq!(a.length(), 5 * ONE);
    assert_eq!(v(0, 0, 0).length(), 0);
}

#[test]
fn cross_products_of_the_axes() {
    let x = v(ONE, 0, 0);
    let y = v(0, ONE, 0);
    let z = v(0, 0, ONE);
    assert_eq!(x.cross(y), z);
    assert_eq!(y.cross(z), x);
    assert_eq!(z.cross(x), y);
    assert_eq!(y.cross(x), z.neg());
}

#[test]
fn normalize_gives_unit_vectors() {
    let n = v(3 * ONE, 4 * ONE, 0).normalize();
    assert!((n.x - 3 * ONE / 5).abs() <= 2);
    assert!((n.y - 4 * ONE / 5).abs() <= 2);
    assert_eq!(n.z, 0);
    // the squared length lands on one, within rounding
    assert!((n.dot(n) - ONE).abs() <= 8);
    // an axis normalizes exactly
    assert_eq!(v(7 * ONE, 0, 0).normalize(), v(ONE, 0, 0));
    // the zero vector maps to the zero vector
    assert_eq!(v(0, 0, 0).normalize(), v(0, 0, 0));
}

#[test]
fn mix_interpolates() {
    let a = v(0, 0, 0);
    let b = v(ONE, 2 * ONE, 4 * ONE);
    assert_eq!(a.mix(b, 0), a);
    assert_eq!(a.mix(b, ONE), b);
    assert_eq!(a.mix(b, ONE / 2), v(ONE / 2, ONE, 2 * ONE));
}

#[test]
fn clamp01_bounds_every_component() {
    let c = v(-ONE, ONE / 2, 3 * ONE).clamp01();
    assert_eq!(c, v(0, ONE / 2, ONE));
}

#[test]
fn reflection_about_the_ground_normal() {
    // a 45-degree incoming direction bounces up at 45 degrees
    let d = v(ONE, -ONE, 0);
    let n = v(0, ONE, 0);
    let r = reflect(d, n);
    assert_eq!(r, v(ONE, ONE, 0));
    // the length is kept and the normal component flips exactly
    assert_eq!(r.dot(r), d.dot(d));
    assert_eq!(r.dot(n), -d.dot(n));
}

#[test]
fn reflection_keeps_length_for_unit_normals() {
    let d = v(2 * ONE, -3 * ONE, ONE);
    for n in [v(0, ONE, 0), v(ONE, 0, 0), v(0, 0, -ONE)] {
        let r = reflect(d, n);
        assert_eq!(r.dot(r), d.dot(d));
        assert_eq!(r.dot(n), -d.dot(n));
    }
}
