use ray_tracing::fx::{BOUND, ONE};
use ray_tracing::light::{Directional, Light};
use ray_tracing::materials::{Material, MaterialType};
use ray_tracing::texture::Texture;
use ray_tracing::vec3::V3;

fn v(x: i64, y: i64, z: i64) -> V3 {
    V3::new(x, y, z)
}

#[test]
fn default_material_is_dull_grey() {
    let m = Material::default();
    assert_eq!(m.ambience, ONE / 5);
    assert_eq!(m.diffuse, ONE * 7 / 10);
    assert_eq!(m.specular, ONE / 2);
    assert_eq!(m.shininess, 5 * ONE);
    assert_eq!(m.albedo, v(0, 0, 0));
    assert!(m.texture.is_none());
    assert!(matches!(m.kind, MaterialType::Reflective { roughness } if roughness == ONE));
    assert_eq!(m.emission_power, 0);
}

#[test]
fn fresnel_stays_in_range_and_grows_grazing() {
    let m = Material::default();
    // head-on into a denser medium: close to the Schlick base
    let head_on = m.fresnel(v(0, -ONE, 0), v(0, ONE, 0), 3 * ONE / 2, 0);
    assert!((0..=ONE).contains(&head_on));
    // grazing: much more reflective than head-on
    let grazing = m.fresnel(v(ONE, -ONE / 100, 0), v(0, ONE, 0), 3 * ONE / 2, 0);
    assert!((0..=BOUND).contains(&grazing));
    assert!(grazing > head_on);
    // the reflectivity floor lifts the result
    let floored = m.fresnel(v(0, -ONE, 0), v(0, ONE, 0), 3 * ONE / 2, ONE / 2);
    assert!(floored >= ONE / 2);
}

#[test]
fn directional_light_capabilities() {
    let l = Light::Directional(Directional {
        albedo: v(ONE, ONE / 2, 0),
        direction: v(0, -ONE, 0),
        intensity: 2 * ONE,
    });
    // the direction is the same at every point
    assert_eq!(l.direction(v(0, 0, 0)), v(0, -ONE, 0));
    assert_eq!(l.direction(v(9 * ONE, 9 * ONE, 9 * ONE)), v(0, -ONE, 0));
    assert_eq!(l.albedo(), v(ONE, ONE / 2, 0));
    assert_eq!(l.intensity(), 2 * ONE);
    // a sun's distance is normalized to one
    assert_eq!(l.distance(v(5 * ONE, 0, 0)), ONE);
}

#[test]
fn texture_new_is_an_empty_placeholder() {
    let t = Texture::new(String::from("chess.png"));
    assert_eq!(t.path, "chess.png");
    assert_eq!(t.width, 0);
    assert_eq!(t.height, 0);
    assert!(t.bytes.is_empty());
}

#[test]
fn texture_from_bytes_validates_the_packing() {
    let ok = Texture::from_bytes(String::from("t"), 2, 2, vec![0u8; 12]);
    assert!(ok.is_some());
    let short = Texture::from_bytes(String::from("t"), 2, 2, vec![0u8; 11]);
    assert!(short.is_none());
    let long = Texture::from_bytes(String::from("t"), 2, 2, vec![0u8; 13]);
    assert!(long.is_none());
}

#[test]
fn texture_pixel_reads_the_packed_texel() {
    // a 2x2 texture: red, green / blue, white
    let bytes = vec![
        255u8, 0, 0, //
        0, 255, 0, //
        0, 0, 255, //
        255, 255, 255,
    ];
    let t = Texture::from_bytes(String::from("t"), 2, 2, bytes).unwrap();
    assert_eq!(t.pixel(0, 0), v(ONE, 0, 0));
    assert_eq!(t.pixel(1, 0), v(0, ONE, 0));
    assert_eq!(t.pixel(0, 1), v(0, 0, ONE));
    assert_eq!(t.pixel(1, 1), v(ONE, ONE, ONE));
}

#[test]
fn texture_uv_lookup_wraps_outside_the_unit_square() {
    let bytes = vec![
        255u8, 0, 0, //
        0, 255, 0, //
        0, 0, 255, //
        255, 255, 255,
    ];
    let t = Texture::from_bytes(String::from("t"), 2, 2, bytes).unwrap();
    // in range: the corners
    assert_eq!(t.from_uv(0, 0), v(ONE, 0, 0));
    assert_eq!(t.from_uv(ONE, ONE), v(ONE, ONE, ONE));
    // past one: only the fractional part counts
    assert_eq!(t.from_uv(ONE + ONE / 4, ONE / 4), t.from_uv(ONE / 4, ONE / 4));
    // negative: wraps from the far edge
    assert_eq!(t.from_uv(-(ONE / 4), 0), t.from_uv(3 * ONE / 4, 0));
}
