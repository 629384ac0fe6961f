use ray_tracing::camera::{Camera, CameraEvent, MAX_RESOLUTION};
use ray_tracing::fx::ONE;
use ray_tracing::light::{Directional, Light};
use ray_tracing::materials::{Material, MaterialType};
use ray_tracing::renderer::Renderer;
use ray_tracing::scene::Scene;
use ray_tracing::sdfs::{Primitive, Shape};
use ray_tracing::texture::Texture;
use ray_tracing::vec3::V3;

fn v(x: i64, y: i64, z: i64) -> V3 {
    V3::new(x, y, z)
}

fn sun() -> Light {
    Light::Directional(Directional {
        albedo: v(ONE, 85 * ONE / 100, 70 * ONE / 100),
        direction: v(-ONE, -ONE / 2, -5 * ONE).normalize(),
        intensity: ONE,
    })
}

fn demo_scene() -> Scene {
    let mut scene = Scene::new(
        vec![
            Material {
                albedo: v(8 * ONE / 10, 6 * ONE / 10, 4 * ONE / 10),
                kind: MaterialType::Reflective { roughness: ONE / 2 },
                ..Material::default()
            },
            Material {
                albedo: v(0, 4 * ONE / 10, ONE),
                ..Material::default()
            },
        ],
        vec![
            Shape {
                prim: Primitive::Plane { origin: v(0, 0, 0), normal: v(0, ONE, 0) },
                material_index: 0,
            },
            Shape {
                prim: Primitive::Sphere { center: v(0, ONE, 7 * ONE), radius: 8 * ONE / 10 },
                material_index: 1,
            },
        ],
    );
    scene.ambient_color = v(ONE / 2, 8 * ONE / 10, ONE);
    scene.lights = vec![sun()];
    scene
}

fn small_camera() -> Camera {
    let mut cam = Camera::new_with_pos(v(0, ONE, 11 * ONE), v(0, 0, -ONE));
    cam.resolution = (4, 2);
    cam
}

#[test]
fn camera_basis_is_orthonormal_for_an_axis_look() {
    let cam = Camera::new_with_pos(v(0, ONE, 11 * ONE), v(0, 0, -ONE));
    assert_eq!(cam.ww, v(0, 0, -ONE));
    assert_eq!(cam.uu, v(ONE, 0, 0));
    assert_eq!(cam.vv, v(0, ONE, 0));
    assert_eq!(cam.resolution, (800, 600));
    assert_eq!(cam.position, v(0, ONE, 11 * ONE));
    assert_eq!(cam.uu.dot(cam.vv), 0);
    assert_eq!(cam.uu.dot(cam.ww), 0);
    assert_eq!(cam.vv.dot(cam.ww), 0);
}

#[test]
fn camera_events_move_and_resize() {
    let mut cam = Camera::new_with_pos(v(0, 0, 0), v(0, 0, -ONE));
    let events = vec![CameraEvent::Up, CameraEvent::Resize { w: 100, h: 50 }];
    // one second forward at five units per second, looking down -z
    cam.update(&events, ONE);
    assert_eq!(cam.position, v(0, 0, -5 * ONE));
    assert_eq!(cam.resolution, (100, 50));
    // an oversized resize clamps to the supported edge
    cam.update(&vec![CameraEvent::Resize { w: 1 << 20, h: 0 }], ONE);
    assert_eq!(cam.resolution, (MAX_RESOLUTION, 1));
    // left then right cancels out
    let before = cam.position;
    cam.update(&vec![CameraEvent::Left, CameraEvent::Right], ONE / 4);
    assert_eq!(cam.position, before);
}

#[test]
fn scene_builders_accumulate_textures() {
    let scene = demo_scene();
    let t1 = Texture::from_bytes(String::from("a"), 1, 1, vec![1, 2, 3]).unwrap();
    let t2 = Texture::from_bytes(String::from("b"), 1, 1, vec![4, 5, 6]).unwrap();
    let t3 = Texture::from_bytes(String::from("c"), 1, 1, vec![7, 8, 9]).unwrap();
    let scene = scene.with_texture(t1).with_textures(vec![t2, t3]);
    assert_eq!(scene.textures.len(), 3);
    assert_eq!(scene.textures[0].path, "a");
    assert_eq!(scene.textures[1].path, "b");
    assert_eq!(scene.textures[2].path, "c");
}

#[test]
fn color_is_deterministic_and_in_the_unit_cube() {
    let scene = demo_scene();
    let cam = small_camera();
    let a = scene.color(&cam, (2 * ONE, ONE));
    let b = scene.color(&cam, (2 * ONE, ONE));
    assert_eq!(a, b);
    for c in [a.x, a.y, a.z] {
        assert!((0..=ONE).contains(&c));
    }
}

#[test]
fn path_trace_returns_the_carried_color_on_a_miss() {
    let scene = demo_scene();
    let res = v(ONE / 8, ONE / 4, ONE / 2);
    let sky = v(ONE / 2, ONE / 2, ONE);
    // a ray escaping upward hits nothing
    let up = ray_tracing::ray::Ray { origin: v(0, 5 * ONE, 0), direction: v(0, ONE, 0) };
    let out = scene.path_trace(&up, &sun(), res, sky, 0);
    assert_eq!(out, res);
    // past the bounce budget only the sky comes back
    let down = ray_tracing::ray::Ray { origin: v(0, 5 * ONE, 0), direction: v(0, -ONE, 0) };
    let out2 = scene.path_trace(&down, &sun(), res, sky, 4);
    assert_eq!(out2, sky);
}

#[test]
fn zero_roughness_is_a_perfect_mirror() {
    // two ground planes that differ only in albedo: at roughness
    // zero the surface color is replaced by the mirror bounce, so
    // both shade identically
    let mk = |albedo: V3| -> Scene {
        let mut s = Scene::new(
            vec![Material {
                albedo,
                kind: MaterialType::Reflective { roughness: 0 },
                ..Material::default()
            }],
            vec![Shape {
                prim: Primitive::Plane { origin: v(0, 0, 0), normal: v(0, ONE, 0) },
                material_index: 0,
            }],
        );
        s.lights = vec![sun()];
        s
    };
    let a = mk(v(ONE, 0, 0));
    let b = mk(v(0, ONE, 0));
    let ray = ray_tracing::ray::Ray {
        origin: v(0, 4 * ONE, 7 * ONE),
        direction: v(0, -ONE, -ONE).normalize(),
    };
    let res = v(ONE / 8, ONE / 4, ONE / 2);
    let sky = v(ONE / 2, ONE / 2, ONE);
    let ca = a.path_trace(&ray, &sun(), res, sky, 0);
    let cb = b.path_trace(&ray, &sun(), res, sky, 0);
    assert_eq!(ca, cb);
    // at roughness one the albedo shows, so the same scenes differ
    let mk1 = |albedo: V3| -> Scene {
        let mut s = Scene::new(
            vec![Material { albedo, ..Material::default() }],
            vec![Shape {
                prim: Primitive::Plane { origin: v(0, 0, 0), normal: v(0, ONE, 0) },
                material_index: 0,
            }],
        );
        s.lights = vec![sun()];
        s
    };
    let da = mk1(v(ONE, 0, 0)).path_trace(&ray, &sun(), res, sky, 0);
    let db = mk1(v(0, ONE, 0)).path_trace(&ray, &sun(), res, sky, 0);
    assert_ne!(da, db);
}

#[test]
fn to_rgba_scales_channels_to_bytes() {
    assert_eq!(Renderer::to_rgba(v(0, 0, 0)), (0, 0, 0, 255));
    assert_eq!(Renderer::to_rgba(v(ONE, ONE, ONE)), (255, 255, 255, 255));
    assert_eq!(Renderer::to_rgba(v(ONE / 5, ONE / 2, ONE)), (50, 127, 255, 255));
}

#[test]
fn render_chunks_assemble_into_the_frame() {
    let scene = demo_scene();
    let cam = small_camera();
    let whole = Renderer::render_chunk(&scene, &cam, 8, 0);
    assert_eq!(whole.len(), 32);
    let first = Renderer::render_chunk(&scene, &cam, 4, 0);
    let second = Renderer::render_chunk(&scene, &cam, 4, 4);
    let mut glued = first.clone();
    glued.extend_from_slice(&second);
    assert_eq!(whole, glued);
    // single pixels agree with their place in the chunk
    let (r, g, b, a) = Renderer::render_pixel(&scene, &cam, 5);
    assert_eq!(&whole[20..24], &[r, g, b, a]);
}

#[test]
fn rendering_twice_gives_identical_buffers() {
    let scene = demo_scene();
    let cam = small_camera();
    let renderer = Renderer::new();
    let mut img1 = vec![0u8; 32];
    let mut img2 = vec![9u8; 32];
    renderer.render(&scene, &mut img1, &cam, true, 2);
    renderer.render(&scene, &mut img2, &cam, true, 2);
    assert_eq!(img1, img2);
    assert_eq!(img1.len(), 32);
    // some pixel is not black: the sky alone guarantees light
    assert!(img1.iter().any(|&b| b > 0));
}

#[test]
fn render_skips_the_frame_when_nothing_changed() {
    let scene = demo_scene();
    let cam = small_camera();
    let renderer = Renderer::new();
    let mut img = vec![7u8; 32];
    renderer.render(&scene, &mut img, &cam, false, 2);
    assert_eq!(img, vec![7u8; 32]);
}

#[test]
fn render_leaves_partial_pixel_bytes_alone() {
    let scene = demo_scene();
    let cam = small_camera();
    let renderer = Renderer::new();
    // 18 bytes over two chunks: chunk size 8, covering 4 pixels; the
    // trailing two bytes are never touched
    let mut img = vec![3u8; 18];
    renderer.render(&scene, &mut img, &cam, true, 2);
    assert_eq!(img.len(), 18);
    assert_eq!(&img[16..], &[3u8, 3u8]);
    let chunk = Renderer::render_chunk(&scene, &cam, 4, 0);
    assert_eq!(&img[..16], &chunk[..]);
}
