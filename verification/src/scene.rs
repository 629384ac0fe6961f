//! The scene: materials, textures, lights and the distance field the
//! marcher walks, described as data. Evaluating the field at a point
//! takes the closest primitive, first one winning ties, and bakes the
//! winning material's albedo into the sample.

use vstd::prelude::*;

use crate::camera::Camera;
use crate::fx;
use crate::fx::{
    cadd, cclamp01, cmax, cmul, csub, powf, powi, spec_add, spec_clamp01, spec_div, spec_max,
    spec_mul, spec_powf, spec_powi, spec_sub, BOUND, ONE,
};
use crate::light::Light;
use crate::materials::{Material, MaterialType};
use crate::ray::{Ray, Rayi, EPSILON};
use crate::ray_marching::{
    spec_march, spec_normal, spec_occlusion, spec_shadow, RayMarching, MAX_STEPS, SHADOW_START,
    SHADOW_STEPS,
};
use crate::sdfs::Shape;
use crate::texture::Texture;
use crate::vec3::{
    reflect, spec_vadd, spec_vclamp01, spec_vdot, spec_vmix, spec_vmul, spec_vneg,
    spec_vnormalize, spec_vpow, spec_vreflect, spec_vscale, spec_vsub, unit_range_v3, V3, V3i,
};

verus! {

/// Bounce budget of the recursive path tracer.
pub const MAX_BOUNCES: usize = 3;

/// Offset pushing a reflection ray off its surface: a thousandth of
/// a unit.
pub const REFLECTION_OFFSET: i64 = 1049;

/// Softness of the sun shadows: thirty-two.
pub const SHADOW_K: i64 = 33554432;

/// Base and scale of the mirrored-bounce indirect term: 0.1 and 0.3.
pub const INDIRECT_BASE: i64 = 104858;

pub const INDIRECT_SCALE: i64 = 314573;

/// Per-channel exponents desaturating deep shadows: about 1.3, 1.2
/// and 1.5.
pub const DESAT_R: i64 = 1363149;

pub const DESAT_G: i64 = 1258291;

pub const DESAT_B: i64 = 1572864;

/// Forward scale of the camera ray: 1.5, the field-of-view constant.
pub const FOV_SCALE: i64 = 1572864;

/// Sky gradient: the vertical fade scale 0.7, the horizon color
/// (0.5, 0.8, 1.0) and the zenith blend color (0.5, 0.7, 0.9).
pub const SKY_FADE: i64 = 734003;

pub const SKY_HORIZON_R: i64 = 524288;

pub const SKY_HORIZON_G: i64 = 838861;

pub const SKY_HORIZON_B: i64 = 1048576;

pub const SKY_ZENITH_R: i64 = 524288;

pub const SKY_ZENITH_G: i64 = 734003;

pub const SKY_ZENITH_B: i64 = 943718;

/// `e^-10`, the base of the horizon blend falloff.
pub const EXP_NEG10: i64 = 48;

/// Weight of each sun-disc term: a quarter.
pub const SUN_WEIGHT: i64 = 262144;

/// Tints of the three sun-disc terms: (1, 0.7, 0.4), (1, 0.6, 0.6)
/// and (1, 0.9, 0.6), sharpened by powers 5, 64 and 512.
pub const SUN_CORE_G: i64 = 734003;

pub const SUN_CORE_B: i64 = 419430;

pub const SUN_MID_G: i64 = 629146;

pub const SUN_HALO_G: i64 = 943718;

/// The output gamma exponent, about 0.4545.
pub const GAMMA: i64 = 476611;

/// A field sample or a march result: a distance, the material at the
/// closest surface, and that surface's baked color.
#[derive(Clone, Copy, Debug)]
pub struct Hit {
    pub dist: i64,
    pub material_index: usize,
    pub color: V3,
}

/// The mathematical shadow of a `Hit`.
pub ghost struct Hiti {
    pub dist: int,
    pub material_index: int,
    pub color: V3i,
}

impl Hit {
    pub open spec fn view(self) -> Hiti {
        Hiti {
            dist: self.dist as int,
            material_index: self.material_index as int,
            color: self.color.view(),
        }
    }
}

#[derive(Clone, Debug)]
pub struct Scene {
    pub materials: Vec<Material>,
    pub textures: Vec<Texture>,
    pub ambient_color: V3,
    pub lights: Vec<Light>,
    pub shapes: Vec<Shape>,
}

/// The closest primitive among the first `n`, as the pair of its
/// distance and its material: the fold the field evaluation runs.
pub open spec fn spec_best(shapes: Seq<Shape>, p: V3i, n: nat) -> (int, int)
    decreases n,
{
    if n == 0 {
        (BOUND as int, 0)
    } else {
        let prev = spec_best(shapes, p, (n - 1) as nat);
        let d = shapes[n - 1].prim.spec_dist(p);
        if d < prev.0 {
            (d, shapes[n - 1].material_index as int)
        } else {
            prev
        }
    }
}

/// The field evaluation really finds the nearest surface: the folded
/// distance is a lower bound on every primitive's distance, and — for
/// a non-empty field — it is some primitive's distance (the first
/// closest one, ties going to the earlier shape).
#[verifier::rlimit(100)]
pub proof fn lemma_best_is_min(shapes: Seq<Shape>, p: V3i, n: nat)
    requires
        n <= shapes.len(),
    ensures
        spec_best(shapes, p, n).0 <= BOUND as int,
        forall|i: int|
            0 <= i < n ==> spec_best(shapes, p, n).0 <= (#[trigger] shapes[i]).prim.spec_dist(p),
        n > 0 ==> exists|i: int|
            0 <= i < n && spec_best(shapes, p, n).0 == (#[trigger] shapes[i]).prim.spec_dist(p),
    decreases n,
{
    if n > 0 {
        lemma_best_is_min(shapes, p, (n - 1) as nat);
        shapes[n - 1].prim.lemma_dist_in_range(p);
        let prev = spec_best(shapes, p, (n - 1) as nat);
        let d = shapes[n - 1].prim.spec_dist(p);
        if d < prev.0 {
            assert(spec_best(shapes, p, n).0 == d);
        } else {
            assert(spec_best(shapes, p, n) == prev);
            if n == 1 {
                // the fold started at the range bound, so the lone
                // primitive's distance must equal it
                assert(d == BOUND as int);
                assert(spec_best(shapes, p, n).0 == d);
            }
        }
    }
}

/// The same statement at the scene level: a field sample's distance
/// never exceeds any primitive's distance to the sampled point.
pub proof fn lemma_sdf_closest(scene: Scene, rayv: Rayi, t: int)
    ensures
        forall|i: int|
            0 <= i < scene.shapes@.len() ==> scene.spec_sdf(rayv, t).dist <= (
            #[trigger] scene.shapes@[i]).prim.spec_dist(Scene::spec_sample_point(rayv, t)),
{
    lemma_best_is_min(scene.shapes@, Scene::spec_sample_point(rayv, t), scene.shapes@.len());
}

impl Scene {
    pub open spec fn wf(self) -> bool {
        &&& self.materials@.len() >= 1
    &&& forall|i: int|
        0 <= i < self.materials@.len() ==> (#[trigger] self.materials@[i]).wf()
    &&& forall|i: int| 0 <= i < self.textures@.len() ==> (#[trigger] self.textures@[i]).wf()
    &&& forall|i: int| 0 <= i < self.lights@.len() ==> (#[trigger] self.lights@[i]).wf()
    &&& forall|i: int|
        0 <= i < self.shapes@.len() ==> (#[trigger] self.shapes@[i]).prim.wf() && (
        self.shapes@[i]).material_index < self.materials@.len()
    &&& self.ambient_color.wf()
    }

    /// Whether shading can read a primary light.
    pub open spec fn has_light(self) -> bool {
        self.lights@.len() >= 1
    }

    /// The point the field is sampled at: `t` units along the ray.
    pub open spec fn spec_sample_point(rayv: Rayi, t: int) -> V3i {
        spec_vadd(rayv.origin, spec_vscale(t, rayv.direction))
    }

    /// The field sample at `t` along the ray.
    pub open spec fn spec_sdf(self, rayv: Rayi, t: int) -> Hiti {
        let p = Scene::spec_sample_point(rayv, t);
        let best = spec_best(self.shapes@, p, self.shapes@.len());
        let color = if 0 <= best.1 < self.materials@.len() {
            self.materials@[best.1].albedo.view()
        } else {
            V3i { x: 0, y: 0, z: 0 }
        };
        Hiti { dist: best.0, material_index: best.1, color }
    }

    /// A scene over the given materials and field, with no textures,
    /// no lights and a black ambient term yet.
    pub fn new(materials: Vec<Material>, shapes: Vec<Shape>) -> (r: Scene)
        requires
            materials@.len() >= 1,
            forall|i: int| 0 <= i < materials@.len() ==> (#[trigger] materials@[i]).wf(),
            forall|i: int|
                0 <= i < shapes@.len() ==> (#[trigger] shapes@[i]).prim.wf() && (
                shapes@[i]).material_index < materials@.len(),
        ensures
            r.materials@ == materials@,
            r.textures@.len() == 0,
            r.ambient_color.view() == (V3i { x: 0, y: 0, z: 0 }),
            r.lights@.len() == 0,
            r.shapes@ == shapes@,
            r.wf(),
    {
        Scene {
            materials,
            textures: Vec::new(),
            ambient_color: V3 { x: 0, y: 0, z: 0 },
            lights: Vec::new(),
            shapes,
        }
    }

    /// The same scene with one more texture.
    pub fn with_texture(self, texture: Texture) -> (r: Scene)
        requires
            self.wf(),
            texture.wf(),
        ensures
            r.materials@ == self.materials@,
            r.textures@ == self.textures@.push(texture),
            r.ambient_color == self.ambient_color,
            r.lights@ == self.lights@,
            r.shapes@ == self.shapes@,
            r.wf(),
    {
        let mut s = self;
        s.textures.push(texture);
        s
    }

    /// The same scene with a batch of textures appended.
    pub fn with_textures(self, textures: Vec<Texture>) -> (r: Scene)
        requires
            self.wf(),
            forall|i: int| 0 <= i < textures@.len() ==> (#[trigger] textures@[i]).wf(),
        ensures
            r.materials@ == self.materials@,
            r.textures@ == self.textures@ + textures@,
            r.ambient_color == self.ambient_color,
            r.lights@ == self.lights@,
            r.shapes@ == self.shapes@,
            r.wf(),
    {
        let mut s = self;
        let mut rest = textures;
        s.textures.append(&mut rest);
        s
    }

    /// The field sample at `t` along `ray`: the distance to the
    /// closest primitive, its material, and that material's albedo.
    #[verifier::rlimit(40)]
    pub fn sdf(&self, ray: &Ray, t: i64) -> (r: Hit)
        requires
            self.wf(),
            ray.wf(),
            fx::fits(t as int),
        ensures
            r.view() == self.spec_sdf(ray.view(), t as int),
            fx::fits(r.dist as int),
            (r.material_index as int) < self.materials@.len(),
            r.color.wf(),
    {
        let p: V3 = ray.origin.add(ray.direction.scale(t));
        let mut best_d: i64 = BOUND;
        let mut best_m: usize = 0;
        let n: usize = self.shapes.len();
        let mut i: usize = 0;
        while i < n
            invariant
                i <= n,
                n == self.shapes@.len(),
                self.wf(),
                p.wf(),
                p.view() == Scene::spec_sample_point(ray.view(), t as int),
                (best_d as int, best_m as int) == spec_best(self.shapes@, p.view(), i as nat),
                fx::fits(best_d as int),
                (best_m as int) < self.materials@.len(),
            decreases n - i,
        {
            let d: i64 = self.shapes[i].prim.dist(p);
            if d < best_d {
                best_d = d;
                best_m = self.shapes[i].material_index;
            }
            i = i + 1;
        }
        let color: V3 = self.materials[best_m].albedo;
        Hit { dist: best_d, material_index: best_m, color }
    }
}

/// The layered lighting sum at a hit: sun times shadow, desaturated
/// deep shadows, occluded sky and mirrored-bounce terms, and the
/// Blinn-Phong highlight. Kept opaque so the path tracer reasons
/// about the sum as a value.
#[verifier::opaque]
pub open spec fn spec_lighting(
    scene: Scene,
    rayv: Rayi,
    l: Light,
    sky: V3i,
    p: V3i,
    n: V3i,
    mat: Material,
) -> V3i {
    let occlusion = spec_occlusion(scene, p, n);
    let light_dir = spec_vneg(l.spec_direction(p));
    let sun = spec_clamp01(spec_vdot(n, light_dir));
    let mirror = V3i { x: -(ONE as int), y: 0, z: -(ONE as int) };
    let indirect = spec_clamp01(
        spec_add(
            INDIRECT_BASE as int,
            spec_mul(
                INDIRECT_SCALE as int,
                spec_vdot(n, spec_vnormalize(spec_vmul(light_dir, mirror))),
            ),
        ),
    );
    let shadow_ray = Rayi {
        origin: spec_vadd(p, spec_vscale(EPSILON as int, n)),
        direction: light_dir,
    };
    let sh = spec_shadow(
        scene,
        shadow_ray,
        SHADOW_K as int,
        ONE as int,
        SHADOW_START as int,
        SHADOW_STEPS as nat,
    );
    let half_angle = spec_vnormalize(spec_vsub(spec_vneg(rayv.direction), l.spec_direction(p)));
    let shininess = spec_powf(spec_clamp01(spec_vdot(n, half_angle)), mat.shininess as int);
    let desat = spec_vpow(
        V3i { x: sh, y: sh, z: sh },
        V3i { x: DESAT_R as int, y: DESAT_G as int, z: DESAT_B as int },
    );
    let sunlight = spec_vmul(spec_vscale(spec_mul(sun, sh), l.spec_albedo()), desat);
    let with_sky = spec_vadd(sunlight, spec_vscale(occlusion, sky));
    let with_indirect = spec_vadd(
        with_sky,
        spec_vscale(occlusion, spec_vscale(indirect, l.spec_albedo())),
    );
    spec_vadd(
        with_indirect,
        spec_vscale(spec_mul(spec_mul(mat.specular as int, shininess), sh), l.spec_albedo()),
    )
}

/// The recursive path tracer: past the bounce budget the sky comes
/// back; a miss keeps the carried color; a hit blends the surface
/// color over a recursive mirror bounce by its roughness — zero
/// keeps the pure mirror color, one the plain surface color — and
/// lights the result.
pub open spec fn spec_path_trace(
    scene: Scene,
    rayv: Rayi,
    l: Light,
    res: V3i,
    sky: V3i,
    bounces: nat,
) -> V3i
    decreases 4 - bounces,
{
    if bounces > MAX_BOUNCES {
        sky
    } else {
        match spec_march(scene, rayv, 0, MAX_STEPS as nat) {
            Option::None => res,
            Option::Some(hit) => {
                let p = Scene::spec_sample_point(rayv, hit.dist);
                let n = spec_normal(scene, p);
                let refl = spec_vnormalize(spec_vreflect(rayv.direction, n));
                let col0 = hit.color;
                let mat = scene.materials@[hit.material_index];
                let col = match mat.kind {
                    MaterialType::Reflective { roughness } => {
                        if (roughness as int) < ONE as int {
                            let r_ray = Rayi {
                                origin: spec_vadd(p, spec_vscale(REFLECTION_OFFSET as int, n)),
                                direction: refl,
                            };
                            let rc = spec_path_trace(scene, r_ray, l, res, sky, (bounces + 1) as nat);
                            spec_vmix(rc, col0, roughness as int)
                        } else {
                            col0
                        }
                    },
                    MaterialType::Refractive { .. } => col0,
                };
                let lightning = spec_lighting(scene, rayv, l, sky, p, n, mat);
                spec_vmul(col, spec_vscale(l.spec_intensity(), lightning))
            },
        }
    }
}

/// The whole per-pixel computation: the camera ray, the procedural
/// sky with its sun disc, the path-traced surface color, and the
/// output gamma curve on the clamped result. Kept opaque so callers
/// reason about pixels as values rather than unfolding the pipeline.
#[verifier::opaque]
pub open spec fn spec_color(scene: Scene, cam: Camera, coord: (int, int)) -> V3i {
    let rx = (cam.resolution.0 as int) * (fx::SCALE as int);
    let ry = (cam.resolution.1 as int) * (fx::SCALE as int);
    let ratio = spec_div(rx, ry);
    let ndx = spec_div(coord.0, rx);
    let ndy = spec_div(coord.1, ry);
    let px = spec_mul(spec_sub(spec_add(ndx, ndx), ONE as int), ratio);
    let py = spec_sub(ONE as int, spec_add(ndy, ndy));
    let dir = spec_vnormalize(
        spec_vadd(
            spec_vadd(spec_vscale(px, cam.uu.view()), spec_vscale(py, cam.vv.view())),
            spec_vscale(FOV_SCALE as int, cam.ww.view()),
        ),
    );
    let rayv = Rayi { origin: cam.position.view(), direction: dir };
    let fade = spec_clamp01(spec_mul(SKY_FADE as int, dir.y));
    let sky0 = V3i {
        x: spec_sub(SKY_HORIZON_R as int, fade),
        y: spec_sub(SKY_HORIZON_G as int, fade),
        z: spec_sub(SKY_HORIZON_B as int, fade),
    };
    let zenith = V3i { x: SKY_ZENITH_R as int, y: SKY_ZENITH_G as int, z: SKY_ZENITH_B as int };
    let sky = spec_vmix(sky0, zenith, spec_powf(EXP_NEG10 as int, spec_max(dir.y, 0)));
    let l = scene.lights@[0];
    let sundot = spec_clamp01(
        spec_vdot(dir, spec_vneg(l.spec_direction(V3i { x: 0, y: 0, z: 0 }))),
    );
    let core = V3i { x: ONE as int, y: SUN_CORE_G as int, z: SUN_CORE_B as int };
    let mid = V3i { x: ONE as int, y: SUN_MID_G as int, z: SUN_MID_G as int };
    let halo = V3i { x: ONE as int, y: SUN_HALO_G as int, z: SUN_MID_G as int };
    let res0 = spec_vadd(
        sky,
        spec_vscale(spec_mul(SUN_WEIGHT as int, spec_powi(sundot, 5)), core),
    );
    let res1 = spec_vadd(
        res0,
        spec_vscale(spec_mul(SUN_WEIGHT as int, spec_powi(sundot, 64)), mid),
    );
    let res2 = spec_vadd(
        res1,
        spec_vscale(spec_mul(SUN_WEIGHT as int, spec_powi(sundot, 512)), halo),
    );
    let traced = spec_path_trace(scene, rayv, l, res2, sky, 0);
    let gamma = V3i { x: GAMMA as int, y: GAMMA as int, z: GAMMA as int };
    spec_vpow(spec_vclamp01(traced), gamma)
}

impl Scene {
    /// The layered lighting sum at a hit, as one value.
    fn lighting(&self, ray: &Ray, l: &Light, sky: V3, p: V3, n: V3, mat: &Material) -> (r: V3)
        requires
            self.wf(),
            ray.wf(),
            l.wf(),
            sky.wf(),
            p.wf(),
            n.wf(),
            mat.wf(),
        ensures
            r.view() == spec_lighting(*self, ray.view(), *l, sky.view(), p.view(), n.view(), *mat),
            r.wf(),
    {
        proof {
            reveal(spec_lighting);
        }
        let rm = RayMarching { scene: self };
        let occlusion: i64 = rm.occlusion(p, n);
        let light_dir: V3 = l.direction(p).neg();
        let sun: i64 = cclamp01(n.dot(light_dir));
        let mirror: V3 = V3 { x: -ONE, y: 0, z: -ONE };
        let indirect: i64 = cclamp01(
            cadd(INDIRECT_BASE, cmul(INDIRECT_SCALE, n.dot(light_dir.mul(mirror).normalize()))),
        );
        let shadow_ray: Ray = Ray { origin: p.add(n.scale(EPSILON)), direction: light_dir };
        let sh: i64 = rm.shadow(&shadow_ray, SHADOW_K);
        let half_angle: V3 = ray.direction.neg().sub(l.direction(p)).normalize();
        let shininess: i64 = powf(cclamp01(n.dot(half_angle)), mat.shininess);
        let desat: V3 = V3::splat(sh).pow(V3 { x: DESAT_R, y: DESAT_G, z: DESAT_B });
        let mut lightning: V3 = l.albedo().scale(cmul(sun, sh)).mul(desat);
        lightning = lightning.add(sky.scale(occlusion));
        lightning = lightning.add(l.albedo().scale(indirect).scale(occlusion));
        lightning = lightning.add(l.albedo().scale(cmul(cmul(mat.specular, shininess), sh)));
        lightning
    }

    /// One sample of the recursive path tracer. A miss yields the
    /// carried sky-and-sun color `res`; past the bounce budget the
    /// plain sky comes back; a hit is lit by sun, shadow, occlusion
    /// and highlight, with a mirror bounce blended in by roughness:
    /// at roughness zero the bounce replaces the surface color
    /// entirely (a perfect mirror), at roughness one it contributes
    /// nothing.
    #[verifier::rlimit(100)]
    pub fn path_trace(&self, ray: &Ray, l: &Light, res: V3, sky: V3, bounces: usize) -> (r: V3)
        requires
            self.wf(),
            ray.wf(),
            l.wf(),
            res.wf(),
            sky.wf(),
        ensures
            r.view() == spec_path_trace(
                *self,
                ray.view(),
                *l,
                res.view(),
                sky.view(),
                bounces as nat,
            ),
            r.wf(),
        decreases 4 - bounces,
    {
        if bounces > MAX_BOUNCES {
            return sky;
        }
        let rm = RayMarching { scene: self };
        match rm.march_ray(ray) {
            Option::Some(hit) => {
                let p: V3 = ray.origin.add(ray.direction.scale(hit.dist));
                let n: V3 = rm.normal(p);
                let refl: V3 = reflect(ray.direction, n).normalize();
                let mut col: V3 = hit.color;
                let mat: Material = self.materials[hit.material_index];
                if let MaterialType::Reflective { roughness } = mat.kind {
                    if roughness < ONE {
                        let r_ray: Ray = Ray {
                            origin: p.add(n.scale(REFLECTION_OFFSET)),
                            direction: refl,
                        };
                        let rc: V3 = self.path_trace(&r_ray, l, res, sky, bounces + 1);
                        col = rc.mix(col, roughness);
                    }
                }
                let lightning: V3 = self.lighting(ray, l, sky, p, n, &mat);
                col.mul(lightning.scale(l.intensity()))
            },
            Option::None => res,
        }
    }

    /// The color of the pixel whose fixed-point coordinates are
    /// `coord`: the camera ray is built from the normalized device
    /// coordinates, shaded against sky and scene, and gamma-mapped
    /// into the unit cube.
    pub fn color(&self, camera: &Camera, coord: (i64, i64)) -> (r: V3)
        requires
            self.wf(),
            self.has_light(),
            camera.wf(),
            fx::fits(coord.0 as int),
            fx::fits(coord.1 as int),
        ensures
            r.view() == spec_color(*self, *camera, (coord.0 as int, coord.1 as int)),
            unit_range_v3(r.view()),
            r.wf(),
    {
        proof {
            reveal(spec_color);
        }
        let rx: i64 = (camera.resolution.0 as i64) * fx::SCALE;
        let ry: i64 = (camera.resolution.1 as i64) * fx::SCALE;
        let ratio: i64 = fx::cdiv(rx, ry);
        let ndx: i64 = fx::cdiv(coord.0, rx);
        let ndy: i64 = fx::cdiv(coord.1, ry);
        let px: i64 = cmul(csub(cadd(ndx, ndx), ONE), ratio);
        let py: i64 = csub(ONE, cadd(ndy, ndy));
        let dir: V3 = camera.uu.scale(px).add(camera.vv.scale(py)).add(
            camera.ww.scale(FOV_SCALE),
        ).normalize();
        let ray: Ray = Ray { origin: camera.position, direction: dir };

        let fade: i64 = cclamp01(cmul(SKY_FADE, dir.y));
        let sky0: V3 = V3 {
            x: csub(SKY_HORIZON_R, fade),
            y: csub(SKY_HORIZON_G, fade),
            z: csub(SKY_HORIZON_B, fade),
        };
        let zenith: V3 = V3 { x: SKY_ZENITH_R, y: SKY_ZENITH_G, z: SKY_ZENITH_B };
        let sky: V3 = sky0.mix(zenith, powf(EXP_NEG10, cmax(dir.y, 0)));

        let l: Light = self.lights[0];
        let sundot: i64 = cclamp01(dir.dot(l.direction(V3 { x: 0, y: 0, z: 0 }).neg()));
        let core: V3 = V3 { x: ONE, y: SUN_CORE_G, z: SUN_CORE_B };
        let mid: V3 = V3 { x: ONE, y: SUN_MID_G, z: SUN_MID_G };
        let halo: V3 = V3 { x: ONE, y: SUN_HALO_G, z: SUN_MID_G };
        let mut res: V3 = sky.add(core.scale(cmul(SUN_WEIGHT, powi(sundot, 5))));
        res = res.add(mid.scale(cmul(SUN_WEIGHT, powi(sundot, 64))));
        res = res.add(halo.scale(cmul(SUN_WEIGHT, powi(sundot, 512))));

        res = self.path_trace(&ray, &l, res, sky, 0);

        res.clamp01().pow(V3 { x: GAMMA, y: GAMMA, z: GAMMA })
    }
}

} // verus!
