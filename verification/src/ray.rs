//! Rays and the per-hit shading terms: Blinn-Phong and Phong local
//! lighting, mirror reflection rays (optionally jittered for rough
//! surfaces), and Snell refraction rays with total internal
//! reflection reported as "no ray".

use vstd::prelude::*;

use crate::fx;
use crate::fx::{
    cclamp01, cdiv, cmax, cmul, csub, powf, spec_clamp01, spec_max, spec_mul, spec_sub, sqrt_fx,
    ONE,
};
use crate::light::Light;
use crate::materials::Material;
use crate::rng::gen_range;
use crate::vec3::{
    reflect, spec_vadd, spec_vdot, spec_vneg, spec_vnormalize, spec_vreflect, spec_vscale,
    spec_vsub, V3, V3i,
};

verus! {

/// Offset used to push secondary rays off the surface they started
/// on: one ten-thousandth of a unit, in fixed-point steps.
pub const EPSILON: i64 = 104;

#[derive(Clone, Copy, Debug)]
pub struct Ray {
    pub origin: V3,
    pub direction: V3,
}

/// The mathematical shadow of a `Ray`.
pub ghost struct Rayi {
    pub origin: V3i,
    pub direction: V3i,
}

#[derive(Clone, Copy, Debug)]
pub struct RayMarchingHit {
    pub distance: i64,
    pub albedo: V3,
    pub transformed_ray: Ray,
}

impl RayMarchingHit {
    pub fn new(distance: i64, albedo: V3, transformed_ray: Ray) -> (r: RayMarchingHit)
        ensures
            r.distance == distance,
            r.albedo == albedo,
            r.transformed_ray == transformed_ray,
    {
        RayMarchingHit { distance, albedo, transformed_ray }
    }
}

#[derive(Clone, Copy, Debug)]
pub struct RayHit {
    pub distance: i64,
    pub point: V3,
    pub normal: V3,
    pub material_index: usize,
}

impl RayHit {
    pub open spec fn wf(self) -> bool {
        fx::fits(self.distance as int) && self.point.wf() && self.normal.wf()
    }
}

impl Default for RayHit {
    /// The sentinel a shader starts from: the farthest representable
    /// distance behind the camera and an all-zero frame.
    fn default() -> (r: RayHit)
        ensures
            r.distance == -fx::BOUND,
            r.point.view() == (V3i { x: 0, y: 0, z: 0 }),
            r.normal.view() == (V3i { x: 0, y: 0, z: 0 }),
            r.material_index == 0,
            r.wf(),
    {
        RayHit {
            distance: -fx::BOUND,
            point: V3 { x: 0, y: 0, z: 0 },
            normal: V3 { x: 0, y: 0, z: 0 },
            material_index: 0,
        }
    }
}

/// The Blinn-Phong local lighting sum: ambient, Lambert diffuse, and
/// a half-vector specular highlight, all tinting `color`.
pub open spec fn spec_blinn_phong(
    dir: V3i,
    normal: V3i,
    point: V3i,
    light: Light,
    color: V3i,
    mat: Material,
) -> V3i {
    let ldir = light.spec_direction(point);
    let coeff = spec_vdot(normal, spec_vneg(ldir));
    let ambience = spec_vscale(mat.ambience as int, color);
    let diffuse = spec_vscale(spec_mul(mat.diffuse as int, spec_max(coeff, 0)), color);
    let half_angle = spec_vnormalize(spec_vsub(spec_vneg(dir), ldir));
    let shin = fx::spec_powf(spec_clamp01(spec_vdot(normal, half_angle)), mat.shininess as int);
    let specular = spec_vscale(spec_mul(mat.specular as int, shin), color);
    spec_vadd(spec_vadd(ambience, diffuse), specular)
}

/// The Phong variant: the highlight is read off the mirror-reflected
/// light direction instead of the half vector.
pub open spec fn spec_phong(dir: V3i, hit: RayHit, light: Light, color: V3i, mat: Material) -> V3i {
    let ldir = light.spec_direction(hit.point.view());
    let coeff = spec_vdot(hit.normal.view(), spec_vneg(ldir));
    let ambience = spec_vscale(mat.ambience as int, color);
    let diffuse = spec_vscale(spec_mul(mat.diffuse as int, spec_max(coeff, 0)), color);
    let refl = spec_vreflect(spec_vneg(ldir), hit.normal.view());
    let shin = fx::spec_powf(spec_clamp01(spec_vdot(dir, refl)), mat.shininess as int);
    let specular = spec_vscale(spec_mul(mat.specular as int, shin), color);
    spec_vadd(spec_vadd(ambience, diffuse), specular)
}

/// The vector a bounce direction is normalized from: the mirror
/// reflection about a (possibly jittered) normal, or the jittered
/// normal itself for a diffuse bounce.
pub open spec fn spec_reflection_pre(
    rayv: Rayi,
    hit: RayHit,
    roughness: int,
    jitter: V3i,
    diffuse: bool,
    enable_accumulation: bool,
) -> V3i {
    if !diffuse {
        let factor = if enable_accumulation {
            spec_vscale(roughness, jitter)
        } else {
            V3i { x: 0, y: 0, z: 0 }
        };
        spec_vreflect(rayv.direction, spec_vadd(hit.normal.view(), factor))
    } else {
        spec_vadd(hit.normal.view(), jitter)
    }
}

/// The secondary ray a reflective surface spawns: a mirror bounce
/// about a (possibly jittered) normal, or a jittered normal itself
/// for a diffuse bounce, pushed off the surface by `EPSILON`.
pub open spec fn spec_reflection_ray(
    rayv: Rayi,
    hit: RayHit,
    roughness: int,
    jitter: V3i,
    diffuse: bool,
    enable_accumulation: bool,
) -> Rayi {
    Rayi {
        origin: spec_vadd(hit.point.view(), spec_vscale(EPSILON as int, hit.normal.view())),
        direction: spec_vnormalize(
            spec_reflection_pre(rayv, hit, roughness, jitter, diffuse, enable_accumulation),
        ),
    }
}

/// The bounce direction is a unit vector wherever the vector it is
/// normalized from is usable: in range, and not degenerate (squared
/// length at least a sixty-fourth of a unit — for the mirror branch
/// that excludes only a jittered normal nearly parallel to the
/// incoming direction, for the diffuse branch a jitter nearly
/// cancelling the normal). Its squared length is then one, within a
/// few hundred of the `2^20` steps that make one.
pub proof fn lemma_reflection_dir_unit(
    rayv: Rayi,
    hit: RayHit,
    roughness: int,
    jitter: V3i,
    diffuse: bool,
    enable_accumulation: bool,
)
    requires
        fx::spec_abs(
            spec_reflection_pre(rayv, hit, roughness, jitter, diffuse, enable_accumulation).x,
        ) <= 0x1000000,
        fx::spec_abs(
            spec_reflection_pre(rayv, hit, roughness, jitter, diffuse, enable_accumulation).y,
        ) <= 0x1000000,
        fx::spec_abs(
            spec_reflection_pre(rayv, hit, roughness, jitter, diffuse, enable_accumulation).z,
        ) <= 0x1000000,
        0x4000 <= spec_vdot(
            spec_reflection_pre(rayv, hit, roughness, jitter, diffuse, enable_accumulation),
            spec_reflection_pre(rayv, hit, roughness, jitter, diffuse, enable_accumulation),
        ),
    ensures
        ONE as int - 16 <= spec_vdot(
            spec_reflection_ray(rayv, hit, roughness, jitter, diffuse, enable_accumulation).direction,
            spec_reflection_ray(rayv, hit, roughness, jitter, diffuse, enable_accumulation).direction,
        ),
        spec_vdot(
            spec_reflection_ray(rayv, hit, roughness, jitter, diffuse, enable_accumulation).direction,
            spec_reflection_ray(rayv, hit, roughness, jitter, diffuse, enable_accumulation).direction,
        ) <= ONE as int + 512,
{
    crate::vec3::lemma_normalize_unit(
        spec_reflection_pre(rayv, hit, roughness, jitter, diffuse, enable_accumulation),
    );
}

/// Largest jitter magnitude each bounce branch draws per component:
/// half a unit for the mirror branch, a whole unit for the diffuse
/// one.
pub open spec fn spec_jitter_bound(diffuse: bool) -> int {
    if diffuse {
        ONE as int
    } else {
        ONE as int / 2
    }
}

/// The cosine between the incoming direction and the surface normal,
/// folded positive; the branch taken decides which side of the
/// surface the ray is on.
pub open spec fn spec_refr_entering(dir: V3i, normal: V3i) -> bool {
    spec_vdot(dir, normal) < 0
}

pub open spec fn spec_refr_c1(dir: V3i, normal: V3i) -> int {
    if spec_refr_entering(dir, normal) {
        -spec_vdot(dir, normal)
    } else {
        spec_vdot(dir, normal)
    }
}

/// The effective index ratio: `1/n` entering the medium, `n` leaving.
pub open spec fn spec_refr_eta(dir: V3i, normal: V3i, refraction_index: int) -> int {
    if spec_refr_entering(dir, normal) {
        fx::spec_div(ONE as int, refraction_index)
    } else {
        fx::spec_div(refraction_index, ONE as int)
    }
}

/// The refraction discriminant `1 - eta^2 (1 - c1^2)`; negative
/// exactly under total internal reflection.
pub open spec fn spec_refr_k(dir: V3i, normal: V3i, refraction_index: int) -> int {
    let eta = spec_refr_eta(dir, normal, refraction_index);
    let c1 = spec_refr_c1(dir, normal);
    spec_sub(ONE as int, spec_mul(spec_mul(eta, eta), spec_sub(ONE as int, spec_mul(c1, c1))))
}

/// The normal as oriented against the ray for the refraction formula.
pub open spec fn spec_refr_normal(dir: V3i, normal: V3i) -> V3i {
    if spec_refr_entering(dir, normal) {
        normal
    } else {
        spec_vneg(normal)
    }
}

/// The transmitted ray under Snell's law, when one exists.
pub open spec fn spec_refraction_ray(rayv: Rayi, hit: RayHit, refraction_index: int) -> Rayi {
    let dir = rayv.direction;
    let n = spec_refr_normal(dir, hit.normal.view());
    let eta = spec_refr_eta(dir, hit.normal.view(), refraction_index);
    let c1 = spec_refr_c1(dir, hit.normal.view());
    let k = spec_refr_k(dir, hit.normal.view(), refraction_index);
    let c2 = fx::spec_sqrt(k);
    let direction = spec_vadd(
        spec_vscale(eta, dir),
        spec_vscale(spec_sub(spec_mul(eta, c1), c2), n),
    );
    Rayi {
        origin: spec_vsub(hit.point.view(), spec_vscale(EPSILON as int, n)),
        direction,
    }
}

impl Ray {
    /// The mathematical value of this ray.
    pub open spec fn view(self) -> Rayi {
        Rayi { origin: self.origin.view(), direction: self.direction.view() }
    }

    pub open spec fn wf(self) -> bool {
        self.origin.wf() && self.direction.wf()
    }

    /// The zero ray, to be filled in by a caller.
    pub fn new() -> (r: Ray)
        ensures
            r.view().origin == (V3i { x: 0, y: 0, z: 0 }),
            r.view().direction == (V3i { x: 0, y: 0, z: 0 }),
            r.wf(),
    {
        Ray { origin: V3 { x: 0, y: 0, z: 0 }, direction: V3 { x: 0, y: 0, z: 0 } }
    }

    /// This ray's direction mirrored about `normal`.
    pub fn reflect(&self, normal: V3) -> (r: V3)
        requires
            self.wf(),
            normal.wf(),
        ensures
            r.view() == spec_vreflect(self.view().direction, normal.view()),
            r.wf(),
    {
        reflect(self.direction, normal)
    }

    pub fn blinn_phong(
        &self,
        normal: &V3,
        point: &V3,
        light: &Light,
        color: V3,
        material: &Material,
    ) -> (r: V3)
        requires
            self.wf(),
            normal.wf(),
            point.wf(),
            light.wf(),
            color.wf(),
            material.wf(),
        ensures
            r.view() == spec_blinn_phong(
                self.view().direction,
                normal.view(),
                point.view(),
                *light,
                color.view(),
                *material,
            ),
            r.wf(),
    {
        let ldir: V3 = light.direction(*point);
        let coeff: i64 = normal.dot(ldir.neg());
        let ambience: V3 = color.scale(material.ambience);
        let diffuse: V3 = color.scale(cmul(material.diffuse, cmax(coeff, 0)));
        let half_angle: V3 = self.direction.neg().sub(ldir).normalize();
        let shin: i64 = powf(cclamp01(normal.dot(half_angle)), material.shininess);
        let specular: V3 = color.scale(cmul(material.specular, shin));
        ambience.add(diffuse).add(specular)
    }

    pub fn phong(&self, hit: &RayHit, light: &Light, color: V3, material: &Material) -> (r: V3)
        requires
            self.wf(),
            hit.wf(),
            light.wf(),
            color.wf(),
            material.wf(),
        ensures
            r.view() == spec_phong(self.view().direction, *hit, *light, color.view(), *material),
            r.wf(),
    {
        let ldir: V3 = light.direction(hit.point);
        let coeff: i64 = hit.normal.dot(ldir.neg());
        let ambience: V3 = color.scale(material.ambience);
        let diffuse: V3 = color.scale(cmul(material.diffuse, cmax(coeff, 0)));
        let refl: V3 = reflect(ldir.neg(), hit.normal);
        let shin: i64 = powf(cclamp01(self.direction.dot(refl)), material.shininess);
        let specular: V3 = color.scale(cmul(material.specular, shin));
        ambience.add(diffuse).add(specular)
    }

    /// The deterministic core of `reflection_ray`: the jitter is an
    /// argument, so this bounce is a pure function of its inputs.
    pub fn reflection_dir(
        &self,
        hit: RayHit,
        roughness: i64,
        jitter: V3,
        diffuse: bool,
        enable_accumulation: bool,
    ) -> (r: Ray)
        requires
            self.wf(),
            hit.wf(),
            fx::fits(roughness as int),
            jitter.wf(),
        ensures
            r.view() == spec_reflection_ray(
                self.view(),
                hit,
                roughness as int,
                jitter.view(),
                diffuse,
                enable_accumulation,
            ),
            r.wf(),
    {
        let dir: V3 = if !diffuse {
            let factor: V3 = if enable_accumulation {
                jitter.scale(roughness)
            } else {
                V3 { x: 0, y: 0, z: 0 }
            };
            self.reflect(hit.normal.add(factor)).normalize()
        } else {
            hit.normal.add(jitter).normalize()
        };
        Ray { origin: hit.point.add(hit.normal.scale(EPSILON)), direction: dir }
    }

    /// The bounce a rough surface spawns: a jitter is drawn — each
    /// component up to half a unit either way for the mirror branch,
    /// a whole unit for the diffuse branch — and folded into the
    /// mirror direction. Which jitter came out is not promised, only
    /// that the ray is the deterministic bounce for some jitter in
    /// the drawn range.
    pub fn reflection_ray(
        &self,
        hit: RayHit,
        roughness: i64,
        rnd: &mut rand::rngs::ThreadRng,
        diffuse: bool,
        enable_accumulation: bool,
    ) -> (r: Ray)
        requires
            self.wf(),
            hit.wf(),
            fx::fits(roughness as int),
        ensures
            exists|j: V3i|
                fx::spec_abs(j.x) <= spec_jitter_bound(diffuse) && fx::spec_abs(j.y)
                    <= spec_jitter_bound(diffuse) && fx::spec_abs(j.z) <= spec_jitter_bound(
                    diffuse,
                ) && #[trigger] spec_reflection_ray(
                    self.view(),
                    hit,
                    roughness as int,
                    j,
                    diffuse,
                    enable_accumulation,
                ) == r.view(),
            (!diffuse && !enable_accumulation) ==> r.view() == spec_reflection_ray(
                self.view(),
                hit,
                roughness as int,
                V3i { x: 0, y: 0, z: 0 },
                diffuse,
                enable_accumulation,
            ),
            r.wf(),
    {
        let jitter: V3 = if !diffuse {
            if enable_accumulation {
                V3 {
                    x: gen_range(rnd, -(ONE / 2), ONE / 2),
                    y: gen_range(rnd, -(ONE / 2), ONE / 2),
                    z: gen_range(rnd, -(ONE / 2), ONE / 2),
                }
            } else {
                V3 { x: 0, y: 0, z: 0 }
            }
        } else {
            V3 {
                x: gen_range(rnd, -ONE, ONE),
                y: gen_range(rnd, -ONE, ONE),
                z: gen_range(rnd, -ONE, ONE),
            }
        };
        let r: Ray = self.reflection_dir(hit, roughness, jitter, diffuse, enable_accumulation);
        proof {
            assert(fx::spec_abs(jitter.view().x) <= spec_jitter_bound(diffuse) && fx::spec_abs(
                jitter.view().y,
            ) <= spec_jitter_bound(diffuse) && fx::spec_abs(jitter.view().z) <= spec_jitter_bound(
                diffuse,
            ) && spec_reflection_ray(
                self.view(),
                hit,
                roughness as int,
                jitter.view(),
                diffuse,
                enable_accumulation,
            ) == r.view());
        }
        r
    }

    /// The transmitted ray under Snell's law; `None` exactly when the
    /// discriminant `1 - eta^2 (1 - c1^2)` is negative (total internal
    /// reflection).
    pub fn refraction_ray(&self, hit: RayHit, refraction_index: i64) -> (r: Option<Ray>)
        requires
            self.wf(),
            hit.wf(),
            fx::fits(refraction_index as int),
        ensures
            r.is_none() <==> spec_refr_k(
                self.view().direction,
                hit.normal.view(),
                refraction_index as int,
            ) < 0,
            match r {
                Option::Some(ray) => ray.view() == spec_refraction_ray(
                    self.view(),
                    hit,
                    refraction_index as int,
                ) && ray.wf(),
                Option::None => true,
            },
    {
        let mut normal: V3 = hit.normal;
        let mut eta_t: i64 = refraction_index;
        let mut eta_i: i64 = ONE;
        let mut c1: i64 = self.direction.dot(hit.normal);

        if c1 < 0 {
            c1 = -c1;
        } else {
            normal = normal.neg();
            eta_i = eta_t;
            eta_t = ONE;
        }
        let eta: i64 = cdiv(eta_i, eta_t);

        let k: i64 = csub(ONE, cmul(cmul(eta, eta), csub(ONE, cmul(c1, c1))));
        if k < 0 {
            return None;
        }

        let c2: i64 = sqrt_fx(k);
        let direction: V3 = self.direction.scale(eta).add(normal.scale(csub(cmul(eta, c1), c2)));

        Some(Ray { origin: hit.point.sub(normal.scale(EPSILON)), direction })
    }
}

} // verus!
