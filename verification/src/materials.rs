//! Surface materials: Blinn-Phong coefficients, an albedo, an optional
//! texture reference, and a tag telling the path tracer whether the
//! surface reflects or refracts.

use vstd::prelude::*;

use crate::fx;
use crate::fx::{cadd, cmul, csub, spec_add, spec_mul, spec_sub, sqrt_fx, ONE};
use crate::vec3::V3;

verus! {

#[derive(Clone, Copy, Debug)]
pub enum MaterialType {
    /// `roughness` runs from zero — a perfect mirror — to one, a
    /// fully diffuse surface with no reflection contribution.
    Reflective { roughness: i64 },
    Refractive { transparency: i64, refraction_index: i64, reflectivity: i64 },
}

impl MaterialType {
    pub open spec fn wf(self) -> bool {
        match self {
            MaterialType::Reflective { roughness } => 0 <= roughness as int <= ONE as int,
            MaterialType::Refractive { transparency, refraction_index, reflectivity } => {
                fx::fits(transparency as int) && fx::fits(refraction_index as int) && fx::fits(
                    reflectivity as int,
                )
            },
        }
    }
}

#[derive(Clone, Copy, Debug)]
pub struct Material {
    pub ambience: i64,
    pub diffuse: i64,
    pub specular: i64,
    pub shininess: i64,
    pub albedo: V3,
    pub texture: Option<usize>,
    pub kind: MaterialType,
    pub emission_power: i64,
}

impl Material {
    pub open spec fn wf(self) -> bool {
        fx::fits(self.ambience as int) && fx::fits(self.diffuse as int) && fx::fits(
            self.specular as int,
        ) && 0 <= self.shininess as int && fx::fits(self.shininess as int) && self.albedo.wf()
            && self.kind.wf() && fx::fits(self.emission_power as int)
    }
}

impl Default for Material {
    /// A dull, fully diffuse grey: the starting point scene authors
    /// override field by field.
    fn default() -> (r: Material)
        ensures
            r.ambience as int == fx::ONE as int / 5,
            r.diffuse as int == fx::ONE as int * 7 / 10,
            r.specular as int == fx::ONE as int / 2,
            r.shininess as int == fx::ONE as int * 5,
            r.albedo.view() == (crate::vec3::V3i { x: 0, y: 0, z: 0 }),
            r.texture.is_none(),
            r.kind == (MaterialType::Reflective { roughness: fx::ONE }),
            r.emission_power == 0,
            r.wf(),
    {
        Material {
            ambience: ONE / 5,
            diffuse: ONE * 7 / 10,
            specular: ONE / 2,
            shininess: ONE * 5,
            albedo: V3 { x: 0, y: 0, z: 0 },
            texture: None,
            kind: MaterialType::Reflective { roughness: ONE },
            emission_power: 0,
        }
    }
}

/// The Schlick base reflectance `((1 - n2) / (1 + n2))^2`.
pub open spec fn spec_fresnel_r0(n2: int) -> int {
    let r = fx::spec_div(spec_sub(ONE as int, n2), spec_add(ONE as int, n2));
    spec_mul(r, r)
}

/// Schlick's approximation of the Fresnel factor, on a cosine already
/// resolved against the surface: `r0 + (1-r0)(1-cos)^5`, then blended
/// toward one by the material's own reflectivity floor.
pub open spec fn spec_fresnel(n2: int, cos_x: int, reflectivity: int) -> int {
    let r0 = spec_fresnel_r0(n2);
    let x = spec_sub(ONE as int, cos_x);
    let x5 = spec_mul(spec_mul(spec_mul(spec_mul(x, x), x), x), x);
    let ret = spec_add(r0, spec_mul(spec_sub(ONE as int, r0), x5));
    spec_add(reflectivity, spec_mul(spec_sub(ONE as int, reflectivity), ret))
}

/// The cosine `spec_fresnel` is evaluated at: the entry cosine as-is
/// for a dense medium, else folded through the refraction angle, with
/// total internal reflection reported separately.
pub open spec fn spec_fresnel_cos(n2: int, cos_in: int) -> Option<int> {
    if ONE as int > n2 {
        let n = fx::spec_div(ONE as int, n2);
        let sin_t2 = spec_mul(spec_mul(n, n), spec_sub(ONE as int, spec_mul(cos_in, cos_in)));
        if sin_t2 > ONE as int {
            None
        } else {
            Some(fx::spec_sqrt(fx::spec_max(0, spec_sub(ONE as int, sin_t2))))
        }
    } else {
        Some(cos_in)
    }
}

impl Material {
    /// The reflection weight of a refractive surface: one under total
    /// internal reflection, otherwise Schlick's approximation at the
    /// effective cosine.
    pub fn fresnel(&self, incident: V3, normal: V3, refraction_index: i64, reflectivity: i64) -> (r:
        i64)
        requires
            incident.wf(),
            normal.wf(),
            fx::fits(refraction_index as int),
            fx::fits(reflectivity as int),
        ensures
            r as int == match spec_fresnel_cos(
                refraction_index as int,
                crate::vec3::spec_vdot(normal.view(), crate::vec3::spec_vneg(incident.view())),
            ) {
                Option::None => ONE as int,
                Option::Some(c) => spec_fresnel(refraction_index as int, c, reflectivity as int),
            },
            fx::fits(r as int),
    {
        let n2: i64 = refraction_index;
        let r0_base: i64 = fx::cdiv(csub(ONE, n2), cadd(ONE, n2));
        let r0: i64 = cmul(r0_base, r0_base);
        let mut cos_x: i64 = normal.dot(incident.neg());
        if ONE > n2 {
            let n: i64 = fx::cdiv(ONE, n2);
            let sin_t2: i64 = cmul(cmul(n, n), csub(ONE, cmul(cos_x, cos_x)));
            if sin_t2 > ONE {
                return ONE;
            }
            cos_x = sqrt_fx(fx::cmax(0, csub(ONE, sin_t2)));
        }
        let x: i64 = csub(ONE, cos_x);
        let x5: i64 = cmul(cmul(cmul(cmul(x, x), x), x), x);
        let ret: i64 = cadd(r0, cmul(csub(ONE, r0), x5));
        cadd(reflectivity, cmul(csub(ONE, reflectivity), ret))
    }
}

} // verus!
