//! Sphere tracing over a scene's distance field: the primary marcher,
//! the tetrahedron normal estimate, the soft-shadow probe, and the
//! short-range ambient-occlusion probe.

use vstd::prelude::*;

use crate::fx;
use crate::fx::{
    cadd, cclamp01, cdiv, cmax, cmin, cmul, cneg, csub, spec_add, spec_clamp01, spec_div, spec_max,
    spec_min, spec_mul, spec_sub, BOUND, ONE,
};
use crate::ray::{Ray, Rayi};
use crate::scene::{Hit, Hiti, Scene};
use crate::vec3::{spec_vadd, spec_vnormalize, spec_vscale, V3, V3i};

verus! {

/// Step budget of the primary marcher.
pub const MAX_STEPS: usize = 300;

/// Scene radius beyond which a ray is declared a miss: forty units.
pub const MAX_DISTANCE: i64 = 41943040;

/// Field distance under which the marcher reports a surface: one
/// ten-thousandth of a unit.
pub const HIT_PRECISION: i64 = 104;

/// Step budget of the shadow probe.
pub const SHADOW_STEPS: usize = 64;

/// Where the shadow probe starts along its ray: a hundredth of a unit.
pub const SHADOW_START: i64 = 10486;

/// Smallest and largest step the shadow probe takes: a hundredth and
/// five units.
pub const SHADOW_STEP_MIN: i64 = 10486;

pub const SHADOW_STEP_MAX: i64 = 5242880;

/// Attenuations below this count as fully occluded.
pub const SHADOW_EPS: i64 = 104;

/// Height above which a shadow ray has escaped the scene: ten units.
pub const SHADOW_HEIGHT: i64 = 10485760;

/// First ambient-occlusion offset along the normal: a fiftieth of a
/// unit.
pub const AO_BASE: i64 = 20972;

/// Quadratic growth of the ambient-occlusion offsets: a fortieth of a
/// unit.
pub const AO_STEP: i64 = 26214;

/// Per-sample decay of the ambient-occlusion weight: about 0.85.
pub const AO_FALLOFF: i64 = 891290;

/// Number of ambient-occlusion samples.
pub const AO_SAMPLES: usize = 5;

/// Scale of the tetrahedron offsets the normal estimate samples at:
/// about 0.00029 of a unit.
pub const NORMAL_EPS: i64 = 303;

/// Gain applied to the sampled gradient before normalization: the
/// raw gradient is a few hundred fixed-point steps long, too short
/// to normalize accurately, and scaling a vector does not change its
/// direction. Two hundred fifty-six.
pub const NORMAL_GAIN: i64 = 268435456;

#[derive(Clone, Copy, Debug)]
pub struct RayMarching<'a> {
    pub scene: &'a Scene,
}

/// The primary march from `t` with `fuel` steps left: a miss once the
/// scene radius or the budget is exhausted, a hit — reported at the
/// parameter of the sub-precision sample itself — as soon as the
/// field drops under the precision threshold, else one trusted step
/// of exactly the field distance.
pub open spec fn spec_march(scene: Scene, rayv: Rayi, t: int, fuel: nat) -> Option<Hiti>
    decreases fuel,
{
    if fuel == 0 {
        None
    } else if t > MAX_DISTANCE as int {
        None
    } else {
        let h = scene.spec_sdf(rayv, t);
        if h.dist < HIT_PRECISION as int {
            Some(Hiti { dist: t, material_index: h.material_index, color: h.color })
        } else {
            spec_march(scene, rayv, spec_add(t, h.dist), (fuel - 1) as nat)
        }
    }
}

/// The shadow attenuation reached from `res` at parameter `t` with
/// `fuel` steps left.
pub open spec fn spec_shadow(scene: Scene, rayv: Rayi, k: int, res: int, t: int, fuel: nat) -> int
    decreases fuel,
{
    if fuel == 0 {
        res
    } else {
        let pos = Scene::spec_sample_point(rayv, t);
        let h = scene.spec_sdf(rayv, t).dist;
        let res2 = spec_min(res, spec_mul(k, spec_div(spec_max(h, 0), t)));
        if res2 < SHADOW_EPS as int || pos.y > SHADOW_HEIGHT as int {
            res2
        } else {
            spec_shadow(
                scene,
                rayv,
                k,
                res2,
                spec_add(t, spec_min(spec_max(h, SHADOW_STEP_MIN as int), SHADOW_STEP_MAX as int)),
                (fuel - 1) as nat,
            )
        }
    }
}

/// Accumulated occlusion and remaining falloff weight after `n`
/// samples along the normal.
pub open spec fn spec_occ_state(scene: Scene, pos: V3i, nor: V3i, n: nat) -> (int, int)
    decreases n,
{
    if n == 0 {
        (0, ONE as int)
    } else {
        let prev = spec_occ_state(scene, pos, nor, (n - 1) as nat);
        let hr = AO_BASE as int + AO_STEP as int * ((n - 1) * (n - 1));
        let dd = scene.spec_sdf(Rayi { origin: pos, direction: nor }, hr).dist;
        (
            spec_add(prev.0, spec_mul(-spec_sub(dd, hr), prev.1)),
            spec_mul(prev.1, AO_FALLOFF as int),
        )
    }
}

/// The occlusion multiplier: one minus the clamped accumulated
/// occlusion.
pub open spec fn spec_occlusion(scene: Scene, pos: V3i, nor: V3i) -> int {
    spec_sub(ONE as int, spec_clamp01(spec_occ_state(scene, pos, nor, AO_SAMPLES as nat).0))
}

/// The tetrahedron-sampled field gradient at `p`, scaled up for
/// accurate normalization.
pub open spec fn spec_gradient(scene: Scene, p: V3i) -> V3i {
    let xyy = V3i { x: ONE as int, y: -(ONE as int), z: -(ONE as int) };
    let yyx = V3i { x: -(ONE as int), y: -(ONE as int), z: ONE as int };
    let yxy = V3i { x: -(ONE as int), y: ONE as int, z: -(ONE as int) };
    let xxx = V3i { x: ONE as int, y: ONE as int, z: ONE as int };
    let f1 = scene.spec_sdf(Rayi { origin: p, direction: xyy }, NORMAL_EPS as int).dist;
    let f2 = scene.spec_sdf(Rayi { origin: p, direction: yyx }, NORMAL_EPS as int).dist;
    let f3 = scene.spec_sdf(Rayi { origin: p, direction: yxy }, NORMAL_EPS as int).dist;
    let f4 = scene.spec_sdf(Rayi { origin: p, direction: xxx }, NORMAL_EPS as int).dist;
    spec_vscale(
        NORMAL_GAIN as int,
        spec_vadd(
            spec_vadd(spec_vscale(f1, xyy), spec_vscale(f2, yyx)),
            spec_vadd(spec_vscale(f3, yxy), spec_vscale(f4, xxx)),
        ),
    )
}

/// The estimated surface normal: the sampled gradient, normalized.
pub open spec fn spec_normal(scene: Scene, p: V3i) -> V3i {
    spec_vnormalize(spec_gradient(scene, p))
}

/// The normal estimate is a unit vector wherever the sampled field
/// gradient is usable: neither degenerate (squared length under
/// `0x4000` steps — a sixty-fourth of a unit — which happens only
/// where the field is nearly flat around `p`) nor out of range. Its
/// squared length is then one, within a few hundred of the `2^20`
/// steps that make one.
pub proof fn lemma_normal_estimate_unit(scene: Scene, p: V3i)
    requires
        fx::spec_abs(spec_gradient(scene, p).x) <= 0x1000000,
        fx::spec_abs(spec_gradient(scene, p).y) <= 0x1000000,
        fx::spec_abs(spec_gradient(scene, p).z) <= 0x1000000,
        0x4000 <= crate::vec3::spec_vdot(spec_gradient(scene, p), spec_gradient(scene, p)),
    ensures
        ONE as int - 16 <= crate::vec3::spec_vdot(spec_normal(scene, p), spec_normal(scene, p)),
        crate::vec3::spec_vdot(spec_normal(scene, p), spec_normal(scene, p)) <= ONE as int + 512,
{
    crate::vec3::lemma_normalize_unit(spec_gradient(scene, p));
}

impl<'a> RayMarching<'a> {
    /// The outward surface normal estimated from four field samples
    /// at tetrahedron offsets around `p`.
    pub fn normal(&self, p: V3) -> (r: V3)
        requires
            self.scene.wf(),
            p.wf(),
        ensures
            r.view() == spec_normal(*self.scene, p.view()),
            r.wf(),
    {
        let xyy: V3 = V3 { x: ONE, y: -ONE, z: -ONE };
        let yyx: V3 = V3 { x: -ONE, y: -ONE, z: ONE };
        let yxy: V3 = V3 { x: -ONE, y: ONE, z: -ONE };
        let xxx: V3 = V3 { x: ONE, y: ONE, z: ONE };

        let r_xyy: Ray = Ray { origin: p, direction: xyy };
        let r_yyx: Ray = Ray { origin: p, direction: yyx };
        let r_yxy: Ray = Ray { origin: p, direction: yxy };
        let r_xxx: Ray = Ray { origin: p, direction: xxx };

        let f1: i64 = self.scene.sdf(&r_xyy, NORMAL_EPS).dist;
        let f2: i64 = self.scene.sdf(&r_yyx, NORMAL_EPS).dist;
        let f3: i64 = self.scene.sdf(&r_yxy, NORMAL_EPS).dist;
        let f4: i64 = self.scene.sdf(&r_xxx, NORMAL_EPS).dist;

        xyy.scale(f1).add(yyx.scale(f2)).add(yxy.scale(f3).add(xxx.scale(f4))).scale(
            NORMAL_GAIN,
        ).normalize()
    }

    /// The ambient-occlusion multiplier at a surface point, in
    /// `[0, ONE]` for every input.
    pub fn occlusion(&self, pos: V3, nor: V3) -> (r: i64)
        requires
            self.scene.wf(),
            pos.wf(),
            nor.wf(),
        ensures
            r as int == spec_occlusion(*self.scene, pos.view(), nor.view()),
            0 <= r as int <= ONE as int,
    {
        let mut occ: i64 = 0;
        let mut sca: i64 = ONE;
        let probe: Ray = Ray { origin: pos, direction: nor };
        let mut i: usize = 0;
        while i < AO_SAMPLES
            invariant
                i <= AO_SAMPLES,
                self.scene.wf(),
                pos.wf(),
                nor.wf(),
                probe.origin == pos,
                probe.direction == nor,
                (occ as int, sca as int) == spec_occ_state(
                    *self.scene,
                    pos.view(),
                    nor.view(),
                    i as nat,
                ),
                fx::fits(occ as int),
                fx::fits(sca as int),
            decreases AO_SAMPLES - i,
        {
            proof {
                assert((i as int) * (i as int) <= 16) by (nonlinear_arith)
                    requires
                        0 <= i as int,
                        (i as int) < 5,
                ;
            }
            let ii: i64 = (i as i64) * (i as i64);
            let hr: i64 = AO_BASE + AO_STEP * ii;
            let dd: i64 = self.scene.sdf(&probe, hr).dist;
            occ = cadd(occ, cmul(cneg(csub(dd, hr)), sca));
            sca = cmul(sca, AO_FALLOFF);
            i = i + 1;
        }
        csub(ONE, cclamp01(occ))
    }

    /// The soft-shadow attenuation along `ray`, in `[0, ONE]` for
    /// every input: one means fully lit.
    pub fn shadow(&self, ray: &Ray, k: i64) -> (res: i64)
        requires
            self.scene.wf(),
            ray.wf(),
            0 <= k as int,
            fx::fits(k as int),
        ensures
            res as int == spec_shadow(
                *self.scene,
                ray.view(),
                k as int,
                ONE as int,
                SHADOW_START as int,
                SHADOW_STEPS as nat,
            ),
            0 <= res as int <= ONE as int,
    {
        let mut res: i64 = ONE;
        let mut t: i64 = SHADOW_START;
        let mut i: usize = 0;
        while i < SHADOW_STEPS
            invariant
                i <= SHADOW_STEPS,
                self.scene.wf(),
                ray.wf(),
                0 <= k as int,
                fx::fits(k as int),
                0 < t as int,
                fx::fits(t as int),
                0 <= res as int <= ONE as int,
                spec_shadow(
                    *self.scene,
                    ray.view(),
                    k as int,
                    res as int,
                    t as int,
                    (SHADOW_STEPS - i) as nat,
                ) == spec_shadow(
                    *self.scene,
                    ray.view(),
                    k as int,
                    ONE as int,
                    SHADOW_START as int,
                    SHADOW_STEPS as nat,
                ),
            decreases SHADOW_STEPS - i,
        {
            let pos: V3 = ray.origin.add(ray.direction.scale(t));
            let h: i64 = self.scene.sdf(ray, t).dist;
            proof {
                fx::lemma_div_nonneg(spec_max(h as int, 0), t as int);
                fx::lemma_mul_nonneg(k as int, spec_div(spec_max(h as int, 0), t as int));
            }
            res = cmin(res, cmul(k, cdiv(cmax(h, 0), t)));
            if res < SHADOW_EPS || pos.y > SHADOW_HEIGHT {
                return res;
            }
            t = cadd(t, cmin(cmax(h, SHADOW_STEP_MIN), SHADOW_STEP_MAX));
            i = i + 1;
        }
        res
    }

    /// The primary sphere-tracing march: walks the ray by the field's
    /// own distance until a surface is closer than the precision
    /// threshold — the hit is reported at that sample's parameter —
    /// or gives the ray up as a miss. A reported distance is never
    /// negative.
    pub fn march_ray(&self, ray: &Ray) -> (r: Option<Hit>)
        requires
            self.scene.wf(),
            ray.wf(),
        ensures
            match r {
                Option::Some(h) => {
                    &&& spec_march(*self.scene, ray.view(), 0, MAX_STEPS as nat) == Some(h.view())
                    &&& 0 <= h.dist
                    &&& fx::fits(h.dist as int)
                    &&& (h.material_index as int) < self.scene.materials@.len()
                    &&& h.color.wf()
                },
                Option::None => spec_march(*self.scene, ray.view(), 0, MAX_STEPS as nat) is None,
            },
    {
        let mut t: i64 = 0;
        let mut i: usize = 0;
        while i < MAX_STEPS
            invariant
                i <= MAX_STEPS,
                self.scene.wf(),
                ray.wf(),
                0 <= t,
                fx::fits(t as int),
                spec_march(*self.scene, ray.view(), t as int, (MAX_STEPS - i) as nat)
                    == spec_march(*self.scene, ray.view(), 0, MAX_STEPS as nat),
            decreases MAX_STEPS - i,
        {
            if t > MAX_DISTANCE {
                return None;
            }
            let h: Hit = self.scene.sdf(ray, t);
            if h.dist < HIT_PRECISION {
                return Some(Hit { dist: t, material_index: h.material_index, color: h.color });
            }
            t = cadd(t, h.dist);
            i = i + 1;
        }
        None
    }
}

/// Sphere tracing only ever moves forward: a hit is reported at a
/// sample the march actually reached, so the march started at `t`
/// reports — if it reports at all — a distance no smaller than `t`.
/// Applied at every suffix of a march this is the monotonicity of
/// the marched parameter; applied at the start it rules out hits
/// behind the ray's origin.
pub proof fn lemma_march_monotone(scene: Scene, rayv: Rayi, t: int, fuel: nat)
    requires
        fx::fits(t),
    ensures
        match spec_march(scene, rayv, t, fuel) {
            Option::Some(h) => h.dist >= t,
            Option::None => true,
        },
    decreases fuel,
{
    if fuel == 0 || t > MAX_DISTANCE as int {
    } else {
        let h = scene.spec_sdf(rayv, t);
        if h.dist < HIT_PRECISION as int {
        } else {
            let t2 = spec_add(t, h.dist);
            assert(t <= t2 <= BOUND as int);
            lemma_march_monotone(scene, rayv, t2, (fuel - 1) as nat);
        }
    }
}

/// The marcher never reports a hit at a negative distance.
pub proof fn lemma_march_hit_nonneg(scene: Scene, rayv: Rayi)
    ensures
        match spec_march(scene, rayv, 0, MAX_STEPS as nat) {
            Option::Some(h) => h.dist >= 0,
            Option::None => true,
        },
{
    lemma_march_monotone(scene, rayv, 0, MAX_STEPS as nat);
}

/// Whether the ray keeps its shadow clearance at parameter `s`: the
/// attenuation term `k * dist / s` the probe would compute there is
/// at least one.
pub open spec fn spec_clearance(scene: Scene, rayv: Rayi, k: int, s: int) -> bool {
    spec_mul(k, spec_div(spec_max(scene.spec_sdf(rayv, s).dist, 0), s)) >= ONE as int
}

/// Along a ray that keeps its clearance at every reachable
/// parameter, the shadow probe keeps its full attenuation: a ray
/// through empty space is fully lit, exactly.
pub proof fn lemma_shadow_clear_path(scene: Scene, rayv: Rayi, k: int, t: int, fuel: nat)
    requires
        forall|s: int| 0 < s <= BOUND as int ==> #[trigger] spec_clearance(scene, rayv, k, s),
        0 < t,
        t + fuel * (SHADOW_STEP_MAX as int) <= BOUND as int,
    ensures
        spec_shadow(scene, rayv, k, ONE as int, t, fuel) == ONE as int,
    decreases fuel,
{
    if fuel == 0 {
    } else {
        let h = scene.spec_sdf(rayv, t).dist;
        assert(spec_clearance(scene, rayv, k, t));
        let md = spec_mul(k, spec_div(spec_max(h, 0), t));
        let res2 = spec_min(ONE as int, md);
        assert(res2 == ONE as int);
        let pos = Scene::spec_sample_point(rayv, t);
        if res2 < SHADOW_EPS as int || pos.y > SHADOW_HEIGHT as int {
        } else {
            let step = spec_min(spec_max(h, SHADOW_STEP_MIN as int), SHADOW_STEP_MAX as int);
            let t2 = spec_add(t, step);
            assert(0 < t2 && t2 + (fuel - 1) * (SHADOW_STEP_MAX as int) <= BOUND as int);
            lemma_shadow_clear_path(scene, rayv, k, t2, (fuel - 1) as nat);
        }
    }
}

/// A scene with no geometry keeps its clearance everywhere, for any
/// softness of at least one: every sample of the empty field sits at
/// the range bound.
pub proof fn lemma_empty_scene_clearance(scene: Scene, rayv: Rayi, k: int, s: int)
    requires
        scene.shapes@.len() == 0,
        ONE as int <= k <= BOUND as int,
        0 < s <= BOUND as int,
    ensures
        spec_clearance(scene, rayv, k, s),
{
    let h = scene.spec_sdf(rayv, s).dist;
    assert(h == BOUND as int);
    let dd = spec_div(spec_max(h, 0), s);
    assert((BOUND as int) * (fx::SCALE as int) / s >= fx::SCALE as int) by (nonlinear_arith)
        requires
            0 < s <= BOUND as int,
            BOUND as int == 0x80000000,
            fx::SCALE as int == 0x100000,
    ;
    assert(dd == fx::spec_clamp((BOUND as int) * (fx::SCALE as int) / s));
    assert(ONE as int <= dd <= BOUND as int);
    let md = spec_mul(k, dd);
    assert(k * dd >= 0x100000 * 0x100000) by (nonlinear_arith)
        requires
            k >= 0x100000,
            dd >= 0x100000,
    ;
    assert((k * dd) / (fx::SCALE as int) >= ONE as int) by (nonlinear_arith)
        requires
            k * dd >= 0x100000 * 0x100000,
            fx::SCALE as int == 0x100000,
            ONE as int == 0x100000,
    ;
    assert(md == fx::spec_clamp((k * dd) / (fx::SCALE as int)));
    assert(md >= ONE as int);
}

/// The clear-path law at the probe's own starting point and budget,
/// for a scene with no geometry.
pub proof fn lemma_shadow_clear_scene(scene: Scene, rayv: Rayi, k: int)
    requires
        scene.shapes@.len() == 0,
        ONE as int <= k <= BOUND as int,
    ensures
        spec_shadow(scene, rayv, k, ONE as int, SHADOW_START as int, SHADOW_STEPS as nat)
            == ONE as int,
{
    assert forall|s: int| 0 < s <= BOUND as int implies #[trigger] spec_clearance(
        scene,
        rayv,
        k,
        s,
    ) by {
        lemma_empty_scene_clearance(scene, rayv, k, s);
    }
    lemma_shadow_clear_path(scene, rayv, k, SHADOW_START as int, SHADOW_STEPS as nat);
}

} // verus!
