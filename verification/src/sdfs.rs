//! Signed distance functions for the primitive solids a scene is
//! assembled from, and the primitive description itself. A scene's
//! field is data — a list of primitives — rather than code, so the
//! marcher can be reasoned about for every scene.

use vstd::prelude::*;

use crate::fx;
use crate::fx::{cadd, cmax, cmin, csub, spec_add, spec_max, spec_min, spec_sub};
use crate::vec3::{
    spec_vabs, spec_vdot, spec_vlength, spec_vmax, spec_vsub, V3, V3i,
};

verus! {

/// Distance from `q` (the offset from the sphere's center) to a
/// sphere of the given radius.
pub open spec fn spec_sphere_sdf(q: V3i, radius: int) -> int {
    spec_sub(spec_vlength(q), radius)
}

pub fn sphere_sdf(q: V3, radius: i64) -> (r: i64)
    requires
        q.wf(),
        fx::fits(radius as int),
    ensures
        r as int == spec_sphere_sdf(q.view(), radius as int),
        fx::fits(r as int),
{
    csub(q.length(), radius)
}

/// Signed height of `p` over the plane through `origin` with the
/// given normal.
pub open spec fn spec_plane_sdf(p: V3i, origin: V3i, normal: V3i) -> int {
    spec_vdot(spec_vsub(p, origin), normal)
}

pub fn plane_sdf(p: V3, origin: V3, normal: V3) -> (r: i64)
    requires
        p.wf(),
        origin.wf(),
        normal.wf(),
    ensures
        r as int == spec_plane_sdf(p.view(), origin.view(), normal.view()),
        fx::fits(r as int),
{
    p.sub(origin).dot(normal)
}

/// Distance from `q` (the offset from the center) to a box with the
/// given half extents, rounded by `rounding`.
pub open spec fn spec_box_sdf(q: V3i, half: V3i, rounding: int) -> int {
    let d = spec_vsub(spec_vabs(q), half);
    let outside = spec_vlength(spec_vmax(d, V3i { x: 0, y: 0, z: 0 }));
    let inside = spec_min(spec_max(d.x, spec_max(d.y, d.z)), 0);
    spec_sub(spec_add(outside, inside), rounding)
}

pub fn box_sdf(q: V3, half: V3, rounding: i64) -> (r: i64)
    requires
        q.wf(),
        half.wf(),
        fx::fits(rounding as int),
    ensures
        r as int == spec_box_sdf(q.view(), half.view(), rounding as int),
        fx::fits(r as int),
{
    let d: V3 = q.abs().sub(half);
    let outside: i64 = d.max(V3 { x: 0, y: 0, z: 0 }).length();
    let inside: i64 = cmin(cmax(d.x, cmax(d.y, d.z)), 0);
    csub(cadd(outside, inside), rounding)
}

/// Distance from `q` (the offset from the center) to a capped
/// vertical cylinder, rounded by `rounding`.
pub open spec fn spec_cylinder_sdf(q: V3i, radius: int, rounding: int, height: int) -> int {
    let dx = spec_sub(
        spec_vlength(V3i { x: q.x, y: 0, z: q.z }),
        radius,
    );
    let dy = spec_sub(fx::spec_abs(q.y), height);
    let outside = spec_vlength(
        V3i { x: spec_max(dx, 0), y: spec_max(dy, 0), z: 0 },
    );
    let inside = spec_min(spec_max(dx, dy), 0);
    spec_sub(spec_add(outside, inside), rounding)
}

pub fn cylinder_sdf(q: V3, radius: i64, rounding: i64, height: i64) -> (r: i64)
    requires
        q.wf(),
        fx::fits(radius as int),
        fx::fits(rounding as int),
        fx::fits(height as int),
    ensures
        r as int == spec_cylinder_sdf(q.view(), radius as int, rounding as int, height as int),
        fx::fits(r as int),
{
    let dx: i64 = csub(V3 { x: q.x, y: 0, z: q.z }.length(), radius);
    let dy: i64 = csub(fx::cabs(q.y), height);
    let outside: i64 = V3 { x: cmax(dx, 0), y: cmax(dy, 0), z: 0 }.length();
    let inside: i64 = cmin(cmax(dx, dy), 0);
    csub(cadd(outside, inside), rounding)
}

/// A primitive solid, placed in the world.
#[derive(Clone, Copy, Debug)]
pub enum Primitive {
    Sphere { center: V3, radius: i64 },
    Plane { origin: V3, normal: V3 },
    Cuboid { center: V3, half: V3, rounding: i64 },
    Cylinder { center: V3, radius: i64, rounding: i64, height: i64 },
}

impl Primitive {
    pub open spec fn wf(self) -> bool {
        match self {
            Primitive::Sphere { center, radius } => center.wf() && fx::fits(radius as int),
            Primitive::Plane { origin, normal } => origin.wf() && normal.wf(),
            Primitive::Cuboid { center, half, rounding } => center.wf() && half.wf() && fx::fits(
                rounding as int,
            ),
            Primitive::Cylinder { center, radius, rounding, height } => center.wf() && fx::fits(
                radius as int,
            ) && fx::fits(rounding as int) && fx::fits(height as int),
        }
    }

    /// The signed distance from `p` to this primitive. Kept opaque
    /// so field-level reasoning treats primitive distances as
    /// values.
    #[verifier::opaque]
    pub open spec fn spec_dist(self, p: V3i) -> int {
        match self {
            Primitive::Sphere { center, radius } => spec_sphere_sdf(
                spec_vsub(p, center.view()),
                radius as int,
            ),
            Primitive::Plane { origin, normal } => spec_plane_sdf(p, origin.view(), normal.view()),
            Primitive::Cuboid { center, half, rounding } => spec_box_sdf(
                spec_vsub(p, center.view()),
                half.view(),
                rounding as int,
            ),
            Primitive::Cylinder { center, radius, rounding, height } => spec_cylinder_sdf(
                spec_vsub(p, center.view()),
                radius as int,
                rounding as int,
                height as int,
            ),
        }
    }

    /// Every primitive distance comes out of a saturating operation,
    /// so it lies in the working range.
    pub proof fn lemma_dist_in_range(self, p: V3i)
        ensures
            fx::fits(self.spec_dist(p)),
    {
        reveal(Primitive::spec_dist);
        match self {
            Primitive::Sphere { center, radius } => {},
            Primitive::Plane { origin, normal } => {},
            Primitive::Cuboid { center, half, rounding } => {},
            Primitive::Cylinder { center, radius, rounding, height } => {},
        }
    }

    pub fn dist(&self, p: V3) -> (r: i64)
        requires
            self.wf(),
            p.wf(),
        ensures
            r as int == self.spec_dist(p.view()),
            fx::fits(r as int),
    {
        proof {
            reveal(Primitive::spec_dist);
        }
        match self {
            Primitive::Sphere { center, radius } => sphere_sdf(p.sub(*center), *radius),
            Primitive::Plane { origin, normal } => plane_sdf(p, *origin, *normal),
            Primitive::Cuboid { center, half, rounding } => box_sdf(
                p.sub(*center),
                *half,
                *rounding,
            ),
            Primitive::Cylinder { center, radius, rounding, height } => cylinder_sdf(
                p.sub(*center),
                *radius,
                *rounding,
                *height,
            ),
        }
    }
}

/// A primitive together with the material it is shaded with.
#[derive(Clone, Copy, Debug)]
pub struct Shape {
    pub prim: Primitive,
    pub material_index: usize,
}

} // verus!
