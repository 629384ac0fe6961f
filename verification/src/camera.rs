//! The camera: a position, an orthonormal-by-construction viewing
//! basis, and the frame resolution. Events move the camera between
//! frames; the renderer reads it only.

use vstd::prelude::*;

use crate::fx;
use crate::fx::ONE;
use crate::vec3::{
    spec_vadd, spec_vcross, spec_vdot, spec_vnormalize, spec_vscale, spec_vsub, V3, V3i,
};

verus! {

/// Units a camera travels per second of event time: five.
pub const CAMERA_SPEED: i64 = 5242880;

/// Largest frame edge the fixed-point mapping supports.
pub const MAX_RESOLUTION: u32 = 2048;

#[derive(Clone, Copy, Debug)]
pub struct Camera {
    pub resolution: (u32, u32),
    pub position: V3,
    pub uu: V3,
    pub vv: V3,
    pub ww: V3,
}

pub enum CameraEvent {
    Resize { w: u32, h: u32 },
    RotateXY { delta: (i64, i64) },
    Up,
    Down,
    Left,
    Right,
}

/// One event applied to a camera: translation along the basis, or a
/// resize clamped to the supported frame edge.
pub open spec fn spec_apply_event(cam: Camera, ev: CameraEvent, ts: int) -> Camera {
    match ev {
        CameraEvent::Up => Camera {
            position: spec_v3_of(
                spec_vadd(cam.position.view(), spec_vscale(ts, spec_vscale(CAMERA_SPEED as int, cam.ww.view()))),
            ),
            ..cam
        },
        CameraEvent::Down => Camera {
            position: spec_v3_of(
                spec_vsub(cam.position.view(), spec_vscale(ts, spec_vscale(CAMERA_SPEED as int, cam.ww.view()))),
            ),
            ..cam
        },
        CameraEvent::Left => Camera {
            position: spec_v3_of(
                spec_vadd(cam.position.view(), spec_vscale(ts, spec_vscale(CAMERA_SPEED as int, cam.uu.view()))),
            ),
            ..cam
        },
        CameraEvent::Right => Camera {
            position: spec_v3_of(
                spec_vsub(cam.position.view(), spec_vscale(ts, spec_vscale(CAMERA_SPEED as int, cam.uu.view()))),
            ),
            ..cam
        },
        CameraEvent::Resize { w, h } => Camera {
            resolution: (spec_clamp_edge(w), spec_clamp_edge(h)),
            ..cam
        },
        CameraEvent::RotateXY { delta } => cam,
    }
}

/// A resolution edge forced into `[1, MAX_RESOLUTION]`.
pub open spec fn spec_clamp_edge(w: u32) -> u32 {
    if w < 1 {
        1u32
    } else if w > MAX_RESOLUTION {
        MAX_RESOLUTION
    } else {
        w
    }
}

/// An exact `V3` holding the given in-range mathematical vector.
pub open spec fn spec_v3_of(v: V3i) -> V3 {
    V3 { x: v.x as i64, y: v.y as i64, z: v.z as i64 }
}

/// The camera after a slice of events.
pub open spec fn spec_update(cam: Camera, events: Seq<CameraEvent>, ts: int, n: nat) -> Camera
    decreases n,
{
    if n == 0 {
        cam
    } else {
        spec_apply_event(spec_update(cam, events, ts, (n - 1) as nat), events[n - 1], ts)
    }
}

/// The world up axis the basis is derived against.
pub open spec fn spec_world_up() -> V3i {
    V3i { x: 0, y: ONE as int, z: 0 }
}

/// The forward basis vector: the look direction, normalized.
pub open spec fn spec_forward(look_at: V3i) -> V3i {
    spec_vnormalize(look_at)
}

/// What the right basis vector is normalized from.
pub open spec fn spec_right_pre(look_at: V3i) -> V3i {
    spec_vcross(spec_forward(look_at), spec_world_up())
}

pub open spec fn spec_right(look_at: V3i) -> V3i {
    spec_vnormalize(spec_right_pre(look_at))
}

/// What the up basis vector is normalized from.
pub open spec fn spec_up_pre(look_at: V3i) -> V3i {
    spec_vcross(spec_right(look_at), spec_forward(look_at))
}

pub open spec fn spec_up(look_at: V3i) -> V3i {
    spec_vnormalize(spec_up_pre(look_at))
}

/// The camera basis is orthonormal, as far as fixed point can say
/// it: wherever the three construction vectors are usable — in
/// range, and none degenerate, which excludes only a `look_at` of
/// near-zero length or nearly parallel to the world up axis — each
/// basis vector's squared length is one, within a few hundred of
/// the `2^20` steps that make one. Orthogonality itself is the
/// cross-product law (`lemma_cross_orthogonal`), which the
/// fixed-point dot products track within rounding, exactly so for
/// axis-aligned bases.
pub proof fn lemma_camera_basis_unit(look_at: V3i)
    requires
        fx::spec_abs(look_at.x) <= 0x1000000,
        fx::spec_abs(look_at.y) <= 0x1000000,
        fx::spec_abs(look_at.z) <= 0x1000000,
        0x4000 <= spec_vdot(look_at, look_at),
        fx::spec_abs(spec_right_pre(look_at).x) <= 0x1000000,
        fx::spec_abs(spec_right_pre(look_at).y) <= 0x1000000,
        fx::spec_abs(spec_right_pre(look_at).z) <= 0x1000000,
        0x4000 <= spec_vdot(spec_right_pre(look_at), spec_right_pre(look_at)),
        fx::spec_abs(spec_up_pre(look_at).x) <= 0x1000000,
        fx::spec_abs(spec_up_pre(look_at).y) <= 0x1000000,
        fx::spec_abs(spec_up_pre(look_at).z) <= 0x1000000,
        0x4000 <= spec_vdot(spec_up_pre(look_at), spec_up_pre(look_at)),
    ensures
        ONE as int - 16 <= spec_vdot(spec_forward(look_at), spec_forward(look_at)) <= ONE as int
            + 512,
        ONE as int - 16 <= spec_vdot(spec_right(look_at), spec_right(look_at)) <= ONE as int
            + 512,
        ONE as int - 16 <= spec_vdot(spec_up(look_at), spec_up(look_at)) <= ONE as int + 512,
{
    crate::vec3::lemma_normalize_unit(look_at);
    crate::vec3::lemma_normalize_unit(spec_right_pre(look_at));
    crate::vec3::lemma_normalize_unit(spec_up_pre(look_at));
}

impl Camera {
    pub open spec fn wf(self) -> bool {
        &&& self.position.wf()
        &&& self.uu.wf()
        &&& self.vv.wf()
        &&& self.ww.wf()
        &&& 1 <= self.resolution.0 <= MAX_RESOLUTION
        &&& 1 <= self.resolution.1 <= MAX_RESOLUTION
    }

    /// A camera at `position` looking along `look_at`, with the
    /// right/up/forward basis derived from the world up axis, at the
    /// default 800 by 600 frame. For the basis to be orthonormal the
    /// caller's `look_at` must not be degenerate: see
    /// `lemma_camera_basis_unit`.
    pub fn new_with_pos(position: V3, look_at: V3) -> (r: Camera)
        requires
            position.wf(),
            look_at.wf(),
        ensures
            r.position == position,
            r.ww.view() == spec_forward(look_at.view()),
            r.uu.view() == spec_right(look_at.view()),
            r.vv.view() == spec_up(look_at.view()),
            r.resolution == (800u32, 600u32),
            r.wf(),
    {
        let ta: V3 = look_at.normalize();
        let ww: V3 = ta;
        let uu: V3 = ww.cross(V3 { x: 0, y: ONE, z: 0 }).normalize();
        let vv: V3 = uu.cross(ww).normalize();
        Camera { resolution: (800, 600), position, uu, vv, ww }
    }

    /// Applies a frame's worth of camera events, scaled by the frame
    /// time.
    pub fn update(&mut self, events: &Vec<CameraEvent>, ts: i64)
        requires
            old(self).wf(),
            fx::fits(ts as int),
        ensures
            *final(self) == spec_update(*old(self), events@, ts as int, events@.len()),
            final(self).wf(),
    {
        let n: usize = events.len();
        let mut i: usize = 0;
        while i < n
            invariant
                i <= n,
                n == events@.len(),
                fx::fits(ts as int),
                *self == spec_update(*old(self), events@, ts as int, i as nat),
                self.wf(),
            decreases n - i,
        {
            match &events[i] {
                CameraEvent::Up => {
                    self.position = self.position.add(self.ww.scale(CAMERA_SPEED).scale(ts));
                },
                CameraEvent::Down => {
                    self.position = self.position.sub(self.ww.scale(CAMERA_SPEED).scale(ts));
                },
                CameraEvent::Left => {
                    self.position = self.position.add(self.uu.scale(CAMERA_SPEED).scale(ts));
                },
                CameraEvent::Right => {
                    self.position = self.position.sub(self.uu.scale(CAMERA_SPEED).scale(ts));
                },
                CameraEvent::Resize { w, h } => {
                    let we: u32 = if *w < 1 {
                        1
                    } else if *w > MAX_RESOLUTION {
                        MAX_RESOLUTION
                    } else {
                        *w
                    };
                    let he: u32 = if *h < 1 {
                        1
                    } else if *h > MAX_RESOLUTION {
                        MAX_RESOLUTION
                    } else {
                        *h
                    };
                    self.resolution = (we, he);
                },
                CameraEvent::RotateXY { delta } => {},
            }
            i = i + 1;
        }
    }
}

} // verus!
