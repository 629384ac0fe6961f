//! Light sources. One kind exists today — a directional sun — but the
//! capability set (direction toward a point, distance, albedo,
//! intensity) is shared by the whole tag set, so shading code never
//! looks at the tag itself.

use vstd::prelude::*;

use crate::fx;
use crate::fx::ONE;
use crate::vec3::{V3, V3i};

verus! {

#[derive(Clone, Copy, Debug)]
pub struct Directional {
    pub albedo: V3,
    pub direction: V3,
    pub intensity: i64,
}

#[derive(Clone, Copy, Debug)]
pub enum Light {
    Directional(Directional),
}

impl Light {
    pub open spec fn wf(self) -> bool {
        match self {
            Light::Directional(d) => d.albedo.wf() && d.direction.wf() && fx::fits(
                d.intensity as int,
            ),
        }
    }

    /// The direction light travels at `point`; constant for a sun.
    pub open spec fn spec_direction(self, point: V3i) -> V3i {
        match self {
            Light::Directional(d) => d.direction.view(),
        }
    }

    pub open spec fn spec_albedo(self) -> V3i {
        match self {
            Light::Directional(d) => d.albedo.view(),
        }
    }

    pub open spec fn spec_intensity(self) -> int {
        match self {
            Light::Directional(d) => d.intensity as int,
        }
    }

    pub fn direction(&self, point: V3) -> (r: V3)
        ensures
            r.view() == self.spec_direction(point.view()),
            self.wf() ==> r.wf(),
    {
        match self {
            Light::Directional(d) => d.direction,
        }
    }

    /// A sun sits at infinity; its distance is normalized to one.
    pub fn distance(&self, point: V3) -> (r: i64)
        ensures
            r == ONE,
    {
        match self {
            Light::Directional(_) => ONE,
        }
    }

    pub fn albedo(&self) -> (r: V3)
        ensures
            r.view() == self.spec_albedo(),
            self.wf() ==> r.wf(),
    {
        match self {
            Light::Directional(d) => d.albedo,
        }
    }

    pub fn intensity(&self) -> (r: i64)
        ensures
            r as int == self.spec_intensity(),
            self.wf() ==> fx::fits(r as int),
    {
        match self {
            Light::Directional(d) => d.intensity,
        }
    }
}

} // verus!
