//! Rays: an origin, a direction normalized at construction, and the moment
//! in the exposure at which the ray was sent (for motion blur).

use crate::vector::{add_v, normalized_v, scale_v, Vec3, V3};
use vstd::prelude::*;

verus! {

/// Mathematical value of a ray.
pub ghost struct R3 {
    pub origin: V3,
    pub direction: V3,
    pub time: int,
}

/// A ray of light, immutable once constructed.
#[derive(Clone, Copy, PartialEq, Eq, Structural, Debug)]
pub struct Ray {
    pub origin: Vec3,
    pub direction: Vec3,
    pub time: i64,
}

impl View for Ray {
    type V = R3;

    open spec fn view(&self) -> R3 {
        R3 { origin: self.origin@, direction: self.direction@, time: self.time as int }
    }
}

/// The point reached after travelling `t` along the ray.
pub open spec fn ray_at_v(r: R3, t: int) -> V3 {
    add_v(r.origin, scale_v(r.direction, t))
}

impl Ray {
    /// A ray from `origin` along `direction`, which is normalized here, sent
    /// at moment `time` of the exposure.
    pub fn new(origin: Vec3, direction: Vec3, time: i64) -> (r: Ray)
        ensures
            r@.origin == origin@,
            r@.direction == normalized_v(direction@),
            r@.time == time as int,
    {
        Ray { origin, direction: direction.normalized(), time }
    }

    /// A ray whose direction is taken as given, without normalization.
    /// For directions already scaled to length one this is `new` exactly.
    pub fn with_raw_direction(origin: Vec3, direction: Vec3, time: i64) -> (r: Ray)
        ensures
            r@.origin == origin@,
            r@.direction == direction@,
            r@.time == time as int,
    {
        Ray { origin, direction, time }
    }

    /// The ray's origin.
    pub fn origin(&self) -> (r: Vec3)
        ensures
            r@ == self@.origin,
    {
        self.origin
    }

    /// The ray's direction.
    pub fn direction(&self) -> (r: Vec3)
        ensures
            r@ == self@.direction,
    {
        self.direction
    }

    /// The moment in the exposure at which the ray was sent.
    pub fn time(&self) -> (r: i64)
        ensures
            r as int == self@.time,
    {
        self.time
    }

    /// The point reached after travelling `t` along the ray.
    pub fn at(&self, t: i64) -> (r: Vec3)
        ensures
            r@ == ray_at_v(self@, t as int),
    {
        self.origin.add(&self.direction.scale(t))
    }
}

} // verus!
