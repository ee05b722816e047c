//! Closed intervals of the ray parameter and of box extents.

use vstd::prelude::*;

verus! {

/// Mathematical value of an interval.
pub ghost struct Iv {
    pub start: int,
    pub end: int,
}

/// A closed interval `[start, end]` of fixed-point scalars.
#[derive(Clone, Copy, PartialEq, Eq, Structural, Debug)]
pub struct Interval {
    pub start: i64,
    pub end: i64,
}

impl View for Interval {
    type V = Iv;

    open spec fn view(&self) -> Iv {
        Iv { start: self.start as int, end: self.end as int }
    }
}

/// Membership, boundary included.
pub open spec fn contains_iv(iv: Iv, t: int) -> bool {
    iv.start <= t && t <= iv.end
}

/// Membership, boundary excluded.
pub open spec fn surrounds_iv(iv: Iv, t: int) -> bool {
    iv.start < t && t < iv.end
}

impl Interval {
    /// The interval `[start, end]`.
    pub fn new(start: i64, end: i64) -> (r: Interval)
        ensures
            r@ == (Iv { start: start as int, end: end as int }),
    {
        Interval { start, end }
    }

    /// Whether `t` lies in the interval, boundary included.
    pub fn contains(&self, t: i64) -> (r: bool)
        ensures
            r == contains_iv(self@, t as int),
    {
        self.start <= t && t <= self.end
    }
}

} // verus!
