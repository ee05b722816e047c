//! Three-component fixed-point vectors, used both for points and directions.

use crate::fixed;
use crate::fixed::{fdiv, fmul, fsqrt, sadd, sneg, ssub, FX_ONE};
use vstd::prelude::*;

verus! {

/// Mathematical value of a vector: three unbounded integers, each counting
/// fixed-point units.
pub ghost struct V3 {
    pub x: int,
    pub y: int,
    pub z: int,
}

/// A point or direction with fixed-point components.
#[derive(Clone, Copy, PartialEq, Eq, Structural, Debug)]
pub struct Vec3 {
    pub x: i64,
    pub y: i64,
    pub z: i64,
}

impl View for Vec3 {
    type V = V3;

    open spec fn view(&self) -> V3 {
        V3 { x: self.x as int, y: self.y as int, z: self.z as int }
    }
}

/// Componentwise sum.
pub open spec fn add_v(a: V3, b: V3) -> V3 {
    V3 { x: sadd(a.x, b.x), y: sadd(a.y, b.y), z: sadd(a.z, b.z) }
}

/// Componentwise difference.
pub open spec fn sub_v(a: V3, b: V3) -> V3 {
    V3 { x: ssub(a.x, b.x), y: ssub(a.y, b.y), z: ssub(a.z, b.z) }
}

/// Componentwise negation.
pub open spec fn neg_v(a: V3) -> V3 {
    V3 { x: sneg(a.x), y: sneg(a.y), z: sneg(a.z) }
}

/// Scalar multiple.
pub open spec fn scale_v(a: V3, s: int) -> V3 {
    V3 { x: fmul(a.x, s), y: fmul(a.y, s), z: fmul(a.z, s) }
}

/// Dot product.
pub open spec fn dot_v(a: V3, b: V3) -> int {
    sadd(sadd(fmul(a.x, b.x), fmul(a.y, b.y)), fmul(a.z, b.z))
}

/// Cross product.
pub open spec fn cross_v(a: V3, b: V3) -> V3 {
    V3 {
        x: ssub(fmul(a.y, b.z), fmul(a.z, b.y)),
        y: ssub(fmul(a.z, b.x), fmul(a.x, b.z)),
        z: ssub(fmul(a.x, b.y), fmul(a.y, b.x)),
    }
}

/// Squared length.
pub open spec fn norm_squared_v(a: V3) -> int {
    dot_v(a, a)
}

/// Length: the fixed-point square root of the squared length.
pub open spec fn norm_v(a: V3) -> int {
    fsqrt(norm_squared_v(a))
}

/// Componentwise quotient by a scalar; division by zero leaves the vector
/// unchanged.
pub open spec fn div_scalar_v(a: V3, s: int) -> V3 {
    if s == 0 {
        a
    } else {
        V3 { x: fdiv(a.x, s), y: fdiv(a.y, s), z: fdiv(a.z, s) }
    }
}

/// Direction of a vector, scaled to length about one. The zero vector, which
/// has no direction, maps to the unit vector along x.
pub open spec fn normalized_v(a: V3) -> V3 {
    let n = norm_v(a);
    if n == 0 {
        V3 { x: FX_ONE as int, y: 0, z: 0 }
    } else {
        V3 { x: fdiv(a.x, n), y: fdiv(a.y, n), z: fdiv(a.z, n) }
    }
}

impl Vec3 {
    /// The zero vector.
    pub fn zero() -> (r: Vec3)
        ensures
            r@ == (V3 { x: 0, y: 0, z: 0 }),
    {
        Vec3 { x: 0, y: 0, z: 0 }
    }

    /// Componentwise sum.
    pub fn add(&self, other: &Vec3) -> (r: Vec3)
        ensures
            r@ == add_v(self@, other@),
    {
        Vec3 {
            x: fixed::fx_add(self.x, other.x),
            y: fixed::fx_add(self.y, other.y),
            z: fixed::fx_add(self.z, other.z),
        }
    }

    /// Componentwise difference.
    pub fn sub(&self, other: &Vec3) -> (r: Vec3)
        ensures
            r@ == sub_v(self@, other@),
    {
        Vec3 {
            x: fixed::fx_sub(self.x, other.x),
            y: fixed::fx_sub(self.y, other.y),
            z: fixed::fx_sub(self.z, other.z),
        }
    }

    /// Componentwise negation.
    pub fn neg(&self) -> (r: Vec3)
        ensures
            r@ == neg_v(self@),
    {
        Vec3 { x: fixed::fx_neg(self.x), y: fixed::fx_neg(self.y), z: fixed::fx_neg(self.z) }
    }

    /// Scalar multiple.
    pub fn scale(&self, s: i64) -> (r: Vec3)
        ensures
            r@ == scale_v(self@, s as int),
    {
        Vec3 {
            x: fixed::fx_mul(self.x, s),
            y: fixed::fx_mul(self.y, s),
            z: fixed::fx_mul(self.z, s),
        }
    }

    /// Dot product.
    pub fn dot(&self, other: &Vec3) -> (r: i64)
        ensures
            r as int == dot_v(self@, other@),
    {
        let xs = fixed::fx_mul(self.x, other.x);
        let ys = fixed::fx_mul(self.y, other.y);
        let zs = fixed::fx_mul(self.z, other.z);
        fixed::fx_add(fixed::fx_add(xs, ys), zs)
    }

    /// Cross product.
    pub fn cross(&self, other: &Vec3) -> (r: Vec3)
        ensures
            r@ == cross_v(self@, other@),
    {
        Vec3 {
            x: fixed::fx_sub(fixed::fx_mul(self.y, other.z), fixed::fx_mul(self.z, other.y)),
            y: fixed::fx_sub(fixed::fx_mul(self.z, other.x), fixed::fx_mul(self.x, other.z)),
            z: fixed::fx_sub(fixed::fx_mul(self.x, other.y), fixed::fx_mul(self.y, other.x)),
        }
    }

    /// Componentwise quotient by a scalar; division by zero leaves the
    /// vector unchanged.
    pub fn div_scalar(&self, s: i64) -> (r: Vec3)
        ensures
            r@ == div_scalar_v(self@, s as int),
    {
        if s == 0 {
            *self
        } else {
            Vec3 {
                x: fixed::fx_div(self.x, s),
                y: fixed::fx_div(self.y, s),
                z: fixed::fx_div(self.z, s),
            }
        }
    }

    /// Squared length.
    pub fn norm_squared(&self) -> (r: i64)
        ensures
            r as int == norm_squared_v(self@),
    {
        self.dot(self)
    }

    /// Length.
    pub fn norm(&self) -> (r: i64)
        ensures
            r as int == norm_v(self@),
    {
        fixed::fx_sqrt(self.norm_squared())
    }

    /// Direction of this vector, scaled to length about one.
    pub fn normalized(&self) -> (r: Vec3)
        ensures
            r@ == normalized_v(self@),
    {
        let n = self.norm();
        if n == 0 {
            Vec3 { x: FX_ONE, y: 0, z: 0 }
        } else {
            Vec3 {
                x: fixed::fx_div(self.x, n),
                y: fixed::fx_div(self.y, n),
                z: fixed::fx_div(self.z, n),
            }
        }
    }
}

} // verus!
