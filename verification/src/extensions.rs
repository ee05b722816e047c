//! Small capability traits on the basic value types: interval queries,
//! interval translation, gamma correction, and vector reflection and
//! refraction.

use crate::color::Color;
use crate::fixed;
use crate::fixed::{fmul, fsqrt, sadd, sneg, ssub, FX_ONE};
use crate::interval::{surrounds_iv, Interval};
use crate::vector::{add_v, dot_v, neg_v, norm_squared_v, scale_v, sub_v, Vec3, V3};
use vstd::prelude::*;

verus! {

/// Strict membership in an interval: the boundary does not count.
pub trait RangeInclusiveSurroundsExtension {
    /// What `surrounds` decides, at the mathematical level.
    spec fn surrounds_spec(&self, value: int) -> bool;

    /// Whether `value` lies strictly inside.
    fn surrounds(&self, value: &i64) -> (r: bool)
        ensures
            r == self.surrounds_spec(*value as int),
    ;
}

impl RangeInclusiveSurroundsExtension for Interval {
    open spec fn surrounds_spec(&self, value: int) -> bool {
        surrounds_iv(self@, value)
    }

    fn surrounds(&self, value: &i64) -> (r: bool) {
        self.start < *value && *value < self.end
    }
}

/// Translation of an interval by a scalar offset.
pub trait RangeInclusiveMoveByOffsetExtension where Self: Sized {
    /// The translated interval, at the mathematical level.
    spec fn moved_by_offset_spec(&self, offset: int) -> Self;

    /// The interval with both bounds shifted by `offset`.
    fn move_by_offset(&self, offset: i64) -> (r: Self)
        ensures
            r == self.moved_by_offset_spec(offset as int),
    ;
}

impl RangeInclusiveMoveByOffsetExtension for Interval {
    open spec fn moved_by_offset_spec(&self, offset: int) -> Interval {
        Interval {
            start: sadd(self.start as int, offset) as i64,
            end: sadd(self.end as int, offset) as i64,
        }
    }

    fn move_by_offset(&self, offset: i64) -> (r: Interval) {
        Interval {
            start: fixed::fx_add(self.start, offset),
            end: fixed::fx_add(self.end, offset),
        }
    }
}

/// Conversion of a linear-radiance color to display gamma.
pub trait RgbLinearToGammaExtension where Self: Sized {
    /// The gamma-corrected color, at the mathematical level.
    spec fn linear_to_gamma_spec(&self) -> Self;

    /// Each channel replaced by its square root: gamma two.
    fn linear_to_gamma(&self) -> (r: Self)
        ensures
            r == self.linear_to_gamma_spec(),
    ;
}

impl RgbLinearToGammaExtension for Color {
    open spec fn linear_to_gamma_spec(&self) -> Color {
        Color {
            r: fsqrt(self.r as int) as i64,
            g: fsqrt(self.g as int) as i64,
            b: fsqrt(self.b as int) as i64,
        }
    }

    fn linear_to_gamma(&self) -> (r: Color) {
        Color {
            r: fixed::fx_sqrt(self.r),
            g: fixed::fx_sqrt(self.g),
            b: fixed::fx_sqrt(self.b),
        }
    }
}

/// Mirror reflection about a surface normal.
pub open spec fn reflect_v(v: V3, normal: V3) -> V3 {
    sub_v(v, scale_v(normal, fmul(2 * FX_ONE, dot_v(v, normal))))
}

/// Reflection of a vector about a unit surface normal.
pub trait VectorReflectionExtension {
    /// The reflected vector, at the mathematical level.
    spec fn reflect_model(&self, normal: &Vec3) -> V3;

    /// `self` mirrored about `normal`, assuming `normal` has length one.
    fn reflect(&self, normal: &Vec3) -> (r: Vec3)
        ensures
            r@ == self.reflect_model(normal),
    ;
}

impl VectorReflectionExtension for Vec3 {
    open spec fn reflect_model(&self, normal: &Vec3) -> V3 {
        reflect_v(self@, normal@)
    }

    fn reflect(&self, normal: &Vec3) -> (r: Vec3) {
        let two_dot = fixed::fx_mul(2 * FX_ONE, self.dot(normal));
        self.sub(&normal.scale(two_dot))
    }
}

/// Refraction by Snell's law. `v` is the unit incoming direction, `normal`
/// the unit normal against it, `ratio` the quotient of refraction indices.
/// The part of `v` across the normal is scaled by `ratio`; the part along
/// the normal is rebuilt so the result keeps length about one.
pub open spec fn refract_v(v: V3, normal: V3, ratio: int) -> V3 {
    let cos_theta = sneg(dot_v(v, normal));
    let out_perpendicular = scale_v(add_v(v, scale_v(normal, cos_theta)), ratio);
    let parallel_len = fsqrt(fixed::sabs(ssub(FX_ONE as int, norm_squared_v(out_perpendicular))));
    add_v(out_perpendicular, scale_v(normal, sneg(parallel_len)))
}

/// Refraction of a unit vector through a surface with the given index ratio.
pub trait VectorRefractionExtension {
    /// The refracted direction, at the mathematical level.
    spec fn refract_model(&self, normal: &Vec3, ratio: int) -> V3;

    /// The refracted direction for unit `self` and unit `normal`.
    fn refract(&self, normal: &Vec3, ratio: i64) -> (r: Vec3)
        ensures
            r@ == self.refract_model(normal, ratio as int),
    ;
}

impl VectorRefractionExtension for Vec3 {
    open spec fn refract_model(&self, normal: &Vec3, ratio: int) -> V3 {
        refract_v(self@, normal@, ratio)
    }

    fn refract(&self, normal: &Vec3, ratio: i64) -> (r: Vec3) {
        let cos_theta = fixed::fx_neg(self.dot(normal));
        let out_perpendicular = self.add(&normal.scale(cos_theta)).scale(ratio);
        let parallel_len = fixed::fx_sqrt(
            fixed::fx_abs(fixed::fx_sub(FX_ONE, out_perpendicular.norm_squared())),
        );
        out_perpendicular.add(&normal.scale(fixed::fx_neg(parallel_len)))
    }
}

/// With equal refraction indices nothing bends: at normal incidence onto a
/// unit normal, refraction with ratio one returns the incoming direction
/// unchanged, which checks the refraction formula against Snell's law.
pub proof fn lemma_refraction_identity_at_normal_incidence(d: V3, n: V3)
    requires
        norm_squared_v(n) == FX_ONE as int,
        d == neg_v(n),
        fixed::abs_i(n.x) <= fixed::FX_MAX as int,
        fixed::abs_i(n.y) <= fixed::FX_MAX as int,
        fixed::abs_i(n.z) <= fixed::FX_MAX as int,
    ensures
        refract_v(d, n, FX_ONE as int) == d,
{
    let s = FX_ONE as int;
    fixed::lemma_fmul_basics(n.x, n.x);
    fixed::lemma_fmul_basics(n.y, n.y);
    fixed::lemma_fmul_basics(n.z, n.z);
    fixed::lemma_fmul_basics(-n.x, n.x);
    fixed::lemma_fmul_basics(-n.y, n.y);
    fixed::lemma_fmul_basics(-n.z, n.z);
    assert(dot_v(d, n) == -s);
    assert(sneg(dot_v(d, n)) == s);
    fixed::lemma_fmul_one(n.x);
    fixed::lemma_fmul_one(n.y);
    fixed::lemma_fmul_one(n.z);
    assert(scale_v(n, s) == n);
    assert(add_v(d, n) == (V3 { x: 0, y: 0, z: 0 }));
    fixed::lemma_fmul_basics(0, s);
    assert(scale_v(V3 { x: 0, y: 0, z: 0 }, s) == (V3 { x: 0, y: 0, z: 0 }));
    let out_perpendicular = scale_v(add_v(d, scale_v(n, sneg(dot_v(d, n)))), s);
    assert(out_perpendicular == (V3 { x: 0, y: 0, z: 0 }));
    fixed::lemma_fmul_basics(0, 0);
    assert(norm_squared_v(out_perpendicular) == 0);
    fixed::lemma_fsqrt_one();
    assert(fsqrt(fixed::sabs(ssub(s, 0))) == s);
    fixed::lemma_fmul_one(n.x);
    assert(fmul(n.x, sneg(s)) == -n.x) by {
        fixed::lemma_fmul_basics(n.x, s);
        fixed::lemma_fmul_one(n.x);
    }
    assert(fmul(n.y, sneg(s)) == -n.y) by {
        fixed::lemma_fmul_basics(n.y, s);
        fixed::lemma_fmul_one(n.y);
    }
    assert(fmul(n.z, sneg(s)) == -n.z) by {
        fixed::lemma_fmul_basics(n.z, s);
        fixed::lemma_fmul_one(n.z);
    }
    assert(scale_v(n, sneg(s)) == neg_v(n));
    assert(add_v(V3 { x: 0, y: 0, z: 0 }, neg_v(n)) == d);
}

} // verus!
