//! Axis-aligned bounding boxes: three closed intervals, one per axis, with
//! interval algebra and the slab test for ray intersection.

use crate::extensions::RangeInclusiveMoveByOffsetExtension;
use crate::fixed;
use crate::fixed::{fdiv, sadd, smax, smin, ssub, FX_MAX};
use crate::interval::{Interval, Iv};
use crate::ray::Ray;
use crate::vector::{Vec3, V3};
use vstd::prelude::*;

verus! {

/// One of the three coordinate axes.
#[derive(Clone, Copy, PartialEq, Eq, Structural, Debug)]
pub enum Axis {
    X,
    Y,
    Z,
}

/// Mathematical value of a bounding box.
pub ghost struct Bb {
    pub x: Iv,
    pub y: Iv,
    pub z: Iv,
}

/// A box given by closed intervals along x, y and z.
#[derive(Clone, Copy, PartialEq, Eq, Structural, Debug)]
pub struct AxisAlignedBoundingBox {
    pub interval_x: Interval,
    pub interval_y: Interval,
    pub interval_z: Interval,
}

impl View for AxisAlignedBoundingBox {
    type V = Bb;

    open spec fn view(&self) -> Bb {
        Bb { x: self.interval_x@, y: self.interval_y@, z: self.interval_z@ }
    }
}

/// Each axis interval runs forward: start at most end.
pub open spec fn wf_bb(b: Bb) -> bool {
    b.x.start <= b.x.end && b.y.start <= b.y.end && b.z.start <= b.z.end
}

/// The interval from the lesser to the greater of two scalars.
pub open spec fn find_iv(u: int, v: int) -> Iv {
    Iv { start: smin(u, v), end: smax(u, v) }
}

/// Smallest interval containing two intervals.
pub open spec fn merge_iv(a: Iv, b: Iv) -> Iv {
    Iv { start: smin(a.start, b.start), end: smax(a.end, b.end) }
}

/// The box spanned by two corner points, in either order.
pub open spec fn new_bb(p0: V3, p1: V3) -> Bb {
    Bb { x: find_iv(p0.x, p1.x), y: find_iv(p0.y, p1.y), z: find_iv(p0.z, p1.z) }
}

/// The degenerate box: a point at the origin.
pub open spec fn empty_bb() -> Bb {
    Bb { x: Iv { start: 0, end: 0 }, y: Iv { start: 0, end: 0 }, z: Iv { start: 0, end: 0 } }
}

/// Smallest box containing two boxes.
pub open spec fn merge_bb(a: Bb, b: Bb) -> Bb {
    Bb { x: merge_iv(a.x, b.x), y: merge_iv(a.y, b.y), z: merge_iv(a.z, b.z) }
}

/// Whether `outer` contains `inner` on every axis.
pub open spec fn contains_bb(outer: Bb, inner: Bb) -> bool {
    outer.x.start <= inner.x.start && inner.x.end <= outer.x.end && outer.y.start <= inner.y.start
        && inner.y.end <= outer.y.end && outer.z.start <= inner.z.start && inner.z.end
        <= outer.z.end
}

/// The box shifted by an offset.
pub open spec fn moved_bb(b: Bb, offset: V3) -> Bb {
    Bb {
        x: Iv { start: sadd(b.x.start, offset.x), end: sadd(b.x.end, offset.x) },
        y: Iv { start: sadd(b.y.start, offset.y), end: sadd(b.y.end, offset.y) },
        z: Iv { start: sadd(b.z.start, offset.z), end: sadd(b.z.end, offset.z) },
    }
}

/// The box's interval along an axis.
pub open spec fn axis_iv(b: Bb, axis: Axis) -> Iv {
    match axis {
        Axis::X => b.x,
        Axis::Y => b.y,
        Axis::Z => b.z,
    }
}

/// The axis with the greatest extent; ties prefer z over y and z over x.
pub open spec fn longest_axis_s(b: Bb) -> Axis {
    let len_x = ssub(b.x.end, b.x.start);
    let len_y = ssub(b.y.end, b.y.start);
    let len_z = ssub(b.z.end, b.z.start);
    if len_x > len_y {
        if len_x > len_z {
            Axis::X
        } else {
            Axis::Z
        }
    } else if len_y > len_z {
        Axis::Y
    } else {
        Axis::Z
    }
}

/// The parameter interval in which a ray is inside one axis slab, as an
/// ordered pair. A ray running parallel to the slab is inside for every
/// parameter when its origin lies within, and never otherwise; the sentinel
/// pairs say so through the saturation bound.
pub open spec fn axis_t_pair_s(iv: Iv, origin: int, dir: int) -> (int, int) {
    if dir == 0 {
        if iv.start <= origin && origin <= iv.end {
            (-(FX_MAX as int), FX_MAX as int)
        } else {
            (FX_MAX as int, -(FX_MAX as int))
        }
    } else {
        let t0 = fdiv(ssub(iv.start, origin), dir);
        let t1 = fdiv(ssub(iv.end, origin), dir);
        (smin(t0, t1), smax(t0, t1))
    }
}

/// The slab test: whether the intersection of the three per-axis parameter
/// intervals with the queried range is non-degenerate. Written as the same
/// running max/min fold the implementation uses.
pub open spec fn slab_s(b: Bb, origin: V3, dir: V3, tr: Iv) -> bool {
    let px = axis_t_pair_s(b.x, origin.x, dir.x);
    let t_min_x = smax(tr.start, px.0);
    let t_max_x = smin(tr.end, px.1);
    if t_max_x <= t_min_x {
        false
    } else {
        let py = axis_t_pair_s(b.y, origin.y, dir.y);
        let t_min_y = smax(t_min_x, py.0);
        let t_max_y = smin(t_max_x, py.1);
        if t_max_y <= t_min_y {
            false
        } else {
            let pz = axis_t_pair_s(b.z, origin.z, dir.z);
            let t_min_z = smax(t_min_y, pz.0);
            let t_max_z = smin(t_max_y, pz.1);
            t_max_z > t_min_z
        }
    }
}

impl AxisAlignedBoundingBox {
    /// The box spanned by two corner points, in either order.
    pub fn new(start: Vec3, end: Vec3) -> (r: AxisAlignedBoundingBox)
        ensures
            r@ == new_bb(start@, end@),
            wf_bb(r@),
    {
        AxisAlignedBoundingBox {
            interval_x: Interval::new(fixed::fx_min(start.x, end.x), fixed::fx_max(start.x, end.x)),
            interval_y: Interval::new(fixed::fx_min(start.y, end.y), fixed::fx_max(start.y, end.y)),
            interval_z: Interval::new(fixed::fx_min(start.z, end.z), fixed::fx_max(start.z, end.z)),
        }
    }

    /// The degenerate box at the origin, the seed of bounding-box folds.
    pub fn empty() -> (r: AxisAlignedBoundingBox)
        ensures
            r@ == empty_bb(),
            wf_bb(r@),
    {
        AxisAlignedBoundingBox {
            interval_x: Interval::new(0, 0),
            interval_y: Interval::new(0, 0),
            interval_z: Interval::new(0, 0),
        }
    }

    /// Smallest box containing both arguments.
    pub fn merge(b1: &AxisAlignedBoundingBox, b2: &AxisAlignedBoundingBox) -> (r:
        AxisAlignedBoundingBox)
        ensures
            r@ == merge_bb(b1@, b2@),
            wf_bb(b1@) && wf_bb(b2@) ==> wf_bb(r@),
    {
        AxisAlignedBoundingBox {
            interval_x: Interval::new(
                fixed::fx_min(b1.interval_x.start, b2.interval_x.start),
                fixed::fx_max(b1.interval_x.end, b2.interval_x.end),
            ),
            interval_y: Interval::new(
                fixed::fx_min(b1.interval_y.start, b2.interval_y.start),
                fixed::fx_max(b1.interval_y.end, b2.interval_y.end),
            ),
            interval_z: Interval::new(
                fixed::fx_min(b1.interval_z.start, b2.interval_z.start),
                fixed::fx_max(b1.interval_z.end, b2.interval_z.end),
            ),
        }
    }

    /// The box's interval along an axis.
    pub fn interval(&self, axis: Axis) -> (r: Interval)
        ensures
            r@ == axis_iv(self@, axis),
    {
        match axis {
            Axis::X => self.interval_x,
            Axis::Y => self.interval_y,
            Axis::Z => self.interval_z,
        }
    }

    /// The axis with the greatest extent; ties prefer z over y and z over x.
    pub fn longest_axis(&self) -> (r: Axis)
        ensures
            r == longest_axis_s(self@),
    {
        let len_x = fixed::fx_sub(self.interval_x.end, self.interval_x.start);
        let len_y = fixed::fx_sub(self.interval_y.end, self.interval_y.start);
        let len_z = fixed::fx_sub(self.interval_z.end, self.interval_z.start);
        if len_x > len_y {
            if len_x > len_z {
                Axis::X
            } else {
                Axis::Z
            }
        } else if len_y > len_z {
            Axis::Y
        } else {
            Axis::Z
        }
    }

    /// Whether `b1` starts no later than `b2` along the given axis: the
    /// ordering used when a tree build sorts boxes.
    pub fn compare_by_axis(
        b1: &AxisAlignedBoundingBox,
        b2: &AxisAlignedBoundingBox,
        axis: Axis,
    ) -> (r: bool)
        ensures
            r == (axis_iv(b1@, axis).start <= axis_iv(b2@, axis).start),
    {
        match axis {
            Axis::X => b1.interval_x.start <= b2.interval_x.start,
            Axis::Y => b1.interval_y.start <= b2.interval_y.start,
            Axis::Z => b1.interval_z.start <= b2.interval_z.start,
        }
    }

    /// The box shifted by an offset.
    pub fn moved_by_offset(b: &AxisAlignedBoundingBox, offset: &Vec3) -> (r:
        AxisAlignedBoundingBox)
        ensures
            r@ == moved_bb(b@, offset@),
    {
        AxisAlignedBoundingBox {
            interval_x: b.interval_x.move_by_offset(offset.x),
            interval_y: b.interval_y.move_by_offset(offset.y),
            interval_z: b.interval_z.move_by_offset(offset.z),
        }
    }

    /// The parameter interval of one axis slab for a ray, as an ordered pair.
    fn intersects_ray_in_axis(interval: &Interval, origin: i64, dir: i64) -> (r: (i64, i64))
        ensures
            (r.0 as int, r.1 as int) == axis_t_pair_s(interval@, origin as int, dir as int),
    {
        if dir == 0 {
            if interval.start <= origin && origin <= interval.end {
                (-FX_MAX, FX_MAX)
            } else {
                (FX_MAX, -FX_MAX)
            }
        } else {
            let t0 = fixed::fx_div(fixed::fx_sub(interval.start, origin), dir);
            let t1 = fixed::fx_div(fixed::fx_sub(interval.end, origin), dir);
            (fixed::fx_min(t0, t1), fixed::fx_max(t0, t1))
        }
    }

    /// The slab test: whether the ray passes through the box with a parameter
    /// strictly inside `t_range`. Each axis narrows the running parameter
    /// interval; a degenerate interval rejects at once.
    pub fn intersects_ray(&self, ray: &Ray, t_range: &Interval) -> (r: bool)
        ensures
            r == slab_s(self@, ray@.origin, ray@.direction, t_range@),
    {
        let direction = ray.direction();
        let origin = ray.origin();
        let mut t_min = t_range.start;
        let mut t_max = t_range.end;

        let (t_min_x, t_max_x) = Self::intersects_ray_in_axis(&self.interval_x, origin.x, direction.x);
        t_min = fixed::fx_max(t_min, t_min_x);
        t_max = fixed::fx_min(t_max, t_max_x);
        if t_max <= t_min {
            return false;
        }

        let (t_min_y, t_max_y) = Self::intersects_ray_in_axis(&self.interval_y, origin.y, direction.y);
        t_min = fixed::fx_max(t_min, t_min_y);
        t_max = fixed::fx_min(t_max, t_max_y);
        if t_max <= t_min {
            return false;
        }

        let (t_min_z, t_max_z) = Self::intersects_ray_in_axis(&self.interval_z, origin.z, direction.z);
        t_min = fixed::fx_max(t_min, t_min_z);
        t_max = fixed::fx_min(t_max, t_max_z);
        t_max > t_min
    }
}

/// A wider slab admits the ray for a wider parameter interval: the pair of
/// an enclosing interval brackets the pair of the enclosed one.
proof fn lemma_axis_pair_widens(inner: Iv, outer: Iv, origin: int, dir: int)
    requires
        outer.start <= inner.start,
        inner.end <= outer.end,
        inner.start <= inner.end,
    ensures
        axis_t_pair_s(outer, origin, dir).0 <= axis_t_pair_s(inner, origin, dir).0,
        axis_t_pair_s(inner, origin, dir).1 <= axis_t_pair_s(outer, origin, dir).1,
{
    if dir != 0 {
        let t0i = fdiv(ssub(inner.start, origin), dir);
        let t1i = fdiv(ssub(inner.end, origin), dir);
        let t0o = fdiv(ssub(outer.start, origin), dir);
        let t1o = fdiv(ssub(outer.end, origin), dir);
        if dir > 0 {
            fixed::lemma_fdiv_monotone(ssub(outer.start, origin), ssub(inner.start, origin), dir);
            fixed::lemma_fdiv_monotone(ssub(inner.start, origin), ssub(inner.end, origin), dir);
            fixed::lemma_fdiv_monotone(ssub(inner.end, origin), ssub(outer.end, origin), dir);
        } else {
            fixed::lemma_fdiv_neg_denominator(ssub(outer.start, origin), -dir);
            fixed::lemma_fdiv_neg_denominator(ssub(inner.start, origin), -dir);
            fixed::lemma_fdiv_neg_denominator(ssub(inner.end, origin), -dir);
            fixed::lemma_fdiv_neg_denominator(ssub(outer.end, origin), -dir);
            fixed::lemma_fdiv_monotone(ssub(outer.start, origin), ssub(inner.start, origin), -dir);
            fixed::lemma_fdiv_monotone(ssub(inner.start, origin), ssub(inner.end, origin), -dir);
            fixed::lemma_fdiv_monotone(ssub(inner.end, origin), ssub(outer.end, origin), -dir);
            assert(t0o == -fdiv(ssub(outer.start, origin), -dir));
        }
        assert(smin(t0o, t1o) <= smin(t0i, t1i));
        assert(smax(t0i, t1i) <= smax(t0o, t1o));
    }
}

/// Box pruning is safe to nest: whenever the slab test admits a ray for a
/// box, it admits it for every enclosing box over the same range. With
/// `lemma_merge_contains_both` this is why a tree node's merged box can
/// never turn away a ray that one of its children would admit.
pub proof fn lemma_slab_monotone(inner: Bb, outer: Bb, origin: V3, dir: V3, tr: Iv)
    requires
        wf_bb(inner),
        contains_bb(outer, inner),
        slab_s(inner, origin, dir, tr),
    ensures
        slab_s(outer, origin, dir, tr),
{
    lemma_axis_pair_widens(inner.x, outer.x, origin.x, dir.x);
    lemma_axis_pair_widens(inner.y, outer.y, origin.y, dir.y);
    lemma_axis_pair_widens(inner.z, outer.z, origin.z, dir.z);
}

/// Merging boxes does not depend on the order of the arguments.
pub proof fn lemma_merge_commutative(a: Bb, b: Bb)
    ensures
        merge_bb(a, b) == merge_bb(b, a),
{
}

/// Merging boxes does not depend on the grouping of the arguments.
pub proof fn lemma_merge_associative(a: Bb, b: Bb, c: Bb)
    ensures
        merge_bb(merge_bb(a, b), c) == merge_bb(a, merge_bb(b, c)),
{
}

/// Merging with the degenerate empty box never shrinks a well-formed box:
/// the result still contains it whole.
pub proof fn lemma_merge_empty_never_shrinks(b: Bb)
    requires
        wf_bb(b),
    ensures
        contains_bb(merge_bb(b, empty_bb()), b),
        wf_bb(merge_bb(b, empty_bb())),
{
}

/// What a merge produces contains both arguments: the defining property of
/// the smallest common box.
pub proof fn lemma_merge_contains_both(a: Bb, b: Bb)
    ensures
        contains_bb(merge_bb(a, b), a),
        contains_bb(merge_bb(a, b), b),
{
}

} // verus!
