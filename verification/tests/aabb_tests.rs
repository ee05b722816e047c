//! Bounding boxes: merging, the longest axis, and the slab test on rays
//! whose geometry is known by hand.

use neon::aabb::{Axis, AxisAlignedBoundingBox};
use neon::fixed::{FX_MAX, FX_ONE};
use neon::interval::Interval;
use neon::ray::Ray;
use neon::vector::Vec3;

fn v(x: i64, y: i64, z: i64) -> Vec3 {
    Vec3 { x: x * FX_ONE, y: y * FX_ONE, z: z * FX_ONE }
}

fn unit_box() -> AxisAlignedBoundingBox {
    AxisAlignedBoundingBox::new(v(-1, -1, -1), v(1, 1, 1))
}

#[test]
fn corners_may_come_in_any_order() {
    let a = AxisAlignedBoundingBox::new(v(1, 2, 3), v(-1, -2, -3));
    let b = AxisAlignedBoundingBox::new(v(-1, -2, -3), v(1, 2, 3));
    assert_eq!(a, b);
    assert_eq!(a.interval(Axis::X).start, -FX_ONE);
    assert_eq!(a.interval(Axis::X).end, FX_ONE);
}

#[test]
fn merge_contains_both_and_commutes() {
    let a = AxisAlignedBoundingBox::new(v(0, 0, 0), v(1, 1, 1));
    let b = AxisAlignedBoundingBox::new(v(2, -1, 0), v(3, 0, 5));
    let m1 = AxisAlignedBoundingBox::merge(&a, &b);
    let m2 = AxisAlignedBoundingBox::merge(&b, &a);
    assert_eq!(m1, m2);
    assert_eq!(m1.interval(Axis::X).start, 0);
    assert_eq!(m1.interval(Axis::X).end, 3 * FX_ONE);
    assert_eq!(m1.interval(Axis::Y).start, -FX_ONE);
    assert_eq!(m1.interval(Axis::Z).end, 5 * FX_ONE);
}

#[test]
fn merge_with_empty_never_shrinks() {
    let b = AxisAlignedBoundingBox::new(v(-2, 1, -3), v(4, 2, -1));
    let m = AxisAlignedBoundingBox::merge(&b, &AxisAlignedBoundingBox::empty());
    assert!(m.interval(Axis::X).start <= b.interval(Axis::X).start);
    assert!(m.interval(Axis::X).end >= b.interval(Axis::X).end);
    assert!(m.interval(Axis::Y).start <= b.interval(Axis::Y).start);
    assert!(m.interval(Axis::Y).end >= b.interval(Axis::Y).end);
    assert!(m.interval(Axis::Z).start <= b.interval(Axis::Z).start);
    assert!(m.interval(Axis::Z).end >= b.interval(Axis::Z).end);
}

#[test]
fn longest_axis_prefers_z_on_ties() {
    let cube = unit_box();
    assert_eq!(cube.longest_axis(), Axis::Z);
    let tall = AxisAlignedBoundingBox::new(v(0, 0, 0), v(1, 5, 1));
    assert_eq!(tall.longest_axis(), Axis::Y);
    let wide = AxisAlignedBoundingBox::new(v(0, 0, 0), v(7, 5, 1));
    assert_eq!(wide.longest_axis(), Axis::X);
}

#[test]
fn slab_test_accepts_a_ray_that_reaches_the_box() {
    let cube = unit_box();
    let ray = Ray::new(v(0, 0, -5), v(0, 0, 1), 0);
    let open_range = Interval::new(0, FX_MAX);
    assert!(cube.intersects_ray(&ray, &open_range));
}

#[test]
fn slab_test_rejects_a_range_that_stops_short() {
    let cube = unit_box();
    let ray = Ray::new(v(0, 0, -5), v(0, 0, 1), 0);
    // The box starts four units away; a range ending at one cannot reach it.
    let short_range = Interval::new(0, FX_ONE);
    assert!(!cube.intersects_ray(&ray, &short_range));
}

#[test]
fn slab_test_boundaries_are_strict() {
    let cube = unit_box();
    let ray = Ray::new(v(0, 0, -5), v(0, 0, 1), 0);
    // The parameter interval inside the box is exactly [4, 6].
    assert!(!cube.intersects_ray(&ray, &Interval::new(0, 4 * FX_ONE)));
    assert!(cube.intersects_ray(&ray, &Interval::new(0, 4 * FX_ONE + 1)));
    assert!(cube.intersects_ray(&ray, &Interval::new(4 * FX_ONE, 6 * FX_ONE)));
    assert!(!cube.intersects_ray(&ray, &Interval::new(6 * FX_ONE, 10 * FX_ONE)));
}

#[test]
fn slab_test_handles_axis_parallel_rays() {
    let cube = unit_box();
    // Runs parallel to the x slabs, inside them.
    let inside = Ray::new(v(0, 0, -5), v(0, 0, 1), 0);
    assert!(cube.intersects_ray(&inside, &Interval::new(0, FX_MAX)));
    // Runs parallel to the x slabs, outside them: never meets the box.
    let outside = Ray::new(v(3, 0, -5), v(0, 0, 1), 0);
    assert!(!cube.intersects_ray(&outside, &Interval::new(0, FX_MAX)));
}

#[test]
fn moved_box_shifts_both_bounds() {
    let b = AxisAlignedBoundingBox::new(v(0, 0, 0), v(1, 1, 1));
    let m = AxisAlignedBoundingBox::moved_by_offset(&b, &v(2, 0, -1));
    assert_eq!(m.interval(Axis::X).start, 2 * FX_ONE);
    assert_eq!(m.interval(Axis::X).end, 3 * FX_ONE);
    assert_eq!(m.interval(Axis::Z).start, -FX_ONE);
    assert_eq!(m.interval(Axis::Z).end, 0);
}
