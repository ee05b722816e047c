//! A sphere that moves linearly during the exposure.

use crate::aabb::{merge_bb, AxisAlignedBoundingBox, Bb};
use crate::interval::Interval;
use crate::object::hittable_object::{opt_hr, opt_hr_t_in, HitRecord, Hr};
use crate::object::sphere::{sphere_bb_s, sphere_hit_s, Sphere, SphereV};
use crate::ray::{Ray, R3};
use crate::vector::{add_v, scale_v, sub_v, Vec3, V3};
use vstd::prelude::*;

verus! {

/// Mathematical value of a moving sphere.
pub ghost struct MovingSphereV {
    pub from: V3,
    pub direction: V3,
    pub radius: int,
    pub material_id: int,
    pub bounding_box: Bb,
}

/// A sphere that starts at `from` and drifts along `direction` as the ray
/// time runs from zero to one.
#[derive(Clone, Copy)]
pub struct MovingSphere {
    pub from: Vec3,
    pub direction: Vec3,
    pub radius: i64,
    pub material_id: usize,
    pub bounding_box: AxisAlignedBoundingBox,
}

impl View for MovingSphere {
    type V = MovingSphereV;

    open spec fn view(&self) -> MovingSphereV {
        MovingSphereV {
            from: self.from@,
            direction: self.direction@,
            radius: self.radius as int,
            material_id: self.material_id as int,
            bounding_box: self.bounding_box@,
        }
    }
}

/// Where the sphere's center stands at a moment of the exposure.
pub open spec fn center_at_s(m: MovingSphereV, time: int) -> V3 {
    add_v(m.from, scale_v(m.direction, time))
}

/// A moving sphere answers as the stationary sphere standing where the
/// ray's time puts the center.
pub open spec fn moving_sphere_hit_s(m: MovingSphereV, ray: R3, t0: int, t1: int) -> Option<Hr> {
    let s = SphereV {
        center: center_at_s(m, ray.time),
        radius: m.radius,
        material_id: m.material_id,
        bounding_box: m.bounding_box,
    };
    sphere_hit_s(s, ray, t0, t1)
}

impl MovingSphere {
    /// A sphere of positive radius moving from `from` to `to` over the
    /// exposure. Its box is the union of the boxes at both ends, which is
    /// conservative for every moment between.
    pub fn new(from: Vec3, to: Vec3, radius: i64, material_id: usize) -> (r: MovingSphere)
        requires
            radius > 0,
        ensures
            r@.from == from@,
            r@.direction == sub_v(to@, from@),
            r@.radius == radius as int,
            r@.material_id == material_id as int,
            r@.bounding_box == merge_bb(
                sphere_bb_s(from@, radius as int),
                sphere_bb_s(to@, radius as int),
            ),
    {
        let direction = to.sub(&from);
        let radius_vec = Vec3 { x: radius, y: radius, z: radius };
        let bounding_box_from = AxisAlignedBoundingBox::new(
            from.sub(&radius_vec),
            from.add(&radius_vec),
        );
        let bounding_box_to = AxisAlignedBoundingBox::new(to.sub(&radius_vec), to.add(&radius_vec));
        let bounding_box = AxisAlignedBoundingBox::merge(&bounding_box_from, &bounding_box_to);
        MovingSphere { from, direction, radius, material_id, bounding_box }
    }

    /// Where the center stands at a moment of the exposure.
    pub fn center_at(&self, time: i64) -> (r: Vec3)
        ensures
            r@ == center_at_s(self@, time as int),
    {
        self.from.add(&self.direction.scale(time))
    }

    /// The hit of the stationary sphere standing where the ray's time puts
    /// the center, exactly as `moving_sphere_hit_s` says.
    pub fn hit(&self, ray: &Ray, t_range: &Interval) -> (r: Option<HitRecord>)
        ensures
            opt_hr(r) == moving_sphere_hit_s(self@, ray@, t_range@.start, t_range@.end),
            opt_hr_t_in(r, t_range@.start, t_range@.end),
            r matches Some(h) ==> h@.material_id == self@.material_id,
    {
        let sphere_at_time = Sphere {
            center: self.center_at(ray.time()),
            radius: self.radius,
            material_id: self.material_id,
            bounding_box: self.bounding_box,
        };
        sphere_at_time.hit(ray, t_range)
    }

    /// The precomputed bounding box covering the whole motion.
    pub fn bounding_box(&self) -> (r: &AxisAlignedBoundingBox)
        ensures
            r@ == self@.bounding_box,
    {
        &self.bounding_box
    }
}

} // verus!
