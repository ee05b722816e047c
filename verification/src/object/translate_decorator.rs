//! A decorator that stands for its inner object shifted by an offset.

use crate::aabb::{moved_bb, AxisAlignedBoundingBox};
use crate::interval::Interval;
use crate::object::hittable_object::{opt_hr, opt_hr_t_in, HitRecord, Hr};
use crate::object::{has_medium, obj_bb, obj_has_mat, obj_hit_s, obj_view, HittableObjectType};
use crate::ray::{Ray, R3};
use crate::rng::Rng;
use crate::vector::{add_v, normalized_v, sub_v, Vec3, V3};
use vstd::prelude::*;

verus! {

/// An object moved by `offset`: rays are shifted the other way, answers are
/// shifted back.
pub struct TranslateDecorator {
    pub bbox: AxisAlignedBoundingBox,
    pub offset: Vec3,
    pub inner: Box<HittableObjectType>,
}

/// The ray as the inner object sees it: origin pulled back by the offset,
/// direction renormalized as every ray construction does.
pub open spec fn moved_ray_s(ray: R3, offset: V3) -> R3 {
    R3 {
        origin: sub_v(ray.origin, offset),
        direction: normalized_v(ray.direction),
        time: ray.time,
    }
}

/// An inner answer carried back to world coordinates: the hit position is
/// shifted forward again; everything else stands.
pub open spec fn translate_hit_s(inner: Option<Hr>, offset: V3) -> Option<Hr> {
    match inner {
        Some(h) => Some(Hr { pos: add_v(h.pos, offset), ..h }),
        None => None,
    }
}

impl Clone for TranslateDecorator {
    /// An equal decorator over an equal copy of the inner object.
    fn clone(&self) -> (r: Self)
        ensures
            r.bbox == self.bbox,
            r.offset == self.offset,
            obj_view(*r.inner) == obj_view(*self.inner),
        decreases *self,
    {
        TranslateDecorator {
            bbox: self.bbox,
            offset: self.offset,
            inner: Box::new((*self.inner).clone()),
        }
    }
}

impl TranslateDecorator {
    /// A decorator standing for `inner` moved by `offset`; its box is the
    /// inner box moved the same way.
    pub fn new(inner: HittableObjectType, offset: Vec3) -> (r: TranslateDecorator)
        ensures
            *r.inner == inner,
            r.offset == offset,
            r.bbox@ == moved_bb(obj_bb(inner@), offset@),
    {
        let bbox = AxisAlignedBoundingBox::moved_by_offset(inner.bounding_box(), &offset);
        TranslateDecorator { inner: Box::new(inner), offset, bbox }
    }

    /// The wrapped object.
    pub fn inner(&self) -> (r: &HittableObjectType)
        ensures
            r == &*self.inner,
    {
        &self.inner
    }

    /// The inner object queried with the ray moved into object space, and
    /// the answer moved back.
    pub fn hit(&self, ray: &Ray, t_range: &Interval, rng: &mut Rng) -> (r: Option<HitRecord>)
        ensures
            !has_medium(obj_view(*self.inner)) ==> opt_hr(r) == translate_hit_s(
                obj_hit_s(
                    obj_view(*self.inner),
                    moved_ray_s(ray@, self.offset@),
                    t_range@.start,
                    t_range@.end,
                ),
                self.offset@,
            ),
            opt_hr_t_in(r, t_range@.start, t_range@.end),
            r matches Some(h) ==> obj_has_mat(obj_view(*self.inner), h@.material_id),
        decreases *self,
    {
        // Instead of moving the object, move the ray the opposite way.
        let moved_ray = Ray::new(
            ray.origin().sub(&self.offset),
            ray.direction(),
            ray.time(),
        );

        let hr = self.inner.hit(&moved_ray, t_range, rng);

        match hr {
            Some(hit_record) => {
                // Carry the intersection point back to world coordinates.
                let new_pos = hit_record.pos().add(&self.offset);
                Some(HitRecord::with_changed_pos(new_pos, &hit_record))
            },
            None => None,
        }
    }

    /// The decorator's precomputed bounding box.
    pub fn bounding_box(&self) -> (r: &AxisAlignedBoundingBox)
        ensures
            r@ == self.bbox@,
    {
        &self.bbox
    }
}

} // verus!
