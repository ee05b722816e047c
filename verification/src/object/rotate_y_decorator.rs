//! A decorator that stands for its inner object rotated about the y axis.

use crate::aabb::{AxisAlignedBoundingBox, Bb};
use crate::fixed;
use crate::fixed::{fmul, sadd, smax, smin, ssub};
use crate::interval::{Interval, Iv};
use crate::object::hittable_object::{opt_hr, opt_hr_t_in, HitRecord, Hr};
use crate::object::{has_medium, obj_bb, obj_has_mat, obj_hit_s, obj_view, HittableObjectType};
use crate::ray::{Ray, R3};
use crate::rng::Rng;
use crate::vector::{normalized_v, Vec3, V3};
use vstd::prelude::*;

verus! {

/// An object rotated about the y axis. The turn is fixed at construction
/// and carried as its sine and cosine.
pub struct RotateYDecorator {
    pub bbox: AxisAlignedBoundingBox,
    pub inner: Box<HittableObjectType>,
    pub sin_theta: i64,
    pub cos_theta: i64,
}

/// A point rotated forward: world coordinates of an object-space point.
pub open spec fn rot_fwd_s(p: V3, sin_theta: int, cos_theta: int) -> V3 {
    V3 {
        x: sadd(fmul(cos_theta, p.x), fmul(sin_theta, p.z)),
        y: p.y,
        z: ssub(fmul(cos_theta, p.z), fmul(sin_theta, p.x)),
    }
}

/// A point rotated backward: object-space coordinates of a world point.
pub open spec fn rot_back_s(p: V3, sin_theta: int, cos_theta: int) -> V3 {
    V3 {
        x: ssub(fmul(cos_theta, p.x), fmul(sin_theta, p.z)),
        y: p.y,
        z: sadd(fmul(sin_theta, p.x), fmul(cos_theta, p.z)),
    }
}

/// The ray as the inner object sees it: origin and direction turned into
/// object space, the direction renormalized as every ray construction does.
pub open spec fn rotated_ray_s(ray: R3, sin_theta: int, cos_theta: int) -> R3 {
    R3 {
        origin: rot_back_s(ray.origin, sin_theta, cos_theta),
        direction: normalized_v(rot_back_s(ray.direction, sin_theta, cos_theta)),
        time: ray.time,
    }
}

/// An inner answer carried back to world coordinates: position and normal
/// turned forward, the normal renormalized; everything else stands.
pub open spec fn rotate_back_hit_s(inner: Option<Hr>, sin_theta: int, cos_theta: int) -> Option<
    Hr,
> {
    match inner {
        Some(h) => Some(
            Hr {
                pos: rot_fwd_s(h.pos, sin_theta, cos_theta),
                normal: normalized_v(rot_fwd_s(h.normal, sin_theta, cos_theta)),
                ..h
            },
        ),
        None => None,
    }
}

/// The box of the rotated object: every corner of the inner box turned
/// forward, then the least box around all eight.
pub open spec fn rotate_bb_s(b: Bb, sin_theta: int, cos_theta: int) -> Bb {
    let c000 = rot_fwd_s(V3 { x: b.x.start, y: b.y.start, z: b.z.start }, sin_theta, cos_theta);
    let c001 = rot_fwd_s(V3 { x: b.x.start, y: b.y.start, z: b.z.end }, sin_theta, cos_theta);
    let c010 = rot_fwd_s(V3 { x: b.x.start, y: b.y.end, z: b.z.start }, sin_theta, cos_theta);
    let c011 = rot_fwd_s(V3 { x: b.x.start, y: b.y.end, z: b.z.end }, sin_theta, cos_theta);
    let c100 = rot_fwd_s(V3 { x: b.x.end, y: b.y.start, z: b.z.start }, sin_theta, cos_theta);
    let c101 = rot_fwd_s(V3 { x: b.x.end, y: b.y.start, z: b.z.end }, sin_theta, cos_theta);
    let c110 = rot_fwd_s(V3 { x: b.x.end, y: b.y.end, z: b.z.start }, sin_theta, cos_theta);
    let c111 = rot_fwd_s(V3 { x: b.x.end, y: b.y.end, z: b.z.end }, sin_theta, cos_theta);
    Bb {
        x: Iv {
            start: min8(c000.x, c001.x, c010.x, c011.x, c100.x, c101.x, c110.x, c111.x),
            end: max8(c000.x, c001.x, c010.x, c011.x, c100.x, c101.x, c110.x, c111.x),
        },
        y: Iv {
            start: min8(c000.y, c001.y, c010.y, c011.y, c100.y, c101.y, c110.y, c111.y),
            end: max8(c000.y, c001.y, c010.y, c011.y, c100.y, c101.y, c110.y, c111.y),
        },
        z: Iv {
            start: min8(c000.z, c001.z, c010.z, c011.z, c100.z, c101.z, c110.z, c111.z),
            end: max8(c000.z, c001.z, c010.z, c011.z, c100.z, c101.z, c110.z, c111.z),
        },
    }
}

/// Least of eight scalars.
pub open spec fn min8(a: int, b: int, c: int, d: int, e: int, f: int, g: int, h: int) -> int {
    smin(smin(smin(a, b), smin(c, d)), smin(smin(e, f), smin(g, h)))
}

/// Greatest of eight scalars.
pub open spec fn max8(a: int, b: int, c: int, d: int, e: int, f: int, g: int, h: int) -> int {
    smax(smax(smax(a, b), smax(c, d)), smax(smax(e, f), smax(g, h)))
}

impl Clone for RotateYDecorator {
    /// An equal decorator over an equal copy of the inner object.
    fn clone(&self) -> (r: Self)
        ensures
            r.bbox == self.bbox,
            r.sin_theta == self.sin_theta,
            r.cos_theta == self.cos_theta,
            obj_view(*r.inner) == obj_view(*self.inner),
        decreases *self,
    {
        RotateYDecorator {
            bbox: self.bbox,
            inner: Box::new((*self.inner).clone()),
            sin_theta: self.sin_theta,
            cos_theta: self.cos_theta,
        }
    }
}

impl RotateYDecorator {
    /// A decorator standing for `inner` turned about the y axis; the turn
    /// is given by its sine and cosine, both scalars of length at most one.
    pub fn new(inner: HittableObjectType, sin_theta: i64, cos_theta: i64) -> (r: RotateYDecorator)
        ensures
            *r.inner == inner,
            r.sin_theta == sin_theta,
            r.cos_theta == cos_theta,
            r.bbox@ == rotate_bb_s(obj_bb(inner@), sin_theta as int, cos_theta as int),
    {
        let b = *inner.bounding_box();
        let c000 = rotate_point_fwd(
            &Vec3 { x: b.interval_x.start, y: b.interval_y.start, z: b.interval_z.start },
            sin_theta,
            cos_theta,
        );
        let c001 = rotate_point_fwd(
            &Vec3 { x: b.interval_x.start, y: b.interval_y.start, z: b.interval_z.end },
            sin_theta,
            cos_theta,
        );
        let c010 = rotate_point_fwd(
            &Vec3 { x: b.interval_x.start, y: b.interval_y.end, z: b.interval_z.start },
            sin_theta,
            cos_theta,
        );
        let c011 = rotate_point_fwd(
            &Vec3 { x: b.interval_x.start, y: b.interval_y.end, z: b.interval_z.end },
            sin_theta,
            cos_theta,
        );
        let c100 = rotate_point_fwd(
            &Vec3 { x: b.interval_x.end, y: b.interval_y.start, z: b.interval_z.start },
            sin_theta,
            cos_theta,
        );
        let c101 = rotate_point_fwd(
            &Vec3 { x: b.interval_x.end, y: b.interval_y.start, z: b.interval_z.end },
            sin_theta,
            cos_theta,
        );
        let c110 = rotate_point_fwd(
            &Vec3 { x: b.interval_x.end, y: b.interval_y.end, z: b.interval_z.start },
            sin_theta,
            cos_theta,
        );
        let c111 = rotate_point_fwd(
            &Vec3 { x: b.interval_x.end, y: b.interval_y.end, z: b.interval_z.end },
            sin_theta,
            cos_theta,
        );
        let bbox = AxisAlignedBoundingBox {
            interval_x: Interval {
                start: min8e(c000.x, c001.x, c010.x, c011.x, c100.x, c101.x, c110.x, c111.x),
                end: max8e(c000.x, c001.x, c010.x, c011.x, c100.x, c101.x, c110.x, c111.x),
            },
            interval_y: Interval {
                start: min8e(c000.y, c001.y, c010.y, c011.y, c100.y, c101.y, c110.y, c111.y),
                end: max8e(c000.y, c001.y, c010.y, c011.y, c100.y, c101.y, c110.y, c111.y),
            },
            interval_z: Interval {
                start: min8e(c000.z, c001.z, c010.z, c011.z, c100.z, c101.z, c110.z, c111.z),
                end: max8e(c000.z, c001.z, c010.z, c011.z, c100.z, c101.z, c110.z, c111.z),
            },
        };
        RotateYDecorator { bbox, inner: Box::new(inner), sin_theta, cos_theta }
    }

    /// The wrapped object.
    pub fn inner(&self) -> (r: &HittableObjectType)
        ensures
            r == &*self.inner,
    {
        &self.inner
    }

    /// The inner object queried with the ray turned into object space, and
    /// the answer turned back.
    pub fn hit(&self, ray: &Ray, t_range: &Interval, rng: &mut Rng) -> (r: Option<HitRecord>)
        ensures
            !has_medium(obj_view(*self.inner)) ==> opt_hr(r) == rotate_back_hit_s(
                obj_hit_s(
                    obj_view(*self.inner),
                    rotated_ray_s(ray@, self.sin_theta as int, self.cos_theta as int),
                    t_range@.start,
                    t_range@.end,
                ),
                self.sin_theta as int,
                self.cos_theta as int,
            ),
            opt_hr_t_in(r, t_range@.start, t_range@.end),
            r matches Some(h) ==> obj_has_mat(obj_view(*self.inner), h@.material_id),
        decreases *self,
    {
        // Turn the ray from world space into object space.
        let origin = rotate_point_back(&ray.origin(), self.sin_theta, self.cos_theta);
        let direction = rotate_point_back(&ray.direction(), self.sin_theta, self.cos_theta);
        let rotated_ray = Ray::new(origin, direction, ray.time());

        let hr = self.inner.hit(&rotated_ray, t_range, rng);

        match hr {
            Some(hit_record) => {
                // Turn position and normal back into world space.
                let new_pos = rotate_point_fwd(hit_record.pos(), self.sin_theta, self.cos_theta);
                let new_normal = rotate_point_fwd(
                    hit_record.normal(),
                    self.sin_theta,
                    self.cos_theta,
                ).normalized();
                Some(HitRecord::with_changed_pos_and_normal(new_pos, new_normal, &hit_record))
            },
            None => None,
        }
    }

    /// The decorator's precomputed bounding box.
    pub fn bounding_box(&self) -> (r: &AxisAlignedBoundingBox)
        ensures
            r@ == self.bbox@,
    {
        &self.bbox
    }
}

/// A point turned forward about the y axis.
fn rotate_point_fwd(p: &Vec3, sin_theta: i64, cos_theta: i64) -> (r: Vec3)
    ensures
        r@ == rot_fwd_s(p@, sin_theta as int, cos_theta as int),
{
    Vec3 {
        x: fixed::fx_add(fixed::fx_mul(cos_theta, p.x), fixed::fx_mul(sin_theta, p.z)),
        y: p.y,
        z: fixed::fx_sub(fixed::fx_mul(cos_theta, p.z), fixed::fx_mul(sin_theta, p.x)),
    }
}

/// A point turned backward about the y axis.
fn rotate_point_back(p: &Vec3, sin_theta: i64, cos_theta: i64) -> (r: Vec3)
    ensures
        r@ == rot_back_s(p@, sin_theta as int, cos_theta as int),
{
    Vec3 {
        x: fixed::fx_sub(fixed::fx_mul(cos_theta, p.x), fixed::fx_mul(sin_theta, p.z)),
        y: p.y,
        z: fixed::fx_add(fixed::fx_mul(sin_theta, p.x), fixed::fx_mul(cos_theta, p.z)),
    }
}

/// Least of eight scalars.
fn min8e(a: i64, b: i64, c: i64, d: i64, e: i64, f: i64, g: i64, h: i64) -> (r: i64)
    ensures
        r as int == min8(
            a as int,
            b as int,
            c as int,
            d as int,
            e as int,
            f as int,
            g as int,
            h as int,
        ),
{
    fixed::fx_min(
        fixed::fx_min(fixed::fx_min(a, b), fixed::fx_min(c, d)),
        fixed::fx_min(fixed::fx_min(e, f), fixed::fx_min(g, h)),
    )
}

/// Greatest of eight scalars.
fn max8e(a: i64, b: i64, c: i64, d: i64, e: i64, f: i64, g: i64, h: i64) -> (r: i64)
    ensures
        r as int == max8(
            a as int,
            b as int,
            c as int,
            d as int,
            e as int,
            f as int,
            g as int,
            h as int,
        ),
{
    fixed::fx_max(
        fixed::fx_max(fixed::fx_max(a, b), fixed::fx_max(c, d)),
        fixed::fx_max(fixed::fx_max(e, f), fixed::fx_max(g, h)),
    )
}

} // verus!
