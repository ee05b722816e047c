//! The uniform result of a successful intersection.

use crate::ray::Ray;
use crate::vector::{dot_v, neg_v, Vec3, V3};
use vstd::prelude::*;

verus! {

/// Mathematical value of a hit record.
pub ghost struct Hr {
    pub pos: V3,
    pub normal: V3,
    pub t: int,
    pub front_face: bool,
    pub material_id: int,
    pub u: int,
    pub v: int,
}

/// The result of a successful intersection: where the ray met the surface,
/// the surface normal oriented against the ray, the ray parameter, which
/// material was met, and the surface's texture coordinates there.
#[derive(Clone, Copy)]
pub struct HitRecord {
    pub pos: Vec3,
    /// Always points against the incoming ray.
    pub normal: Vec3,
    pub t: i64,
    /// True when the ray arrived from outside the object.
    pub front_face: bool,
    /// Index into the scene's material table.
    pub material_id: usize,
    /// Horizontal texture coordinate.
    pub u: i64,
    /// Vertical texture coordinate.
    pub v: i64,
}

impl View for HitRecord {
    type V = Hr;

    open spec fn view(&self) -> Hr {
        Hr {
            pos: self.pos@,
            normal: self.normal@,
            t: self.t as int,
            front_face: self.front_face,
            material_id: self.material_id as int,
            u: self.u as int,
            v: self.v as int,
        }
    }
}

/// What `HitRecord::new` builds: the outward normal is kept when it faces
/// the ray, and flipped when the ray arrives from inside.
pub open spec fn hit_record_s(
    pos: V3,
    t: int,
    outward_normal: V3,
    ray_direction: V3,
    material_id: int,
    u: int,
    v: int,
) -> Hr {
    let front_face = dot_v(ray_direction, outward_normal) < 0;
    Hr {
        pos,
        normal: if front_face {
            outward_normal
        } else {
            neg_v(outward_normal)
        },
        t,
        front_face,
        material_id,
        u,
        v,
    }
}

/// An optional hit record, seen at the mathematical level.
pub open spec fn opt_hr(r: Option<HitRecord>) -> Option<Hr> {
    match r {
        Some(h) => Some(h@),
        None => None,
    }
}

/// If there is a hit, its parameter lies within `[t0, t1]`.
pub open spec fn opt_hr_t_in(r: Option<HitRecord>, t0: int, t1: int) -> bool {
    match r {
        Some(h) => t0 <= h.t as int && h.t as int <= t1,
        None => true,
    }
}

impl HitRecord {
    /// A record for a hit at `pos` with parameter `t`. `outward_normal` is
    /// the geometric normal pointing out of the surface, assumed to have
    /// length about one; it is oriented against the ray here.
    pub fn new(
        pos: Vec3,
        t: i64,
        outward_normal: Vec3,
        ray: &Ray,
        material_id: usize,
        u: i64,
        v: i64,
    ) -> (r: HitRecord)
        ensures
            r@ == hit_record_s(
                pos@,
                t as int,
                outward_normal@,
                ray@.direction,
                material_id as int,
                u as int,
                v as int,
            ),
    {
        let front_face = ray.direction().dot(&outward_normal) < 0;
        let normal = if front_face {
            outward_normal
        } else {
            outward_normal.neg()
        };
        HitRecord { pos, normal, t, front_face, material_id, u, v }
    }

    /// The same record with the position replaced.
    pub fn with_changed_pos(new_pos: Vec3, other: &HitRecord) -> (r: HitRecord)
        ensures
            r@ == (Hr { pos: new_pos@, ..other@ }),
    {
        HitRecord {
            pos: new_pos,
            normal: other.normal,
            t: other.t,
            front_face: other.front_face,
            material_id: other.material_id,
            u: other.u,
            v: other.v,
        }
    }

    /// The same record with position and normal replaced.
    pub fn with_changed_pos_and_normal(new_pos: Vec3, new_normal: Vec3, other: &HitRecord) -> (r:
        HitRecord)
        ensures
            r@ == (Hr { pos: new_pos@, normal: new_normal@, ..other@ }),
    {
        HitRecord {
            pos: new_pos,
            normal: new_normal,
            t: other.t,
            front_face: other.front_face,
            material_id: other.material_id,
            u: other.u,
            v: other.v,
        }
    }

    /// Where the ray met the surface.
    pub fn pos(&self) -> (r: &Vec3)
        ensures
            r@ == self@.pos,
    {
        &self.pos
    }

    /// The surface normal, oriented against the incoming ray.
    pub fn normal(&self) -> (r: &Vec3)
        ensures
            r@ == self@.normal,
    {
        &self.normal
    }

    /// The ray parameter of the hit.
    pub fn t(&self) -> (r: i64)
        ensures
            r as int == self@.t,
    {
        self.t
    }

    /// Whether the ray arrived from outside the object.
    pub fn front_face(&self) -> (r: bool)
        ensures
            r == self@.front_face,
    {
        self.front_face
    }

    /// Index into the scene's material table.
    pub fn material_id(&self) -> (r: usize)
        ensures
            r as int == self@.material_id,
    {
        self.material_id
    }

    /// Horizontal texture coordinate.
    pub fn u(&self) -> (r: i64)
        ensures
            r as int == self@.u,
    {
        self.u
    }

    /// Vertical texture coordinate.
    pub fn v(&self) -> (r: i64)
        ensures
            r as int == self@.v,
    {
        self.v
    }
}

} // verus!
