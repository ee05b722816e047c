//! Planar parallelograms, and the cuboid convenience built from six of them.

use crate::aabb::{merge_bb, new_bb, AxisAlignedBoundingBox, Bb};
use crate::fixed;
use crate::fixed::{fdiv, fmul, smax, smin, ssub, FX_ONE};
use crate::interval::Interval;
use crate::object::hittable_object::{hit_record_s, opt_hr, opt_hr_t_in, HitRecord, Hr};
use crate::object::hittable_objects_list::HittableObjectsList;
use crate::object::HittableObjectType;
use crate::ray::{ray_at_v, Ray, R3};
use crate::object::ObjV;
use crate::vector::{
    add_v, cross_v, div_scalar_v, dot_v, neg_v, norm_squared_v, normalized_v, sub_v, Vec3, V3,
};
use vstd::prelude::*;

verus! {

/// Mathematical value of a quad.
pub ghost struct QuadV {
    pub start: V3,
    pub u: V3,
    pub v: V3,
    pub bounding_box: Bb,
    pub material_id: int,
    pub normal: V3,
    pub plane_d: int,
    pub w: V3,
}

/// A parallelogram with corner `start` and edge vectors `u` and `v`, lying
/// on the plane `normal . p == plane_d`; `w` is the precomputed helper that
/// turns a point of the plane into its `(alpha, beta)` coordinates.
#[derive(Clone, Copy)]
pub struct Quad {
    pub start: Vec3,
    pub u: Vec3,
    pub v: Vec3,
    pub bounding_box: AxisAlignedBoundingBox,
    pub material_id: usize,
    pub normal: Vec3,
    pub plane_d: i64,
    pub w: Vec3,
}

impl View for Quad {
    type V = QuadV;

    open spec fn view(&self) -> QuadV {
        QuadV {
            start: self.start@,
            u: self.u@,
            v: self.v@,
            bounding_box: self.bounding_box@,
            material_id: self.material_id as int,
            normal: self.normal@,
            plane_d: self.plane_d as int,
            w: self.w@,
        }
    }
}

/// The box of a quad: the merge of the boxes of its two diagonals.
pub open spec fn quad_bb_s(start: V3, u: V3, v: V3) -> Bb {
    merge_bb(
        new_bb(start, add_v(add_v(start, u), v)),
        new_bb(add_v(start, u), add_v(start, v)),
    )
}

/// The ray-quad intersection: the ray must cross the quad's plane at a
/// parameter inside the range, at a point whose plane coordinates both lie
/// in `[0, 1]`. A ray parallel to the plane, which in fixed point means a
/// direction whose product with the normal truncates to zero, hits nothing.
pub open spec fn quad_hit_s(q: QuadV, ray: R3, t0: int, t1: int) -> Option<Hr> {
    let denom = dot_v(q.normal, ray.direction);
    if denom == 0 {
        None
    } else {
        let t = fdiv(ssub(q.plane_d, dot_v(q.normal, ray.origin)), denom);
        if !(t0 <= t && t <= t1) {
            None
        } else {
            let pos = ray_at_v(ray, t);
            let hitpoint_vector = sub_v(pos, q.start);
            let alpha = dot_v(q.w, cross_v(hitpoint_vector, q.v));
            let beta = dot_v(q.w, cross_v(q.u, hitpoint_vector));
            if !(0 <= alpha && alpha <= FX_ONE) || !(0 <= beta && beta <= FX_ONE) {
                None
            } else {
                Some(
                    hit_record_s(pos, t, q.normal, ray.direction, q.material_id, alpha, beta),
                )
            }
        }
    }
}

/// The value `Quad::new` builds from a corner, two edges and a material:
/// the precomputed box, plane equation and coordinate helper included.
pub open spec fn quad_v_s(start: V3, u: V3, v: V3, material_id: int) -> QuadV {
    let n = cross_v(u, v);
    QuadV {
        start,
        u,
        v,
        bounding_box: quad_bb_s(start, u, v),
        material_id,
        normal: normalized_v(n),
        plane_d: dot_v(normalized_v(n), start),
        w: div_scalar_v(n, norm_squared_v(n)),
    }
}

/// The six faces of the axis-aligned cuboid spanned by two corners, in
/// build order: front, right, back, left, top, bottom.
pub open spec fn cuboid_faces_s(start: V3, end: V3, material_id: int) -> Seq<ObjV> {
    let min_v = V3 { x: smin(start.x, end.x), y: smin(start.y, end.y), z: smin(start.z, end.z) };
    let max_v = V3 { x: smax(start.x, end.x), y: smax(start.y, end.y), z: smax(start.z, end.z) };
    let dx = V3 { x: ssub(max_v.x, min_v.x), y: 0, z: 0 };
    let dy = V3 { x: 0, y: ssub(max_v.y, min_v.y), z: 0 };
    let dz = V3 { x: 0, y: 0, z: ssub(max_v.z, min_v.z) };
    seq![
        ObjV::Quad(quad_v_s(V3 { x: min_v.x, y: min_v.y, z: max_v.z }, dx, dy, material_id)),
        ObjV::Quad(
            quad_v_s(V3 { x: max_v.x, y: min_v.y, z: max_v.z }, neg_v(dz), dy, material_id),
        ),
        ObjV::Quad(
            quad_v_s(V3 { x: max_v.x, y: min_v.y, z: min_v.z }, neg_v(dx), dy, material_id),
        ),
        ObjV::Quad(quad_v_s(V3 { x: min_v.x, y: min_v.y, z: min_v.z }, dz, dy, material_id)),
        ObjV::Quad(
            quad_v_s(V3 { x: min_v.x, y: max_v.y, z: max_v.z }, dx, neg_v(dz), material_id),
        ),
        ObjV::Quad(quad_v_s(V3 { x: min_v.x, y: min_v.y, z: min_v.z }, dx, dz, material_id)),
    ]
}

impl Quad {
    /// A quad with corner `start` and edges `u` and `v`. The edges must not
    /// be parallel, and at this resolution that means the squared length of
    /// their cross product must not truncate to zero.
    pub fn new(start: Vec3, u: Vec3, v: Vec3, material_id: usize) -> (r: Quad)
        requires
            norm_squared_v(cross_v(u@, v@)) != 0,
        ensures
            r@ == quad_v_s(start@, u@, v@, material_id as int),
    {
        let bb_diagonal_1 = AxisAlignedBoundingBox::new(start, start.add(&u).add(&v));
        let bb_diagonal_2 = AxisAlignedBoundingBox::new(start.add(&u), start.add(&v));
        let bounding_box = AxisAlignedBoundingBox::merge(&bb_diagonal_1, &bb_diagonal_2);
        let n = u.cross(&v);
        let w = n.div_scalar(n.dot(&n));
        let normal = n.normalized();
        let plane_d = normal.dot(&start);
        Quad { start, u, v, bounding_box, material_id, normal, plane_d, w }
    }

    /// The ray-quad intersection, exactly as `quad_hit_s` says.
    pub fn hit(&self, ray: &Ray, t_range: &Interval) -> (r: Option<HitRecord>)
        ensures
            opt_hr(r) == quad_hit_s(self@, ray@, t_range@.start, t_range@.end),
            opt_hr_t_in(r, t_range@.start, t_range@.end),
            r matches Some(h) ==> h@.material_id == self@.material_id,
    {
        let direction = ray.direction();
        let denom = self.normal.dot(&direction);

        // A ray parallel to the plane of the quad hits nothing.
        if denom == 0 {
            return None;
        }

        // Where the ray crosses the plane, if inside the queried range.
        let t = fixed::fx_div(
            fixed::fx_sub(self.plane_d, self.normal.dot(&ray.origin())),
            denom,
        );
        if !t_range.contains(t) {
            return None;
        }

        // The crossing point must lie inside the parallelogram.
        let pos = ray.at(t);
        let hitpoint_vector = pos.sub(&self.start);
        let alpha = self.w.dot(&hitpoint_vector.cross(&self.v));
        let beta = self.w.dot(&self.u.cross(&hitpoint_vector));
        if !(0 <= alpha && alpha <= FX_ONE) || !(0 <= beta && beta <= FX_ONE) {
            return None;
        }

        let hit_record = HitRecord::new(pos, t, self.normal, ray, self.material_id, alpha, beta);
        Some(hit_record)
    }

    /// The quad's precomputed bounding box.
    pub fn bounding_box(&self) -> (r: &AxisAlignedBoundingBox)
        ensures
            r@ == self@.bounding_box,
    {
        &self.bounding_box
    }

    /// Six quads forming the axis-aligned cuboid with opposite corners
    /// `start` and `end`, in either order: exactly the faces
    /// `cuboid_faces_s` lists, under the box their fold merges. Each
    /// pairwise product of extents must reach two to the minus eighth
    /// square units, the resolution below which a face's cross product
    /// truncates away.
    pub fn cuboid(start: Vec3, end: Vec3, material_id: usize) -> (r: HittableObjectsList)
        requires
            fmul(
                ssub(smax(start@.x, end@.x), smin(start@.x, end@.x)),
                ssub(smax(start@.y, end@.y), smin(start@.y, end@.y)),
            ) >= 256,
            fmul(
                ssub(smax(start@.y, end@.y), smin(start@.y, end@.y)),
                ssub(smax(start@.z, end@.z), smin(start@.z, end@.z)),
            ) >= 256,
            fmul(
                ssub(smax(start@.x, end@.x), smin(start@.x, end@.x)),
                ssub(smax(start@.z, end@.z), smin(start@.z, end@.z)),
            ) >= 256,
        ensures
            r@.items == cuboid_faces_s(start@, end@, material_id as int),
            r@.items.len() == 6,
            r@.bounding_box == crate::object::hittable_objects_list::fold_bb_s(r@.items, 6),
    {
        let min_vertex = Vec3 {
            x: fixed::fx_min(start.x, end.x),
            y: fixed::fx_min(start.y, end.y),
            z: fixed::fx_min(start.z, end.z),
        };
        let max_vertex = Vec3 {
            x: fixed::fx_max(start.x, end.x),
            y: fixed::fx_max(start.y, end.y),
            z: fixed::fx_max(start.z, end.z),
        };

        let ex = fixed::fx_sub(max_vertex.x, min_vertex.x);
        let ey = fixed::fx_sub(max_vertex.y, min_vertex.y);
        let ez = fixed::fx_sub(max_vertex.z, min_vertex.z);
        let dx = Vec3 { x: ex, y: 0, z: 0 };
        let dy = Vec3 { x: 0, y: ey, z: 0 };
        let dz = Vec3 { x: 0, y: 0, z: ez };

        proof {
            fixed::lemma_fmul_sq_pos(fmul(ex as int, ey as int));
            fixed::lemma_fmul_sq_pos(fmul(ey as int, ez as int));
            fixed::lemma_fmul_sq_pos(fmul(ex as int, ez as int));
            lemma_axis_cross_sq(ex as int, ey as int, ez as int);
        }

        let front = Quad::new(
            Vec3 { x: min_vertex.x, y: min_vertex.y, z: max_vertex.z },
            dx,
            dy,
            material_id,
        );
        let right = Quad::new(
            Vec3 { x: max_vertex.x, y: min_vertex.y, z: max_vertex.z },
            dz.neg(),
            dy,
            material_id,
        );
        let back = Quad::new(
            Vec3 { x: max_vertex.x, y: min_vertex.y, z: min_vertex.z },
            dx.neg(),
            dy,
            material_id,
        );
        let left = Quad::new(
            Vec3 { x: min_vertex.x, y: min_vertex.y, z: min_vertex.z },
            dz,
            dy,
            material_id,
        );
        let top = Quad::new(
            Vec3 { x: min_vertex.x, y: max_vertex.y, z: max_vertex.z },
            dx,
            dz.neg(),
            material_id,
        );
        let bottom = Quad::new(
            Vec3 { x: min_vertex.x, y: min_vertex.y, z: min_vertex.z },
            dx,
            dz,
            material_id,
        );

        let mut faces = HittableObjectsList::new();
        faces.add(HittableObjectType::Quad(front));
        faces.add(HittableObjectType::Quad(right));
        faces.add(HittableObjectType::Quad(back));
        faces.add(HittableObjectType::Quad(left));
        faces.add(HittableObjectType::Quad(top));
        faces.add(HittableObjectType::Quad(bottom));
        proof {
            let items = faces@.items;
            assert(items =~= cuboid_faces_s(start@, end@, material_id as int));
            let fold = |k: int| crate::object::hittable_objects_list::fold_bb_s(items, k);
            assert(fold(0) == crate::aabb::empty_bb());
            assert(fold(1) == merge_bb(fold(0), crate::object::obj_bb(items[0])));
            assert(fold(2) == merge_bb(fold(1), crate::object::obj_bb(items[1])));
            assert(fold(3) == merge_bb(fold(2), crate::object::obj_bb(items[2])));
            assert(fold(4) == merge_bb(fold(3), crate::object::obj_bb(items[3])));
            assert(fold(5) == merge_bb(fold(4), crate::object::obj_bb(items[4])));
            assert(fold(6) == merge_bb(fold(5), crate::object::obj_bb(items[5])));
        }
        faces
    }
}

/// The squared cross products of the axis-aligned face edges are nonzero
/// whenever each squared pairwise product of extents is.
proof fn lemma_axis_cross_sq(ex: int, ey: int, ez: int)
    requires
        fmul(fmul(ex, ey), fmul(ex, ey)) >= 1,
        fmul(fmul(ey, ez), fmul(ey, ez)) >= 1,
        fmul(fmul(ex, ez), fmul(ex, ez)) >= 1,
        ex >= 0,
        ey >= 0,
        ez >= 0,
    ensures
        norm_squared_v(cross_v(V3 { x: ex, y: 0, z: 0 }, V3 { x: 0, y: ey, z: 0 })) != 0,
        norm_squared_v(
            cross_v(V3 { x: 0, y: 0, z: -ez }, V3 { x: 0, y: ey, z: 0 }),
        ) != 0,
        norm_squared_v(cross_v(V3 { x: -ex, y: 0, z: 0 }, V3 { x: 0, y: ey, z: 0 })) != 0,
        norm_squared_v(cross_v(V3 { x: 0, y: 0, z: ez }, V3 { x: 0, y: ey, z: 0 })) != 0,
        norm_squared_v(cross_v(V3 { x: ex, y: 0, z: 0 }, V3 { x: 0, y: 0, z: -ez })) != 0,
        norm_squared_v(cross_v(V3 { x: ex, y: 0, z: 0 }, V3 { x: 0, y: 0, z: ez })) != 0,
{
    fixed::lemma_fmul_basics(0, 0);
    fixed::lemma_fmul_basics(0, ey);
    fixed::lemma_fmul_basics(0, ez);
    fixed::lemma_fmul_basics(0, -ez);
    fixed::lemma_fmul_basics(ex, 0);
    fixed::lemma_fmul_basics(ey, 0);
    fixed::lemma_fmul_basics(ez, 0);
    fixed::lemma_fmul_basics(-ex, 0);
    fixed::lemma_fmul_basics(-ez, 0);
    fixed::lemma_fmul_basics(ex, ey);
    fixed::lemma_fmul_basics(ey, ez);
    fixed::lemma_fmul_basics(ez, ey);
    fixed::lemma_fmul_basics(ex, ez);
    fixed::lemma_fmul_basics(-ez, ey);
    fixed::lemma_fmul_basics(-ex, ey);
    fixed::lemma_fmul_basics(ex, -ez);
    fixed::lemma_fmul_basics(fmul(ex, ey), fmul(ex, ey));
    fixed::lemma_fmul_basics(fmul(ey, ez), fmul(ey, ez));
    fixed::lemma_fmul_basics(fmul(ex, ez), fmul(ex, ez));
    fixed::lemma_fmul_basics(-fmul(ez, ey), -fmul(ez, ey));
    fixed::lemma_fmul_basics(-fmul(ex, ey), -fmul(ex, ey));
    fixed::lemma_fmul_basics(fmul(ex, ez), fmul(ex, ez));
}

} // verus!
