//! Spheres, and the quadratic ray-sphere intersection.

use crate::aabb::{new_bb, AxisAlignedBoundingBox, Bb};
use crate::extensions::RangeInclusiveSurroundsExtension;
use crate::fixed;
use crate::fixed::{fdiv, fmul, fsqrt, sabs, sadd, smax, smin, ssub, FX_ONE};
use crate::interval::Interval;
use crate::object::hittable_object::{hit_record_s, opt_hr, opt_hr_t_in, HitRecord, Hr};
use crate::ray::{ray_at_v, Ray, R3};
use crate::vector::{add_v, div_scalar_v, dot_v, norm_squared_v, sub_v, Vec3, V3};
use vstd::prelude::*;

verus! {

/// Mathematical value of a sphere.
pub ghost struct SphereV {
    pub center: V3,
    pub radius: int,
    pub material_id: int,
    pub bounding_box: Bb,
}

/// A sphere of positive radius.
#[derive(Clone, Copy)]
pub struct Sphere {
    pub center: Vec3,
    pub radius: i64,
    pub material_id: usize,
    pub bounding_box: AxisAlignedBoundingBox,
}

impl View for Sphere {
    type V = SphereV;

    open spec fn view(&self) -> SphereV {
        SphereV {
            center: self.center@,
            radius: self.radius as int,
            material_id: self.material_id as int,
            bounding_box: self.bounding_box@,
        }
    }
}

/// The box a sphere fits in: its center pushed out by the radius both ways
/// on every axis.
pub open spec fn sphere_bb_s(center: V3, radius: int) -> Bb {
    let rv = V3 { x: radius, y: radius, z: radius };
    new_bb(sub_v(center, rv), add_v(center, rv))
}

/// The fraction of a whole turn at which the direction `(x, y)` stands,
/// measured from the negative x axis so the result covers `[0, 1]`: a
/// piecewise-linear stand-in for the arc tangent, exact on the axes.
pub open spec fn turn_frac_s(y: int, x: int) -> int {
    let ay = sabs(y);
    let ax = sabs(x);
    if ay == 0 && ax == 0 {
        (FX_ONE as int) / 2
    } else {
        let base = if ax >= ay {
            fdiv(ay, ax) / 8
        } else {
            (FX_ONE as int) / 4 - fdiv(ax, ay) / 8
        };
        let ang = if x >= 0 && y >= 0 {
            base
        } else if x < 0 && y >= 0 {
            (FX_ONE as int) / 2 - base
        } else if x < 0 {
            (FX_ONE as int) / 2 + base
        } else {
            (FX_ONE as int) - base
        };
        if ang < (FX_ONE as int) / 2 {
            ang + (FX_ONE as int) / 2
        } else {
            ang - (FX_ONE as int) / 2
        }
    }
}

/// The fraction of a half turn subtended by a cosine value: a chordal
/// stand-in for the arc cosine, exact at minus one, zero and one.
pub open spec fn acos_frac_s(c: int) -> int {
    let cc = smax(smin(c, FX_ONE as int), -(FX_ONE as int));
    ((FX_ONE as int) - cc) / 2
}

/// Texture coordinates of a point of the unit sphere: `u` the turn fraction
/// around the y axis, `v` the fraction from the south to the north pole.
pub open spec fn sphere_uv_s(pos: V3) -> (int, int) {
    (turn_frac_s(sneg_spec(pos.z), pos.x), acos_frac_s(sneg_spec(pos.y)))
}

/// Negation shorthand for the uv formulas.
pub open spec fn sneg_spec(a: int) -> int {
    fixed::sneg(a)
}

/// The quadratic ray-sphere intersection: a hit at the nearest root of
/// `|origin + t * direction - center|^2 = radius^2` strictly inside
/// `(t0, t1)`, or at the farther root when the nearest is outside, or none.
/// A ray with a degenerate zero direction hits nothing.
pub open spec fn sphere_hit_s(s: SphereV, ray: R3, t0: int, t1: int) -> Option<Hr> {
    let oc = sub_v(s.center, ray.origin);
    let a = norm_squared_v(ray.direction);
    let h = dot_v(ray.direction, oc);
    let c = ssub(norm_squared_v(oc), fmul(s.radius, s.radius));
    let delta = ssub(fmul(h, h), fmul(a, c));
    if a == 0 || delta < 0 {
        None
    } else {
        let delta_sqrt = fsqrt(delta);
        let near = fdiv(ssub(h, delta_sqrt), a);
        let far = fdiv(sadd(h, delta_sqrt), a);
        let root = if t0 < near && near < t1 {
            near
        } else {
            far
        };
        if t0 < root && root < t1 {
            Some(sphere_hit_record_s(s, ray, root))
        } else {
            None
        }
    }
}

/// The record a sphere builds for a hit at parameter `root`.
pub open spec fn sphere_hit_record_s(s: SphereV, ray: R3, root: int) -> Hr {
    let hit_point = ray_at_v(ray, root);
    let outward_normal = div_scalar_v(sub_v(hit_point, s.center), s.radius);
    let uv = sphere_uv_s(outward_normal);
    hit_record_s(hit_point, root, outward_normal, ray.direction, s.material_id, uv.0, uv.1)
}

/// The turn fraction around the y axis of the direction `(x, y)`.
fn turn_frac(y: i64, x: i64) -> (r: i64)
    ensures
        r as int == turn_frac_s(y as int, x as int),
        0 <= r <= FX_ONE,
{
    let ay = fixed::fx_abs(y);
    let ax = fixed::fx_abs(x);
    if ay == 0 && ax == 0 {
        FX_ONE / 2
    } else {
        proof {
            if ay as int <= ax as int {
                fixed::lemma_fdiv_le_one(ay as int, ax as int);
            } else {
                fixed::lemma_fdiv_le_one(ax as int, ay as int);
            }
        }
        let base = if ax >= ay {
            (fixed::fx_div(ay, ax) as u64 / 8) as i64
        } else {
            FX_ONE / 4 - (fixed::fx_div(ax, ay) as u64 / 8) as i64
        };
        let ang = if x >= 0 && y >= 0 {
            base
        } else if x < 0 && y >= 0 {
            FX_ONE / 2 - base
        } else if x < 0 {
            FX_ONE / 2 + base
        } else {
            FX_ONE - base
        };
        if ang < FX_ONE / 2 {
            ang + FX_ONE / 2
        } else {
            ang - FX_ONE / 2
        }
    }
}

/// The half-turn fraction subtended by a cosine value.
fn acos_frac(c: i64) -> (r: i64)
    ensures
        r as int == acos_frac_s(c as int),
        0 <= r <= FX_ONE,
{
    let cc = fixed::fx_clamp(c, -FX_ONE, FX_ONE);
    ((FX_ONE - cc) as u64 / 2) as i64
}

impl Sphere {
    /// A sphere with the given center, positive radius, and material.
    pub fn new(center: Vec3, radius: i64, material_id: usize) -> (r: Sphere)
        requires
            radius > 0,
        ensures
            r@.center == center@,
            r@.radius == radius as int,
            r@.material_id == material_id as int,
            r@.bounding_box == sphere_bb_s(center@, radius as int),
    {
        let radius_vec = Vec3 { x: radius, y: radius, z: radius };
        let bounding_box = AxisAlignedBoundingBox::new(
            center.sub(&radius_vec),
            center.add(&radius_vec),
        );
        Sphere { center, radius, material_id, bounding_box }
    }

    /// The sphere's center.
    pub fn center(&self) -> (r: &Vec3)
        ensures
            r@ == self@.center,
    {
        &self.center
    }

    /// The sphere's radius.
    pub fn radius(&self) -> (r: i64)
        ensures
            r as int == self@.radius,
    {
        self.radius
    }

    /// Texture coordinates for a point of the unit sphere around the origin.
    pub fn uv_coords(pos: &Vec3) -> (r: (i64, i64))
        ensures
            (r.0 as int, r.1 as int) == sphere_uv_s(pos@),
            0 <= r.0 <= FX_ONE,
            0 <= r.1 <= FX_ONE,
    {
        let u = turn_frac(fixed::fx_neg(pos.z), pos.x);
        let v = acos_frac(fixed::fx_neg(pos.y));
        (u, v)
    }

    /// The nearest intersection of the ray with the sphere strictly inside
    /// `t_range`, exactly as `sphere_hit_s` says.
    pub fn hit(&self, ray: &Ray, t_range: &Interval) -> (r: Option<HitRecord>)
        ensures
            opt_hr(r) == sphere_hit_s(self@, ray@, t_range@.start, t_range@.end),
            opt_hr_t_in(r, t_range@.start, t_range@.end),
            r matches Some(h) ==> h@.material_id == self@.material_id,
    {
        let direction = ray.direction();
        let oc = self.center.sub(&ray.origin());
        let a = direction.norm_squared();
        let h = direction.dot(&oc);
        let c = fixed::fx_sub(oc.norm_squared(), fixed::fx_mul(self.radius, self.radius));
        let delta = fixed::fx_sub(fixed::fx_mul(h, h), fixed::fx_mul(a, c));
        if a == 0 || delta < 0 {
            return None;
        }
        let delta_sqrt = fixed::fx_sqrt(delta);

        // Nearest root first; fall back to the farther root if it is outside.
        let mut root = fixed::fx_div(fixed::fx_sub(h, delta_sqrt), a);
        if !t_range.surrounds(&root) {
            root = fixed::fx_div(fixed::fx_add(h, delta_sqrt), a);
            if !t_range.surrounds(&root) {
                return None;
            }
        }

        let hit_point = ray.at(root);
        let outward_normal = hit_point.sub(&self.center).div_scalar(self.radius);
        let (u, v) = Self::uv_coords(&outward_normal);
        let hit_record = HitRecord::new(
            hit_point,
            root,
            outward_normal,
            ray,
            self.material_id,
            u,
            v,
        );
        Some(hit_record)
    }

    /// The sphere's precomputed bounding box.
    pub fn bounding_box(&self) -> (r: &AxisAlignedBoundingBox)
        ensures
            r@ == self@.bounding_box,
    {
        &self.bounding_box
    }
}

} // verus!
