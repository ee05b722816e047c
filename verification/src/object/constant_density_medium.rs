//! A constant-density participating medium inside a closed boundary: rays
//! scatter after a random free flight, or pass through unscattered.

use crate::fixed;
use crate::fixed::{sadd, smax, smin, FX_MAX, FX_ONE};
use crate::interval::Interval;
use crate::object::hittable_object::{opt_hr_t_in, HitRecord};
use crate::object::{has_medium, obj_bb, obj_hit_s, obj_view, HittableObjectType, ObjV};
use crate::ray::{ray_at_v, Ray, R3};
use crate::rng::Rng;
use crate::aabb::AxisAlignedBoundingBox;
use crate::vector::Vec3;
use vstd::prelude::*;

verus! {

/// A volume of constant density bounded by a closed hittable object.
pub struct ConstantDensityMedium {
    pub phase_function_id: usize,
    pub boundary: Box<HittableObjectType>,
    pub negative_inverse_density: i64,
}

impl Clone for ConstantDensityMedium {
    /// An equal medium over an equal copy of the boundary.
    fn clone(&self) -> (r: Self)
        ensures
            r.phase_function_id == self.phase_function_id,
            r.negative_inverse_density == self.negative_inverse_density,
            obj_view(*r.boundary) == obj_view(*self.boundary),
        decreases *self,
    {
        ConstantDensityMedium {
            phase_function_id: self.phase_function_id,
            boundary: Box::new((*self.boundary).clone()),
            negative_inverse_density: self.negative_inverse_density,
        }
    }
}

/// A logarithm of a scalar in `(0, 1]`: `ln 2` times the base-two
/// logarithm, the mantissa interpolated linearly between powers of two
/// (exact at every power of two, within about six percent between). Never
/// positive, and zero exactly at one; the free-flight sampling relies on
/// no more than that.
fn ln_unit(u: i64) -> (r: i64)
    requires
        0 < u <= FX_ONE,
    ensures
        r <= 0,
        u == FX_ONE ==> r == 0,
{
    if u == FX_ONE {
        return 0;
    }
    // The power of two at or below u, as p == 2^k with k at most 15.
    let v: u64 = u as u64;
    let mut p: u64 = 1;
    let mut k: i64 = 0;
    proof {
        vstd::arithmetic::power2::lemma2_to64();
    }
    while 2 * p <= v
        invariant
            1 <= p <= v,
            v < 65536,
            0 <= k <= 15,
            p as nat == vstd::arithmetic::power2::pow2(k as nat),
        decreases v - p,
    {
        proof {
            vstd::arithmetic::power2::lemma_pow2_unfold((k + 1) as nat);
            vstd::arithmetic::power2::lemma2_to64();
            if k + 1 > 15 {
                vstd::arithmetic::power2::lemma_pow2_strictly_increases(
                    15,
                    (k + 1) as nat,
                );
                assert(false);
            }
        }
        p = 2 * p;
        k = k + 1;
    }
    proof {
        vstd::arithmetic::div_mod::lemma_fundamental_div_mod((v as int) * 65536, p as int);
        vstd::arithmetic::mul::lemma_mul_inequality(p as int, v as int, 65536);
        vstd::arithmetic::div_mod::lemma_div_is_ordered(
            (p as int) * 65536,
            (v as int) * 65536,
            p as int,
        );
        vstd::arithmetic::div_mod::lemma_div_multiples_vanish(65536, p as int);
        assert((p as int) * 65536 == 65536 * (p as int)) by (nonlinear_arith);
        assert((v as int) * 65536 < (p as int) * 131072) by (nonlinear_arith)
            requires
                v < 2 * p,
        ;
        vstd::arithmetic::div_mod::lemma_multiply_divide_lt((v as int) * 65536, p as int, 131072);
    }
    // The mantissa's fraction above 2^k, spread over one unit.
    let scaled: u64 = (v * 65536) / p;
    let mantissa = (scaled as i64) - FX_ONE;
    // ln 2 in fixed point, times the interpolated exponent below zero.
    let exponent = (k - 16) * FX_ONE + mantissa;
    let r = fixed::fx_mul(45426, exponent);
    proof {
        fixed::lemma_fmul_basics(45426, exponent as int);
    }
    r
}

/// The two boundary crossings the medium works from: the nearest hit over
/// the whole line, then the nearest hit starting one quantum past it. For
/// a boundary without media both queries are pure functions of the ray.
pub open spec fn medium_crossings_s(boundary: ObjV, ray: R3) -> Option<(int, int)> {
    match obj_hit_s(boundary, ray, -(FX_MAX as int), FX_MAX as int) {
        None => None,
        Some(h1) => match obj_hit_s(boundary, ray, sadd(h1.t, 1), FX_MAX as int) {
            None => None,
            Some(h2) => Some((h1.t, h2.t)),
        },
    }
}

impl ConstantDensityMedium {
    /// A medium of the given positive density inside `boundary`, scattering
    /// with the material `phase_function_id`. A zero or negative density is
    /// a construction error and is ruled out here.
    pub fn new(boundary: Box<HittableObjectType>, density: i64, phase_function_id: usize) -> (r:
        ConstantDensityMedium)
        requires
            density > 0,
        ensures
            r.boundary == boundary,
            r.phase_function_id == phase_function_id,
            r.negative_inverse_density as int == fixed::fdiv(-(FX_ONE as int), density as int),
    {
        let negative_inverse_density = fixed::fx_div(-FX_ONE, density);
        ConstantDensityMedium { phase_function_id, boundary, negative_inverse_density }
    }

    /// The wrapped boundary object.
    pub fn boundary(&self) -> (r: &HittableObjectType)
        ensures
            r == &*self.boundary,
    {
        &self.boundary
    }

    /// A scattering event inside the boundary, if the sampled free flight
    /// ends before the ray leaves it. The entry and exit crossings come
    /// from two boundary queries, the second starting just past the first;
    /// both are clamped to the queried range and to forward travel. Every
    /// outcome lies inside the range, carries the phase material, sits on
    /// the ray at its own parameter, and has zeroed texture coordinates;
    /// the normal is arbitrary, since an isotropic volume has none. For a
    /// boundary without media the crossings are pure functions of the ray,
    /// so a boundary miss forces a miss, an empty clamped interval forces a
    /// miss, and any scattering lies between the clamped crossings.
    pub fn hit(&self, ray: &Ray, t_range: &Interval, rng: &mut Rng) -> (r: Option<HitRecord>)
        ensures
            opt_hr_t_in(r, t_range@.start, t_range@.end),
            r matches Some(h) ==> {
                &&& h@.material_id == self.phase_function_id as int
                &&& h@.pos == ray_at_v(ray@, h@.t)
                &&& h@.u == 0
                &&& h@.v == 0
            },
            !has_medium(obj_view(*self.boundary)) ==> match medium_crossings_s(
                obj_view(*self.boundary),
                ray@,
            ) {
                None => r is None,
                Some(crossings) => {
                    let clamped_entry = smax(smax(crossings.0, t_range@.start), 0);
                    let clamped_exit = smin(crossings.1, t_range@.end);
                    &&& (clamped_entry >= clamped_exit ==> r is None)
                    &&& (r matches Some(h) ==> clamped_entry <= h@.t <= clamped_exit)
                },
            },
        decreases *self,
    {
        let full_range = Interval::new(-FX_MAX, FX_MAX);
        let hr1 = match self.boundary.hit(ray, &full_range, rng) {
            Some(h) => h,
            None => {
                return None;
            },
        };

        let next_range = Interval::new(fixed::fx_add(hr1.t(), 1), FX_MAX);
        let hr2 = match self.boundary.hit(ray, &next_range, rng) {
            Some(h) => h,
            None => {
                return None;
            },
        };

        let r_min = fixed::fx_max(fixed::fx_max(hr1.t(), t_range.start), 0);
        let r_max = fixed::fx_min(hr2.t(), t_range.end);
        if r_min >= r_max {
            return None;
        }

        let ray_length = ray.direction().norm();
        if ray_length == 0 {
            return None;
        }
        let distance_inside_boundary = fixed::fx_mul(fixed::fx_sub(r_max, r_min), ray_length);

        let u = rng.next_unit_positive();
        let hit_distance = fixed::fx_mul(self.negative_inverse_density, ln_unit(u));

        if hit_distance < 0 || hit_distance > distance_inside_boundary {
            return None;
        }

        let t = fixed::fx_add(r_min, fixed::fx_div(hit_distance, ray_length));
        if t > r_max {
            return None;
        }
        let pos = ray.at(t);
        let arbitrary_normal = Vec3 { x: FX_ONE, y: 0, z: 0 };

        let hit_record = HitRecord::new(pos, t, arbitrary_normal, ray, self.phase_function_id, 0, 0);

        proof {
            fixed::lemma_fdiv_basics(hit_distance as int, ray_length as int);
        }
        Some(hit_record)
    }

    /// The medium's box is its boundary's.
    pub fn bounding_box(&self) -> (r: &AxisAlignedBoundingBox)
        ensures
            r@ == obj_bb(obj_view(*self.boundary)),
        decreases *self,
    {
        self.boundary.bounding_box()
    }
}

} // verus!
