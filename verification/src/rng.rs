//! A small deterministic pseudo-random generator, threaded explicitly
//! through every sampling call so that renders are reproducible from a seed.

use crate::fixed;
use crate::fixed::{FX_MAX, FX_ONE};
use crate::vector::Vec3;
use vstd::prelude::*;

verus! {

/// Generator state; advancing it is a pure function of the previous state.
pub struct Rng {
    pub state: u64,
}

/// The output mixing of one draw: xor-shifts and odd multiplies over the
/// advanced state.
pub open spec fn mix_s(z0: u64) -> u64 {
    let z1 = (z0 ^ (z0 >> 30)).wrapping_mul(0xBF58476D1CE4E5B9);
    let z2 = (z1 ^ (z1 >> 27)).wrapping_mul(0x94D049BB133111EB);
    z2 ^ (z2 >> 31)
}

impl Rng {
    /// A generator starting from the given seed.
    pub fn new(seed: u64) -> (r: Rng)
        ensures
            r.state == seed,
    {
        Rng { state: seed }
    }

    /// The next raw 64-bit draw: the state advances by a fixed odd stride,
    /// and the draw is the mixed new state — an exact function of the seed.
    pub fn next_u64(&mut self) -> (r: u64)
        ensures
            final(self).state == old(self).state.wrapping_add(0x9E3779B97F4A7C15),
            r == mix_s(final(self).state),
    {
        self.state = self.state.wrapping_add(0x9E3779B97F4A7C15);
        let mut z = self.state;
        z = (z ^ (z >> 30)).wrapping_mul(0xBF58476D1CE4E5B9);
        z = (z ^ (z >> 27)).wrapping_mul(0x94D049BB133111EB);
        z ^ (z >> 31)
    }

    /// A scalar drawn uniformly from `[0, 1)`: the low bits of the draw.
    pub fn next_unit(&mut self) -> (r: i64)
        ensures
            0 <= r < FX_ONE,
            final(self).state == old(self).state.wrapping_add(0x9E3779B97F4A7C15),
            r == (mix_s(final(self).state) & 0xFFFF) as i64,
    {
        let raw = self.next_u64();
        let bits = raw & 0xFFFF;
        proof {
            assert(raw & 0xFFFF < 0x10000) by (bit_vector);
        }
        bits as i64
    }

    /// A scalar drawn from `(0, 1]`: never zero, so it has a logarithm.
    pub fn next_unit_positive(&mut self) -> (r: i64)
        ensures
            0 < r <= FX_ONE,
    {
        let u = self.next_unit();
        u + 1
    }

    /// A scalar drawn from `[lo, hi]`.
    pub fn next_range(&mut self, lo: i64, hi: i64) -> (r: i64)
        requires
            lo <= hi,
            -FX_MAX <= lo as int,
            hi as int <= FX_MAX,
        ensures
            lo <= r <= hi,
    {
        let span = fixed::fx_sub(hi, lo);
        let u = self.next_unit();
        let off = fixed::fx_mul(span, u);
        proof {
            let s = span as int;
            let uu = u as int;
            assert(0 <= (s * uu) / (FX_ONE as int) <= s) by (nonlinear_arith)
                requires
                    0 <= s,
                    0 <= uu < (FX_ONE as int),
            ;
        }
        lo + off
    }

    /// A vector whose components are drawn from `[lo, hi]`.
    pub fn random_vector3(&mut self, lo: i64, hi: i64) -> (r: Vec3)
        requires
            lo <= hi,
            -FX_MAX <= lo as int,
            hi as int <= FX_MAX,
        ensures
            lo <= r.x <= hi,
            lo <= r.y <= hi,
            lo <= r.z <= hi,
    {
        let x = self.next_range(lo, hi);
        let y = self.next_range(lo, hi);
        let z = self.next_range(lo, hi);
        Vec3 { x, y, z }
    }

    /// A direction of length about one, drawn by rejection from the unit
    /// cube: candidates outside the unit ball, or too short to normalize
    /// meaningfully, are discarded, and the normalized survivor is clamped
    /// back into the unit cube, since normalization can overshoot a
    /// component by a few quanta. After a bounded number of misses the draw
    /// falls back to the unit vector along x. Every component is at most
    /// one in magnitude.
    pub fn random_unit_vector3_in_sphere(&mut self) -> (r: Vec3)
        ensures
            fixed::abs_i(r.x as int) <= FX_ONE as int,
            fixed::abs_i(r.y as int) <= FX_ONE as int,
            fixed::abs_i(r.z as int) <= FX_ONE as int,
    {
        let mut tries: u32 = 0;
        while tries < 64
            decreases 64 - tries,
        {
            let p = self.random_vector3(-FX_ONE, FX_ONE);
            let len_squared = p.norm_squared();
            if 1 <= len_squared && len_squared <= FX_ONE {
                let d = p.normalized();
                return Vec3 {
                    x: fixed::fx_clamp(d.x, -FX_ONE, FX_ONE),
                    y: fixed::fx_clamp(d.y, -FX_ONE, FX_ONE),
                    z: fixed::fx_clamp(d.z, -FX_ONE, FX_ONE),
                };
            }
            tries = tries + 1;
        }
        Vec3 { x: FX_ONE, y: 0, z: 0 }
    }

    /// A point of the unit disk in the xy plane, drawn by rejection; after a
    /// bounded number of misses the draw falls back to the disk's center.
    pub fn random_unit_vector2_in_disk(&mut self) -> (r: Vec3)
        ensures
            r.z == 0,
    {
        let mut tries: u32 = 0;
        while tries < 64
            decreases 64 - tries,
        {
            let x = self.next_range(-FX_ONE, FX_ONE);
            let y = self.next_range(-FX_ONE, FX_ONE);
            let p = Vec3 { x, y, z: 0 };
            let len_squared = p.norm_squared();
            if 1 <= len_squared && len_squared <= FX_ONE {
                return p;
            }
            tries = tries + 1;
        }
        Vec3 { x: 0, y: 0, z: 0 }
    }
}

} // verus!
