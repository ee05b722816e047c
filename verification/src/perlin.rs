//! Perlin noise: gradient noise over a lattice of shuffled unit vectors,
//! interpolated smoothly, with turbulence as a sum of shrinking octaves.

use crate::fixed;
use crate::fixed::{fmul, sabs, sadd, ssub, FX_ONE};
use crate::rng::Rng;
use crate::vector::{add_v, dot_v, Vec3, V3};
use vstd::prelude::*;

verus! {

/// Number of lattice points along each permutation table.
pub const PERLIN_POINTS_COUNT: usize = 256;

/// Mathematical value of a noise generator.
pub ghost struct PerlinV {
    pub perm_x: Seq<u8>,
    pub perm_y: Seq<u8>,
    pub perm_z: Seq<u8>,
    pub rand_vec: Seq<Vec3>,
}

/// A noise generator: three shuffled index tables and a table of random
/// gradient directions, all fixed at construction.
pub struct PerlinNoise {
    pub perm_x: Vec<u8>,
    pub perm_y: Vec<u8>,
    pub perm_z: Vec<u8>,
    pub rand_vec: Vec<Vec3>,
}

impl View for PerlinNoise {
    type V = PerlinV;

    open spec fn view(&self) -> PerlinV {
        PerlinV {
            perm_x: self.perm_x@,
            perm_y: self.perm_y@,
            perm_z: self.perm_z@,
            rand_vec: self.rand_vec@,
        }
    }
}

/// All four tables hold one entry per lattice point.
pub open spec fn perlin_wf(p: PerlinV) -> bool {
    p.perm_x.len() == 256 && p.perm_y.len() == 256 && p.perm_z.len() == 256 && p.rand_vec.len()
        == 256
}

/// The gradient at wrapped lattice coordinates `(i, j, k)`: the three
/// permutation tables are read there and their bytes combined into one
/// table index.
pub open spec fn corner_s(p: PerlinV, i: int, j: int, k: int) -> Vec3 {
    let xi = p.perm_x[i % 256];
    let yi = p.perm_y[j % 256];
    let zi = p.perm_z[k % 256];
    p.rand_vec[(xi ^ yi ^ zi) as int]
}

/// The hermite smoothing of a fraction.
pub open spec fn hermite_s(u: int) -> int {
    fmul(fmul(u, u), ssub(3 * (FX_ONE as int), 2 * u))
}

/// One interpolation term: the hermite-weighted contribution of the corner
/// gradient `c` at offsets `(i, j, k)`, each zero or one.
pub open spec fn term_s(
    c: Vec3,
    uh: int,
    vh: int,
    wh: int,
    u: int,
    v: int,
    w: int,
    i: int,
    j: int,
    k: int,
) -> int {
    let u_part = if i == 1 {
        uh
    } else {
        ssub(FX_ONE as int, uh)
    };
    let v_part = if j == 1 {
        vh
    } else {
        ssub(FX_ONE as int, vh)
    };
    let w_part = if k == 1 {
        wh
    } else {
        ssub(FX_ONE as int, wh)
    };
    let weight = V3 {
        x: ssub(u, i * (FX_ONE as int)),
        y: ssub(v, j * (FX_ONE as int)),
        z: ssub(w, k * (FX_ONE as int)),
    };
    fmul(fmul(fmul(u_part, v_part), w_part), dot_v(c@, weight))
}

/// The noise value at a point: the fractional position within the lattice
/// cell is hermite-smoothed, and the eight corner gradients are blended.
#[verifier::opaque]
pub open spec fn noise_s(p: PerlinV, pos: V3) -> int {
    let u = pos.x % (FX_ONE as int);
    let v = pos.y % (FX_ONE as int);
    let w = pos.z % (FX_ONE as int);
    let i = fixed::funits(pos.x);
    let j = fixed::funits(pos.y);
    let k = fixed::funits(pos.z);
    let uh = hermite_s(u);
    let vh = hermite_s(v);
    let wh = hermite_s(w);
    let t000 = term_s(corner_s(p, i, j, k), uh, vh, wh, u, v, w, 0, 0, 0);
    let t001 = term_s(corner_s(p, i, j, k + 1), uh, vh, wh, u, v, w, 0, 0, 1);
    let t010 = term_s(corner_s(p, i, j + 1, k), uh, vh, wh, u, v, w, 0, 1, 0);
    let t011 = term_s(corner_s(p, i, j + 1, k + 1), uh, vh, wh, u, v, w, 0, 1, 1);
    let t100 = term_s(corner_s(p, i + 1, j, k), uh, vh, wh, u, v, w, 1, 0, 0);
    let t101 = term_s(corner_s(p, i + 1, j, k + 1), uh, vh, wh, u, v, w, 1, 0, 1);
    let t110 = term_s(corner_s(p, i + 1, j + 1, k), uh, vh, wh, u, v, w, 1, 1, 0);
    let t111 = term_s(corner_s(p, i + 1, j + 1, k + 1), uh, vh, wh, u, v, w, 1, 1, 1);
    sadd(sadd(sadd(t000, t001), sadd(t010, t011)), sadd(sadd(t100, t101), sadd(t110, t111)))
}

/// Turbulence as the loop computes it: each octave adds the weighted noise
/// at the current point, then doubles the point and halves the weight.
pub open spec fn turb_iter_s(p: PerlinV, pos: V3, weight: int, acc: int, remaining: nat) -> int
    decreases remaining,
{
    if remaining == 0 {
        acc
    } else {
        turb_iter_s(
            p,
            add_v(pos, pos),
            fmul(weight, (FX_ONE as int) / 2),
            sadd(acc, fmul(weight, noise_s(p, pos))),
            (remaining - 1) as nat,
        )
    }
}

/// The magnitude of the summed octaves.
pub open spec fn turbulance_s(p: PerlinV, pos: V3, depth: nat) -> int {
    sabs(turb_iter_s(p, pos, FX_ONE as int, 0, depth))
}

/// One shuffled index table: every byte appears, once per slot.
fn generate_perm(rng: &mut Rng) -> (r: Vec<u8>)
    ensures
        r@.len() == 256,
        forall|b: int| 0 <= b < 256 ==> r@.contains(#[trigger] (b as u8)),
{
    let mut arr: Vec<u8> = Vec::new();
    let mut i: usize = 0;
    while i < PERLIN_POINTS_COUNT
        invariant
            i <= 256,
            arr@.len() == i,
            forall|k: int| 0 <= k < i ==> arr@[k] == k as u8,
        decreases 256 - i,
    {
        arr.push(i as u8);
        i = i + 1;
    }
    proof {
        assert forall|b: int| 0 <= b < 256 implies arr@.contains(#[trigger] (b as u8)) by {
            assert(arr@[b] == b as u8);
        }
    }
    permute(&mut arr, rng);
    arr
}

/// Shuffle a table in place by backward swaps, keeping every value present.
fn permute(arr: &mut Vec<u8>, rng: &mut Rng)
    ensures
        final(arr)@.len() == old(arr)@.len(),
        forall|b: u8| old(arr)@.contains(b) ==> final(arr)@.contains(b),
{
    if arr.len() < 2 {
        return ;
    }
    let mut i: usize = arr.len() - 1;
    while i >= 1
        invariant
            arr@.len() == old(arr)@.len(),
            i < arr@.len(),
            forall|b: u8| old(arr)@.contains(b) ==> arr@.contains(b),
        decreases i,
    {
        let ghost before = arr@;
        let to_swap = (rng.next_u64() % (i as u64)) as usize;
        let a = arr[i];
        let b = arr[to_swap];
        arr.set(i, b);
        arr.set(to_swap, a);
        proof {
            assert forall|v: u8| before.contains(v) implies arr@.contains(v) by {
                let k = choose|k: int| 0 <= k < before.len() && before[k] == v;
                if k == i as int {
                    assert(arr@[to_swap as int] == v);
                } else if k == to_swap as int {
                    assert(arr@[i as int] == v);
                } else {
                    assert(arr@[k] == v);
                }
            }
        }
        i = i - 1;
    }
}

/// The wrapped lattice coordinate.
fn lattice_index(v: i64) -> (r: usize)
    ensures
        r as int == (v as int) % 256,
        r < 256,
{
    fixed::fx_emod(v, 256) as usize
}

impl PerlinNoise {
    /// A generator with freshly drawn gradients and shuffles: each index
    /// table holds every byte.
    pub fn new(rng: &mut Rng) -> (r: PerlinNoise)
        ensures
            perlin_wf(r@),
            forall|b: int| 0 <= b < 256 ==> r@.perm_x.contains(#[trigger] (b as u8)),
            forall|b: int| 0 <= b < 256 ==> r@.perm_y.contains(#[trigger] (b as u8)),
            forall|b: int| 0 <= b < 256 ==> r@.perm_z.contains(#[trigger] (b as u8)),
    {
        let mut rand_vec: Vec<Vec3> = Vec::new();
        let mut i: usize = 0;
        while i < PERLIN_POINTS_COUNT
            invariant
                i <= 256,
                rand_vec@.len() == i,
            decreases 256 - i,
        {
            rand_vec.push(rng.random_unit_vector3_in_sphere());
            i = i + 1;
        }
        PerlinNoise {
            perm_x: generate_perm(rng),
            perm_y: generate_perm(rng),
            perm_z: generate_perm(rng),
            rand_vec,
        }
    }

    /// The gradient at wrapped lattice coordinates.
    fn corner(&self, i: i64, j: i64, k: i64) -> (r: Vec3)
        requires
            perlin_wf(self@),
        ensures
            r == corner_s(self@, i as int, j as int, k as int),
    {
        let xi = self.perm_x[lattice_index(i)];
        let yi = self.perm_y[lattice_index(j)];
        let zi = self.perm_z[lattice_index(k)];
        self.rand_vec[(xi ^ yi ^ zi) as usize]
    }

    /// One interpolation term.
    fn term(c: &Vec3, uh: i64, vh: i64, wh: i64, u: i64, v: i64, w: i64, i: i64, j: i64, k: i64) -> (r:
        i64)
        requires
            0 <= i <= 1,
            0 <= j <= 1,
            0 <= k <= 1,
        ensures
            r as int == term_s(
                *c,
                uh as int,
                vh as int,
                wh as int,
                u as int,
                v as int,
                w as int,
                i as int,
                j as int,
                k as int,
            ),
    {
        let u_part = if i == 1 {
            uh
        } else {
            fixed::fx_sub(FX_ONE, uh)
        };
        let v_part = if j == 1 {
            vh
        } else {
            fixed::fx_sub(FX_ONE, vh)
        };
        let w_part = if k == 1 {
            wh
        } else {
            fixed::fx_sub(FX_ONE, wh)
        };
        let weight = Vec3 {
            x: fixed::fx_sub(u, i * FX_ONE),
            y: fixed::fx_sub(v, j * FX_ONE),
            z: fixed::fx_sub(w, k * FX_ONE),
        };
        fixed::fx_mul(fixed::fx_mul(fixed::fx_mul(u_part, v_part), w_part), c.dot(&weight))
    }

    /// The hermite smoothing of a fraction.
    fn hermite(u: i64) -> (r: i64)
        requires
            0 <= u <= FX_ONE,
        ensures
            r as int == hermite_s(u as int),
    {
        fixed::fx_mul(fixed::fx_mul(u, u), fixed::fx_sub(3 * FX_ONE, 2 * u))
    }

    /// The noise value at a point, exactly as `noise_s` says.
    pub fn noise(&self, pos: &Vec3) -> (r: i64)
        requires
            perlin_wf(self@),
        ensures
            r as int == noise_s(self@, pos@),
    {
        proof {
            reveal(noise_s);
        }
        let u = fixed::fx_emod(pos.x, FX_ONE);
        let v = fixed::fx_emod(pos.y, FX_ONE);
        let w = fixed::fx_emod(pos.z, FX_ONE);
        let i = fixed::fx_floor_units(pos.x);
        let j = fixed::fx_floor_units(pos.y);
        let k = fixed::fx_floor_units(pos.z);
        proof {
            lemma_funits_small(pos.x as int);
            lemma_funits_small(pos.y as int);
            lemma_funits_small(pos.z as int);
        }
        let uh = Self::hermite(u);
        let vh = Self::hermite(v);
        let wh = Self::hermite(w);
        let t000 = Self::term(&self.corner(i, j, k), uh, vh, wh, u, v, w, 0, 0, 0);
        let t001 = Self::term(&self.corner(i, j, k + 1), uh, vh, wh, u, v, w, 0, 0, 1);
        let t010 = Self::term(&self.corner(i, j + 1, k), uh, vh, wh, u, v, w, 0, 1, 0);
        let t011 = Self::term(&self.corner(i, j + 1, k + 1), uh, vh, wh, u, v, w, 0, 1, 1);
        let t100 = Self::term(&self.corner(i + 1, j, k), uh, vh, wh, u, v, w, 1, 0, 0);
        let t101 = Self::term(&self.corner(i + 1, j, k + 1), uh, vh, wh, u, v, w, 1, 0, 1);
        let t110 = Self::term(&self.corner(i + 1, j + 1, k), uh, vh, wh, u, v, w, 1, 1, 0);
        let t111 = Self::term(&self.corner(i + 1, j + 1, k + 1), uh, vh, wh, u, v, w, 1, 1, 1);
        fixed::fx_add(
            fixed::fx_add(fixed::fx_add(t000, t001), fixed::fx_add(t010, t011)),
            fixed::fx_add(fixed::fx_add(t100, t101), fixed::fx_add(t110, t111)),
        )
    }

    /// Summed octaves of noise at doubling frequency and halving amplitude,
    /// exactly as `turbulance_s` says.
    #[verifier::rlimit(50)]
    pub fn turbulance(&self, pos: &Vec3, depth: usize) -> (r: i64)
        requires
            perlin_wf(self@),
        ensures
            r as int == turbulance_s(self@, pos@, depth as nat),
    {
        let mut acc: i64 = 0;
        let mut weight: i64 = FX_ONE;
        let mut p = *pos;
        let mut step: usize = 0;
        while step < depth
            invariant
                step <= depth,
                perlin_wf(self@),
                turb_iter_s(self@, pos@, FX_ONE as int, 0, depth as nat) == turb_iter_s(
                    self@,
                    p@,
                    weight as int,
                    acc as int,
                    (depth - step) as nat,
                ),
            decreases depth - step,
        {
            let n = self.noise(&p);
            proof {
                assert(turb_iter_s(self@, p@, weight as int, acc as int, (depth - step) as nat)
                    == turb_iter_s(
                    self@,
                    add_v(p@, p@),
                    fmul(weight as int, (FX_ONE as int) / 2),
                    sadd(acc as int, fmul(weight as int, noise_s(self@, p@))),
                    (depth - step - 1) as nat,
                ));
            }
            acc = fixed::fx_add(acc, fixed::fx_mul(weight, n));
            weight = fixed::fx_mul(weight, FX_ONE / 2);
            p = p.add(&p);
            step = step + 1;
        }
        fixed::fx_abs(acc)
    }
}

/// Floors of representable scalars fit comfortably, so stepping one cell
/// over never overflows.
proof fn lemma_funits_small(a: int)
    requires
        -0x8000_0000_0000_0000 <= a < 0x8000_0000_0000_0000,
    ensures
        -0x1_0000_0000_0000 <= fixed::funits(a) < 0x1_0000_0000_0000,
{
    let s = FX_ONE as int;
    if a >= 0 {
        vstd::arithmetic::div_mod::lemma_div_pos_is_pos(a, s);
        vstd::arithmetic::div_mod::lemma_div_is_ordered(a, 0x8000_0000_0000_0000, s);
    } else {
        vstd::arithmetic::div_mod::lemma_div_pos_is_pos(-a + s - 1, s);
        vstd::arithmetic::div_mod::lemma_div_is_ordered(-a + s - 1, 0x8000_0000_0000_FFFF, s);
    }
}

} // verus!
