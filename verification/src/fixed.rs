//! Signed fixed-point scalars: an `i64` counts units of `1 / FX_ONE`.
//!
//! Every operation is total. Results too large in magnitude saturate at
//! `FX_MAX`, and multiplication and division truncate toward zero, so each
//! operation has an exact integer meaning that the spec functions below state.

use vstd::prelude::*;

verus! {

/// Number of fixed-point units in one: the scalar `FX_ONE` means 1.0.
pub const FX_ONE: i64 = 65536;

/// Saturation bound: every result is clamped into `[-FX_MAX, FX_MAX]`.
pub const FX_MAX: i64 = 0x4000_0000_0000_0000;

/// Magnitude of a mathematical integer.
pub open spec fn abs_i(x: int) -> int {
    if x >= 0 {
        x
    } else {
        -x
    }
}

/// Clamp a mathematical integer into the representable range.
pub open spec fn sat(x: int) -> int {
    if x > FX_MAX {
        FX_MAX as int
    } else if x < -(FX_MAX as int) {
        -(FX_MAX as int)
    } else {
        x
    }
}

/// Saturating sum.
pub open spec fn sadd(a: int, b: int) -> int {
    sat(a + b)
}

/// Saturating difference.
pub open spec fn ssub(a: int, b: int) -> int {
    sat(a - b)
}

/// Saturating negation.
pub open spec fn sneg(a: int) -> int {
    sat(-a)
}

/// Saturating magnitude.
pub open spec fn sabs(a: int) -> int {
    sat(abs_i(a))
}

/// Lesser of two scalars.
pub open spec fn smin(a: int, b: int) -> int {
    if a < b {
        a
    } else {
        b
    }
}

/// Greater of two scalars.
pub open spec fn smax(a: int, b: int) -> int {
    if a > b {
        a
    } else {
        b
    }
}

/// Fixed-point product: `a * b / FX_ONE`, truncated toward zero (stated
/// through magnitudes, which is the same thing), then saturated.
pub open spec fn fmul(a: int, b: int) -> int {
    let m = (abs_i(a) * abs_i(b)) / (FX_ONE as int);
    if (a < 0) == (b < 0) {
        sat(m)
    } else {
        sat(-m)
    }
}

/// Fixed-point quotient: `a * FX_ONE / b`, truncated toward zero, then
/// saturated. Meaningful only for `b != 0`.
pub open spec fn fdiv(a: int, b: int) -> int {
    let m = (abs_i(a) * (FX_ONE as int)) / abs_i(b);
    if (a < 0) == (b < 0) {
        sat(m)
    } else {
        sat(-m)
    }
}

/// Integer square root.
pub open spec fn isqrt_spec(n: nat) -> nat
    decreases n,
{
    if n == 0 {
        0
    } else {
        let d = 2 * isqrt_spec(n / 4);
        if (d + 1) * (d + 1) <= n {
            d + 1
        } else {
            d
        }
    }
}

/// Fixed-point square root: `isqrt(a * FX_ONE)`, which carries the unit
/// through. Zero for non-positive input.
pub open spec fn fsqrt(a: int) -> int {
    if a <= 0 {
        0
    } else {
        isqrt_spec((a * (FX_ONE as int)) as nat) as int
    }
}

/// Floor of a scalar in whole units.
pub open spec fn funits(a: int) -> int {
    if a >= 0 {
        a / (FX_ONE as int)
    } else {
        -((-a + FX_ONE - 1) / (FX_ONE as int))
    }
}

/// The integer square root is the exact floor of the real square root.
pub proof fn lemma_isqrt_bounds(n: nat)
    ensures
        isqrt_spec(n) * isqrt_spec(n) <= n,
        n < (isqrt_spec(n) + 1) * (isqrt_spec(n) + 1),
    decreases n,
{
    if n == 0 {
        assert(isqrt_spec(n) == 0);
        assert(n < (isqrt_spec(n) + 1) * (isqrt_spec(n) + 1)) by (nonlinear_arith)
            requires
                n == 0,
                isqrt_spec(n) == 0,
        ;
    } else {
        lemma_isqrt_bounds(n / 4);
        let d = isqrt_spec(n / 4);
        let r = 2 * d;
        vstd::arithmetic::div_mod::lemma_fundamental_div_mod(n as int, 4);
        assert(4 * (n / 4) <= n && n <= 4 * (n / 4) + 3);
        assert(4 * (d * d) <= 4 * (n / 4)) by (nonlinear_arith)
            requires
                d * d <= n / 4,
        ;
        assert(r * r == 4 * (d * d)) by (nonlinear_arith)
            requires
                r == 2 * d,
        ;
        assert(n < (r + 2) * (r + 2)) by (nonlinear_arith)
            requires
                n / 4 < (d + 1) * (d + 1),
                n <= 4 * (n / 4) + 3,
                r == 2 * d,
        ;
        if (r + 1) * (r + 1) <= n {
            assert(isqrt_spec(n) == r + 1);
            assert(isqrt_spec(n) * isqrt_spec(n) <= n) by (nonlinear_arith)
                requires
                    isqrt_spec(n) == r + 1,
                    (r + 1) * (r + 1) <= n,
            ;
            assert(n < (isqrt_spec(n) + 1) * (isqrt_spec(n) + 1)) by (nonlinear_arith)
                requires
                    isqrt_spec(n) == r + 1,
                    n < (r + 2) * (r + 2),
            ;
        } else {
            assert(isqrt_spec(n) == r);
            assert(isqrt_spec(n) * isqrt_spec(n) <= n) by (nonlinear_arith)
                requires
                    isqrt_spec(n) == r,
                    r * r == 4 * (d * d),
                    4 * (d * d) <= 4 * (n / 4),
                    4 * (n / 4) <= n,
            ;
            assert(n < (isqrt_spec(n) + 1) * (isqrt_spec(n) + 1)) by (nonlinear_arith)
                requires
                    isqrt_spec(n) == r,
                    !((r + 1) * (r + 1) <= n),
            ;
        }
    }
}

/// A quotient of a part by a whole stays within `[0, 1]`.
pub proof fn lemma_fdiv_le_one(a: int, b: int)
    requires
        0 <= a <= b,
        0 < b,
    ensures
        0 <= fdiv(a, b) <= FX_ONE as int,
{
    let s = FX_ONE as int;
    vstd::arithmetic::mul::lemma_mul_inequality(a, b, s);
    assert(a * s <= b * s);
    vstd::arithmetic::div_mod::lemma_div_is_ordered(0, a * s, b);
    vstd::arithmetic::div_mod::lemma_div_is_ordered(a * s, b * s, b);
    vstd::arithmetic::div_mod::lemma_div_multiples_vanish(s, b);
    assert(b * s == s * b) by (nonlinear_arith);
    assert((b * s) / b == s);
}

/// Sign, range, commutativity and zero facts for the fixed-point product.
pub proof fn lemma_fmul_basics(a: int, b: int)
    ensures
        -(FX_MAX as int) <= fmul(a, b) <= FX_MAX as int,
        0 <= a && 0 <= b ==> 0 <= fmul(a, b),
        a <= 0 && b <= 0 ==> 0 <= fmul(a, b),
        0 <= a && b <= 0 ==> fmul(a, b) <= 0,
        a <= 0 && 0 <= b ==> fmul(a, b) <= 0,
        fmul(a, b) == fmul(b, a),
        fmul(0, b) == 0,
        fmul(a, 0) == 0,
        fmul(-a, b) == -fmul(a, b),
        fmul(a, -b) == -fmul(a, b),
{
    let s = FX_ONE as int;
    vstd::arithmetic::mul::lemma_mul_nonnegative(abs_i(a), abs_i(b));
    vstd::arithmetic::div_mod::lemma_div_pos_is_pos(abs_i(a) * abs_i(b), s);
    vstd::arithmetic::mul::lemma_mul_is_commutative(abs_i(a), abs_i(b));
    vstd::arithmetic::div_mod::lemma_div_of0(s);
    assert(abs_i(0) == 0 && abs_i(0 as int) == 0);
    assert(abs_i(0) * abs_i(b) == 0) by {
        vstd::arithmetic::mul::lemma_mul_basics(abs_i(b));
        vstd::arithmetic::mul::lemma_mul_is_commutative(abs_i(0), abs_i(b));
    }
    assert(abs_i(a) * abs_i(0) == 0) by {
        vstd::arithmetic::mul::lemma_mul_basics(abs_i(a));
    }
    assert(abs_i(-a) == abs_i(a));
    assert(abs_i(-b) == abs_i(b));
    assert(abs_i(-a) * abs_i(b) == abs_i(a) * abs_i(b));
    assert(abs_i(a) * abs_i(-b) == abs_i(a) * abs_i(b)) by {
        vstd::arithmetic::mul::lemma_mul_is_commutative(abs_i(a), abs_i(-b));
        vstd::arithmetic::mul::lemma_mul_is_commutative(abs_i(a), abs_i(b));
    }
}

/// Sign and range facts for the fixed-point quotient.
pub proof fn lemma_fdiv_basics(a: int, b: int)
    requires
        b != 0,
    ensures
        -(FX_MAX as int) <= fdiv(a, b) <= FX_MAX as int,
        0 <= a && 0 < b ==> 0 <= fdiv(a, b),
        a <= 0 && b < 0 ==> 0 <= fdiv(a, b),
        0 <= a && b < 0 ==> fdiv(a, b) <= 0,
        a <= 0 && 0 < b ==> fdiv(a, b) <= 0,
        fdiv(0, b) == 0,
{
    let s = FX_ONE as int;
    vstd::arithmetic::mul::lemma_mul_nonnegative(abs_i(a), s);
    vstd::arithmetic::div_mod::lemma_div_pos_is_pos(abs_i(a) * s, abs_i(b));
    vstd::arithmetic::div_mod::lemma_div_of0(abs_i(b));
    assert(abs_i(0) * s == 0);
}

/// The fixed-point quotient grows with its numerator, for a positive
/// denominator.
pub proof fn lemma_fdiv_monotone(a: int, b: int, d: int)
    requires
        a <= b,
        d > 0,
    ensures
        fdiv(a, d) <= fdiv(b, d),
{
    let s = FX_ONE as int;
    lemma_fdiv_basics(a, d);
    lemma_fdiv_basics(b, d);
    if 0 <= a {
        vstd::arithmetic::mul::lemma_mul_inequality(a, b, s);
        vstd::arithmetic::div_mod::lemma_div_is_ordered(a * s, b * s, d);
    } else if b < 0 {
        vstd::arithmetic::mul::lemma_mul_inequality(-b, -a, s);
        vstd::arithmetic::div_mod::lemma_div_is_ordered((-b) * s, (-a) * s, d);
    }
}

/// Negating the denominator negates the quotient.
pub proof fn lemma_fdiv_neg_denominator(a: int, d: int)
    requires
        d != 0,
    ensures
        fdiv(a, -d) == -fdiv(a, d),
{
    assert(abs_i(-d) == abs_i(d));
}

/// A factor of magnitude at most one cannot grow the other factor.
pub proof fn lemma_fmul_le_second(a: int, b: int)
    requires
        abs_i(a) <= FX_ONE as int,
    ensures
        -abs_i(b) <= fmul(a, b) <= abs_i(b),
{
    let s = FX_ONE as int;
    vstd::arithmetic::mul::lemma_mul_inequality(abs_i(a), s, abs_i(b));
    vstd::arithmetic::mul::lemma_mul_nonnegative(abs_i(a), abs_i(b));
    vstd::arithmetic::div_mod::lemma_div_pos_is_pos(abs_i(a) * abs_i(b), s);
    vstd::arithmetic::div_mod::lemma_div_is_ordered(abs_i(a) * abs_i(b), s * abs_i(b), s);
    vstd::arithmetic::div_mod::lemma_div_multiples_vanish(abs_i(b), s);
    assert(s * abs_i(b) == abs_i(b) * s) by (nonlinear_arith);
}

/// The product grows with the magnitude of its first factor.
pub proof fn lemma_fmul_mag_monotone(a: int, c: int, b: int)
    requires
        abs_i(a) <= c,
    ensures
        -fmul(c, abs_i(b)) <= fmul(a, b) <= fmul(c, abs_i(b)),
{
    let s = FX_ONE as int;
    vstd::arithmetic::mul::lemma_mul_inequality(abs_i(a), c, abs_i(b));
    vstd::arithmetic::mul::lemma_mul_nonnegative(abs_i(a), abs_i(b));
    vstd::arithmetic::div_mod::lemma_div_pos_is_pos(abs_i(a) * abs_i(b), s);
    vstd::arithmetic::div_mod::lemma_div_is_ordered(abs_i(a) * abs_i(b), c * abs_i(b), s);
}

/// The square of a scalar of at least a sixteenth of a quantum's root,
/// two to the minus eighth, does not truncate to zero.
pub proof fn lemma_fmul_sq_pos(m: int)
    requires
        m >= 256,
    ensures
        fmul(m, m) >= 1,
{
    let s = FX_ONE as int;
    assert(m * m >= 65536) by (nonlinear_arith)
        requires
            m >= 256,
    ;
    vstd::arithmetic::div_mod::lemma_div_is_ordered(s, m * m, s);
    vstd::arithmetic::div_mod::lemma_div_multiples_vanish(1, s);
    assert(s / s == 1);
    assert(abs_i(m) * abs_i(m) == m * m);
}

/// Multiplying by one is the identity on representable scalars.
pub proof fn lemma_fmul_one(a: int)
    requires
        -(FX_MAX as int) <= a <= FX_MAX as int,
    ensures
        fmul(a, FX_ONE as int) == a,
        fmul(FX_ONE as int, a) == a,
{
    let s = FX_ONE as int;
    vstd::arithmetic::div_mod::lemma_div_multiples_vanish(abs_i(a), s);
    assert(abs_i(a) * s == s * abs_i(a)) by (nonlinear_arith);
    lemma_fmul_basics(a, s);
}

/// The square root of one is one.
pub proof fn lemma_fsqrt_one()
    ensures
        fsqrt(FX_ONE as int) == FX_ONE as int,
{
    let s = FX_ONE as int;
    let n = (s * s) as nat;
    lemma_isqrt_bounds(n);
    let r = isqrt_spec(n);
    assert(n == 0x1_0000_0000) by (nonlinear_arith)
        requires
            n == (s * s) as nat,
            s == 65536,
    ;
    assert(r <= 65536) by (nonlinear_arith)
        requires
            r * r <= n,
            n == 0x1_0000_0000,
    ;
    assert(r >= 65536) by (nonlinear_arith)
        requires
            n < (r + 1) * (r + 1),
            n == 0x1_0000_0000,
    ;
}

/// A scaled part of a whole stays within the scale: `a <= b` gives
/// `a * c / b <= c`.
pub proof fn lemma_scaled_div_le(a: int, b: int, c: int)
    requires
        0 <= a <= b,
        0 < b,
        0 <= c,
    ensures
        0 <= (a * c) / b <= c,
{
    vstd::arithmetic::mul::lemma_mul_inequality(a, b, c);
    vstd::arithmetic::mul::lemma_mul_nonnegative(a, c);
    vstd::arithmetic::div_mod::lemma_div_is_ordered(0, a * c, b);
    vstd::arithmetic::div_mod::lemma_div_is_ordered(a * c, b * c, b);
    vstd::arithmetic::div_mod::lemma_div_multiples_vanish(c, b);
    assert(b * c == c * b) by (nonlinear_arith);
}

/// Euclidean remainder: always in `[0, m)`.
pub fn fx_emod(v: i64, m: i64) -> (r: i64)
    requires
        m > 0,
    ensures
        r as int == (v as int) % (m as int),
        0 <= r < m,
{
    if v >= 0 {
        let r = ((v as u64) % (m as u64)) as i64;
        proof {
            vstd::arithmetic::div_mod::lemma_mod_division_less_than_divisor(v as int, m as int);
            vstd::arithmetic::div_mod::lemma_mod_bound(v as int, m as int);
        }
        r
    } else {
        let k: u128 = (-(v as i128)) as u128;
        let q = (k % (m as u128)) as i64;
        proof {
            let vi = v as int;
            let mi = m as int;
            let ki = k as int;
            vstd::arithmetic::div_mod::lemma_mod_bound(ki, mi);
            vstd::arithmetic::div_mod::lemma_fundamental_div_mod(ki, mi);
            let t = ki / mi;
            assert(vi == mi * (-t) + (-(ki % mi))) by (nonlinear_arith)
                requires
                    vi == -ki,
                    ki == mi * t + ki % mi,
            ;
            if q == 0 {
                vstd::arithmetic::div_mod::lemma_mod_multiples_vanish(-t, 0, mi);
                assert(vi == mi * (-t) + 0);
            } else {
                vstd::arithmetic::div_mod::lemma_mod_multiples_vanish(-t - 1, mi - (ki % mi), mi);
                assert(vi == mi * (-t - 1) + (mi - (ki % mi))) by (nonlinear_arith)
                    requires
                        vi == mi * (-t) + (-(ki % mi)),
                ;
                vstd::arithmetic::div_mod::lemma_small_mod((mi - (ki % mi)) as nat, mi as nat);
            }
        }
        if q == 0 {
            0
        } else {
            m - q
        }
    }
}

/// Whether a scalar is even.
pub fn fx_even(v: i64) -> (r: bool)
    ensures
        r == ((v as int) % 2 == 0),
{
    fx_emod(v, 2) == 0
}

/// A full turn of the piecewise-linear sine: two pi in fixed point,
/// rounded down to a multiple of four so the quarters divide evenly.
pub const FX_TAU: i64 = 411772;

/// A stand-in for the sine: a triangle wave of period two pi and height one,
/// exact at the axis crossings and the extremes, always within `[-1, 1]`.
pub open spec fn sin_s(x: int) -> int {
    let tau = FX_TAU as int;
    let quarter = tau / 4;
    let phase = x % tau;
    if phase < quarter {
        (phase * (FX_ONE as int)) / quarter
    } else if phase < 2 * quarter {
        ((2 * quarter - phase) * (FX_ONE as int)) / quarter
    } else if phase < 3 * quarter {
        -(((phase - 2 * quarter) * (FX_ONE as int)) / quarter)
    } else {
        -(((tau - phase) * (FX_ONE as int)) / quarter)
    }
}

/// The piecewise-linear sine.
pub fn fx_sin(x: i64) -> (r: i64)
    ensures
        r as int == sin_s(x as int),
        -FX_ONE <= r <= FX_ONE,
{
    let quarter = FX_TAU / 4;
    let phase = fx_emod(x, FX_TAU);
    if phase < quarter {
        proof {
            lemma_scaled_div_le(phase as int, quarter as int, FX_ONE as int);
        }
        (((phase as u64) * (FX_ONE as u64)) / (quarter as u64)) as i64
    } else if phase < 2 * quarter {
        proof {
            lemma_scaled_div_le((2 * quarter - phase) as int, quarter as int, FX_ONE as int);
        }
        ((((2 * quarter - phase) as u64) * (FX_ONE as u64)) / (quarter as u64)) as i64
    } else if phase < 3 * quarter {
        proof {
            lemma_scaled_div_le((phase - 2 * quarter) as int, quarter as int, FX_ONE as int);
        }
        -(((((phase - 2 * quarter) as u64) * (FX_ONE as u64)) / (quarter as u64)) as i64)
    } else {
        proof {
            lemma_scaled_div_le((FX_TAU - phase) as int, quarter as int, FX_ONE as int);
        }
        -(((((FX_TAU - phase) as u64) * (FX_ONE as u64)) / (quarter as u64)) as i64)
    }
}

/// Clamp an intermediate 128-bit value into the scalar range.
fn sat_i128(x: i128) -> (r: i64)
    ensures
        r as int == sat(x as int),
{
    if x > FX_MAX as i128 {
        FX_MAX
    } else if x < -(FX_MAX as i128) {
        -FX_MAX
    } else {
        x as i64
    }
}

/// Magnitude of a scalar, widened so that `i64::MIN` is representable.
fn mag(a: i64) -> (r: u128)
    ensures
        r as int == abs_i(a as int),
        r <= 0x8000_0000_0000_0000,
{
    if a >= 0 {
        a as u128
    } else {
        (-(a as i128)) as u128
    }
}

/// Saturating sum.
pub fn fx_add(a: i64, b: i64) -> (r: i64)
    ensures
        r as int == sadd(a as int, b as int),
{
    sat_i128(a as i128 + b as i128)
}

/// Saturating difference.
pub fn fx_sub(a: i64, b: i64) -> (r: i64)
    ensures
        r as int == ssub(a as int, b as int),
{
    sat_i128(a as i128 - b as i128)
}

/// Saturating negation.
pub fn fx_neg(a: i64) -> (r: i64)
    ensures
        r as int == sneg(a as int),
{
    sat_i128(-(a as i128))
}

/// Saturating magnitude.
pub fn fx_abs(a: i64) -> (r: i64)
    ensures
        r as int == sabs(a as int),
{
    if a >= 0 {
        sat_i128(a as i128)
    } else {
        sat_i128(-(a as i128))
    }
}

/// Lesser of two scalars.
pub fn fx_min(a: i64, b: i64) -> (r: i64)
    ensures
        r as int == smin(a as int, b as int),
{
    if a < b {
        a
    } else {
        b
    }
}

/// Greater of two scalars.
pub fn fx_max(a: i64, b: i64) -> (r: i64)
    ensures
        r as int == smax(a as int, b as int),
{
    if a > b {
        a
    } else {
        b
    }
}

/// Fixed-point product, truncated toward zero and saturated.
pub fn fx_mul(a: i64, b: i64) -> (r: i64)
    ensures
        r as int == fmul(a as int, b as int),
{
    let am = mag(a);
    let bm = mag(b);
    proof {
        assert(am * bm <= 0x4000_0000_0000_0000_0000_0000_0000_0000) by (nonlinear_arith)
            requires
                am <= 0x8000_0000_0000_0000,
                bm <= 0x8000_0000_0000_0000,
        ;
    }
    let m: u128 = (am * bm) / (FX_ONE as u128);
    if (a < 0) == (b < 0) {
        if m > FX_MAX as u128 {
            FX_MAX
        } else {
            m as i64
        }
    } else {
        sat_i128(-(m as i128))
    }
}

/// Fixed-point quotient, truncated toward zero and saturated.
pub fn fx_div(a: i64, b: i64) -> (r: i64)
    requires
        b != 0,
    ensures
        r as int == fdiv(a as int, b as int),
{
    let am = mag(a);
    let bm = mag(b);
    proof {
        assert(am * (FX_ONE as u128) <= 0x8000_0000_0000_0000_0000) by (nonlinear_arith)
            requires
                am <= 0x8000_0000_0000_0000,
        ;
    }
    let m: u128 = (am * (FX_ONE as u128)) / bm;
    if (a < 0) == (b < 0) {
        if m > FX_MAX as u128 {
            FX_MAX
        } else {
            m as i64
        }
    } else {
        sat_i128(-(m as i128))
    }
}

/// Integer square root of a widened value.
fn isqrt_u128(n: u128) -> (r: u128)
    ensures
        r as nat == isqrt_spec(n as nat),
    decreases n,
{
    if n == 0 {
        0
    } else {
        let d = isqrt_u128(n / 4);
        proof {
            lemma_isqrt_bounds((n / 4) as nat);
            assert(d < 0x8000_0000_0000_0000u128) by (nonlinear_arith)
                requires
                    d as nat * d as nat <= (n as nat) / 4,
                    (n as nat) / 4 < 0x4000_0000_0000_0000_0000_0000_0000_0000,
            ;
        }
        let c = 2 * d + 1;
        let q = n / c;
        proof {
            vstd::arithmetic::div_mod::lemma_fundamental_div_mod(n as int, c as int);
            assert(c <= q <==> c * c <= n) by (nonlinear_arith)
                requires
                    c > 0,
                    n == q * c + n % c,
                    0 <= n % c < c,
            ;
        }
        if c <= q {
            c
        } else {
            2 * d
        }
    }
}

/// Fixed-point square root: exact floor of the square root of the scalar.
pub fn fx_sqrt(a: i64) -> (r: i64)
    ensures
        r as int == fsqrt(a as int),
{
    if a <= 0 {
        0
    } else {
        proof {
            assert((a as u128) * (FX_ONE as u128) < 0x1_0000_0000_0000_0000_0000_0000)
                by (nonlinear_arith)
                requires
                    (a as u128) < 0x8000_0000_0000_0000,
            ;
        }
        let n: u128 = (a as u128) * (FX_ONE as u128);
        let r = isqrt_u128(n);
        proof {
            lemma_isqrt_bounds(n as nat);
            assert(isqrt_spec(n as nat) < 0x1_0000_0000_0000) by (nonlinear_arith)
                requires
                    isqrt_spec(n as nat) * isqrt_spec(n as nat) <= n as nat,
                    (n as nat) < 0x1_0000_0000_0000_0000_0000_0000,
            ;
        }
        r as i64
    }
}

/// Floor of a scalar in whole units.
pub fn fx_floor_units(a: i64) -> (r: i64)
    ensures
        r as int == funits(a as int),
{
    if a >= 0 {
        ((a as u64) / (FX_ONE as u64)) as i64
    } else {
        let m: u128 = (-(a as i128)) as u128;
        let q = (m + (FX_ONE - 1) as u128) / (FX_ONE as u128);
        proof {
            vstd::arithmetic::div_mod::lemma_div_is_ordered(
                (m + 65535) as int,
                0x8000_0000_0000_FFFF,
                65536,
            );
        }
        -(q as i64)
    }
}

/// Clamp a scalar into `[lo, hi]`.
pub fn fx_clamp(x: i64, lo: i64, hi: i64) -> (r: i64)
    requires
        lo <= hi,
    ensures
        r == smax(smin(x as int, hi as int), lo as int),
{
    if x < lo {
        lo
    } else if x > hi {
        hi
    } else {
        x
    }
}

} // verus!
