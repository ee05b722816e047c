//! The fixed-point scalar operations on concrete values.

use neon::fixed;
use neon::fixed::{FX_MAX, FX_ONE, FX_TAU};

#[test]
fn addition_is_exact_in_range() {
    assert_eq!(fixed::fx_add(3 * FX_ONE, 4 * FX_ONE), 7 * FX_ONE);
    assert_eq!(fixed::fx_add(-FX_ONE, FX_ONE), 0);
}

#[test]
fn addition_saturates_at_the_bound() {
    assert_eq!(fixed::fx_add(FX_MAX, FX_MAX), FX_MAX);
    assert_eq!(fixed::fx_sub(-FX_MAX, FX_MAX), -FX_MAX);
}

#[test]
fn multiplication_carries_the_unit() {
    assert_eq!(fixed::fx_mul(2 * FX_ONE, 3 * FX_ONE), 6 * FX_ONE);
    assert_eq!(fixed::fx_mul(-2 * FX_ONE, 3 * FX_ONE), -6 * FX_ONE);
    assert_eq!(fixed::fx_mul(FX_ONE / 2, FX_ONE / 2), FX_ONE / 4);
}

#[test]
fn multiplication_truncates_toward_zero() {
    // One third of one, times three, loses the remainder below the quantum.
    let third = fixed::fx_div(FX_ONE, 3 * FX_ONE);
    let back = fixed::fx_mul(third, 3 * FX_ONE);
    assert!(back < FX_ONE);
    assert!(back >= FX_ONE - 3);
}

#[test]
fn division_is_exact_on_multiples() {
    assert_eq!(fixed::fx_div(6 * FX_ONE, 3 * FX_ONE), 2 * FX_ONE);
    assert_eq!(fixed::fx_div(-6 * FX_ONE, 3 * FX_ONE), -2 * FX_ONE);
}

#[test]
fn square_root_is_exact_on_squares() {
    assert_eq!(fixed::fx_sqrt(4 * FX_ONE), 2 * FX_ONE);
    assert_eq!(fixed::fx_sqrt(FX_ONE), FX_ONE);
    assert_eq!(fixed::fx_sqrt(0), 0);
    assert_eq!(fixed::fx_sqrt(-FX_ONE), 0);
}

#[test]
fn euclidean_remainder_is_never_negative() {
    assert_eq!(fixed::fx_emod(7, 4), 3);
    assert_eq!(fixed::fx_emod(-1, 4), 3);
    assert_eq!(fixed::fx_emod(-8, 4), 0);
}

#[test]
fn floor_units_rounds_down() {
    assert_eq!(fixed::fx_floor_units(3 * FX_ONE + 5), 3);
    assert_eq!(fixed::fx_floor_units(-3 * FX_ONE - 5), -4);
    assert_eq!(fixed::fx_floor_units(-3 * FX_ONE), -3);
}

#[test]
fn sine_crosses_where_it_should() {
    assert_eq!(fixed::fx_sin(0), 0);
    assert_eq!(fixed::fx_sin(FX_TAU / 4), FX_ONE);
    assert_eq!(fixed::fx_sin(FX_TAU / 2), 0);
    assert_eq!(fixed::fx_sin(3 * FX_TAU / 4), -FX_ONE);
    for k in -20i64..20 {
        let v = fixed::fx_sin(k * 12345);
        assert!(-FX_ONE <= v && v <= FX_ONE);
    }
}
