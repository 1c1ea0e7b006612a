//! The fixed-point scalar operations on concrete values.

use rain::fixed::{fx_abs, fx_add, fx_div, fx_min, fx_mul, fx_neg, fx_sqrt, fx_sub, FX_MAX, FX_ONE};

#[test]
fn add_is_exact_in_range() {
    assert_eq!(fx_add(65536, 32768), 98304);
    assert_eq!(fx_add(-65536, 65536), 0);
}

#[test]
fn add_saturates_at_the_top() {
    assert_eq!(fx_add(FX_MAX, 1), FX_MAX);
    assert_eq!(fx_add(-FX_MAX, -1), -FX_MAX);
}

#[test]
fn sub_and_neg_are_exact() {
    assert_eq!(fx_sub(98304, 32768), 65536);
    assert_eq!(fx_neg(-32768), 32768);
    assert_eq!(fx_neg(i64::MIN), FX_MAX);
}

#[test]
fn mul_rescales() {
    // 0.5 * 0.5 == 0.25
    assert_eq!(fx_mul(32768, 32768), 16384);
    // 2 * 3 == 6
    assert_eq!(fx_mul(131072, 196608), 393216);
    assert_eq!(fx_mul(0, 12345), 0);
}

#[test]
fn mul_truncates_toward_zero() {
    // Tiny products collapse to zero from either side.
    assert_eq!(fx_mul(1, 1), 0);
    assert_eq!(fx_mul(-1, 1), 0);
    // -1.5 * 1 stays exact; -1.5 * 0.9999... truncates toward zero.
    assert_eq!(fx_mul(-98304, 65536), -98304);
    assert_eq!(fx_mul(-98304, 65535), -98302);
}

#[test]
fn div_rescales() {
    // 1 / 2 == 0.5
    assert_eq!(fx_div(FX_ONE, 131072), 32768);
    // 3 / 0.5 == 6
    assert_eq!(fx_div(196608, 32768), 393216);
    assert_eq!(fx_div(-FX_ONE, 131072), -32768);
}

#[test]
fn sqrt_on_exact_squares() {
    assert_eq!(fx_sqrt(FX_ONE), FX_ONE);
    // sqrt(0.25) == 0.5
    assert_eq!(fx_sqrt(16384), 32768);
    // sqrt(4) == 2
    assert_eq!(fx_sqrt(262144), 131072);
    assert_eq!(fx_sqrt(0), 0);
    assert_eq!(fx_sqrt(-5), 0);
}

#[test]
fn sqrt_rounds_down() {
    // sqrt(2) in Q16.16 is 92681.9...; the result rounds down.
    assert_eq!(fx_sqrt(131072), 92681);
}

#[test]
fn abs_and_min() {
    assert_eq!(fx_abs(-32768), 32768);
    assert_eq!(fx_abs(32768), 32768);
    assert_eq!(fx_min(3, -7), -7);
    assert_eq!(fx_min(-7, 3), -7);
}
