//! Tests of the saturating quantity arithmetic.

use dutch_auction::arith::{saturating_add, saturating_mul, saturating_sub};

#[test]
fn saturating_add_clamps_at_the_top() {
    assert_eq!(saturating_add(2, 3), 5);
    assert_eq!(saturating_add(u128::MAX, 0), u128::MAX);
    assert_eq!(saturating_add(u128::MAX, 1), u128::MAX);
    assert_eq!(saturating_add(u128::MAX - 4, 9), u128::MAX);
}

#[test]
fn saturating_sub_clamps_at_zero() {
    assert_eq!(saturating_sub(5, 3), 2);
    assert_eq!(saturating_sub(3, 5), 0);
    assert_eq!(saturating_sub(0, u128::MAX), 0);
}

#[test]
fn saturating_mul_clamps_at_the_top() {
    assert_eq!(saturating_mul(6, 7), 42);
    assert_eq!(saturating_mul(u128::MAX, 1), u128::MAX);
    assert_eq!(saturating_mul(u128::MAX, 2), u128::MAX);
    assert_eq!(saturating_mul(1 << 64, 1 << 64), u128::MAX);
    assert_eq!(saturating_mul(0, u128::MAX), 0);
}
