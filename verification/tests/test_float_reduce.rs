//! Tests of the reduction of `Float` arguments modulo ½π.
use lib::big_float::Float;
use lib::float_reduce::{fast_reduce, rem_frac_pi_2};
use lib::uint256::u256;

fn ten() -> Float {
    Float::from_i32(10)
}

#[test]
fn rem_frac_pi_2_of_small_value_is_the_value() {
    let x = Float::one_half();
    let (q, hi, lo) = rem_frac_pi_2(&x);
    assert_eq!(q, 0);
    assert_eq!(hi, x);
    assert_eq!(lo, Float::zero());
}

#[test]
fn rem_frac_pi_2_of_one() {
    // 1 - ½π ≈ -0.5708
    let (q, hi, lo) = rem_frac_pi_2(&Float::one());
    assert_eq!(q, 1);
    assert_eq!(hi, Float::new(-1, -1, (0x490fdaa22168c234c4c6628b80dc1cd1, 0x29024e088a67cc74020bbea63b139b22)));
    assert_eq!(lo, Float::zero());
}

#[test]
fn fast_reduce_of_ten() {
    // 10 = 6⋅½π + 0.5752220392306207...
    let (q, v1, v2) = fast_reduce(&ten());
    assert_eq!(q, 2);
    assert_eq!(v1, Float::new(1, -1, (0x49a0e033378b72c36359b0bafad75319, 0x09f22bccc1913547f3b9881a9d8a5d33)));
    assert_eq!(v2, Float::zero());
    assert_eq!(rem_frac_pi_2(&ten()), (q, v1, v2));
}

#[test]
fn fast_reduce_is_odd_in_the_remainder() {
    let (q, v1, v2) = fast_reduce(&ten());
    let (nq, nv1, nv2) = fast_reduce(&ten().neg());
    assert_eq!(q, nq);
    assert_eq!(nv1, v1.neg());
    assert_eq!(nv2, v2);
}

#[test]
fn rem_frac_pi_2_of_large_value_terminates() {
    // 2³⁰⁰: the residue modulo 2π is reduced once more
    let x = Float::new(1, 300, (0x40000000000000000000000000000000, 0));
    let (q, hi, _) = rem_frac_pi_2(&x);
    assert!(q < 4);
    assert!(hi.exp < 1);
}

#[test]
fn lshift_rem_shifts_modulo() {
    let d = u256::new(0x60000000000000000000000000000000, 0);
    // 1⋅2¹⁰ mod d = 1024
    assert_eq!(u256::new(0, 1).lshift_rem(&d, 10), u256::new(0, 1024));
    // d⋅2ⁿ mod d = 0
    assert!(d.lshift_rem(&d, 77).is_zero());
    // 2²⁵⁵ mod 3⋅2²⁵³ = 2²⁵³
    assert_eq!(u256::new(0, 1).lshift_rem(&d, 255), u256::new(0x20000000000000000000000000000000, 0));
}
