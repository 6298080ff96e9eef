//! Tests of the rounding and sign functions of `f256`.
use lib::binary256::f256;
use lib::uint256::u256;

fn bits(hi: u128, lo: u128) -> f256 {
    f256 { bits: u256::new(hi, lo) }
}

#[test]
fn test_unops_test_nan() {
    assert!(f256::nan().abs().is_nan());
    assert!(f256::nan().neg().abs().is_nan());
}

#[test]
fn test_unops_test_inf() {
    assert_eq!(f256::infinity().abs(), f256::infinity());
    assert_eq!(f256::neg_infinity().abs(), f256::infinity());
}

#[test]
fn test_unops_test_zero() {
    assert_eq!(f256::zero().abs(), f256::zero());
    assert_eq!(f256::neg_zero().abs(), f256::zero());
}

#[test]
fn test_unops_test_normal() {
    let f = bits(0x400031a0000000000000000000000000, 0x00000000000000000000000000000000);
    let g = f.neg();
    assert_eq!(f.abs(), f);
    assert_eq!(g.abs(), f);
}

#[test]
fn test_unops_test_subnormal() {
    let f = f256::min_gt_zero();
    assert_eq!(f.abs(), f);
    assert_eq!(f.neg().abs(), f);
}

#[test]
fn trunc_test_nan() {
    assert!(f256::nan().trunc().is_nan());
    assert!(f256::nan().neg().trunc().is_nan());
}

#[test]
fn trunc_test_inf() {
    assert_eq!(f256::infinity().trunc(), f256::infinity());
    assert_eq!(f256::neg_infinity().trunc(), f256::neg_infinity());
}

#[test]
fn trunc_test_zero() {
    assert_eq!(f256::zero().trunc(), f256::zero());
    assert_eq!(f256::neg_zero().trunc(), f256::neg_zero());
}

#[test]
fn trunc_test_normal() {
    let f = bits(0x40003100000000000000000000000000, 0x00000000000000000000000000000000);
    let g = bits(0x400031a0000000000000000000000000, 0x00000000000000000000000000000000);
    let h = g.neg();
    assert_eq!(f.trunc(), f);
    assert_eq!(f.neg().trunc(), f.neg());
    assert_eq!(g.trunc(), f);
    assert_eq!(h.trunc(), f.neg());
}

#[test]
fn test_unops_test_lt_1() {
    let f = bits(0x3fffefffeb074a771d00000000000000, 0x00000000000000000000000000000000);
    assert_eq!(f.trunc(), f256::zero());
    let e = f256::epsilon();
    assert_eq!(e.trunc(), f256::zero());
}

#[test]
fn test_unops_test_gt_2_pow_237() {
    let f = bits(0x400eb2fa1b2610afb100000000000000, 0x00000000000000000000000000000000);
    assert_eq!(f.trunc(), f);
}

#[test]
fn trunc_test_subnormal() {
    let f = f256::min_gt_zero();
    assert_eq!(f.trunc(), f256::zero());
}

#[test]
fn fract_test_nan() {
    assert!(f256::nan().fract().is_nan());
    assert!(f256::nan().neg().fract().is_nan());
}

#[test]
fn fract_test_inf() {
    assert!(f256::infinity().fract().is_nan());
    assert!(f256::neg_infinity().fract().is_nan());
}

#[test]
fn fract_test_zero() {
    assert_eq!(f256::zero().fract(), f256::zero());
    assert_eq!(f256::neg_zero().fract(), f256::zero());
}

#[test]
fn fract_test_normal() {
    let f = bits(0x40003100000000000000000000000000, 0x00000000000000000000000000000000);
    let g = bits(0x400031a0000000000000000000000000, 0x00000000000000000000000000000000);
    let h = g.neg();
    // g - f
    let g_minus_f = bits(0x3fffe400000000000000000000000000, 0x00000000000000000000000000000000);
    // f - g
    let f_minus_g = bits(0xbfffe400000000000000000000000000, 0x00000000000000000000000000000000);
    assert_eq!(f.fract(), f256::zero());
    assert_eq!(g.fract(), g_minus_f);
    assert_eq!(h.fract(), f_minus_g);
}

#[test]
fn fract_test_lt_1() {
    let f = bits(0x3fffefffeb074a771d00000000000000, 0x00000000000000000000000000000000);
    assert_eq!(f.fract(), f);
    let e = f256::epsilon();
    assert_eq!(e.fract(), f256::epsilon());
}

#[test]
fn fract_test_subnormal() {
    let f = f256::min_gt_zero();
    assert_eq!(f.fract(), f256::min_gt_zero());
}

#[test]
fn ceil_test_nan() {
    assert!(f256::nan().ceil().is_nan());
    assert!(f256::nan().neg().ceil().is_nan());
}

#[test]
fn ceil_test_inf() {
    assert_eq!(f256::infinity().ceil(), f256::infinity());
    assert_eq!(f256::neg_infinity().ceil(), f256::neg_infinity());
}

#[test]
fn ceil_test_zero() {
    assert_eq!(f256::zero().ceil(), f256::zero());
    assert_eq!(f256::neg_zero().ceil(), f256::neg_zero());
}

#[test]
fn ceil_test_normal() {
    let f = bits(0x40003200000000000000000000000000, 0x00000000000000000000000000000000);
    let g = bits(0x400031a0000000000000000000000000, 0x00000000000000000000000000000000);
    let h = g.neg();
    // 1 - f
    let one_minus_f = bits(0xc0003100000000000000000000000000, 0x00000000000000000000000000000000);
    assert_eq!(f.ceil(), f);
    assert_eq!(f.neg().ceil(), f.neg());
    assert_eq!(g.ceil(), f);
    assert_eq!(h.ceil(), one_minus_f);
}

#[test]
fn test_unops_test_lt_0() {
    let f = bits(0x3fffefffeb074a771d00000000000000, 0x00000000000000000000000000000000);
    assert_eq!(f.ceil(), f256::one());
    let e = f256::epsilon();
    assert_eq!(e.ceil(), f256::one());
}

#[test]
fn ceil_test_gt_2_pow_237() {
    let f = bits(0x400eb2fa1b2610afb100000000000000, 0x00000000000000000000000000000000);
    assert_eq!(f.ceil(), f);
}

#[test]
fn ceil_test_subnormal() {
    let f = f256::min_gt_zero();
    assert_eq!(f.ceil(), f256::one());
    let g = f.neg();
    assert_eq!(g.ceil(), f256::zero());
}

#[test]
fn floor_test_nan() {
    assert!(f256::nan().floor().is_nan());
    assert!(f256::nan().neg().floor().is_nan());
}

#[test]
fn floor_test_inf() {
    assert_eq!(f256::infinity().floor(), f256::infinity());
    assert_eq!(f256::neg_infinity().floor(), f256::neg_infinity());
}

#[test]
fn floor_test_zero() {
    assert_eq!(f256::zero().floor(), f256::zero());
    assert_eq!(f256::neg_zero().floor(), f256::neg_zero());
}

#[test]
fn floor_test_normal() {
    let f = bits(0x40003c00000000000000000000000000, 0x00000000000000000000000000000000);
    let g = bits(0x40003c06666666666600000000000000, 0x00000000000000000000000000000000);
    let h = g.neg();
    // -f - 1
    let neg_f_minus_one = bits(0xc0003d00000000000000000000000000, 0x00000000000000000000000000000000);
    assert_eq!(f.floor(), f);
    assert_eq!(f.neg().floor(), f.neg());
    assert_eq!(g.floor(), f);
    assert_eq!(h.floor(), neg_f_minus_one);
}

#[test]
fn floor_test_lt_0() {
    let f = bits(0xbfffefffeb074a771d00000000000000, 0x00000000000000000000000000000000);
    assert_eq!(f.floor(), f256::neg_one());
    let e = f256::epsilon();
    assert_eq!(e.floor(), f256::zero());
}

#[test]
fn floor_test_gt_2_pow_237() {
    let f = bits(0x400eb2fa1b2610afb100000000000000, 0x00000000000000000000000000000000);
    assert_eq!(f.floor(), f);
}

#[test]
fn floor_test_subnormal() {
    let f = f256::min_gt_zero();
    assert_eq!(f.floor(), f256::zero());
    let g = f.neg();
    assert_eq!(g.floor(), f256::neg_one());
}

#[test]
fn round_test_nan() {
    assert!(f256::nan().round().is_nan());
    assert!(f256::nan().neg().round().is_nan());
}

#[test]
fn round_test_inf() {
    assert_eq!(f256::infinity().round(), f256::infinity());
    assert_eq!(f256::neg_infinity().round(), f256::neg_infinity());
}

#[test]
fn round_test_zero() {
    assert_eq!(f256::zero().round(), f256::zero());
    assert_eq!(f256::neg_zero().round(), f256::neg_zero());
}

#[test]
fn test_normal_down() {
    let f = bits(0x40003c00000000000000000000000000, 0x00000000000000000000000000000000);
    let g = bits(0x40003c06666666666600000000000000, 0x00000000000000000000000000000000);
    let h = g.neg();
    assert_eq!(f.round(), f);
    assert_eq!(f.neg().round(), f.neg());
    assert_eq!(g.round(), f);
    assert_eq!(h.round(), f.neg());
}

#[test]
fn test_normal_half_up() {
    let f = bits(0x40000800000000000000000000000000, 0x00000000000000000000000000000000);
    let g = bits(0x40000400000000000000000000000000, 0x00000000000000000000000000000000);
    let h = bits(0xc0000400000000000000000000000000, 0x00000000000000000000000000000000);
    assert_eq!(f.round(), f);
    assert_eq!(f.neg().round(), f.neg());
    assert_eq!(g.round(), f);
    assert_eq!(h.round(), f.neg());
}

#[test]
fn test_normal_up() {
    let f = bits(0x40003c00000000000000000000000000, 0x00000000000000000000000000000000);
    let g = bits(0x40003bb9999999999a00000000000000, 0x00000000000000000000000000000000);
    let h = g.neg();
    assert_eq!(f.round(), f);
    assert_eq!(g.round(), f);
    assert_eq!(h.round(), f.neg());
}

#[test]
fn round_test_lt_0() {
    let f = bits(0xbfffefffeb074a771d00000000000000, 0x00000000000000000000000000000000);
    assert_eq!(f.round(), f256::neg_one());
    let e = f256::epsilon();
    assert_eq!(e.round(), f256::zero());
    // 0.5 - e
    let g = bits(0x3fffdfffffffffffffffffffffffffff, 0xfffffffffffffffffffffffffffffffc);
    assert_eq!(g.round(), f256::zero());
    let h = bits(0x3fffe000000000000000000000000000, 0x00000000000000000000000000000000);
    assert_eq!(h.round(), f256::one());
}

#[test]
fn round_test_gt_2_pow_237() {
    let f = bits(0x400eb2fa1b2610afb100000000000000, 0x00000000000000000000000000000000);
    assert_eq!(f.round(), f);
}

#[test]
fn round_test_subnormal() {
    let f = f256::min_gt_zero();
    assert_eq!(f.round(), f256::zero());
    let g = f.neg();
    assert_eq!(g.round(), f256::zero());
}
