//! Tests of the square root of `f256` values.
use lib::binary256::f256;
use lib::uint256::u256;
use lib::big_float::Float;

fn bits(hi: u128, lo: u128) -> f256 {
    f256 { bits: u256::new(hi, lo) }
}

/// The square of `r`, computed exactly enough to compare with an `f256`.
fn square(r: &f256) -> f256 {
    f256::from_float(&Float::from_f256(r).square())
}

#[test]
fn sqrt_test_zero() {
    assert_eq!(f256::zero().sqrt(), f256::zero());
    assert_eq!(f256::neg_zero().sqrt(), f256::neg_zero());
}

#[test]
fn sqrt_test_inf() {
    assert_eq!(f256::infinity().sqrt(), f256::infinity());
    assert!(f256::neg_infinity().sqrt().is_nan());
}

#[test]
fn sqrt_test_nan() {
    assert!(f256::nan().sqrt().is_nan());
}

#[test]
fn sqrt_test_neg_values() {
    assert!(f256::neg_one().sqrt().is_nan());
    // 10
    let ten = bits(0x40002400000000000000000000000000, 0x00000000000000000000000000000000);
    assert!(ten.negated().sqrt().is_nan());
    assert!(f256::min_gt_zero().negated().sqrt().is_nan());
    // -290317
    assert!(bits(0xc00111b8340000000000000000000000, 0x00000000000000000000000000000000).sqrt().is_nan());
}

#[test]
fn test_exact_squares() {
    // 81
    let f = bits(0x40005440000000000000000000000000, 0x00000000000000000000000000000000);
    assert_eq!(f.sqrt(), bits(0x40002200000000000000000000000000, 0x00000000000000000000000000000000));
    // 157836662403.890625
    let f = bits(0x4002425fe62b41f20000000000000000, 0x00000000000000000000000000000000);
    // 397286.625
    assert_eq!(f.sqrt(), bits(0x4001183f9a8000000000000000000000, 0x00000000000000000000000000000000));
}

#[test]
fn sqrt_test_one_half() {
    let one_half = bits(0x3fffe000000000000000000000000000, 0x00000000000000000000000000000000);
    // FRAC_1_SQRT_2
    assert_eq!(one_half.sqrt(), bits(0x3fffe6a09e667f3bcc908b2fb1366ea9, 0x57d3e3adec17512775099da2f590b066));
}

#[test]
fn sqrt_test_two() {
    // SQRT_2
    assert_eq!(f256::two().sqrt(), bits(0x3ffff6a09e667f3bcc908b2fb1366ea9, 0x57d3e3adec17512775099da2f590b066));
}

#[test]
fn test_five() {
    // 5 and SQRT_5
    assert_eq!(bits(0x40001400000000000000000000000000, 0x00000000000000000000000000000000).sqrt(), bits(0x400001e3779b97f4a7c15f39cc0605ce, 0xdc8341082276bf3a27251f86c6a11d0c));
}

#[test]
fn sqrt_test_nine() {
    let nine = bits(0x40002200000000000000000000000000, 0x00000000000000000000000000000000);
    let three = bits(0x40000800000000000000000000000000, 0x00000000000000000000000000000000);
    assert_eq!(nine.sqrt(), three);
}

#[test]
fn sqrt_test_nine_quarter() {
    // 9 / 4
    let x = bits(0x40000200000000000000000000000000, 0x00000000000000000000000000000000);
    // 3 / 2
    let y = bits(0x3ffff800000000000000000000000000, 0x00000000000000000000000000000000);
    assert_eq!(x.sqrt(), y);
}

#[test]
fn test_near_four() {
    // 4 - ulp(4)
    let four_minus_ulp = bits(0x40000fffffffffffffffffffffffffff, 0xfffffffffffffffffffffffffffffffe);
    // 2 - ulp(2) / 2
    assert_eq!(four_minus_ulp.sqrt(), bits(0x3fffffffffffffffffffffffffffffff, 0xffffffffffffffffffffffffffffffff));
}

#[test]
fn sqrt_test_pi() {
    // PI
    let pi = bits(0x40000921fb54442d18469898cc51701b, 0x839a252049c1114cf98e804177d4c762);
    // SQRT_PI
    assert_eq!(pi.sqrt(), bits(0x3ffffc5bf891b4ef6aa79c3b0520d5db, 0x9383fe3921546f63b252dca100bd3ea1));
}

#[test]
fn sqrt_test_normal_1() {
    let f = bits(0x40001c00000000000000000000000000, 0x00000000000000000000000000000000);
    let r = bits(0x4000052a7fa9d2f8e9b78e753f30fe1b, 0xd106aa53bff3dbc20aefe471a537f471);
    assert_ne!(f, square(&r));
    assert_eq!(f.sqrt(), r);
}

#[test]
fn sqrt_test_normal_2() {
    let f = bits(0x000e3d27574bed91842fa321a4dec678, 0x00000000000000000000000000000000);
    assert!(f.is_normal());
    let r = bits(0x20071599001632adc6d2b961856d5149, 0xd43ba9cdb752cba870242d4a2b4d2747);
    assert!(r.is_normal());
    assert_eq!(square(&r), f);
    assert_eq!(f.sqrt(), r);
}

#[test]
fn sqrt_test_normal_3() {
    let f = bits(0x667d73a44b77e879a0d0b5ef8f52ce24, 0x45ac97196721ce587a7a82c047ba5040);
    assert!(f.is_normal());
    let r = bits(0x533eb1ba45253a66c2809b35e504a94d, 0x4306fac1edc6332808c6d7cd672bf324);
    assert!(r.is_normal());
    assert_eq!(square(&r), f);
    assert_eq!(f.sqrt(), r);
}

#[test]
fn sqrt_test_subnormal_1() {
    let f = bits(161381583805889998189973969922, 288413346707470246106660640932215474040);
    assert!(f.is_subnormal());
    let r = bits(42533487390635923064310396803489994282, 251643572745990121674876797336685460940);
    assert!(r.is_normal());
    assert_eq!(square(&r), f);
    assert_eq!(f.sqrt(), r);
}

#[test]
fn sqrt_below_a_power_of_four_stays_below_the_power_of_two() {
    // the largest value below 4 has its root nearest to the largest value
    // below 2, not to 2
    let x = bits(0x40000fffffffffffffffffffffffffff, 0xffffffffffffffffffffffffffffffff);
    let r = bits(0x3fffffffffffffffffffffffffffffff, 0xffffffffffffffffffffffffffffffff);
    assert_eq!(x.sqrt(), r);
}
