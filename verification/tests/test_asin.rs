//! Tests of the arcsine, the arccosine and the cosine series in `Float`.
use lib::big_float::Float;
use lib::binary256::f256;
use lib::float_cos::approx_cos;
use lib::uint256::u256;

fn bits(hi: u128, lo: u128) -> f256 {
    f256 { bits: u256::new(hi, lo) }
}

fn frac_pi_2() -> f256 {
    f256::frac_pi_2()
}

fn frac_pi_3() -> f256 {
    bits(0x3ffff0c152382d73658465bb32e0f567, 0xad116e158680b6335109aad64fe32f97)
}

fn frac_pi_4() -> f256 {
    f256::frac_pi_4()
}

fn frac_pi_6() -> f256 {
    bits(0x3fffe0c152382d73658465bb32e0f567, 0xad116e158680b6335109aad64fe32f97)
}

fn pi() -> f256 {
    f256::pi()
}

fn sqrt_2() -> f256 {
    bits(0x3ffff6a09e667f3bcc908b2fb1366ea9, 0x57d3e3adec17512775099da2f590b066)
}

fn one_half() -> f256 {
    bits(0x3fffe000000000000000000000000000, 0x00000000000000000000000000000000)
}

fn from_i32(i: i32) -> f256 {
    f256::from_float(&Float::from_i32(i))
}

/// `a + b`, for operands whose sum is exact in [`Float`].
fn add(a: &f256, b: &f256) -> f256 {
    f256::from_float(&Float::from_f256(a).add(&Float::from_f256(b)))
}

/// `a - b`, for operands whose difference is exact in [`Float`].
fn sub(a: &f256, b: &f256) -> f256 {
    f256::from_float(&Float::from_f256(a).sub(&Float::from_f256(b)))
}

/// `a * b`, for operands whose product is exact in [`Float`].
fn mul(a: &f256, b: &f256) -> f256 {
    f256::from_float(&Float::from_f256(a).mul(&Float::from_f256(b)))
}

fn next_up(f: &f256) -> f256 {
    let mut b = f.bits;
    b.incr();
    f256 { bits: b }
}

fn next_down(f: &f256) -> f256 {
    let mut b = f.bits;
    b.sub_assign_u128(1);
    f256 { bits: b }
}

/// `a` and `b` (positive, finite) are at most one unit in the last place
/// apart.
fn almost_eq(a: &f256, b: &f256) -> bool {
    a == b || *a == next_up(b) || *a == next_down(b)
}

// ---- asin ----------------------------------------------------------------

fn check_asin_inf() {
    assert!(f256::infinity().asin().is_nan());
    assert!(f256::neg_infinity().asin().is_nan());
}

fn check_asin_gt_1() {
    assert!(f256::two().asin().is_nan());
    let x = add(&f256::one(), &f256::epsilon());
    assert!(x.asin().is_nan());
    let x = x.negated();
    assert!(x.asin().is_nan());
}

fn check_asin_zero() {
    assert_eq!(f256::zero().asin(), f256::zero());
    assert_eq!(f256::neg_zero().asin(), f256::zero());
}

fn check_asin_one() {
    assert_eq!(f256::one().asin(), frac_pi_2());
    assert_eq!(f256::neg_one().asin(), frac_pi_2().negated());
}

fn check_asin_one_half() {
    assert_eq!(one_half().asin(), frac_pi_6());
    assert_eq!(one_half().negated().asin(), frac_pi_6().negated());
}

fn check_asin_one_half_times_sqrt_2() {
    let x = mul(&one_half(), &sqrt_2());
    assert_eq!(x.asin(), frac_pi_4());
    assert_eq!(x.negated().asin(), frac_pi_4().negated());
}

fn check_asin_one_half_times_sqrt_3() {
    let x = mul(&one_half(), &from_i32(3).sqrt());
    assert_eq!(x.asin(), frac_pi_3());
    assert_eq!(x.negated().asin(), frac_pi_3().negated());
}

#[test]
fn asin_test_asin_inf() {
    check_asin_inf();
}

#[test]
fn asin_test_asin_gt_1() {
    check_asin_gt_1();
}

#[test]
fn asin_test_asin_zero() {
    check_asin_zero();
}

#[test]
fn asin_test_asin_one() {
    check_asin_one();
}

#[test]
fn asin_test_asin_one_half() {
    check_asin_one_half();
}

#[test]
fn asin_test_asin_one_half_times_sqrt_2() {
    check_asin_one_half_times_sqrt_2();
}

#[test]
fn asin_test_asin_one_half_times_sqrt_3() {
    check_asin_one_half_times_sqrt_3();
}

#[test]
fn asin_acos_test_asin_inf() {
    check_asin_inf();
}

#[test]
fn asin_acos_test_asin_gt_1() {
    check_asin_gt_1();
}

#[test]
fn asin_acos_test_asin_zero() {
    check_asin_zero();
}

#[test]
fn asin_acos_test_asin_one() {
    check_asin_one();
}

#[test]
fn asin_acos_test_asin_one_half() {
    check_asin_one_half();
}

#[test]
fn asin_acos_test_asin_one_half_times_sqrt_2() {
    check_asin_one_half_times_sqrt_2();
}

#[test]
fn asin_acos_test_asin_one_half_times_sqrt_3() {
    check_asin_one_half_times_sqrt_3();
}

#[test]
fn asin_of_small_values_is_identity() {
    // the cut-off itself and its negation
    let c = bits(0x3ff89713765fce269de05bbe5d2df6f0, 0xb6f406126cab80a1f5eca809c5595b15);
    assert_eq!(c.asin().bits, c.bits);
    assert_eq!(c.negated().asin().bits, c.negated().bits);
    // the next value above the cut-off is no longer its own arcsine
    let d = next_up(&c);
    assert_ne!(d.asin().bits, d.bits);
    assert!(almost_eq(&d.asin(), &d));
}

#[test]
fn asin_is_odd() {
    for x in [one_half(), frac_pi_6(), from_i32(1).negated(), bits(0x3ffe0000000000000000000000000000, 7)] {
        assert_eq!(x.negated().asin(), x.asin().negated());
    }
}

// ---- acos ----------------------------------------------------------------

#[test]
fn test_acos_inf() {
    assert!(f256::infinity().acos().is_nan());
    assert!(f256::neg_infinity().acos().is_nan());
}

#[test]
fn test_acos_gt_1() {
    assert!(f256::two().acos().is_nan());
    let x = add(&f256::one(), &f256::epsilon());
    assert!(x.acos().is_nan());
    let x = x.negated();
    assert!(x.acos().is_nan());
}

#[test]
fn test_acos_zero() {
    assert_eq!(f256::zero().acos(), frac_pi_2());
    assert_eq!(f256::neg_zero().acos(), frac_pi_2());
}

#[test]
fn test_acos_one() {
    assert_eq!(f256::one().acos(), f256::zero());
    assert_eq!(f256::neg_one().acos(), pi());
}

#[test]
fn test_acos_one_half() {
    assert_eq!(one_half().acos(), frac_pi_3());
    assert_eq!(one_half().negated().acos(), add(&frac_pi_3(), &frac_pi_3()));
}

#[test]
fn test_acos_one_half_times_sqrt_2() {
    let x = mul(&one_half(), &sqrt_2());
    assert!(almost_eq(&x.acos(), &frac_pi_4()));
    assert_eq!(x.negated().acos(), sub(&pi(), &frac_pi_4()));
}

#[test]
fn test_acos_one_half_times_sqrt_3() {
    let x = mul(&one_half(), &from_i32(3).sqrt());
    assert!(almost_eq(&x.acos(), &frac_pi_6()));
    assert!(almost_eq(&x.negated().acos(), &sub(&pi(), &frac_pi_6())));
}

#[test]
fn acos_of_nan_is_nan() {
    assert!(f256::nan().acos().is_nan());
    assert!(f256::nan().asin().is_nan());
}

// ---- cosine series in Float ----------------------------------------------

fn frac_pi_3_float() -> Float {
    Float::new(1, 0, (0x430548e0b5cd961196eccb83d59eb445, 0xb8561a02d8cd4426ab593f8cbe5bde61))
}

fn frac_1_sqrt_2_float() -> Float {
    Float::new(1, -1, (0x5a827999fcef32422cbec4d9baa55f4f, 0x8eb7b05d449dd426768bd642c199cc8b))
}

fn small_cut_off_float() -> Float {
    Float::new(1, -128, (0x7fffffffffffffffffffffffffffffff, 0xffffffffffffffffffffffffffffffff))
}

/// `a < b` in the order of (signum, exponent, significand).
fn float_lt(a: &Float, b: &Float) -> bool {
    if a.signum != b.signum {
        return a.signum < b.signum;
    }
    if a.exp != b.exp {
        return a.exp < b.exp;
    }
    a.signif.lt(&b.signif)
}

fn float_le(a: &Float, b: &Float) -> bool {
    !float_lt(b, a)
}

#[test]
fn test_approx_cos() {
    let x = frac_pi_3_float();
    let d = approx_cos(&x).sub(&Float::one_half()).abs();
    assert!(float_le(&d, &Float::one_half().quantum()));
    let x = Float::frac_pi_4().neg();
    assert_eq!(approx_cos(&x), frac_1_sqrt_2_float());
    let x = Float::zero();
    assert_eq!(approx_cos(&x), Float::one());
    let x = Float::zero().neg();
    assert_eq!(approx_cos(&x), Float::one());
}

#[test]
fn test_small_cutoff() {
    let mut f = small_cut_off_float();
    assert_eq!(approx_cos(&f), Float::one());
    f = f.add(&f.quantum());
    assert_ne!(approx_cos(&f), Float::one());
    assert_ne!(approx_cos(&f.neg()), Float::one());
}

#[test]
fn approx_cos_calc_small_cutoff() {
    let mut lf = Float::new(1, -128, (0x571cbec554b60dbbd5f64baf0506840d, 0x451db70d5904029b0aa6cf6bb1066de9));
    let mut uf = Float::new(1, -127, (0x571cbec554b60dbbd5f64baf0506840d, 0x451db70d5904029b0aa6cf6bb1066de9));
    assert_eq!(approx_cos(&lf), Float::one());
    assert_ne!(approx_cos(&uf), Float::one());
    let mut f = lf.add(&uf).mul_pow2(-1);
    while float_lt(&lf, &f) && float_lt(&f, &uf) {
        if approx_cos(&f) == Float::one() {
            lf = f;
        } else {
            uf = f;
        }
        f = lf.add(&uf).mul_pow2(-1);
    }
    assert_eq!(approx_cos(&lf), Float::one());
    assert_ne!(approx_cos(&uf), Float::one());
}

#[test]
fn approx_cos_of_one_half_and_its_negation_agree() {
    let x = Float::one_half();
    assert_eq!(approx_cos(&x), approx_cos(&x.neg()));
}
