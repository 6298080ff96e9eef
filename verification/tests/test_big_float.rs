//! Tests of the arithmetic of `Float` values with 255-bit significands.
use lib::big_float::Float;
use lib::binary256::f256;
use lib::uint256::u256;

fn bits(hi: u128, lo: u128) -> f256 {
    f256 { bits: u256::new(hi, lo) }
}

/// 2²⁵⁵ - 1
fn half_max() -> u256 {
    u256::new(0x7fffffffffffffffffffffffffffffff, 0xffffffffffffffffffffffffffffffff)
}

/// Checks that `g` represents `f` exactly and converts back to `f`.
fn assert_same(f: &f256, g: &Float, exp: i32, signif: u256) {
    let signum = if f.sign() == 1 { -1 } else { 1 };
    assert_eq!(g.signum, signum);
    assert_eq!(g.exp, exp);
    assert_eq!(g.signif, signif);
    assert_eq!(f256::from_float(g).bits, f.bits);
}

#[test]
fn from_i32() {
    assert_eq!(Float::from_i32(1), Float::one());
    assert_eq!(Float::from_i32(-1), Float::neg_one());
    assert_eq!(Float::from_i32(0), Float::zero());
    assert_eq!(Float::from_i32(-2), Float::two().neg());
    let i = -262142_i32;
    assert_eq!(Float::from_i32(i), Float::new(-1, 17, ((262142_u128) << 109, 0)));
    assert_eq!(Float::from_i32(i32::MIN), Float::new(-1, 31, (1_u128 << 126, 0)));
}

#[test]
fn big_float_test_neg_one() {
    let f = f256::neg_one();
    let fp = Float::from_f256(&f);
    assert_eq!(fp, Float::neg_one());
    assert_same(&f, &fp, 0, u256::new(1_u128 << 126, 0));
}

#[test]
fn test_normal_gt_one() {
    // 1.5
    let f = bits(0x3ffff800000000000000000000000000, 0);
    let fp = Float::from_f256(&f);
    assert_same(&f, &fp, 0, u256::new(0x6_u128 << 124, 0));
}

#[test]
fn test_normal_lt_one() {
    // 0.625
    let f = bits(0x3fffe400000000000000000000000000, 0);
    let fp = Float::from_f256(&f);
    assert_same(&f, &fp, -1, u256::new(0x5_u128 << 124, 0));
}

#[test]
fn test_normal_lt_minus_one() {
    // -7.5
    let f = bits(0xc0001e00000000000000000000000000, 0);
    let fp = Float::from_f256(&f);
    assert_same(&f, &fp, 2, u256::new(0xf_u128 << 123, 0));
}

#[test]
fn test_min_f256() {
    let f = f256::min_value();
    let fp = Float::from_f256(&f);
    assert_same(&f, &fp, 262143, u256::new(0x7fffffffffffffffffffffffffffffff, 0xfffffffffffffffffffffffffffc0000));
}

#[test]
fn big_float_test_epsilon() {
    let f = f256::epsilon();
    let fp = Float::from_f256(&f);
    assert_same(&f, &fp, -236, u256::new(1_u128 << 126, 0));
}

#[test]
fn big_float_test_min_gt_zero() {
    let f = f256::min_gt_zero();
    let fp = Float::from_f256(&f);
    assert_same(&f, &fp, -262378, u256::new(1_u128 << 126, 0));
}

#[test]
fn big_float_test_overflow_1() {
    let fp = Float { signum: -1, exp: 262144, signif: Float::one().signif };
    let f = f256::from_float(&fp);
    assert_eq!(f.bits, f256::neg_infinity().bits);
}

#[test]
fn big_float_test_overflow_2() {
    // (2²⁵⁵ - 1) - 131071
    let mut signif = half_max();
    signif.sub_assign_u128(131071);
    let fp = Float { signum: 1, exp: 262143, signif };
    let f = f256::from_float(&fp);
    assert_eq!(f.bits, f256::infinity().bits);
}

#[test]
fn test_overflow_3() {
    // (2²⁵⁶ - 1) >> 18 << 17
    let signif = u256::max_value().shr(18).shl(17);
    let fp = Float { signum: 1, exp: 0, signif };
    let f = f256::from_float(&fp);
    assert_eq!(f.bits, f256::two().bits);
}

#[test]
fn big_float_test_underflow() {
    let fp = Float { signum: 1, exp: -262142 - 237, signif: Float::one().signif };
    let f = f256::from_float(&fp);
    assert_eq!(f.bits, f256::zero().bits);
}

#[test]
fn test_round_to_min_gt_zero() {
    let mut signif = Float::one().signif;
    signif.incr();
    let fp = Float { signum: 1, exp: -262142 - 237, signif };
    let f = f256::from_float(&fp);
    assert_eq!(f.bits, f256::min_gt_zero().bits);
}

#[test]
fn test_round_to_epsilon() {
    let fp = Float { signum: 1, exp: -237, signif: half_max() };
    let f = f256::from_float(&fp);
    assert_eq!(f.bits, f256::epsilon().bits);
}

#[test]
fn test_f256_pi() {
    // π rounded to 237 bits
    let f = bits(0x40000921fb54442d18469898cc51701b, 0x839a252049c1114cf98e804177d4c762);
    let fp = Float::from_f256(&f);
    let g = f256::from_float(&fp);
    assert_eq!(f.bits, g.bits);
}

#[test]
fn test_add_same_sign() {
    let mut f = Float::one();
    let g = f;
    f.iadd(&g);
    assert_eq!(f.signum, 1);
    assert_eq!(f.exp, 1);
    assert_eq!(f.signif, Float::one().signif);
    f.flip_sign();
    let g = f;
    f.iadd(&g);
    assert_eq!(f.signum, -1);
    assert_eq!(f.exp, 2);
    assert_eq!(f.signif, Float::one().signif);
}

#[test]
fn test_add_diff_sign() {
    let mut f = Float::one();
    f.iadd(&Float::neg_one());
    assert_eq!(f, Float::zero());
    let mut signif = Float::one().signif;
    signif.incr();
    let mut f = Float { signum: -1, exp: 0, signif };
    f.iadd(&Float::epsilon());
    assert_eq!(f, Float::neg_one());
    let mut g = Float::epsilon();
    g.iadd(&f);
    assert_eq!(g.signum, -1);
    assert_eq!(g.exp, -1);
    let mut expected = half_max();
    expected.sub_assign_u128(1);
    assert_eq!(g.signif, expected);
}

#[test]
fn test_add_small_values() {
    let mut a = Float {
        signum: 1,
        exp: -31,
        signif: u256::new(0x762786250e76f22407ff39555489fe14, 0xc7367a8a3b4fb9bb64012ff173ba3820),
    };
    let b = Float {
        signum: -1,
        exp: -29,
        signif: u256::new(0x4a861bd3d04784350b3364f35c90403f, 0xbc67c2e66a540f53f03c854744f355a4),
    };
    let d = Float {
        signum: -1,
        exp: -30,
        signif: u256::new(0x59f8749519538f5812672d3c0edb8175, 0x15344887b70041ca2e787295d0098f38),
    };
    a.iadd(&b);
    assert_eq!(a, d);
}

#[test]
fn test_sub_diff_sign() {
    let mut f = Float::neg_one();
    f.isub(&Float::one());
    assert_eq!(f.signum, -1);
    assert_eq!(f.exp, 1);
    assert_eq!(f.signif, Float::one().signif);
    let mut g = f;
    g.flip_sign();
    f.isub(&g);
    assert_eq!(f.signum, -1);
    assert_eq!(f.exp, 2);
    assert_eq!(f.signif, Float::one().signif);
}

#[test]
fn test_sub_same_sign() {
    let mut f = Float::neg_one();
    let g = f;
    f.isub(&g);
    assert_eq!(f, Float::zero());
    let mut signif = Float::one().signif;
    signif.incr();
    let mut f = Float { signum: 1, exp: 0, signif };
    f.isub(&Float::epsilon());
    assert_eq!(f, Float::one());
    let mut g = Float::epsilon();
    g.isub(&f);
    assert_eq!(g.signum, -1);
    assert_eq!(g.exp, -1);
    let mut expected = half_max();
    expected.sub_assign_u128(1);
    assert_eq!(g.signif, expected);
}

#[test]
fn test_sub_small_value() {
    let mut a = Float {
        signum: 1,
        exp: -1,
        signif: u256::new(0x6487ed5110b4611a62633145c06e0e68, 0x033cee6a628198d4c2836363a132d844),
    };
    let b = Float { signum: -1, exp: -128, signif: u256::new(0x40000000000000000000000000000000, 0) };
    let d = Float {
        signum: 1,
        exp: -1,
        signif: u256::new(0x6487ed5110b4611a62633145c06e0e68, 0x833cee6a628198d4c2836363a132d844),
    };
    a.isub(&b);
    assert_eq!(a, d);
}

#[test]
fn test_sub_very_small_value() {
    let a = Float {
        signum: 1,
        exp: 7,
        signif: u256::new(0x6487ed5110b4611a62633145c06e0e68, 0x033cee6a628198d4c2836363a132d844),
    };
    let b = Float { signum: 1, exp: -248, signif: u256::new(0x40000000000000000000000000000000, 0) };
    assert_eq!(a.sub(&b), a);
}

#[test]
fn test_imul_same_sign() {
    let mut x = Float::neg_one();
    x.iadd(&Float::epsilon());
    let y = x;
    x.imul(&y);
    assert_eq!(x.signum, 1);
    assert_eq!(x.exp, -1);
    let mut expected = half_max();
    expected.sub_assign_u128(3);
    assert_eq!(x.signif, expected);
}

#[test]
fn test_imul_diff_sign() {
    let mut x = Float::frac_pi_2();
    let y = Float::pi().neg();
    x.imul(&y);
    assert_eq!(x.signum, -1);
    assert_eq!(x.exp, 2);
    assert_eq!(x.signif, u256::new(0x4ef4f326f91779692b71366cc0460d63, 0x842b351ff06851143341108129e39b47));
}

#[test]
fn test_imul_add() {
    let mut x = Float::pi();
    let y = Float {
        signum: 1,
        exp: -1,
        signif: u256::new(0x7fffffffffffffffffffffffffffffff, 0xffffffffffffffffffffffffffffc000),
    };
    let mut p = x;
    p.imul(&y);
    assert_eq!(p.signif, u256::new(0x6487ed5110b4611a62633145c06e0e68, 0x948127044533e63a0105df531d899b4d));
    let a = Float {
        signum: 1,
        exp: -255,
        signif: u256::new(0x7fffffffffffffffffffffffffffffff, 0xfffffffffffffffffffff80000000000),
    };
    p.iadd(&a);
    assert_eq!(p.signif, u256::new(0x6487ed5110b4611a62633145c06e0e68, 0x948127044533e63a0105df531d899b4d));
    x.imul_add(&y, &a);
    assert_eq!(
        x,
        Float {
            signum: p.signum,
            exp: p.exp,
            signif: u256::new(0x6487ed5110b4611a62633145c06e0e68, 0x948127044533e63a0105df531d899b4e),
        }
    );
}

#[test]
fn test_idiv_by_one() {
    let mut x = Float::one();
    x.idiv(&Float::one());
    assert_eq!(x, Float::one());
    let mut x = Float::one_half().neg();
    x.idiv(&Float::neg_one());
    assert_eq!(x, Float::one_half());
}

#[test]
fn test_idiv_by_one_half() {
    let mut x = Float::pi();
    x.idiv(&Float::one_half());
    assert_eq!(x, Float::tau());
    let mut x = Float::frac_pi_4().neg();
    x.idiv(&Float::one_half());
    assert_eq!(x, Float::frac_pi_2().neg());
}

#[test]
fn test_idiv_by_pi() {
    let mut x = Float::frac_3_pi_4();
    // 3 and 4
    let three = Float::from_f256(&bits(0x40000800000000000000000000000000, 0));
    let four = Float::from_f256(&bits(0x40001000000000000000000000000000, 0));
    let mut q = three;
    q.idiv(&four);
    x.idiv(&Float::pi());
    assert_eq!(x, q);
}

#[test]
fn test_idiv_and_recip() {
    // 5.99999 (as f64) and 6
    let x = Float::from_f256(&bits(0x400017fffd60e94ee400000000000000, 0));
    let y = Float::from_f256(&bits(0x40001800000000000000000000000000, 0));
    let z = Float::new(1, -1, (0x7ffff204dc4f6aaaaaaaaaaaaaaaaaaa, 0xaaaaaaaaaaaaaaaaaaaaaaaaaaaaaaaa));
    let mut q = x;
    q.idiv(&y);
    assert_eq!(q, z);
    let mut q = y;
    q.idiv(&x);
    let d = q.sub(&z.recip()).abs();
    // d <= ε, ordered by signum, exponent and significand
    let eps = Float::epsilon();
    assert!(
        d.signum < eps.signum
            || (d.signum == eps.signum
                && (d.exp < eps.exp || (d.exp == eps.exp && d.signif.le(&eps.signif))))
    );
}

#[test]
fn big_float_test_zero() {
    assert_eq!(Float::zero().sqrt(), Float::zero());
}

#[test]
fn big_float_test_one() {
    assert_eq!(Float::one().sqrt(), Float::one());
}

#[test]
fn big_float_test_nine() {
    let nine = Float::from_f256(&bits(0x40002200000000000000000000000000, 0));
    let three = Float::from_f256(&bits(0x40000800000000000000000000000000, 0));
    assert_eq!(nine.sqrt(), three);
}

#[test]
fn big_float_test_nine_quarter() {
    // 9 / 4 and 3 / 2
    let x = bits(0x40000200000000000000000000000000, 0);
    let y = bits(0x3ffff800000000000000000000000000, 0);
    assert_eq!(Float::from_f256(&x).sqrt(), Float::from_f256(&y));
}

#[test]
fn big_float_test_one_half() {
    let r = Float::one_half().sqrt();
    assert_eq!(r, Float::frac_1_sqrt_2());
}

#[test]
fn big_float_test_two() {
    let sqrt2 = Float::two().sqrt();
    assert_eq!(sqrt2, Float::sqrt_2());
}

#[test]
fn big_float_test_pi() {
    let sqrt_pi = Float::pi().sqrt();
    assert_eq!(sqrt_pi, Float::sqrt_pi());
}
