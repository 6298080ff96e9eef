//! Tests of CORDIC in circular coordinates.
use lib::big_float::Float;
use lib::binary256::f256;
use lib::cordic::{cordic_atan, cordic_atan2, cordic_circ_vm, cordic_gain, cordic_sin_cos};
use lib::cordic_atans::atans_entry;

/// 2⁻²⁴⁸, the error bound of 255 steps.
fn max_err() -> Float {
    Float::new(1, -248, (0x40000000000000000000000000000000, 0))
}

/// `a < b` in the order of (signum, exponent, significand).
fn float_lt(a: &Float, b: &Float) -> bool {
    if a.signum != b.signum {
        return a.signum < b.signum;
    }
    if a.exp != b.exp {
        return a.exp < b.exp;
    }
    a.signif.lt(&b.signif)
}

fn float_le(a: &Float, b: &Float) -> bool {
    !float_lt(b, a)
}

#[test]
fn test_first_entry() {
    assert_eq!(f256::from_float(&atans_entry(0)), f256::frac_pi_4());
}

#[test]
fn test_129th_entry() {
    assert_eq!(atans_entry(128), Float::new(1, -128, (0x40000000000000000000000000000000, 0)));
}

#[test]
fn test_scale_factor() {
    let (k, _) = cordic_circ_vm(Float::one(), Float::zero(), Float::zero());
    let d = k.sub(&cordic_gain());
    assert!(float_le(&d.abs(), &max_err()));
}

#[test]
fn circular_test_atan_inf() {
    let (_, a) = cordic_circ_vm(Float::zero(), Float::one(), Float::zero());
    let a = a.sub(&Float::frac_pi_2());
    assert!(float_lt(&a.abs(), &max_err()));
}

#[test]
fn circular_test_atan_one() {
    let a = cordic_atan(&Float::one());
    let a = a.sub(&atans_entry(0));
    assert!(float_lt(&a.abs(), &max_err()));
}

#[test]
fn test_atan_max() {
    let a = cordic_atan2(&Float::one(), &Float::epsilon());
    let a = a.sub(&Float::frac_pi_2());
    assert!(float_lt(&a, &max_err()));
}

#[test]
fn test_sin_cos_zero() {
    let (sin0, cos0) = cordic_sin_cos(&Float::zero());
    let d = cos0.sub(&Float::one());
    assert!(float_le(&d.abs(), &max_err()));
    assert!(float_lt(&sin0.abs(), &max_err()));
}

#[test]
fn test_sin_cos_pi_half() {
    let (sin, cos) = cordic_sin_cos(&Float::frac_pi_2());
    let d = sin.sub(&Float::one());
    assert!(float_lt(&d.abs(), &max_err()));
    assert!(float_lt(&cos.abs(), &max_err()));
}

#[test]
fn circular_test_special_values() {
    let f = Float::frac_pi_2().mul_pow2(-1);
    let (sin, cos) = cordic_sin_cos(&f);
    let d = cos.sub(&sin);
    assert!(float_lt(&d.abs(), &max_err()));
}

#[test]
fn cordic_atan_is_odd() {
    for f in [Float::one(), Float::epsilon(), Float::frac_pi_2(), Float::two()] {
        let a = cordic_atan(&f);
        let b = cordic_atan(&f.neg());
        assert_eq!(b, a.neg());
    }
    assert_eq!(cordic_atan(&Float::zero()), Float::zero());
}

#[test]
fn cordic_atan2_quadrants() {
    // atan2(±1, ±1) lies in the quadrant of (x, y)
    let one = Float::one();
    let q1 = cordic_atan2(&one, &one);
    let q2 = cordic_atan2(&one, &one.neg());
    let q3 = cordic_atan2(&one.neg(), &one.neg());
    let q4 = cordic_atan2(&one.neg(), &one);
    assert_eq!(q1.signum, 1);
    assert_eq!(q2.signum, 1);
    assert_eq!(q3.signum, -1);
    assert_eq!(q4, q1.neg());
    // ¼π and ¾π
    assert!(float_lt(&q1.sub(&Float::frac_pi_4()).abs(), &max_err()));
    assert!(float_lt(&q2.sub(&Float::frac_3_pi_4()).abs(), &max_err()));
    assert!(float_lt(&q3.add(&Float::frac_3_pi_4()).abs(), &max_err()));
}

#[test]
fn test_atan_signs() {
    for f in [Float::zero(), Float::epsilon(), Float::one(), Float::frac_pi_2()] {
        assert_eq!(cordic_atan(&f).neg(), cordic_atan(&f.neg()));
    }
}
