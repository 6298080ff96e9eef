//! Tests of the fixed-point numbers with 492 and 509 fractional bits.
use lib::big_float::Float;
use lib::binary256::f256;
use lib::fp492::FP492;
use lib::fp509::FP509;
use lib::uint256::u256;

fn bits(hi: u128, lo: u128) -> f256 {
    f256 { bits: u256::new(hi, lo) }
}

#[test]
fn test_iadd() {
    // 7.24001 (as f64)
    let x = FP492::from_f256(&bits(0x40001cf5c52e72da1200000000000000, 0));
    let y = FP492::from_i32(-3);
    let mut z = x;
    z.add_assign(&y);
    // 4.24001 (as f64)
    assert_eq!(z, FP492::from_f256(&bits(0x400010f5c52e72da1200000000000000, 0)));
    let mut z = y;
    z.add_assign(&x.neg());
    // -10.24001 (as f64)
    assert_eq!(z, FP492::from_f256(&bits(0xc000247ae297396d0900000000000000, 0)));
    let mut a = y.neg();
    a.add_assign(&x);
    assert_eq!(z, a.neg());
}

#[test]
fn fp492_test_imul_round() {
    let mut a = FP492::new(
        0x00000000000000000000000000000000,
        0x000067b2347253a16bd31e2c570f6274,
        0xbcff2caa49cd10c1720c6cd864f126a4,
        0x41d4e7c8a606052efcd32ed46b74b006,
    );
    let b = FP492::new(
        0x00888888888888888888888888888888,
        0x88888888888888888888888888888888,
        0x88888888888888888888888888888888,
        0x88888888888888888888888888888889,
    );
    let c = FP492::new(
        0x00000000000000000000000000000000,
        0x0374df9d69300c20a3239c808348286e,
        0xe7e38afe4d5bc8117b1847a1a36be00f,
        0xa1537d00335f6ed3d6e4f283e3bbeeef,
    );
    a.imul_round(&b);
    assert_eq!(a, c);
}

#[test]
fn fp492_test_neg_one() {
    let x = FP492::one();
    let y = x.neg();
    let mut z = x;
    z.imul_round(&y);
    assert_eq!(y, z);
}

#[test]
fn fp492_test_neg_neg() {
    let x = FP492::new(
        0x00088888888888888888888888888888,
        0x000000dd37e75a4c030828c8e72020d2,
        0x0a1bb9f8e2bf9356f2045ec611e868da,
        0xf803e854df400cd7dbb4f5b93ca0f8ef,
    );
    let mut y = x;
    y.ineg();
    y.ineg();
    assert_eq!(x, y);
}

#[test]
fn fp492_test_one() {
    let x = FP492::one();
    let y = x.neg();
    assert_eq!(f256::from_fp492(&x), f256::one());
    assert_eq!(f256::from_fp492(&y), f256::neg_one());
    assert_eq!(x.to_float(), Float::one());
    assert_eq!(y.to_float(), Float::neg_one());
}

#[test]
fn test_some() {
    // 7 + 10⋅2⁻⁵²
    let x = bits(0x40001c00000000000280000000000000, 0);
    let y = Float::from_f256(&x);
    let a = FP492::from_f256(&x);
    let b = FP492::from_float(&y);
    assert_eq!(f256::from_fp492(&a), x);
    assert_eq!(b.to_float(), y);
    assert_eq!(a, b);
}

#[test]
fn test_from_i32() {
    let x = FP492::from_i32(7);
    let y = FP492::from_f256(&bits(0x40001c00000000000000000000000000, 0));
    assert_eq!(x, y);
    let x = FP492::from_i32(-7);
    let y = FP492::from_f256(&bits(0xc0001c00000000000000000000000000, 0));
    assert_eq!(x, y);
}

#[test]
fn fp509_test_imul_round() {
    let mut a = FP509::new(
        0x00000000000000000000000000000000,
        0x000067b2347253a16bd31e2c570f6274,
        0xbcff2caa49cd10c1720c6cd864f126a4,
        0x41d4e7c8a606052efcd32ed46b74b006,
    );
    let b = FP509::new(
        0x00888888888888888888888888888888,
        0x88888888888888888888888888888888,
        0x88888888888888888888888888888888,
        0x88888888888888888888888888888889,
    );
    let c = FP509::new(
        0x00000000000000000000000000000000,
        0x000001ba6fceb49806105191ce4041a4,
        0x143773f1c57f26ade408bd8c23d0d1b5,
        0xf007d0a9be8019afb769eb727941f1de,
    );
    a.imul_round(&b);
    assert_eq!(a, c);
}

#[test]
fn fp509_test_neg_one() {
    let x = FP509::one();
    let y = x.neg();
    let mut z = x;
    z.imul_round(&y);
    assert_eq!(y, z);
}

#[test]
fn fp509_test_neg_neg() {
    let x = FP509::new(
        0x00088888888888888888888888888888,
        0x000000dd37e75a4c030828c8e72020d2,
        0x0a1bb9f8e2bf9356f2045ec611e868da,
        0xf803e854df400cd7dbb4f5b93ca0f8ef,
    );
    let mut y = x;
    y.ineg();
    y.ineg();
    assert_eq!(x, y);
}

#[test]
fn fp509_test_one() {
    let x = FP509::one();
    let y = x.neg();
    assert_eq!(f256::from_fp509(&x), f256::one());
    assert_eq!(f256::from_fp509(&y), f256::neg_one());
    assert_eq!(x.to_float(), Float::one());
    assert_eq!(y.to_float(), Float::neg_one());
}

#[test]
fn imul_round_rounds_to_nearest() {
    // 2⁻⁴⁹² ⋅ 2⁻²³⁶ rounds to 0
    let mut x = FP492::epsilon();
    x.imul_round(&FP492::new(0, 1, 0, 0));
    assert_eq!(x, FP492::zero());
    // ½ ⋅ 2⁻⁴⁹² is a tie and rounds to even (0); 3/2 ⋅ 2⁻⁴⁹² rounds to 2⋅2⁻⁴⁹²
    let mut y = FP492::epsilon();
    y.imul_round(&FP492::one_half());
    assert_eq!(y, FP492::zero());
    let mut z = FP492::epsilon();
    z.add_assign(&FP492::epsilon());
    z.add_assign(&FP492::epsilon());
    z.imul_round(&FP492::one_half());
    let mut two = FP492::epsilon();
    two.add_assign(&FP492::epsilon());
    assert_eq!(z, two);
}
