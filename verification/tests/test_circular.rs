//! Tests of the reduction of arguments and of the circular functions.
use lib::big_float::Float;
use lib::binary256::f256;
use lib::fixed_series::table_entry;
use lib::fp492::FP492;
use lib::reduce::{reduce, REDUCTION_CONSTS};
use lib::two_over_pi::get_256_bits;
use lib::uint256::u256;

fn bits(hi: u128, lo: u128) -> f256 {
    f256 { bits: u256::new(hi, lo) }
}

/// The value (-1)ˢ⋅c⋅2ᵗ.
fn ses(s: u32, t: i32, c: (u128, u128)) -> f256 {
    f256::from_float(&Float::from_sign_exp_signif(s, t, c))
}

fn fp_frac_pi_4() -> FP492 {
    table_entry(&REDUCTION_CONSTS, 0)
}

fn fp_frac_pi_2() -> FP492 {
    table_entry(&REDUCTION_CONSTS, 1)
}

fn fp_pi() -> FP492 {
    table_entry(&REDUCTION_CONSTS, 3)
}

fn fp_frac_5_pi_4() -> FP492 {
    table_entry(&REDUCTION_CONSTS, 4)
}

fn frac_pi_2() -> f256 {
    f256::frac_pi_2()
}

fn frac_pi_3() -> f256 {
    bits(0x3ffff0c152382d73658465bb32e0f567, 0xad116e158680b6335109aad64fe32f97)
}

fn frac_pi_6() -> f256 {
    bits(0x3fffe0c152382d73658465bb32e0f567, 0xad116e158680b6335109aad64fe32f97)
}

fn one_half() -> f256 {
    bits(0x3fffe000000000000000000000000000, 0x00000000000000000000000000000000)
}

fn epsilon() -> f256 {
    bits(0x3ff13000000000000000000000000000, 0x00000000000000000000000000000000)
}

fn min() -> f256 {
    bits(0xffffefffffffffffffffffffffffffff, 0xffffffffffffffffffffffffffffffff)
}

fn from_i32(i: i32) -> f256 {
    f256::from_float(&Float::from_i32(i))
}

/// `|a| < |b|` for finite values.
fn abs_lt(a: &f256, b: &f256) -> bool {
    a.abs().bits.lt(&b.abs().bits)
}

/// `|a - b|`, computed exactly where the difference is representable.
fn abs_diff(a: &f256, b: &f256) -> f256 {
    f256::from_float(&Float::from_f256(a).sub(&Float::from_f256(b))).abs()
}

#[test]
fn reduce_test_frac_pi_4() {
    let f = f256::from_fp492(&fp_frac_pi_4());
    let fx = FP492::from_f256(&f);
    assert!(fx.lt(&fp_frac_pi_4()));
    let (q, r) = reduce(&f);
    assert_eq!(q, 0);
    assert_eq!(r, fx);
}

#[test]
fn test_frac_pi_2() {
    let f = f256::from_fp492(&fp_frac_pi_2());
    let mut fx = FP492::from_f256(&f);
    assert!(fx.lt(&fp_frac_pi_2()));
    let (q, r) = reduce(&f);
    assert_eq!(q, 1);
    fx.sub_assign(&fp_frac_pi_2());
    assert_eq!(r, fx);
}

#[test]
fn reduce_test_pi() {
    let f = f256::from_fp492(&fp_pi());
    let mut fx = FP492::from_f256(&f);
    assert!(fx.lt(&fp_pi()));
    let (q, r) = reduce(&f);
    assert_eq!(q, 2);
    fx.sub_assign(&fp_pi());
    assert_eq!(r, fx);
}

#[test]
fn test_frac_5_pi_4() {
    let f = f256::from_fp492(&fp_frac_5_pi_4());
    let mut fx = FP492::from_f256(&f);
    assert!(fx.lt(&fp_frac_5_pi_4()));
    let (q, r) = reduce(&f);
    assert_eq!(q, 2);
    fx.sub_assign(&fp_pi());
    assert_eq!(r, fx);
}

#[test]
fn test_near_pi_over_2() {
    let f = ses(0, -236, (0x00001921fb54442d18469898cc51701b, 0x839a252049c1114cf98e804177d4c762));
    let r = Float::from_sign_exp_signif(1, -492, (0x73644a29410f31c6809bbdf2a33679a7, 0x48636605614dbe4be286e9fc26adadaa));
    let (q, fx) = reduce(&f);
    assert_eq!(q, 1);
    assert_eq!(fx.to_float(), r);
}

#[test]
fn test_near_5_pi_over_2() {
    let f = ses(0, -234, (0x00001f6a7a2955385e583ebeff65cc22, 0x6480ae685c3155a037f22051d5c9f93b));
    let r = Float::from_sign_exp_signif(1, -492, (0x40f572ce454bf8e0830ab5bd30106044, 0x69f0fe1ae684b77b6ca291ecc1646452));
    let (q, fx) = reduce(&f);
    assert_eq!(q, 1);
    assert_eq!(fx.to_float(), r);
}

#[test]
fn test_near_287162_pi_over_2() {
    let f = ses(0, -218, (0x00001b88030ccdd8b7632adb619b1f1f, 0x0e1d0adefedbcedd03c621b5967e9c1d));
    let r = Float::from_sign_exp_signif(1, -256, (0x409626022841a126f489297b6cf6f156, 0x0fcc794939dca5183515d3af8d1ff9c8));
    let (q, fx) = reduce(&f);
    assert_eq!(q, 2);
    assert_eq!(fx.to_float(), r);
}

#[test]
fn test_near_2_pow_93() {
    let f = ses(0, -144, (0x00001f746e0d05af04132a3438e62df5, 0x8737947eb8551f3f8b6fed06643aae66));
    let r = Float::from_sign_exp_signif(1, -492, (0x4c0d390b2059bc41923ce8f474398c88, 0xf76daed66808d34acd2c658eaa8f6acc));
    let (q, fx) = reduce(&f);
    assert_eq!(q, 2);
    assert_eq!(fx.to_float(), r);
}

#[test]
fn test_near_2_pow_240() {
    let f = ses(0, 3, (0x00001dd71d552efac6c6246fb9a1e568, 0x0e751b9e3f84e2a77bbc0298a0f4b498));
    let r = Float::from_sign_exp_signif(0, -498, (0x563d1ec38077f1810a728c57851aba2b, 0x71bc78f95015c84078d6591b6b74a540));
    let (q, fx) = reduce(&f);
    assert_eq!(q, 3);
    assert_eq!(fx.to_float(), r);
}

#[test]
fn test_2_pow_300() {
    let f = ses(0, 64, (0x00001000000000000000000000000000, 0x00000000000000000000000000000000));
    let r = Float::from_sign_exp_signif(1, -257, (0x6d6426ef8f5dd348fe6e5056a1746784, 0x2274a7eb9c97d04b267a41e0d1898945));
    let (q, fx) = reduce(&f);
    assert_eq!(q, 1);
    assert_eq!(fx.to_float(), r);
}

#[test]
fn test_2_pow_15236() {
    let f = ses(0, 15000, (0x00001000000000000000000000000000, 0x00000000000000000000000000000000));
    let r = Float::from_sign_exp_signif(0, -256, (0x5fcbc4e6733e79165158c5a8465bd4af, 0x02ee033f64e42764159bba795550da8e));
    let (q, fx) = reduce(&f);
    assert_eq!(q, 1);
    assert_eq!(fx.to_float(), r);
}

#[test]
fn test_near_2_pow_18000() {
    let f = ses(0, 17752, (0x00001d9463f76c4f2696e286975e9b65, 0x0692f172657c2336a9c05b3c6e9f7000));
    let r = Float::from_sign_exp_signif(0, -493, (0x5030bf58f636c72767c3068b481c87cc, 0xd0cea195ed9945d314dc05006dd04c7e));
    let (q, fx) = reduce(&f);
    assert_eq!(q, 1);
    assert_eq!(fx.to_float(), r);
}

#[test]
fn test_near_2_pow_175000() {
    let f = ses(0, 174764, (0x00001b64aca7e15ce86415e576d50cf4, 0xf70831f00da91dab3929bf7e63e8dac3));
    let r = Float::from_sign_exp_signif(1, -491, (0x5603de2d595503eed8ae0f6e6c6caa7e, 0x2471192da9945586acc5a97224089d08));
    let (q, fx) = reduce(&f);
    assert_eq!(q, 0);
    assert_eq!(fx.to_float(), r);
}

#[test]
fn test_nearest_to_multible_of_pi_over_2() {
    let f = ses(0, 181140, (0x000019c7578b391b557200c5e4ce28e5, 0xc22dec43ae3fb9be14b646a87afdf78e));
    let r = Float::from_sign_exp_signif(0, -507, (0x76d31fae1a225dd56b205f183b805391, 0x5e8fceff6cdab4a1f14fa390a2f80000));
    let (q, fx) = reduce(&f);
    assert_eq!(q, 1);
    assert_eq!(fx.to_float(), r);
}

#[test]
fn test_near_2_pow_185697() {
    let f = ses(0, 185461, (0x000014683988582470d7cad38fb584b4, 0xf1c2d085d2933836d205e79e8f61e4ee));
    let r = Float::from_sign_exp_signif(0, -255, (0x43d7111f19ce98f31d3366fdc96c7efe, 0x219f8b5ce7e14d94046bfc6f65b2661a));
    let (q, fx) = reduce(&f);
    assert_eq!(q, 0);
    assert_eq!(fx.to_float(), r);
}

#[test]
fn reduce_test_f256_max() {
    let f = bits(0x7fffefffffffffffffffffffffffffff, 0xffffffffffffffffffffffffffffffff);
    let r = Float::from_sign_exp_signif(1, -255, (0x57d3651352c593b29168bcc8d9c32c6c, 0x5c5a1000debd782e141a40fc3db6c9be));
    let (q, fx) = reduce(&f);
    assert_eq!(q, 1);
    assert_eq!(fx.to_float(), r);
}

#[test]
fn sin_test_small_value() {
    let f = ses(0, -268, (511713792246730580583350097904921, 338234285556250629981528767706881153057));
    let r = ses(0, -268, (511713792246730580571854506161847, 105438061704425261882515718706001931297));
    assert_eq!(f.sin(), r);
}

#[test]
fn sin_test_some_lt_2pi() {
    let f = ses(0, -261, (0x0000100410f1f3ab981fc5a9fd008e6e, 0x6ba97c4190d331836d7fd41d2009cdf8));
    let r = ses(0, -261, (0x0000100410f1f3ab977498bfffb5d0d5, 0xd4afb6f12a8836a249b17fbeb758fa8e));
    assert_eq!(f.sin(), r);
    let f = ses(0, -235, (0x000019412990c230cfe83e598062a70f, 0x2e55ff0ee1b47200750f278655e459cc));
    let r = ses(1, -243, (0x00001f2ded8c6c188d6563858850bd6f, 0xc0dd632c3566aef3b1af2c6bd810e0fe));
    assert_eq!(f.sin(), r);
    let f = ses(0, -230, (0x000001709d10d3e7eab960be165f5516, 0xe8df7f75d98f0fa868f6d4ae6add8617));
    let r = ses(1, -237, (0x00000fffffffffffffffffffffffffff, 0xfffffffffffffffffffffffffffffffd));
    assert_eq!(f.sin(), r);
    let f = ses(0, -236, (0x00001dd7c55c574a05bc3cfce7f8b6a2, 0x621b3e52a18d6fb6f7ba91cfa8cde8ef));
    let r = ses(0, -237, (0x00001e9f97e097ab51eacfb059e3245d, 0x3ee3796a535e4c29d2039ba678a55710));
    assert_eq!(f.sin(), r);
}

#[test]
fn sin_test_some_gt_2pi() {
    let f = ses(0, -218, (0x00001b88030ccdd8b7632adb619b1f1f, 0x0e1d0adefedbcedd03c621b5967e9c1d));
    let r = ses(0, -239, (0x00001ff3a6e68be32dc92aa6c6930521, 0x192865a8b728d2d42fcb7319995fc955));
    assert_eq!(f.sin(), r);
    let f = ses(0, 239209, (0x000019d8cce297b67f216c4c503ced7a, 0xc2b9ba4acc896934b14162d8144bc69b));
    let r = ses(0, -237, (0x00001bb87510a6a0409133589aff0e34, 0x84d9e6557596b89f83c0ef5fe227db66));
    assert_eq!(f.sin(), r);
    let f = ses(0, 3, (0x00001dd71d552efac6c6246fb9a1e568, 0x0e751b9e3f84e2a77bbc0298a0f4b498));
    assert_eq!(f.sin(), f256::neg_one());
}

#[test]
fn test_very_small_value() {
    let f = ses(0, -355, (0x0000198008d7e326fca4eaaddac8f3a6, 0x4033b94a21af2db28e7aa2336d79615f));
    let r = ses(0, -237, (0x00001fffffffffffffffffffffffffff, 0xffffffffffffffffffffffffffffffff));
    assert_eq!(f.cos(), r);
}

#[test]
fn cos_test_some_lt_2pi() {
    let f = ses(0, -235, (0x00001fb29fe6c2bb05604696f175f2d5, 0xf484b7bfe311af1286402ac83b589d66));
    let r = ses(1, -237, (0x000015d100d1d896598bcfdb27f38ee5, 0x5495ad9278b46941fc542a78cf6d980d));
    assert_eq!(f.cos(), r);
}

#[test]
fn sin_test_neg_values() {
    // sin(-x) = -sin(x)
    for f in [min(), frac_pi_3().neg(), f256::neg_one()] {
        assert_eq!(f.sin(), f.abs().sin().neg());
    }
}

#[test]
fn cos_test_neg_values() {
    // cos(-x) = cos(x)
    for f in [min(), frac_pi_3().neg(), f256::neg_one()] {
        assert_eq!(f.cos(), f.abs().cos());
    }
}

#[test]
fn circular_fns_test_neg_values() {
    for f in [min(), frac_pi_3().neg(), f256::neg_one()] {
        assert_eq!(f.sin(), f.abs().sin().neg());
        assert_eq!(f.cos(), f.abs().cos());
    }
}

/// The multiples 0, ½π, π, 3/2⋅π and 2π of ½π, rounded.
fn frac_pi_2_multiples() -> [f256; 5] {
    [
        bits(0x00000000000000000000000000000000, 0x00000000000000000000000000000000),
        bits(0x3ffff921fb54442d18469898cc51701b, 0x839a252049c1114cf98e804177d4c762),
        bits(0x40000921fb54442d18469898cc51701b, 0x839a252049c1114cf98e804177d4c762),
        bits(0x400012d97c7f3321d234f272993d1414, 0xa2b39bd83750ccf9bb2ae03119df958a),
        bits(0x40001921fb54442d18469898cc51701b, 0x839a252049c1114cf98e804177d4c762),
    ]
}

fn check_frac_pi_2_multiples() {
    let exact = [
        (f256::zero(), f256::one()),
        (f256::one(), f256::zero()),
        (f256::zero(), f256::neg_one()),
        (f256::neg_one(), f256::zero()),
    ];
    let multiples = frac_pi_2_multiples();
    for i in 0_usize..=4 {
        let eps = if i < 4 { epsilon() } else { bits(0x3ff14000000000000000000000000000, 0) };
        let f = multiples[i];
        let (sin, cos) = f.sin_cos();
        let (exact_sin, exact_cos) = exact[i % 4];
        if exact_sin.eq_zero() {
            assert!(abs_lt(&sin, &eps), "{sin:?} >= {eps:?}");
        } else {
            assert_eq!(exact_sin, sin);
        }
        if exact_cos.eq_zero() {
            assert!(abs_lt(&cos, &eps), "{cos:?} >= {eps:?}");
        } else {
            assert_eq!(exact_cos, cos);
        }
    }
}

#[test]
fn sin_cos_test_frac_pi_2_multiples() {
    check_frac_pi_2_multiples();
}

#[test]
fn circular_fns_test_frac_pi_2_multiples() {
    check_frac_pi_2_multiples();
}

/// ¼π + i⋅½π for i in 0..9, rounded.
fn quadrant_values() -> [f256; 9] {
    [
        bits(0x3fffe921fb54442d18469898cc51701b, 0x839a252049c1114cf98e804177d4c762),
        bits(0x400002d97c7f3321d234f272993d1414, 0xa2b39bd83750ccf9bb2ae03119df958a),
        bits(0x40000f6a7a2955385e583ebeff65cc22, 0x6480ae685c3155a037f22051d5c9f93a),
        bits(0x400015fdbbe9bba7753dc585b2c74218, 0x1326e07c4088ef235a5cb03948da2e76),
        bits(0x40001c463abeccb2bb4f6babe5db9e1e, 0xf40d69c452f9337698c05049a6cf604e),
        bits(0x400021475cc9eedf00b088e90c77fd12, 0xea79f98632b4bbe4eb91f82d02624913),
        bits(0x4000246b9c347764a3b95bfc26022b16, 0x5aed3e2a3becde0e8ac3c835315ce200),
        bits(0x4000278fdb9effea46c22f0f3f8c5919, 0xcb6082ce4525003829f5983d60577aec),
        bits(0x40002ab41b09886fe9cb02225916871d, 0x3bd3c7724e5d2261c92768458f5213d8),
    ]
}

fn check_signs() {
    let values = quadrant_values();
    for i in 0..9 {
        let (sin, cos) = values[i].sin_cos();
        match i % 4 {
            0 => {
                assert!(sin.is_sign_positive());
                assert!(cos.is_sign_positive());
            }
            1 => {
                assert!(sin.is_sign_positive());
                assert!(cos.is_sign_negative());
            }
            2 => {
                assert!(sin.is_sign_negative());
                assert!(cos.is_sign_negative());
            }
            _ => {
                assert!(sin.is_sign_negative());
                assert!(cos.is_sign_positive());
            }
        }
    }
}

#[test]
fn sin_cos_test_signs() {
    check_signs();
}

#[test]
fn circular_fns_test_signs() {
    check_signs();
}

fn check_frac_pi_4() {
    // sin(45°) = cos(45°)
    let f = f256::frac_pi_4();
    let (sin, cos) = f.sin_cos();
    // ulp(sin) = 2⁻²³⁷
    let ulp = bits(0x3ff12000000000000000000000000000, 0);
    let d = abs_diff(&sin, &cos);
    assert!(!abs_lt(&ulp, &d));
}

#[test]
fn sin_cos_test_frac_pi_4() {
    check_frac_pi_4();
}

#[test]
fn circular_fns_test_frac_pi_4() {
    check_frac_pi_4();
}

fn check_frac_pi_3_and_frac_pi_6() {
    // sin(30°) = 0.5
    let sin = frac_pi_6().sin();
    assert_eq!(sin, one_half());
    // cos(60°) = 0.5
    let cos = frac_pi_3().cos();
    assert_eq!(cos, one_half());
    // sin(60°) = cos(30°)
    let sin = frac_pi_3().sin();
    let cos = frac_pi_6().cos();
    assert_eq!(sin, cos);
}

#[test]
fn sin_cos_test_frac_pi_3_and_frac_pi_6() {
    check_frac_pi_3_and_frac_pi_6();
}

#[test]
fn circular_fns_test_frac_pi_3_and_frac_pi_6() {
    check_frac_pi_3_and_frac_pi_6();
}

/// The next larger finite value of the finite positive `f`.
fn next_up(f: &f256) -> f256 {
    let mut b = f.bits;
    b.incr();
    f256 { bits: b }
}

/// Sine does not decrease and cosine does not increase on the next `n`
/// values above `c` (all of magnitude below ½π).
fn check_rising_sine(c: f256, n: usize) {
    let mut f = c;
    for _ in 0..n {
        let g = next_up(&f);
        assert!(abs_lt(&f, &g));
        assert!(!abs_lt(&g.sin(), &f.sin()));
        assert!(!abs_lt(&f.cos(), &g.cos()));
        f = g;
    }
}

#[test]
fn sin_cos_test_continuity_near_zero() {
    // 1e-36 as f64
    check_rising_sine(bits(0x3ff8754484932d2e7200000000000000, 0x00000000000000000000000000000000), 1000);
}

#[test]
fn sin_cos_test_continuity_near_one() {
    check_rising_sine(f256::one(), 10);
}

#[test]
fn test_nearest_to_pi_over_2() {
    let ulp = epsilon();
    let f = bits(0x3ffff921fb54442d18469898cc51701b, 0x839a252049c1114cf98e804177d4c761);
    assert_ne!(f, frac_pi_2());
    assert_eq!(f.sin(), f256::one());
    assert_eq!(ulp.neg().cos(), f256::one());
    let f = bits(0x3ffff921fb54442d18469898cc51701b, 0x839a252049c1114cf98e804177d4c763);
    assert_ne!(f, frac_pi_2());
    assert_eq!(f.sin(), f256::one());
    assert_eq!(ulp.cos(), f256::one());
}

#[test]
fn circular_fns_test_small_value() {
    let f = ses(0, -268, (511713792246730580583350097904921, 338234285556250629981528767706881153057));
    let sin = ses(0, -268, (511713792246730580571854506161847, 105438061704425261882515718706001931297));
    assert_eq!(f.sin(), sin);
}

fn frac_1_pi() -> f256 {
    bits(0x3fffd45f306dc9c882a53f84eafa3ea6, 0x9bb81b6c52b3278872083fca2c757bd7)
}

fn check_atan_inf() {
    assert_eq!(f256::infinity().atan(), frac_pi_2());
}

#[test]
fn atan_test_atan_inf() {
    check_atan_inf();
}

#[test]
fn circular_fns_test_atan_inf() {
    check_atan_inf();
}

#[test]
fn atan_test_atan_large_cutoff() {
    // 2²³⁷
    let f = bits(((262143_u128 + 237) << 108) as u128, 0);
    assert_eq!(f.atan(), frac_pi_2());
}

#[test]
fn circular_fns_test_atan_large_cutoff() {
    // 2²⁴⁰
    let f = bits(((262143_u128 + 240) << 108) as u128, 0);
    assert_eq!(f.atan(), frac_pi_2());
}

fn check_atan_zero() {
    assert_eq!(f256::zero().atan(), f256::zero());
    assert_eq!(f256::neg_zero().atan(), f256::zero());
}

#[test]
fn atan_test_atan_zero() {
    check_atan_zero();
}

#[test]
fn circular_fns_test_atan_zero() {
    check_atan_zero();
}

fn check_atan_one() {
    assert_eq!(f256::one().atan(), f256::frac_pi_4());
    assert_eq!(f256::neg_one().atan(), f256::frac_pi_4().neg());
}

#[test]
fn atan_test_atan_one() {
    check_atan_one();
}

#[test]
fn circular_fns_test_atan_one() {
    check_atan_one();
}

fn check_atan_sqrt_3() {
    let t = from_i32(3);
    let f = t.sqrt();
    // arctan √3 = ⅓π
    assert_eq!(f.atan(), frac_pi_3());
    assert_eq!(f.neg().atan(), frac_pi_3().neg());
    // arctan ⅓√3 = π/6 (⅓√3 = ◯(√3 / 3))
    let f = bits(0x3fffe279a74590331c4d218f81e4afb2, 0x57d06193acddd8d3c2fbb2f6b19859ed);
    assert_eq!(f.atan(), frac_pi_6());
    assert_eq!(f.neg().atan(), frac_pi_6().neg());
}

#[test]
fn atan_test_atan_sqrt_3() {
    check_atan_sqrt_3();
}

#[test]
fn circular_fns_test_atan_sqrt_3() {
    check_atan_sqrt_3();
}

fn check_atan_frac_1_pi() {
    let f1 = frac_1_pi().atan();
    let f2 = f256::one().atan2(&f256::pi());
    let d = abs_diff(&f1, &f2);
    assert!(!abs_lt(&epsilon(), &d));
}

#[test]
fn atan_test_atan_frac_1_pi() {
    check_atan_frac_1_pi();
}

#[test]
fn circular_fns_test_atan_frac_1_pi() {
    check_atan_frac_1_pi();
}

#[test]
fn test_atan_frac_1_over_256() {
    // 1/256
    let x = bits(0x3fff7000000000000000000000000000, 0);
    // 3.90623013196697182762866531142438714035749011520285621521309514901134417e-3
    let ax = bits(0x3fff6ffff5555bbbb72976255f6d6da9, 0xefc2cf83175d73792af1244915a4d058);
    let r = x.atan();
    assert_eq!(ax, r);
}

fn check_atan_frac_pi_2() {
    // 1.00388482185388721414842394491713228829210446059487057472971282410801519
    let a = bits(0x3ffff00fe987ed02ff3793a2b052ee5d, 0x1d83170d376a8dd68e23d725d67bbfc5);
    let f1 = frac_pi_2().atan();
    assert_eq!(f1, a);
    let f2 = f256::pi().atan2(&f256::two());
    assert_eq!(f1, f2);
}

#[test]
fn atan_test_atan_frac_pi_2() {
    check_atan_frac_pi_2();
}

#[test]
fn circular_fns_test_atan_frac_pi_2() {
    check_atan_frac_pi_2();
}

fn check_atan_frac_5_pi_4() {
    // 1.32144796778372235539166569069508390109061014033053361477468861418765787
    let a = bits(0x3ffff524a69fcff2af33e331d3ba1a29, 0x9ef770ed270fd8cf18449422ecbe1179);
    // ◯(π + ¼π)
    let f = bits(0x40000f6a7a2955385e583ebeff65cc22, 0x6480ae685c3155a037f22051d5c9f93a);
    assert_eq!(f.atan(), a);
    // ◯(10⋅π)
    let f = bits(0x40003f6a7a2955385e583ebeff65cc22, 0x6480ae685c3155a037f22051d5c9f93a);
    assert_eq!(f.atan2(&from_i32(8)), a);
}

#[test]
fn atan_test_atan_frac_5_pi_4() {
    check_atan_frac_5_pi_4();
}

#[test]
fn circular_fns_test_atan_frac_5_pi_4() {
    check_atan_frac_5_pi_4();
}

fn check_atan_frac_51043_7() {
    // 1.570659187521027203661619536335073835579283228441242208112611672132902725
    let a = bits(0x3ffff9216b873909301d8b52113b9e3b, 0x8f306b57f37b9a49c6026f8bf896ada0);
    let n = from_i32(51043);
    let d = from_i32(7);
    assert_eq!(n.atan2(&d), a);
}

#[test]
fn atan_test_atan_frac_51043_7() {
    check_atan_frac_51043_7();
}

#[test]
fn circular_fns_test_atan_frac_51043_7() {
    check_atan_frac_51043_7();
}

#[test]
fn circular_fns_test_some_lt_2pi() {
    let f = ses(0, -261, (0x0000100410f1f3ab981fc5a9fd008e6e, 0x6ba97c4190d331836d7fd41d2009cdf8));
    let r = ses(0, -261, (0x0000100410f1f3ab977498bfffb5d0d5, 0xd4afb6f12a8836a249b17fbeb758fa8e));
    assert_eq!(f.sin(), r);
    let f = ses(0, -235, (0x000019412990c230cfe83e598062a70f, 0x2e55ff0ee1b47200750f278655e459cc));
    let r = ses(1, -243, (0x00001f2ded8c6c188d6563858850bd6f, 0xc0dd632c3566aef3b1af2c6bd810e0fe));
    assert_eq!(f.sin(), r);
    let f = ses(0, -230, (0x000001709d10d3e7eab960be165f5516, 0xe8df7f75d98f0fa868f6d4ae6add8617));
    let r = ses(1, -237, (0x00000fffffffffffffffffffffffffff, 0xfffffffffffffffffffffffffffffffd));
    assert_eq!(f.sin(), r);
}

#[test]
fn circular_fns_test_some_gt_2pi() {
    let f = ses(0, -218, (0x00001b88030ccdd8b7632adb619b1f1f, 0x0e1d0adefedbcedd03c621b5967e9c1d));
    let r = ses(0, -239, (0x00001ff3a6e68be32dc92aa6c6930521, 0x192865a8b728d2d42fcb7319995fc955));
    assert_eq!(f.sin(), r);
}

#[test]
fn circular_fns_test_continuity_near_zero() {
    check_rising_sine(bits(0x3ff8865752be2a167f0644b50757a602, 0x81800000000000000000000000000000), 1000);
}

#[test]
fn circular_fns_test_continuity_near_one() {
    check_rising_sine(f256::one(), 10);
}

#[test]
fn two_over_pi_leading_bits() {
    assert_eq!(
        get_256_bits(0),
        u256::new(0xa2f9836e4e441529fc2757d1f534ddc0, 0xdb6295993c439041fe5163abdebbc561)
    );
    assert_eq!(
        get_256_bits(5),
        u256::new(0x5f306dc9c882a53f84eafa3ea69bb81b, 0x6c52b3278872083fca2c757bd778ac36)
    );
    assert_eq!(
        get_256_bits(1000),
        u256::new(0xe5f17b3d0739f78a5292ea6bfb5fb11f, 0x8d5d0856033046fc7b6babf0cfbc209a)
    );
}

#[test]
fn fixed_point_division() {
    // ½ / (3/2) = ⅓, rounded to 492 fractional bits
    let mut x = FP492::one_half();
    let mut y = FP492::one();
    y.add_assign(&FP492::one_half());
    x.div_assign(&y);
    assert_eq!(
        x,
        FP492::new(
            0x00000555555555555555555555555555,
            0x55555555555555555555555555555555,
            0x55555555555555555555555555555555,
            0x55555555555555555555555555555555,
        )
    );
    // ⅓ as f256
    assert_eq!(f256::from_fp492(&x), bits(0x3fffd555555555555555555555555555, 0x55555555555555555555555555555555));
}

#[test]
fn atan2_special_operands() {
    let one = f256::one();
    let inf = f256::infinity();
    let frac_3_pi_4 = f256::frac_3_pi_4();
    assert!(f256::nan().atan2(&one).is_nan());
    assert!(one.atan2(&f256::nan()).is_nan());
    assert_eq!(f256::zero().atan2(&f256::zero()), f256::zero());
    assert_eq!(one.atan2(&f256::zero()), frac_pi_2());
    assert_eq!(one.neg().atan2(&f256::zero()), frac_pi_2().neg());
    assert_eq!(f256::zero().atan2(&one), f256::zero());
    assert_eq!(f256::zero().atan2(&one.neg()), f256::pi());
    assert_eq!(inf.atan2(&inf), f256::frac_pi_4());
    assert_eq!(inf.atan2(&inf.neg()), frac_3_pi_4);
    assert_eq!(inf.neg().atan2(&inf.neg()), frac_3_pi_4.neg());
    assert_eq!(inf.neg().atan2(&inf), f256::frac_pi_4().neg());
    // y / x = ±0
    let z = one.atan2(&inf);
    assert!(z.eq_zero() && z.is_sign_positive());
    let z = one.neg().atan2(&inf);
    assert!(z.eq_zero() && z.is_sign_negative());
    assert_eq!(one.atan2(&inf.neg()), f256::pi());
    assert_eq!(one.neg().atan2(&inf.neg()), f256::pi().neg());
    // y / x = ±∞
    assert_eq!(inf.atan2(&one), frac_pi_2());
    assert_eq!(inf.neg().atan2(&one.neg()), frac_pi_2().neg());
}

#[test]
fn atan2_equal_magnitudes() {
    let one = f256::one();
    assert_eq!(one.atan2(&one), f256::frac_pi_4());
    assert_eq!(one.neg().atan2(&one), f256::frac_pi_4().neg());
    assert_eq!(one.atan2(&one.neg()), f256::frac_3_pi_4());
    assert_eq!(one.neg().atan2(&one.neg()), f256::frac_3_pi_4().neg());
}

#[test]
fn atan_is_odd() {
    for f in [frac_1_pi(), frac_pi_2(), from_i32(51043), bits(0x3fff7000000000000000000000000000, 0)] {
        assert_eq!(f.neg().atan(), f.atan().neg());
    }
    assert!(f256::nan().atan().is_nan());
    assert_eq!(f256::neg_infinity().atan(), frac_pi_2().neg());
}

#[test]
fn sin_cos_agrees_with_sin_and_cos() {
    for f in [frac_pi_3(), frac_pi_6().neg(), from_i32(3), from_i32(-51043), min(), epsilon()] {
        let (s, c) = f.sin_cos();
        assert_eq!(s, f.sin());
        assert_eq!(c, f.cos());
    }
    let (s, c) = f256::zero().sin_cos();
    assert!(s.eq_zero());
    assert_eq!(c, f256::one());
    let (s, c) = f256::infinity().sin_cos();
    assert!(s.is_nan() && c.is_nan());
    assert!(f256::nan().sin().is_nan());
    assert!(f256::neg_infinity().cos().is_nan());
}

#[test]
fn reduction_of_small_values() {
    // |x| < ½: no reduction
    let f = epsilon();
    let (q, r) = reduce(&f);
    assert_eq!(q, 0);
    assert_eq!(r, FP492::from_f256(&f));
    // the smallest subnormal value
    let f = bits(0, 1);
    let (q, r) = reduce(&f);
    assert_eq!(q, 0);
    assert_eq!(r, FP492::zero());
}

#[test]
fn error_free_sum_and_product() {
    // 1 + (2⁻¹⁰ + 2⁻²⁶⁴) = (1 + 2⁻¹⁰) with remainder 2⁻²⁶⁴
    let a = Float::one();
    let b = Float::from_sign_exp_signif(0, -264, (0x40000000000000000000000000000000, 1));
    let (s, r) = a.sum_exact(&b);
    assert_eq!(s, Float::one().add(&Float::from_sign_exp_signif(0, -10, (0, 1))));
    assert_eq!(r, Float::from_sign_exp_signif(0, -264, (0, 1)));
    // (1 + 2⁻²⁰⁰)² = (1 + 2⁻¹⁹⁹) with remainder 2⁻⁴⁰⁰
    let c = Float::one().add(&Float::from_sign_exp_signif(0, -200, (0, 1)));
    let (p, r) = c.mul_exact(&c);
    assert_eq!(p, Float::one().add(&Float::from_sign_exp_signif(0, -199, (0, 1))));
    assert_eq!(r, Float::from_sign_exp_signif(0, -400, (0, 1)));
}
