//! Reduction of the arguments of the circular functions: for `x >= 0`,
//! the quadrant `⌈x/½π⌋ mod 4` and the remainder `x - ⌈x/½π⌋⋅½π` as
//! fixed-point number with 492 fractional bits.
use vstd::prelude::*;
use vstd::arithmetic::power2::{pow2, lemma_pow2_pos, lemma_pow2_adds, lemma_pow2_strictly_increases,
    lemma_pow2_unfold, lemma2_to64};
use vstd::arithmetic::mul::{lemma_mul_inequality, lemma_mul_strict_inequality, lemma_mul_nonnegative};
use crate::bits::{p128, p256, lemma_pow2_64_128};
use crate::uint256::{u256, lemma_u256_bound, lemma_divmod_unique};
use crate::uint512::{u512, p512, lemma_u512_bound};
use crate::binary256::{f256, sign_of, bexp, fraction, signif, is_finite_spec, is_zero_spec, exp_bits,
    lemma_fraction_bound, lemma_hi_fields, EXP_BIAS};
use crate::big_float::Float;
use crate::float_add::{is_sum, is_difference, lemma_sum_exp, lemma_difference_exp};
use crate::float_fma::{is_fma_result, lemma_fma_exp};
use crate::float_exact::{is_two_sum, is_two_product, exp_floor, exp_ceil};
use crate::float_conv::is_exact_float_of;
use crate::fp492::{FP492, p511, pattern512, rounded_product_sticky, lemma_p512, lemma_pattern_signed_pub};
use crate::fp492_conv::{fixed_of_f256, fp492_of_float};
use crate::fixed_series::{table_value, table_entry, wrap492};
use crate::two_over_pi::{get_256_bits, two_over_pi_bits};

verus! {

/// The FP492 values of ¼π, ½π, ¾π, π, 5/4⋅π, 7/4⋅π - 4 and 9/4⋅π - 4, each as
/// four `u128` words (most significant first).
pub const REDUCTION_CONSTS: [u128; 28] = [
    // ¼π
    0x00000c90fdaa22168c234c4c6628b80d, 0xc1cd129024e088a67cc74020bbea63b1,
    0x39b22514a08798e3404ddef9519b3cd3, 0xa431b302b0a6df25f14374fe1356d6d5,
    // ½π
    0x00001921fb54442d18469898cc51701b, 0x839a252049c1114cf98e804177d4c762,
    0x73644a29410f31c6809bbdf2a33679a7, 0x48636605614dbe4be286e9fc26adadaa,
    // ¾π
    0x000025b2f8fe6643a469e4e5327a2829, 0x456737b06ea199f37655c06233bf2b13,
    0xad166f3de196caa9c0e99cebf4d1b67a, 0xec95190811f49d71d3ca5efa3a04847f,
    // π
    0x00003243f6a8885a308d313198a2e037, 0x07344a4093822299f31d0082efa98ec4,
    0xe6c89452821e638d01377be5466cf34e, 0x90c6cc0ac29b7c97c50dd3f84d5b5b54,
    // 5/4⋅π
    0x00003ed4f452aa70bcb07d7dfecb9844, 0xc9015cd0b862ab406fe440a3ab93f276,
    0x207ab96722a5fc7041855ade98083022, 0x34f87f0d73425bbdb65148f660b2322a,
    // 7/4⋅π - 4
    0x000017f6efa6ee9dd4f71616cb1d0860, 0x4c9b81f10223bc8d6972c0e52368b9d8,
    0x93df039063b52e36c22118d13b3ea9c9, 0x7d5be512d4901a0998d832f2875fdfd4,
    // 9/4⋅π - 4
    0x00003118eafb32caed3daeaf976e787b, 0xd035a7114be4cdda630141269b3d813b,
    0x07434db9a4c45ffd42bcd6c3de752370, 0xc5bf4b1835ddd8557b5f1ceeae0d8d7e,
];

/// ¼π in FP492.
pub open spec fn fp_frac_pi_4() -> int {
    table_value(REDUCTION_CONSTS@, 0)
}

/// ½π in FP492.
pub open spec fn fp_frac_pi_2() -> int {
    table_value(REDUCTION_CONSTS@, 1)
}

/// ¾π in FP492.
pub open spec fn fp_frac_3_pi_4() -> int {
    table_value(REDUCTION_CONSTS@, 2)
}

/// π in FP492.
pub open spec fn fp_pi() -> int {
    table_value(REDUCTION_CONSTS@, 3)
}

/// 5/4⋅π in FP492.
pub open spec fn fp_frac_5_pi_4() -> int {
    table_value(REDUCTION_CONSTS@, 4)
}

/// 7/4⋅π - 4 in FP492.
pub open spec fn fp_frac_7_pi_4_m4() -> int {
    table_value(REDUCTION_CONSTS@, 5)
}

/// 9/4⋅π - 4 in FP492.
pub open spec fn fp_frac_9_pi_4_m4() -> int {
    table_value(REDUCTION_CONSTS@, 6)
}

/// Quadrant and remainder of the FP492 value `v` of `x` with exponent `e`
/// in `[-1, 2]`, by subtracting multiples of ½π in FP492 (for `e = 2`,
/// 4 is subtracted first and 2 added back in between).
pub open spec fn small_reduction(e: int, v: int) -> (int, int) {
    let two = pow2(493) as int;
    if e == -1 {
        if v <= fp_frac_pi_4() {
            (0, v)
        } else {
            (1, wrap492(v - fp_frac_pi_2()))
        }
    } else if e == 0 {
        (1, wrap492(v - fp_frac_pi_2()))
    } else if e == 1 {
        if v <= fp_frac_3_pi_4() {
            (1, wrap492(v - fp_frac_pi_2()))
        } else if v <= fp_frac_5_pi_4() {
            (2, wrap492(v - fp_pi()))
        } else {
            (3, wrap492(wrap492(v - fp_pi()) - fp_frac_pi_2()))
        }
    } else {
        let w = wrap492(wrap492(v - two) - two);
        if w <= fp_frac_7_pi_4_m4() {
            (3, wrap492(wrap492(wrap492(wrap492(w + two) - fp_pi()) + two) - fp_frac_pi_2()))
        } else if w <= fp_frac_9_pi_4_m4() {
            (0, wrap492(wrap492(wrap492(wrap492(w - fp_pi()) + two) - fp_pi()) + two))
        } else {
            (1, wrap492(wrap492(wrap492(wrap492(wrap492(w - fp_pi()) + two) - fp_pi()) + two) - fp_frac_pi_2()))
        }
    }
}

/// The fixed-point value of a finite `f256` below 2¹⁹ is within the range
/// of FP492.
proof fn lemma_fixed_in_range(x: f256)
    requires
        is_finite_spec(x),
        bexp(x) < 262162,
    ensures
        -(p511() as int) < fixed_of_f256(x, 0, 19, 492) < p511(),
{
    let e: int = if bexp(x) == 0 { -262142 } else { bexp(x) - 262143 };
    let shl: nat = if e < 0 { 0 } else if e > 19 { 19 } else { e as nat };
    let shr: nat = if e > 0 { 0 } else if e < -492 { 492 } else { (-e) as nat };
    assert(shl <= 18);
    lemma_fraction_bound(x);
    lemma_pow2_64_128();
    lemma_p512();
    lemma_u512_bound(u512 { hi: u256 { hi: 0, lo: 0 }, lo: u256 { hi: 0, lo: 0 } });
    lemma_pow2_unfold(512);
    lemma_pow2_adds(237, 18);
    lemma_pow2_adds(255, 256);
    if shl < 18 {
        lemma_pow2_strictly_increases(shl, 18);
    }
    assert(pow2(shl) <= pow2(18));
    lemma_pow2_pos(shl);
    lemma_pow2_pos(shr);
    assert(signif(x) * pow2(shl) < pow2(255)) by (nonlinear_arith)
        requires
            signif(x) < pow2(237),
            pow2(shl) <= pow2(18),
            pow2(255) == pow2(237) * pow2(18),
            pow2(shl) > 0,
    ;
    let n = signif(x) * pow2(shl) * p256();
    assert(n < pow2(511)) by {
        lemma_mul_strict_inequality((signif(x) * pow2(shl)) as int, pow2(255) as int, p256() as int);
    }
    lemma_mul_nonnegative((signif(x) * pow2(shl)) as int, p256() as int);
    vstd::arithmetic::div_mod::lemma_div_is_ordered_by_denominator(n as int, 1, pow2(shr) as int);
}

/// For the input value `x` with exponent `exp` in `[-1, 2]`, calculates
/// `⌈x/½π⌋ mod 4` and `x mod ½π`.
fn fp_reduce_small(exp: i32, x: &f256) -> (r: (u32, FP492))
    requires
        is_finite_spec(*x),
        sign_of(*x) == 0,
        bexp(*x) != 0,
        exp == bexp(*x) - 262143,
        -1 <= exp <= 2,
    ensures
        (r.0 as int, r.1.value()) == small_reduction(exp as int, fixed_of_f256(*x, 0, 19, 492)),
{
    let mut fx = FP492::from_f256(x);
    proof {
        lemma_fixed_in_range(*x);
        lemma_pattern_signed_pub(fixed_of_f256(*x, 0, 19, 492));
    }
    let frac_pi_4 = table_entry(&REDUCTION_CONSTS, 0);
    let frac_pi_2 = table_entry(&REDUCTION_CONSTS, 1);
    let frac_3_pi_4 = table_entry(&REDUCTION_CONSTS, 2);
    let pi = table_entry(&REDUCTION_CONSTS, 3);
    let frac_5_pi_4 = table_entry(&REDUCTION_CONSTS, 4);
    let frac_7_pi_4_m4 = table_entry(&REDUCTION_CONSTS, 5);
    let frac_9_pi_4_m4 = table_entry(&REDUCTION_CONSTS, 6);
    let two = FP492::two();
    if exp == -1 {
        // ½ <= |x| < 1
        if fx.le(&frac_pi_4) {
            return (0, fx);
        }
        fx.sub_assign(&frac_pi_2);
        (1, fx)
    } else if exp == 0 {
        // 1 <= |x| < 2
        fx.sub_assign(&frac_pi_2);
        (1, fx)
    } else if exp == 1 {
        // 2 <= |x| < 4
        if fx.le(&frac_3_pi_4) {
            fx.sub_assign(&frac_pi_2);
            (1, fx)
        } else if fx.le(&frac_5_pi_4) {
            fx.sub_assign(&pi);
            (2, fx)
        } else {
            fx.sub_assign(&pi);
            fx.sub_assign(&frac_pi_2);
            (3, fx)
        }
    } else {
        // 4 <= |x| < 8
        fx.sub_assign(&two);
        fx.sub_assign(&two);
        if fx.le(&frac_7_pi_4_m4) {
            fx.add_assign(&two);
            fx.sub_assign(&pi);
            fx.add_assign(&two);
            fx.sub_assign(&frac_pi_2);
            (3, fx)
        } else if fx.le(&frac_9_pi_4_m4) {
            fx.sub_assign(&pi);
            fx.add_assign(&two);
            fx.sub_assign(&pi);
            fx.add_assign(&two);
            (0, fx)
        } else {
            fx.sub_assign(&pi);
            fx.add_assign(&two);
            fx.sub_assign(&pi);
            fx.add_assign(&two);
            fx.sub_assign(&frac_pi_2);
            (1, fx)
        }
    }
}

/// Quadrant and remainder of `x = m⋅2ᵉ⁻²³⁶` with `e >= 241` (after Payne
/// and Hanek): the fraction of `x⋅2/π` is taken from the product of `m`
/// with 750 bits of 2/π starting at bit `e - 237` (of the lowest 256 bits
/// only the upper half is kept), as 512-bit number with 492 fractional
/// bits; its integral part, rounded to nearest (ties to even), gives the
/// quadrant, the remaining fraction times ½π (rounded by
/// [`fixed_round_sticky`](crate::fp492::fixed_round_sticky)) the remainder.
pub open spec fn large_reduction(e: int, m: nat) -> (int, int) {
    let idx = e - 238;
    let r_hi = two_over_pi_bits(idx) / pow2(18);
    let r_mi = two_over_pi_bits(idx + 238);
    let r_lo = two_over_pi_bits(idx + 494);
    quadrant_and_remainder((m * r_hi * p256() + m * r_mi + (m * r_lo) / p256()) % p512())
}

/// Quadrant and remainder from the fraction `f` (< 2⁵¹²) of `x⋅2/π` with
/// 492 fractional bits: the integral part `k`, rounded to nearest (ties
/// to even) by the fractional part `y`, and `y` (or `y - 1`) times ½π.
pub open spec fn quadrant_and_remainder(f: nat) -> (int, int) {
    let k = f / pow2(492);
    let y = f % pow2(492);
    let up = y > pow2(491) || (y == pow2(491) && k % 2 == 1);
    let k2: int = if up { k + 1 as int } else { k as int };
    let y2: int = if up { y - pow2(492) } else { y as int };
    (k2 % 4, wrap492(rounded_product_sticky(y2, fp_frac_pi_2(), 492)))
}

/// R = ◯₂₅₅(2/π) ≈ 0.6366197723675813430755350534900574481378385829618257949906693762355871905369
pub open spec fn reduce_r() -> Float {
    Float { signum: 1, exp: -1i32, signif: u256 { hi: 0x517cc1b727220a94fe13abe8fa9a6ee0, lo: 0x6db14acc9e21c820ff28b1d5ef5de2b1 } }
}

/// C₁ = ◯₂₅₃(1/R) ≈ 1.57079632679489661923132169163975144209858469968755291048747229615390820314306
pub open spec fn reduce_c1() -> Float {
    Float { signum: 1, exp: 0, signif: u256 { hi: 0x6487ed5110b4611a62633145c06e0e68, lo: 0x948127044533e63a0105df531d89cd90 } }
}

/// C₂ = (1/R - C₁) rounded to a multiple of 8⋅ulp(ulp(C₁))
/// ≈ 4.0029261425274538885256060583180088389717792640288565295989842465635080655216e-77
pub open spec fn reduce_c2() -> Float {
    Float { signum: 1, exp: -254i32, signif: u256 { hi: 0x4a29410f31c6809bbdf2a33679a74863, lo: 0x6605614dbe4be286e9fc26adadaa3848 } }
}

/// C₃ = ◯₂₅₅(1/R - C₁ - C₂)
/// ≈ 8.7899010274302568753719915932600646668568561314064066646591366424167272794258e-154
pub open spec fn reduce_c3() -> Float {
    Float { signum: 1, exp: -509i32, signif: u256 { hi: 0x5e485b576625e7ec6f44c42e9a637ed6, lo: 0xb0bff5cb6f406b7edee386bfb5a899fa } }
}

/// D = 3⋅2²⁵³
pub open spec fn reduce_d() -> Float {
    Float { signum: 1, exp: 254, signif: u256 { hi: 0x60000000000000000000000000000000, lo: 0 } }
}

/// `z` is `x⋅R` rounded to an integer as `(x⋅R + D) - D`, the first
/// operation fused.
pub open spec fn is_rounded_quotient(x: Float, z: Float) -> bool {
    exists|w: Float| #[trigger] is_fma_result(x, reduce_r(), reduce_d(), w) && w.wf()
        && is_difference(w, reduce_d(), z)
}

/// `v2` is the rounding error of `v1 = u - z⋅c` as computed from the
/// error-free transformations `z⋅c = p1 + p2` and `u - p1 = t1 + t2`:
/// `((t1 - v1) + t2) - p2`.
pub open spec fn is_split_error(z: Float, u: Float, c: Float, v1: Float, v2: Float) -> bool {
    exists|p1: Float, p2: Float, t1: Float, t2: Float, a: Float, b: Float|
        #![trigger is_two_product(z, c, p1, p2), is_two_sum(u, p1.neg_spec(), t1, t2), is_difference(t1, v1, a),
            is_sum(a, t2, b)]
        is_two_product(z, c, p1, p2) && is_two_sum(u, p1.neg_spec(), t1, t2) && is_difference(t1, v1, a)
            && is_sum(a, t2, b) && is_difference(b, p2, v2)
}

/// `v1` is `u - z⋅c` with one rounding, and `v2` its rounding error.
pub open spec fn is_reduced_pair(z: Float, u: Float, c: Float, v1: Float, v2: Float) -> bool {
    &&& is_fma_result(z.neg_spec(), c, u, v1)
    &&& is_split_error(z, u, c, v1, v2)
}

/// The remainder `x - z⋅(C₁ + C₂)` (or `x - z⋅(C₁ + C₂ + C₃)` where more
/// bits are needed) as pair `(v1, v2)`, given `u1 = x - z⋅C₁`.
pub open spec fn is_remainder(z: Float, u1: Float, xe: int, v1: Float, v2: Float) -> bool {
    if 1 - u1.exp + 254 + xe <= 506 {
        is_reduced_pair(z, u1, reduce_c2(), v1, v2)
    } else {
        exists|u2: Float| #[trigger] is_fma_result(z.neg_spec(), reduce_c2(), u1, u2)
            && is_reduced_pair(z, u2, reduce_c3(), v1, v2)
    }
}

/// The lowest two bits of the integer `z`.
pub open spec fn reduction_quadrant(z: Float) -> int {
    let sh: int = if z.exp <= 254 { 254 - z.exp } else { z.exp - 254 };
    if sh < 256 {
        ((z.signif@ / pow2(sh as nat)) % 4) as int
    } else {
        0
    }
}

/// Quadrant `q` and remainder `v` (FP492) of `x` (with exponent in
/// `[3, 240]`) by the accurate reduction with a fused multiply-add (after
/// Boldo, Daumas and Li): `z = ⌈x⋅R⌋`, `u1 = x - z⋅C₁` exactly, and the
/// remainder `u1 - z⋅C₂ (- z⋅C₃)` as unevaluated sum `v1 + v2`.
pub open spec fn is_fma_reduction(x: f256, q: int, v: int) -> bool {
    exists|fx: Float, z: Float, u1: Float, v1: Float, v2: Float|
        #![trigger is_exact_float_of(x, fx), is_rounded_quotient(fx, z), is_remainder(z, u1, fx.exp as int, v1, v2)]
        is_exact_float_of(x, fx) && is_rounded_quotient(fx, z)
            && is_fma_result(z.neg_spec(), reduce_c1(), fx, u1)
            && is_remainder(z, u1, fx.exp as int, v1, v2)
            && q == reduction_quadrant(z)
            && v == wrap492(fp492_of_float(v1) + fp492_of_float(v2))
}

/// `v1 = u - z⋅c` and its rounding error `v2`.
fn reduced_pair(z: &Float, u: &Float, c: &Float) -> (r: (Float, Float))
    requires
        z.wf(),
        u.wf(),
        c.wf(),
        -5000 <= z.exp <= 1000,
        -5000 <= u.exp <= 1000,
        -600 <= c.exp <= 0,
    ensures
        is_reduced_pair(*z, *u, *c, r.0, r.1),
        r.0.wf(),
        r.1.wf(),
        -8000 <= r.0.exp,
        -8000 <= r.1.exp,
{
    let nz = z.neg();
    assert(nz == z.neg_spec());
    let v1 = nz.mul_add(c, u);
    proof {
        lemma_fma_exp(nz, *c, *u, v1, -5600, 1000);
    }
    let (p1, p2) = z.mul_exact(c);
    let np1 = p1.neg();
    assert(np1 == p1.neg_spec());
    proof {
        assert(-5600 <= p1.exp <= 1002);
    }
    let (t1, t2) = u.sum_exact(&np1);
    let a = t1.sub(&v1);
    proof {
        lemma_difference_exp(t1, v1, a, -6110, 1003);
    }
    let b = a.add(&t2);
    proof {
        lemma_sum_exp(a, t2, b, -6875, 1007);
    }
    let v2 = b.sub(&p2);
    proof {
        lemma_difference_exp(b, p2, v2, -7130, 1008);
        assert(is_two_product(*z, *c, p1, p2));
        assert(is_two_sum(*u, p1.neg_spec(), t1, t2));
        assert(is_difference(t1, v1, a));
        assert(is_sum(a, t2, b));
        assert(is_difference(b, p2, v2));
    }
    (v1, v2)
}

/// The lowest two bits of the integral value of `z`.
pub(crate) fn quadrant_bits(z: &Float) -> (q: u32)
    requires
        -0x7000_0000 <= z.exp <= 0x7000_0000,
    ensures
        q as int == reduction_quadrant(*z),
{
    let sh: i32 = if z.exp <= 254 { 254 - z.exp } else { z.exp - 254 };
    if sh < 256 {
        let t = z.signif.shr(sh as u32);
        let l = t.lo;
        proof {
            lemma_pow2_64_128();
            assert(((l as u32) & 3) == l % 4) by (bit_vector);
            lemma_u256_bound(t);
            // t = hi⋅2¹²⁸ + lo, and 4 divides 2¹²⁸
            let b = p128() as int;
            assert(b == 4 * (b / 4));
            vstd::arithmetic::div_mod::lemma_mod_multiples_vanish((t.hi as int) * (b / 4), l as int, 4);
            assert((t.hi as int) * b == (t.hi as int) * (b / 4) * 4) by (nonlinear_arith)
                requires
                    b == 4 * (b / 4),
            ;
        }
        (#[verifier::truncate] (l as u32)) & 3
    } else {
        0
    }
}

/// Accurate range reduction with a fused multiply-add, adapted from
/// S. Boldo, M. Daumas, R.-C. Li: Formally verified argument reduction
/// with a fused multiply-add, IEEE Trans. Comput. 58(8), 1139–1145 (2009).
/// For the input value `x` calculates `⌈x/½π⌋ mod 4` and `x mod ½π`.
fn fma_reduce(exp: i32, x: &f256) -> (r: (u32, FP492))
    requires
        is_finite_spec(*x),
        sign_of(*x) == 0,
        bexp(*x) != 0,
        exp == bexp(*x) - 262143,
        3 <= exp,
    ensures
        exp <= 240 ==> is_fma_reduction(*x, r.0 as int, r.1.value()),
        exp > 240 ==> (r.0 as int, r.1.value()) == large_reduction(exp as int, signif(*x)),
{
    if exp > 240 {
        return large_val_reduce(exp, x);
    }
    let fx = Float::from_f256(x);
    proof {
        assert(fx.exp == exp);
    }
    let r_c = Float::from_parts(1, -1, 0x517cc1b727220a94fe13abe8fa9a6ee0u128, 0x6db14acc9e21c820ff28b1d5ef5de2b1u128);
    let c1 = Float::from_parts(1, 0, 0x6487ed5110b4611a62633145c06e0e68u128, 0x948127044533e63a0105df531d89cd90u128);
    let c2 = Float::from_parts(1, -254, 0x4a29410f31c6809bbdf2a33679a74863u128, 0x6605614dbe4be286e9fc26adadaa3848u128);
    let c3 = Float::from_parts(1, -509, 0x5e485b576625e7ec6f44c42e9a637ed6u128, 0xb0bff5cb6f406b7edee386bfb5a899fau128);
    let d = Float::from_parts(1, 254, 0x60000000000000000000000000000000u128, 0u128);
    assert(r_c == reduce_r() && c1 == reduce_c1() && c2 == reduce_c2() && c3 == reduce_c3() && d == reduce_d());
    let w = fx.mul_add(&r_c, &d);
    proof {
        lemma_fma_exp(fx, r_c, d, w, -1000, 300);
    }
    let z = w.sub(&d);
    proof {
        lemma_difference_exp(w, d, z, -1510, 303);
        assert(is_rounded_quotient(fx, z));
    }
    let nz = z.neg();
    assert(nz == z.neg_spec());
    let u1 = nz.mul_add(&c1, &fx);
    proof {
        lemma_fma_exp(nz, c1, fx, u1, -1765, 304);
    }
    let needed_bits = 1 - u1.exp + 254 + fx.exp;
    let (v1, v2) = if needed_bits <= 506 {
        reduced_pair(&z, &u1, &c2)
    } else {
        let u2 = nz.mul_add(&c2, &u1);
        proof {
            lemma_fma_exp(nz, c2, u1, u2, -2275, 307);
        }
        let res = reduced_pair(&z, &u2, &c3);
        proof {
            assert(is_remainder(z, u1, fx.exp as int, res.0, res.1));
        }
        res
    };
    let q = quadrant_bits(&z);
    let mut fr = FP492::from_float(&v1);
    let fr2 = FP492::from_float(&v2);
    fr.add_assign(&fr2);
    proof {
        assert(is_exact_float_of(*x, fx));
        assert(is_remainder(z, u1, fx.exp as int, v1, v2));
    }
    (q, fr)
}

/// The integral significand of a finite normal `f256`.
fn integral_significand(x: &f256) -> (r: u256)
    requires
        is_finite_spec(*x),
        bexp(*x) != 0,
    ensures
        r@ == signif(*x),
{
    let hf = x.bits.hi & 0xfffffffffffffffffffffffffffu128;
    proof {
        lemma_hi_fields(x.bits.hi);
        lemma_fraction_bound(*x);
        lemma_pow2_64_128();
        assert(hf < 0x1000000000000000000000000000u128);
    }
    let m = u256::new(hf + 0x1000000000000000000000000000u128, x.bits.lo);
    proof {
        assert(pow2(236) == 0x1000000000000000000000000000nat * p128());
    }
    m
}

/// Splitting `h⋅2³⁸⁴ + l` at 2⁴⁹² with `h = q⋅2¹⁰⁸ + r`.
proof fn lemma_split_at(h: int, l: int, q: int, r: int, c: int, d: int)
    requires
        c > 0,
        d > 0,
        h == q * c + r,
        0 <= r < c,
        0 <= l < d,
    ensures
        h * d + l == q * (c * d) + (r * d + l),
        0 <= r * d + l < c * d,
{
    assert(h * d == q * (c * d) + r * d) by (nonlinear_arith)
        requires
            h == q * c + r,
    ;
    assert(r * d + l < c * d) by (nonlinear_arith)
        requires
            0 <= r < c,
            0 <= l < d,
    ;
    assert(0 <= r * d) by (nonlinear_arith)
        requires
            0 <= r,
            d > 0,
    ;
}

/// The value `f` of a `u512` splits at 2⁴⁹² into its top 20 bits and the
/// rest, which is `f` with the top 20 bits cleared.
proof fn lemma_split_492(f: u512, t: u512)
    requires
        t.hi.hi == f.hi.hi & 0xfffffffffffffffffffffffffffu128,
        t.hi.lo == f.hi.lo,
        t.lo == f.lo,
    ensures
        (f.hi.hi >> 108u32) as nat == f@ / pow2(492),
        (f.hi.hi >> 108u32) < 0x100000,
        t@ == f@ % pow2(492),
{
    lemma_pow2_64_128();
    lemma2_to64();
    let hh = f.hi.hi;
    assert(hh >> 108u32 == hh / 0x1000000000000000000000000000u128) by (bit_vector);
    assert(hh & 0xfffffffffffffffffffffffffffu128 == hh % 0x1000000000000000000000000000u128) by (bit_vector);
    assert(hh >> 108u32 < 0x100000) by (bit_vector);
    lemma_pow2_adds(108, 128);
    lemma_pow2_adds(236, 256);
    lemma_pow2_adds(128, 256);
    assert(pow2(108) == 0x1000000000000000000000000000nat) by {
        lemma_pow2_adds(64, 44);
        lemma_pow2_adds(32, 12);
        lemma_pow2_adds(8, 4);
    }
    let c = pow2(108) as int;
    let d = (p128() * p256()) as int;
    assert(pow2(492) == c * d) by {
        vstd::arithmetic::mul::lemma_mul_is_associative(c, p128() as int, p256() as int);
    }
    let q = (hh / 0x1000000000000000000000000000u128) as int;
    let r = (hh % 0x1000000000000000000000000000u128) as int;
    lemma_u256_bound(f.lo);
    lemma_u256_bound(t.lo);
    // the lower 384 bits
    let l = (f.hi.lo as int) * (p256() as int) + f.lo@;
    assert(0 <= l < d) by (nonlinear_arith)
        requires
            l == (f.hi.lo as int) * (p256() as int) + f.lo@,
            0 <= f.hi.lo < p128(),
            0 <= f.lo@ < p256(),
            d == p128() * p256(),
    ;
    assert(f@ == (hh as int) * d + l) by (nonlinear_arith)
        requires
            f@ == f.hi@ * p256() + f.lo@,
            f.hi@ == hh * p128() + f.hi.lo,
            l == (f.hi.lo as int) * (p256() as int) + f.lo@,
            d == p128() * p256(),
    ;
    assert(t@ == r * d + l) by (nonlinear_arith)
        requires
            t@ == t.hi@ * p256() + t.lo@,
            t.hi@ == t.hi.hi * p128() + t.hi.lo,
            t.hi.hi == r,
            t.hi.lo == f.hi.lo,
            t.lo == f.lo,
            l == (f.hi.lo as int) * (p256() as int) + f.lo@,
            d == p128() * p256(),
    ;
    lemma_split_at(hh as int, l, q, r, c, d);
    lemma_divmod_unique(f@ as int, pow2(492) as int, q, t@ as int);
}

/// `(m⋅r_hi⋅2²⁵⁶ + m⋅r_mi + ⌊m⋅r_lo / 2²⁵⁶⌋) mod 2⁵¹²`.
fn fraction_product(m: &u256, r1_hi: &u256, r1_mi: &u256, r1_lo: &u256) -> (f: u512)
    requires
        m@ < pow2(237),
    ensures
        f@ == (m@ * r1_hi@ * p256() + m@ * r1_mi@ + (m@ * r1_lo@) / p256()) % p512(),
{
    let p_lo = m.widening_mul(&r1_lo);
    let p_mi = m.widening_mul(&r1_mi);
    let p_hi = m.widening_mul(&r1_hi);
    let ghost a: int = (m@ * r1_hi@) as int;
    let ghost b: int = (m@ * r1_mi@) as int;
    let ghost c: int = ((m@ * r1_lo@) / p256()) as int;
    let mut f = p_mi;
    let sh = u512::from_hi_lo(p_hi.lo, u256::zero());
    let g = u512::from_hi_lo(u256::zero(), p_lo.hi);
    f.add_assign(&sh);
    f.add_assign(&g);
    proof {
        lemma_pow2_64_128();
        lemma_u512_bound(p_lo);
        lemma_u512_bound(p_mi);
        lemma_u512_bound(p_hi);
        lemma_u256_bound(p_hi.lo);
        lemma_u256_bound(p_lo.hi);
        let bb = p256() as int;
        let pp = p512() as int;
        assert(pp == bb * bb) by {
            lemma_pow2_adds(256, 256);
        }
        lemma_divmod_unique(a, bb, p_hi.hi@ as int, p_hi.lo@ as int);
        lemma_divmod_unique((m@ * r1_lo@) as int, bb, p_lo.hi@ as int, p_lo.lo@ as int);
        // (a mod 2²⁵⁶)⋅2²⁵⁶ ≡ a⋅2²⁵⁶ (mod 2⁵¹²)
        assert(a * bb == (a / bb) * pp + (a % bb) * bb) by (nonlinear_arith)
            requires
                a == bb * (a / bb) + a % bb,
                pp == bb * bb,
        {
        }
        vstd::arithmetic::div_mod::lemma_fundamental_div_mod(a, bb);
        assert(sh@ == (a % bb) * bb);
        assert(g@ == c) by {
            vstd::arithmetic::mul::lemma_mul_basics(p256() as int);
        }
        vstd::arithmetic::div_mod::lemma_add_mod_noop(b, (a % bb) * bb, pp);
        vstd::arithmetic::div_mod::lemma_mod_multiples_vanish(a / bb, (a % bb) * bb, pp);
        vstd::arithmetic::div_mod::lemma_add_mod_noop(b, a * bb, pp);
        lemma_mul_nonnegative(a, bb);
        vstd::arithmetic::div_mod::lemma_add_mod_noop(b + a * bb, c, pp);
        vstd::arithmetic::div_mod::lemma_mod_twice(b + a * bb, pp);
        vstd::arithmetic::div_mod::lemma_small_mod(c as nat, p512());
        vstd::arithmetic::div_mod::lemma_small_mod(b as nat, p512());
        assert(f@ == (a * bb + b + c) % pp);
    }
    proof {
        assert(m@ * r1_hi@ * p256() == a * p256());
    }
    f
}

/// The integral part `k` of the fraction `f` of `x⋅2/π` (492 fractional
/// bits), rounded to nearest (ties to even) by its fractional part `y`,
/// and `y` or `y - 1` accordingly.
fn round_fraction(f: &u512) -> (r: (u32, FP492))
    ensures
        ({
            let k = f@ / pow2(492);
            let y = f@ % pow2(492);
            let up = y > pow2(491) || (y == pow2(491) && k % 2 == 1);
            &&& r.0 as int == (if up { k + 1 as int } else { k as int })
            &&& r.1.value() == (if up { y - pow2(492) } else { y as int })
        }),
{
    // The integral part has 512 - 492 = 20 bits.
    let mut k: u32 = (f.hi.hi >> 108u32) as u32;
    let t = u512 { hi: u256 { hi: f.hi.hi & 0xfffffffffffffffffffffffffffu128, lo: f.hi.lo }, lo: f.lo };
    proof {
        lemma_split_492(*f, t);
        lemma_p512();
        lemma_pow2_strictly_increases(492, 511);
        lemma_pow2_unfold(512);
        lemma_pow2_unfold(492);
        lemma_u512_bound(t);
        lemma_pow2_pos(492);
        vstd::arithmetic::div_mod::lemma_mod_bound(f@ as int, pow2(492) as int);
        assert(FP492(t).value() == t@);
    }
    let mut y = FP492(t);
    let half = FP492::one_half();
    if half.lt(&y) || (!y.lt(&half) && k % 2 == 1) {
        k = k + 1;
        y.sub_assign(&FP492::one());
    }
    (k, y)
}

/// Quadrant and remainder from the fraction `f` of `x⋅2/π` with 492
/// fractional bits.
fn quadrant_of_fraction(f: &u512) -> (r: (u32, FP492))
    ensures
        (r.0 as int, r.1.value()) == quadrant_and_remainder(f@),
{
    let (k, mut y) = round_fraction(f);
    let frac_pi_2 = table_entry(&REDUCTION_CONSTS, 1);
    y.imul_round_sticky(&frac_pi_2);
    (k % 4, y)
}

/// Range reduction for large arguments (Payne and Hanek): calculates
/// `⌈x/½π⌋ mod 4` and `x mod ½π` for `x` with exponent `e >= 241`.
fn large_val_reduce(e: i32, x: &f256) -> (r: (u32, FP492))
    requires
        is_finite_spec(*x),
        bexp(*x) != 0,
        e == bexp(*x) - 262143,
        241 <= e,
    ensures
        (r.0 as int, r.1.value()) == large_reduction(e as int, signif(*x)),
{
    let m = integral_significand(x);
    proof {
        lemma_fraction_bound(*x);
    }
    let idx = (e - 238) as u32;
    let r1_hi = get_256_bits(idx).shr(18);
    let r1_mi = get_256_bits(idx + 238);
    let r1_lo = get_256_bits(idx + 494);
    let f = fraction_product(&m, &r1_hi, &r1_mi, &r1_lo);
    quadrant_of_fraction(&f)
}

/// Quadrant `q` and remainder `v` (FP492) of the finite, non-negative `x`:
/// none needed below ½, subtraction of multiples of ½π in FP492 below 8,
/// the reduction with a fused multiply-add below 2²⁴¹, and the reduction
/// with the bits of 2/π above.
pub open spec fn is_reduction(x: f256, q: int, v: int) -> bool {
    let e = bexp(x) - 262143;
    if bexp(x) == 0 || e <= -2 {
        q == 0 && v == fixed_of_f256(x, 0, 19, 492)
    } else if e <= 2 {
        (q, v) == small_reduction(e, fixed_of_f256(x, 0, 19, 492))
    } else if e <= 240 {
        is_fma_reduction(x, q, v)
    } else {
        (q, v) == large_reduction(e, signif(x))
    }
}

/// For the input value `x` with exponent `exp >= -1`, calculates
/// `⌈x/½π⌋ mod 4` and `x mod ½π`.
fn fp_reduce(exp: i32, x: &f256) -> (r: (u32, FP492))
    requires
        is_finite_spec(*x),
        sign_of(*x) == 0,
        bexp(*x) != 0,
        exp == bexp(*x) - 262143,
        -1 <= exp,
    ensures
        is_reduction(*x, r.0 as int, r.1.value()),
{
    if exp <= 2 {
        fp_reduce_small(exp, x)
    } else {
        fma_reduce(exp, x)
    }
}

/// Calculates `⌈x/½π⌋ mod 4` and `x mod ½π` for finite `x >= 0`.
pub fn reduce(x: &f256) -> (r: (u32, FP492))
    requires
        is_finite_spec(*x),
        sign_of(*x) == 0,
    ensures
        is_reduction(*x, r.0 as int, r.1.value()),
{
    let be = exp_bits(x.bits.hi);
    if be == 0 || be < EXP_BIAS - 1 {
        // |x| < ½ => no need for reduction
        proof {
            lemma_fixed_in_range(*x);
        }
        return (0, FP492::from_f256(x));
    }
    fp_reduce(be as i32 - EXP_BIAS as i32, x)
}

} // verus!
