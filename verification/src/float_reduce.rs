//! Reduction of [`Float`] arguments modulo ½π: subtraction of a multiple of
//! ½π for small arguments, the reduction with a fused multiply-add for
//! medium ones, and a remainder of the significand modulo 2π for large
//! ones.
use vstd::prelude::*;
use vstd::arithmetic::power2::{pow2, lemma_pow2_pos, lemma_pow2_adds, lemma_pow2_strictly_increases};
use vstd::arithmetic::mul::{lemma_mul_inequality, lemma_mul_strict_inequality};
use crate::uint256::{u256, is_lz};
use crate::big_float::Float;
use crate::float_mul::{parts, product};
use crate::float_add::{is_difference, lemma_difference_exp};
use crate::float_fma::lemma_fma_exp;
use crate::float_exact::is_two_sum;
use crate::reduce::{reduce_r, reduce_c1, reduce_c2, reduce_d, is_rounded_quotient, is_split_error,
    reduction_quadrant, quadrant_bits};

verus! {

/// The normalized [`Float`] `2ᵉ⋅(hi⋅2¹²⁸ + lo)⋅2⁻²⁵⁴`.
pub open spec fn float_const(e: int, hi: u128, lo: u128) -> Float {
    Float { signum: 1, exp: e as i32, signif: u256 { hi: hi, lo: lo } }
}

/// ◯₂₅₅(¼π)
pub open spec fn f_frac_pi_4() -> Float {
    float_const(-1, 0x6487ed5110b4611a62633145c06e0e68, 0x948127044533e63a0105df531d89cd91)
}

/// ◯₂₅₅(½π)
pub open spec fn f_frac_pi_2() -> Float {
    float_const(0, 0x6487ed5110b4611a62633145c06e0e68, 0x948127044533e63a0105df531d89cd91)
}

/// ◯₂₅₅(¾π)
pub open spec fn f_frac_3_pi_4() -> Float {
    float_const(1, 0x4b65f1fccc8748d3c9ca64f450528ace, 0x6f60dd4333e6ecab80c4677e56275a2d)
}

/// ◯₂₅₅(π)
pub open spec fn f_pi() -> Float {
    float_const(1, 0x6487ed5110b4611a62633145c06e0e68, 0x948127044533e63a0105df531d89cd91)
}

/// ◯₂₅₅(5/4⋅π)
pub open spec fn f_frac_5_pi_4() -> Float {
    float_const(1, 0x7da9e8a554e17960fafbfd9730899202, 0xb9a170c55680dfc881475727e4ec40f5)
}

/// ◯₂₅₅(3/2⋅π)
pub open spec fn f_frac_3_pi_2() -> Float {
    float_const(2, 0x4b65f1fccc8748d3c9ca64f450528ace, 0x6f60dd4333e6ecab80c4677e56275a2d)
}

/// ◯₂₅₅(7/4⋅π)
pub open spec fn f_frac_7_pi_4() -> Float {
    float_const(2, 0x57f6efa6ee9dd4f71616cb1d08604c9b, 0x81f10223bc8d6972c0e52368b9d893df)
}

/// ◯₂₅₅(2π)
pub open spec fn f_tau() -> Float {
    float_const(2, 0x6487ed5110b4611a62633145c06e0e68, 0x948127044533e63a0105df531d89cd91)
}

/// ◯₂₅₅(9/4⋅π)
pub open spec fn f_frac_9_pi_4() -> Float {
    float_const(2, 0x7118eafb32caed3daeaf976e787bd035, 0xa7114be4cdda630141269b3d813b0743)
}

/// The largest argument of [`fast_reduce`]: ◯₂₅₅((2²⁵³ - 1)⋅C).
pub open spec fn f_max_fast() -> Float {
    float_const(253, 0x6487ed5110b4611a62633145c06e0e68, 0x948127044533e63a0105df531d89cd8e)
}

/// `|x| <= c` for the positive normalized `c`.
pub open spec fn abs_le(x: Float, c: Float) -> bool {
    x.signum == 0 || x.exp < c.exp || (x.exp == c.exp && x.signif@ <= c.signif@)
}

/// `|x| < c` for the positive normalized `c`.
pub open spec fn abs_lt(x: Float, c: Float) -> bool {
    x.signum == 0 || x.exp < c.exp || (x.exp == c.exp && x.signif@ < c.signif@)
}

/// `c` with the sign opposite to that of `x`.
pub open spec fn against(c: Float, x: Float) -> Float {
    Float { signum: (-x.signum) as i32, exp: c.exp, signif: c.signif }
}

/// Quadrant `q` and remainder `v1 + v2` of `x` by the reduction with a
/// fused multiply-add (after Boldo, Daumas and Li): `z = ⌈x⋅R⌋`,
/// `u = x - z⋅C₁` and `v1 = u - z⋅C₂` (both products rounded), and `v2`
/// the rounding error of `v1`.
pub open spec fn is_fast_reduction(x: Float, q: int, v1: Float, v2: Float) -> bool {
    exists|z: Float, zc1: Float, u: Float, zc2: Float|
        #![trigger is_rounded_quotient(x, z), is_difference(x, zc1, u), is_difference(u, zc2, v1)]
        is_rounded_quotient(x, z) && zc1.wf() && parts(zc1) == product(z, reduce_c1())
            && is_difference(x, zc1, u) && zc2.wf() && parts(zc2) == product(z, reduce_c2())
            && is_difference(u, zc2, v1) && is_split_error(z, u, reduce_c2(), v1, v2)
            && q == reduction_quadrant(z)
}

/// The reduction of `x` with `|x| <= M`: for `|x| <= 9/4⋅π` the exact
/// difference to the nearest multiple `k⋅½π` (as rounded sum and remainder
/// by [`Float::sum_exact`]) with quadrant `k mod 4`, above by
/// [`fast_reduce`].
pub open spec fn is_rem_of_small(x: Float, r: (u32, Float, Float)) -> bool {
    if abs_le(x, f_frac_pi_4()) {
        r == (0u32, x, Float::zero_spec())
    } else if abs_lt(x, f_frac_3_pi_4()) {
        r.0 == 1 && is_two_sum(x, against(f_frac_pi_2(), x), r.1, r.2)
    } else if abs_le(x, f_frac_5_pi_4()) {
        r.0 == 2 && is_two_sum(x, against(f_pi(), x), r.1, r.2)
    } else if abs_lt(x, f_frac_7_pi_4()) {
        r.0 == 3 && is_two_sum(x, against(f_frac_3_pi_2(), x), r.1, r.2)
    } else if abs_le(x, f_frac_9_pi_4()) {
        r.0 == 0 && is_two_sum(x, against(f_tau(), x), r.1, r.2)
    } else {
        is_fast_reduction(x, r.0 as int, r.1, r.2)
    }
}

/// The reduction of `x` with `|x| > M`: `t = m⋅2ᵉ⁻² mod D` for the
/// significand `m` of `x`, its exponent `e` and the significand `D` of 2π;
/// zero where `t = 0`, else the reduction of `t⋅2⁻⁵⁰⁶` (as positive
/// normalized [`Float`]).
pub open spec fn is_rem_of_large(x: Float, r: (u32, Float, Float)) -> bool {
    let t = large_residue(x);
    &&& t == 0 ==> r == (0u32, Float::zero_spec(), Float::zero_spec())
    &&& t != 0 ==> exists|u: Float| #[trigger] is_rem_of_small(u, r) && u.signum == 1 && u.wf()
        && u.signif@ == t * pow2((-252 - u.exp) as nat) && pow2(254) <= u.signif@ < pow2(255)
}

/// `r` is the quadrant and the remainder of `x` modulo ½π as computed by
/// [`rem_frac_pi_2`].
pub open spec fn is_rem_frac_pi_2(x: Float, r: (u32, Float, Float)) -> bool {
    if abs_le(x, f_max_fast()) {
        is_rem_of_small(x, r)
    } else {
        is_rem_of_large(x, r)
    }
}

/// `|x| <= c` for the positive normalized `c`.
fn abs_le_exec(x: &Float, c: &Float) -> (r: bool)
    ensures
        r == abs_le(*x, *c),
{
    x.signum == 0 || x.exp < c.exp || (x.exp == c.exp && x.signif.le(&c.signif))
}

/// `|x| < c` for the positive normalized `c`.
fn abs_lt_exec(x: &Float, c: &Float) -> (r: bool)
    ensures
        r == abs_lt(*x, *c),
{
    x.signum == 0 || x.exp < c.exp || (x.exp == c.exp && x.signif.lt(&c.signif))
}

/// `z = (x⋅R + D) - D`, the first operation fused: `x⋅R` rounded to an
/// integer.
fn rounded_quotient(x: &Float) -> (z: Float)
    requires
        x.wf(),
        -0x0e00_0000 <= x.exp <= 253,
    ensures
        z.wf(),
        is_rounded_quotient(*x, z),
        -0x0e00_0400 <= z.exp <= 258,
{
    let r_c = Float::from_parts(1, -1, 0x517cc1b727220a94fe13abe8fa9a6ee0u128, 0x6db14acc9e21c820ff28b1d5ef5de2b1u128);
    let d = Float::from_parts(1, 254, 0x60000000000000000000000000000000u128, 0u128);
    assert(r_c == reduce_r() && d == reduce_d());
    let w = x.mul_add(&r_c, &d);
    proof {
        lemma_fma_exp(*x, r_c, d, w, -0x0e00_0001, 254);
    }
    let z = w.sub(&d);
    proof {
        lemma_difference_exp(w, d, z, -0x0e00_0001 - 510, 257);
        assert(is_rounded_quotient(*x, z));
    }
    z
}

/// The rounding error `v2` of `v1 = u - z⋅c` by the error-free
/// transformations `z⋅c = p1 + p2` and `u - p1 = t1 + t2`:
/// `((t1 - v1) + t2) - p2`.
fn split_error(z: &Float, u: &Float, c: &Float, v1: &Float) -> (v2: Float)
    requires
        z.wf(),
        u.wf(),
        c.wf(),
        v1.wf(),
        -0x0e10_0000 <= z.exp <= 300,
        -0x0e10_0000 <= u.exp <= 300,
        -0x0e10_0000 <= v1.exp <= 300,
        -300 <= c.exp <= 0,
    ensures
        v2.wf(),
        is_split_error(*z, *u, *c, *v1, v2),
{
    let (p1, p2) = z.mul_exact(c);
    let np1 = p1.neg();
    assert(np1 == p1.neg_spec());
    let (t1, t2) = u.sum_exact(&np1);
    let ghost lo: int = -0x0e10_0000 - 2000;
    let a = t1.sub(v1);
    proof {
        lemma_difference_exp(t1, *v1, a, lo, 310);
    }
    let b = a.add(&t2);
    proof {
        crate::float_add::lemma_sum_exp(a, t2, b, lo - 300, 320);
    }
    let v2 = b.sub(&p2);
    proof {
        assert(crate::float_exact::is_two_product(*z, *c, p1, p2));
        assert(is_two_sum(*u, p1.neg_spec(), t1, t2));
        assert(is_difference(t1, *v1, a));
        assert(crate::float_add::is_sum(a, t2, b));
        assert(is_difference(b, p2, v2));
    }
    v2
}

/// Accurate range reduction with a fused multiply-add, adapted from
/// S. Boldo, M. Daumas, R.-C. Li: Formally verified argument reduction
/// with a fused multiply-add, IEEE Trans. Comput. 58(8), 1139–1145 (2009).
/// For `x` (up to M) calculates `⌈x/½π⌋ mod 4` and `x mod ½π` as
/// unevaluated sum.
pub fn fast_reduce(x: &Float) -> (r: (u32, Float, Float))
    requires
        x.wf(),
        -0x0e00_0000 <= x.exp <= 253,
    ensures
        is_fast_reduction(*x, r.0 as int, r.1, r.2),
        r.1.wf(),
        r.2.wf(),
{
    let c1 = Float::from_parts(1, 0, 0x6487ed5110b4611a62633145c06e0e68u128, 0x948127044533e63a0105df531d89cd90u128);
    let c2 = Float::from_parts(1, -254, 0x4a29410f31c6809bbdf2a33679a74863u128, 0x6605614dbe4be286e9fc26adadaa3848u128);
    assert(c1 == reduce_c1() && c2 == reduce_c2());
    let z = rounded_quotient(x);
    let zc1 = z.mul(&c1);
    let u = x.sub(&zc1);
    proof {
        lemma_difference_exp(*x, zc1, u, -0x0e00_0400, 260);
    }
    let zc2 = z.mul(&c2);
    let v1 = u.sub(&zc2);
    proof {
        lemma_difference_exp(u, zc2, v1, -0x0e00_0800, 261);
    }
    let v2 = split_error(&z, &u, &c2, &v1);
    let q = quadrant_bits(&z);
    proof {
        assert(is_rounded_quotient(*x, z));
        assert(is_difference(*x, zc1, u));
        assert(is_difference(u, zc2, v1));
    }
    (q, v1, v2)
}

/// `t = m⋅2ᵉ⁻² mod D` for the significand `m` and the exponent `e` of `x`,
/// `D` the significand of 2π.
pub open spec fn large_residue(x: Float) -> nat {
    (x.signif@ * pow2((x.exp - 2) as nat)) % f_tau().signif@
}

/// A value with `lz` leading zeros in 256 bits, shifted left by `lz - 1`,
/// is normalized.
proof fn lemma_normalize(t: nat, lz: nat)
    requires
        is_lz(t, 256, lz),
        1 <= lz <= 255,
    ensures
        pow2(254) <= t * pow2((lz - 1) as nat) < pow2(255),
{
    lemma_pow2_adds((256 - lz) as nat, (lz - 1) as nat);
    lemma_pow2_adds((255 - lz) as nat, (lz - 1) as nat);
    lemma_pow2_pos((lz - 1) as nat);
    lemma_mul_inequality(pow2((255 - lz) as nat) as int, t as int, pow2((lz - 1) as nat) as int);
    lemma_mul_strict_inequality(t as int, pow2((256 - lz) as nat) as int, pow2((lz - 1) as nat) as int);
}

/// The residue of a large `x` modulo 2π as positive normalized [`Float`]
/// `t⋅2⁻⁵⁰⁶`, or `None` where it is zero.
fn large_remainder(x: &Float) -> (r: Option<Float>)
    requires
        x.wf(),
        x.signum != 0,
        253 <= x.exp <= 0x0e00_0000,
    ensures
        large_residue(*x) == 0 ==> r is None,
        large_residue(*x) != 0 ==> r is Some && r->0.wf() && r->0.signum == 1 && -600 <= r->0.exp <= -1
            && r->0.signif@ == large_residue(*x) * pow2((-252 - r->0.exp) as nat),
{
    let tau = Float::from_parts(1, 2, 0x6487ed5110b4611a62633145c06e0e68u128, 0x948127044533e63a0105df531d89cd91u128);
    assert(tau == f_tau());
    let sh = (x.exp - 2) as u32;
    let mut t = x.signif.lshift_rem(&tau.signif, sh);
    if t.is_zero() {
        return None;
    }
    let lz = t.leading_zeros();
    proof {
        lemma_pow2_pos(0);
        if lz == 0 {
            assert(t@ >= pow2(255));
        }
        if lz == 256 {
            vstd::arithmetic::power2::lemma2_to64();
        }
    }
    let shl = lz - 1;
    let ghost t0 = t@;
    t.shl_assign(shl);
    proof {
        lemma_normalize(t0, lz as nat);
        crate::bits::lemma_pow2_64_128();
        lemma_pow2_strictly_increases(255, 256);
        vstd::arithmetic::div_mod::lemma_small_mod(t0 * pow2(shl as nat), crate::bits::p256());
    }
    let u = Float { signum: 1, exp: -(252 + shl as i32), signif: t };
    Some(u)
}

/// The exact difference of `x` and `c` with the sign opposite to `x`, as
/// rounded sum and remainder.
fn sum_against(x: &Float, c: &Float) -> (r: (Float, Float))
    requires
        x.wf(),
        c.wf(),
        x.signum != 0,
        c.signum == 1,
        -0x0e00_0000 <= x.exp <= 0x0e00_0000,
        -2 <= c.exp <= 2,
    ensures
        is_two_sum(*x, against(*c, *x), r.0, r.1),
{
    let mut y = *c;
    y.copy_sign(x);
    y.flip_sign();
    assert(y == against(*c, *x));
    x.sum_exact(&y)
}

/// Calculates `⌈x/½π⌋ mod 4` and `x mod ½π` (as unevaluated sum).
pub fn rem_frac_pi_2(x: &Float) -> (r: (u32, Float, Float))
    requires
        x.wf(),
        -0x0e00_0000 <= x.exp <= 0x0e00_0000,
    ensures
        is_rem_frac_pi_2(*x, r),
    decreases
        (if abs_le(*x, f_max_fast()) { 0int } else { 1int }),
{
    let frac_pi_4 = Float::from_parts(1, -1, 0x6487ed5110b4611a62633145c06e0e68u128, 0x948127044533e63a0105df531d89cd91u128);
    let frac_3_pi_4 = Float::from_parts(1, 1, 0x4b65f1fccc8748d3c9ca64f450528aceu128, 0x6f60dd4333e6ecab80c4677e56275a2du128);
    let frac_5_pi_4 = Float::from_parts(1, 1, 0x7da9e8a554e17960fafbfd9730899202u128, 0xb9a170c55680dfc881475727e4ec40f5u128);
    let frac_7_pi_4 = Float::from_parts(1, 2, 0x57f6efa6ee9dd4f71616cb1d08604c9bu128, 0x81f10223bc8d6972c0e52368b9d893dfu128);
    let frac_9_pi_4 = Float::from_parts(1, 2, 0x7118eafb32caed3daeaf976e787bd035u128, 0xa7114be4cdda630141269b3d813b0743u128);
    let max_fast = Float::from_parts(1, 253, 0x6487ed5110b4611a62633145c06e0e68u128, 0x948127044533e63a0105df531d89cd8eu128);
    let frac_pi_2 = Float::from_parts(1, 0, 0x6487ed5110b4611a62633145c06e0e68u128, 0x948127044533e63a0105df531d89cd91u128);
    let pi = Float::from_parts(1, 1, 0x6487ed5110b4611a62633145c06e0e68u128, 0x948127044533e63a0105df531d89cd91u128);
    let frac_3_pi_2 = Float::from_parts(1, 2, 0x4b65f1fccc8748d3c9ca64f450528aceu128, 0x6f60dd4333e6ecab80c4677e56275a2du128);
    let tau = Float::from_parts(1, 2, 0x6487ed5110b4611a62633145c06e0e68u128, 0x948127044533e63a0105df531d89cd91u128);
    assert(frac_pi_4 == f_frac_pi_4() && frac_3_pi_4 == f_frac_3_pi_4() && frac_5_pi_4 == f_frac_5_pi_4()
        && frac_7_pi_4 == f_frac_7_pi_4() && frac_9_pi_4 == f_frac_9_pi_4() && max_fast == f_max_fast());
    assert(frac_pi_2 == f_frac_pi_2() && pi == f_pi() && frac_3_pi_2 == f_frac_3_pi_2() && tau == f_tau());
    if abs_le_exec(x, &frac_pi_4) {
        (0, *x, Float::zero())
    } else if abs_lt_exec(x, &frac_3_pi_4) {
        let (hi, lo) = sum_against(x, &frac_pi_2);
        (1, hi, lo)
    } else if abs_le_exec(x, &frac_5_pi_4) {
        let (hi, lo) = sum_against(x, &pi);
        (2, hi, lo)
    } else if abs_lt_exec(x, &frac_7_pi_4) {
        let (hi, lo) = sum_against(x, &frac_3_pi_2);
        (3, hi, lo)
    } else if abs_le_exec(x, &frac_9_pi_4) {
        let (hi, lo) = sum_against(x, &tau);
        (0, hi, lo)
    } else if abs_le_exec(x, &max_fast) {
        fast_reduce(x)
    } else {
        // M < |x|: x = m⋅2ᵉ with e >= 253
        match large_remainder(x) {
            None => (0, Float::zero(), Float::zero()),
            Some(u) => {
                let r = rem_frac_pi_2(&u);
                proof {
                    assert(is_rem_of_small(u, r));
                }
                r
            },
        }
    }
}

} // verus!
