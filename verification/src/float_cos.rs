//! The cosine series evaluated in [`Float`] arithmetic.
use vstd::prelude::*;
use vstd::arithmetic::power2::pow2;
use crate::uint256::u256;
use crate::big_float::{Float, signif_one};
use crate::float_mul::{parts, product};
use crate::float_fma::{is_fma_result, lemma_fma_exp};
use crate::atan::lemma_pow2_255;

verus! {

/// The significands of the coefficients `(-1)ᵏ/(2k)!` of the cosine series,
/// for `k` from 31 down to 0, each as two `u128` words (most significant
/// first), normalized to `[2²⁵⁴, 2²⁵⁵)`.
pub const COS_SERIES_SIGNIFS: [u128; 64] = [
    // 1/62!
    0x7e6cc1644a2f1a41de2bf27aee1249a0, 0x8b3d76be81a339428441f1cfba077d45,
    // 1/60!
    0x74bbab10f9ff3dde9183d404419222bb, 0x9c90e08426f315fecade63a62d64aa4b,
    // 1/58!
    0x64e331986c0fd8389b432efcadab8c84, 0xa510360a36a996c274d4b39f5ebb402d,
    // 1/56!
    0x516ddfe7a63849e4b05119ccb1ac964a, 0x8fba359dfe5ea14eb38c2d7a81d5e2ac,
    // 1/54!
    0x7a763dbb60faa720ed29f7ccd7348e06, 0x22270aa29b8c50975c05d0653d42a9e5,
    // 1/52!
    0x55915e624d63238721b6b30540ded8bc, 0x891d078e5e6faacfc26c8ffcbd2df476,
    // 1/50!
    0x6ecdbdb84b35e0817c2814d14d8091a8, 0x238d1748db4999b008439473c6f9020f,
    // 1/48!
    0x4246d01adbfc99e973637973b17b871f, 0xb243c48d742a660d6af16c2bc063b15b,
    // 1/46!
    0x4902013d9654418b291b93c9718212d8, 0xea5ea683d1f6b46ac7cdf12831edd15e,
    // 1/44!
    0x49cac6c0ffb1a93f67cc9f9fdb7a388c, 0xbee32acdbc781adaed73677f60771f5e,
    // 1/42!
    0x442bd49d4c37a0db136489772e42693e, 0x0658dd0b109cf4cf405d1d1d2c9e0c7b,
    // 1/40!
    0x72a3b50a84ab8c00681c912aeb4aadfa, 0xcdac6fb71b6ff1ae85bc95758f87c7fc,
    // 1/38!
    0x5752b2e7030eaba44f4dc293b139e286, 0x0aaa591879e64517efdea5d88c546d55,
    // 1/36!
    0x77e60ca430b2a4ac1ae344a9c9d6fa87, 0x0ba4e5551b5fabde5dda34b6d4adec1e,
    // 1/34!
    0x49c408c703f5e84fe28ad2be75adc322, 0x15a9f317dc575c3d4ebdbf6e7bd900c5,
    // 1/32!
    0x50d34b9e0fd6f10b87b91be9aff0e44e, 0xd8bcb6dba4edb8912cc6e8408eb34557,
    // 1/30!
    0x4e4cb1411f5839832b7b530a62715d2c, 0x61f6d124c7c64acca360b0fe8a3dab2d,
    // 1/28!
    0x42862898d42174dcf171470d52a350a9, 0x353b32b0bfbaf88cdccea660427364ee,
    // 1/26!
    0x623a17f1a939668e3c8142e9ac052519, 0xd89968d8fb1a12fffe0921aa221e6308,
    // 1/24!
    0x7cb3c065cbd5df3292d019f2a7628819, 0xcffac21b76c81a1efd8197bcfd5093b9,
    // 1/22!
    0x4338e5b6dfe14a5143242dfcce3b1d5d, 0xea1d2ca2ce07de14b4a7dbcbe08d6fa2,
    // 1/20!
    0x7950ae900808941ea72b4afe3c2eaeff, 0x7c80a68dcfd232c95e06eea9ef3f3f76,
    // 1/18!
    0x5a09e18ee5f65deec01221a8b0aaa5e1, 0x9e677b9d403e01b173c925221f90f11a,
    // 1/16!
    0x6b9fcf9ccee07c476195ac3ba32bfa47, 0xaf57b1c1f6ca1e061c666e62c9bb4031,
    // 1/14!
    0x64e5d2a301f27482eb7c5177e8f93aa3, 0x346236a5d75d7c25baa0077c9d1f8c2e,
    // 1/12!
    0x47bb63bfe3625ed5136a61eb3fa12fb0, 0x073dd2d9e71c7642d2adc55297b46da8,
    // 1/10!
    0x49f93edde27d71cbbc05b4fa999e392d, 0x8777c170b65559f4e943337d2c721116,
    // 1/8!
    0x68068068068068068068068068068068, 0x06806806806806806806806806806807,
    // 1/6!
    0x5b05b05b05b05b05b05b05b05b05b05b, 0x05b05b05b05b05b05b05b05b05b05b06,
    // 1/4!
    0x55555555555555555555555555555555, 0x55555555555555555555555555555555,
    // 1/2!
    0x40000000000000000000000000000000, 0x00000000000000000000000000000000,
    // 1/0!
    0x40000000000000000000000000000000, 0x00000000000000000000000000000000,
];

/// The exponents of the coefficients of the cosine series, in the order of
/// [`COS_SERIES_SIGNIFS`].
pub const COS_SERIES_EXPS: [i32; 32] = [
    -285, -273, -261, -249, -238, -226, -215, -203,
    -192, -181, -170, -160, -149, -139, -128, -118,
    -108, -98, -89, -80, -70, -62, -53, -45,
    -37, -29, -22, -16, -10, -5, -1, 0,
];

/// Coefficient `k` of the cosine series (highest degree first): the signs
/// alternate, starting with `-1/62!`, and end with `1/0! = 1`.
pub open spec fn cos_series_coeff(k: int) -> Float {
    Float {
        signum: if k % 2 == 0 { -1i32 } else { 1i32 },
        exp: COS_SERIES_EXPS@[k],
        signif: u256 { hi: COS_SERIES_SIGNIFS@[2 * k], lo: COS_SERIES_SIGNIFS@[2 * k + 1] },
    }
}

/// `s` holds the steps of Horner's scheme for the cosine series at `x²`:
/// the leading coefficient, then each step a fused multiply-add of the
/// previous one with `x²` and the next coefficient, rounded as
/// [`Float::imul_add`] computes it.
pub open spec fn is_cos_horner(x2: Float, s: Seq<Float>) -> bool {
    &&& s.len() >= 1
    &&& s[0] == cos_series_coeff(0)
    &&& forall|i: int| 1 <= i < s.len() ==> is_fma_result(s[i - 1], x2, cos_series_coeff(i), #[trigger] s[i])
}

/// Each coefficient is normalized, with an exponent in `[-285, 0]`.
proof fn lemma_cos_series_coeff(k: int)
    requires
        0 <= k < 32,
    ensures
        0x40000000000000000000000000000000 <= COS_SERIES_SIGNIFS@[2 * k] < 0x80000000000000000000000000000000,
        -285 <= COS_SERIES_EXPS@[k] <= 0,
{
    if k == 0 {
        assert(COS_SERIES_SIGNIFS@[0] == 0x7e6cc1644a2f1a41de2bf27aee1249a0);
        assert(COS_SERIES_EXPS@[0] == -285);
    } else if k == 1 {
        assert(COS_SERIES_SIGNIFS@[2] == 0x74bbab10f9ff3dde9183d404419222bb);
        assert(COS_SERIES_EXPS@[1] == -273);
    } else if k == 2 {
        assert(COS_SERIES_SIGNIFS@[4] == 0x64e331986c0fd8389b432efcadab8c84);
        assert(COS_SERIES_EXPS@[2] == -261);
    } else if k == 3 {
        assert(COS_SERIES_SIGNIFS@[6] == 0x516ddfe7a63849e4b05119ccb1ac964a);
        assert(COS_SERIES_EXPS@[3] == -249);
    } else if k == 4 {
        assert(COS_SERIES_SIGNIFS@[8] == 0x7a763dbb60faa720ed29f7ccd7348e06);
        assert(COS_SERIES_EXPS@[4] == -238);
    } else if k == 5 {
        assert(COS_SERIES_SIGNIFS@[10] == 0x55915e624d63238721b6b30540ded8bc);
        assert(COS_SERIES_EXPS@[5] == -226);
    } else if k == 6 {
        assert(COS_SERIES_SIGNIFS@[12] == 0x6ecdbdb84b35e0817c2814d14d8091a8);
        assert(COS_SERIES_EXPS@[6] == -215);
    } else if k == 7 {
        assert(COS_SERIES_SIGNIFS@[14] == 0x4246d01adbfc99e973637973b17b871f);
        assert(COS_SERIES_EXPS@[7] == -203);
    } else if k == 8 {
        assert(COS_SERIES_SIGNIFS@[16] == 0x4902013d9654418b291b93c9718212d8);
        assert(COS_SERIES_EXPS@[8] == -192);
    } else if k == 9 {
        assert(COS_SERIES_SIGNIFS@[18] == 0x49cac6c0ffb1a93f67cc9f9fdb7a388c);
        assert(COS_SERIES_EXPS@[9] == -181);
    } else if k == 10 {
        assert(COS_SERIES_SIGNIFS@[20] == 0x442bd49d4c37a0db136489772e42693e);
        assert(COS_SERIES_EXPS@[10] == -170);
    } else if k == 11 {
        assert(COS_SERIES_SIGNIFS@[22] == 0x72a3b50a84ab8c00681c912aeb4aadfa);
        assert(COS_SERIES_EXPS@[11] == -160);
    } else if k == 12 {
        assert(COS_SERIES_SIGNIFS@[24] == 0x5752b2e7030eaba44f4dc293b139e286);
        assert(COS_SERIES_EXPS@[12] == -149);
    } else if k == 13 {
        assert(COS_SERIES_SIGNIFS@[26] == 0x77e60ca430b2a4ac1ae344a9c9d6fa87);
        assert(COS_SERIES_EXPS@[13] == -139);
    } else if k == 14 {
        assert(COS_SERIES_SIGNIFS@[28] == 0x49c408c703f5e84fe28ad2be75adc322);
        assert(COS_SERIES_EXPS@[14] == -128);
    } else if k == 15 {
        assert(COS_SERIES_SIGNIFS@[30] == 0x50d34b9e0fd6f10b87b91be9aff0e44e);
        assert(COS_SERIES_EXPS@[15] == -118);
    } else if k == 16 {
        assert(COS_SERIES_SIGNIFS@[32] == 0x4e4cb1411f5839832b7b530a62715d2c);
        assert(COS_SERIES_EXPS@[16] == -108);
    } else if k == 17 {
        assert(COS_SERIES_SIGNIFS@[34] == 0x42862898d42174dcf171470d52a350a9);
        assert(COS_SERIES_EXPS@[17] == -98);
    } else if k == 18 {
        assert(COS_SERIES_SIGNIFS@[36] == 0x623a17f1a939668e3c8142e9ac052519);
        assert(COS_SERIES_EXPS@[18] == -89);
    } else if k == 19 {
        assert(COS_SERIES_SIGNIFS@[38] == 0x7cb3c065cbd5df3292d019f2a7628819);
        assert(COS_SERIES_EXPS@[19] == -80);
    } else if k == 20 {
        assert(COS_SERIES_SIGNIFS@[40] == 0x4338e5b6dfe14a5143242dfcce3b1d5d);
        assert(COS_SERIES_EXPS@[20] == -70);
    } else if k == 21 {
        assert(COS_SERIES_SIGNIFS@[42] == 0x7950ae900808941ea72b4afe3c2eaeff);
        assert(COS_SERIES_EXPS@[21] == -62);
    } else if k == 22 {
        assert(COS_SERIES_SIGNIFS@[44] == 0x5a09e18ee5f65deec01221a8b0aaa5e1);
        assert(COS_SERIES_EXPS@[22] == -53);
    } else if k == 23 {
        assert(COS_SERIES_SIGNIFS@[46] == 0x6b9fcf9ccee07c476195ac3ba32bfa47);
        assert(COS_SERIES_EXPS@[23] == -45);
    } else if k == 24 {
        assert(COS_SERIES_SIGNIFS@[48] == 0x64e5d2a301f27482eb7c5177e8f93aa3);
        assert(COS_SERIES_EXPS@[24] == -37);
    } else if k == 25 {
        assert(COS_SERIES_SIGNIFS@[50] == 0x47bb63bfe3625ed5136a61eb3fa12fb0);
        assert(COS_SERIES_EXPS@[25] == -29);
    } else if k == 26 {
        assert(COS_SERIES_SIGNIFS@[52] == 0x49f93edde27d71cbbc05b4fa999e392d);
        assert(COS_SERIES_EXPS@[26] == -22);
    } else if k == 27 {
        assert(COS_SERIES_SIGNIFS@[54] == 0x68068068068068068068068068068068);
        assert(COS_SERIES_EXPS@[27] == -16);
    } else if k == 28 {
        assert(COS_SERIES_SIGNIFS@[56] == 0x5b05b05b05b05b05b05b05b05b05b05b);
        assert(COS_SERIES_EXPS@[28] == -10);
    } else if k == 29 {
        assert(COS_SERIES_SIGNIFS@[58] == 0x55555555555555555555555555555555);
        assert(COS_SERIES_EXPS@[29] == -5);
    } else if k == 30 {
        assert(COS_SERIES_SIGNIFS@[60] == 0x40000000000000000000000000000000);
        assert(COS_SERIES_EXPS@[30] == -1);
    } else if k == 31 {
        assert(COS_SERIES_SIGNIFS@[62] == 0x40000000000000000000000000000000);
        assert(COS_SERIES_EXPS@[31] == 0);
    }
}
/// Coefficient `k` of the cosine series as [`Float`].
fn cos_series_entry(k: usize) -> (r: Float)
    requires
        k < 32,
    ensures
        r.wf(),
        r == cos_series_coeff(k as int),
        -285 <= r.exp <= 0,
{
    proof {
        lemma_cos_series_coeff(k as int);
        lemma_pow2_255();
        vstd::arithmetic::power2::lemma_pow2_unfold(255);
    }
    let s: i32 = if k % 2 == 0 { -1 } else { 1 };
    Float::new(s, COS_SERIES_EXPS[k], (COS_SERIES_SIGNIFS[2 * k], COS_SERIES_SIGNIFS[2 * k + 1]))
}

/// `r` is the cosine series evaluated at the square of the non-zero `x`:
/// `x²` rounded as [`Float::mul`] computes it, and all 32 coefficients
/// taken by Horner's scheme.
pub open spec fn is_cos_series_of(x: Float, r: Float) -> bool {
    exists|x2: Float, s: Seq<Float>| #[trigger] is_cos_horner(x2, s) && s.len() == 32 && s[31] == r
        && x2.wf() && parts(x2) == product(x, x)
}

/// Approximates the cosine of `x` (`|x| < ½π`) by the first 32 terms of
/// its series, evaluated at `x²` by fused multiply-adds; for `x = 0` the
/// result is 1.
pub fn approx_cos(x: &Float) -> (r: Float)
    requires
        x.wf(),
        -0x10_0000 <= x.exp <= 0x10_0000,
    ensures
        r.wf(),
        x.signum == 0 ==> r.signum == 1 && r.exp == 0 && r.signif@ == signif_one(),
        x.signum != 0 ==> is_cos_series_of(*x, r),
{
    if x.is_zero() {
        return Float::one();
    }
    let x2 = x.mul(x);
    proof {
        assert(x.signum * x.signum != 0) by (nonlinear_arith)
            requires
                x.signum == 1 || x.signum == -1,
        ;
        assert(-0x20_0000 <= x2.exp <= 0x20_0002);
    }
    let mut res = cos_series_entry(0);
    let ghost mut steps: Seq<Float> = seq![res];
    let mut k: usize = 1;
    while k < 32
        invariant
            1 <= k <= 32,
            x2.wf(),
            -0x20_0000 <= x2.exp <= 0x20_0002,
            res.wf(),
            -(k as int) * 0x20_1000 - 300 <= res.exp <= k * 0x20_1000,
            is_cos_horner(x2, steps),
            steps.len() == k,
            steps[k - 1] == res,
        decreases 32 - k,
    {
        let c = cos_series_entry(k);
        let ghost p = res;
        res.imul_add(&x2, &c);
        proof {
            let lo = -(k as int) * 0x20_1000 - 300 - 0x20_0000;
            let hi = k * 0x20_1000 + 0x20_0002;
            lemma_fma_exp(p, x2, c, res, lo, hi);
            steps = steps.push(res);
            assert(is_fma_result(steps[k - 1], x2, cos_series_coeff(k as int), steps[k as int]));
        }
        k = k + 1;
    }
    proof {
        assert(is_cos_horner(x2, steps) && steps.len() == 32 && steps[31] == res
            && x2.wf() && parts(x2) == product(*x, *x));
    }
    res
}

} // verus!
