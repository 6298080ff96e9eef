//! Arctangent of `f256` values.
use vstd::prelude::*;
use vstd::arithmetic::power2::{pow2, lemma_pow2_pos, lemma_pow2_adds, lemma_pow2_strictly_increases,
    lemma_pow2_unfold, lemma2_to64};
use vstd::arithmetic::div_mod::{lemma_div_is_ordered, lemma_fundamental_div_mod, lemma_mod_bound};
use vstd::arithmetic::mul::{lemma_mul_inequality, lemma_mul_strict_inequality, lemma_mul_nonnegative};
use crate::bits::{p128, p256, lemma_pow2_64_128};
use crate::uint256::{u256, lemma_u256_bound};
use crate::binary256::{f256, sign_of, bexp, fraction, signif, is_nan_spec, is_finite_spec, is_zero_spec,
    exp_bits, lemma_bits_value, lemma_fraction_bound, lemma_hi_fields, EXP_BIAS, SIGNIFICAND_BITS};
use crate::big_float::Float;
use crate::float_add::is_difference;
use crate::float_div::is_reciprocal;
use crate::float_conv::{is_exact_float_of, is_f256_of_float};
use crate::fp492::{FP492, p511, magnitude, lemma_p512};
use crate::fp492_conv::{is_f256_of_fixed, fixed_of_f256, is_float_of_fp492, fp492_of_float};
use crate::approx_atan::{approx_atan, approx_atan_spec};
use crate::f256_consts::{frac_pi_2_bits, frac_pi_4_bits};

verus! {

/// The encoding of `|x|`, i.e. of `x` without its sign bit.
pub open spec fn abs_bits_value(x: f256) -> nat {
    bexp(x) * pow2(236) + fraction(x)
}

/// The encoding of 1.0.
pub open spec fn one_bits() -> nat {
    262143 * pow2(236)
}

/// The encoding of the largest `x` with `atan x = x` (≈ 3.4447491210937738e-36).
pub open spec fn atan_small_cut_off() -> nat {
    0x3ff89250bfe1b082f4f9b8d4ce85ca7fnat * p128() + 0xcf68624f8a91d242f267bb52b5b4432anat
}

/// `r` is the `f256` value nearest to the FP492 value `v`.
pub open spec fn is_f256_of_fp492(r: f256, v: int) -> bool {
    &&& sign_of(r) == (if v < 0 { 1nat } else { 0nat })
    &&& v == 0 ==> is_zero_spec(r)
    &&& is_f256_of_fixed(r, magnitude(v), 492)
}

/// The significand of ◯₂₅₅(½π) as [`Float`].
pub open spec fn frac_pi_2_signif() -> nat {
    0x6487ed5110b4611a62633145c06e0e68nat * p128() + 0x948127044533e63a0105df531d89cd91nat
}

/// `p` is ◯₂₅₅(½π) as [`Float`] with signum `s`.
pub open spec fn is_float_frac_pi_2(p: Float, s: int) -> bool {
    &&& p.signum == s
    &&& p.exp == 0
    &&& p.signif@ == frac_pi_2_signif()
}

/// The arctangent of `x` with `1 < |x| < 2²³⁷` as computed via
/// `atan(x) = ±½π - atan(1/x)`: `1/x` rounded as [`Float`], its arctangent
/// approximated in FP492, and the difference rounded to `f256`.
pub open spec fn atan_beyond_one(x: f256, r: f256) -> bool {
    exists|fx: Float, xr: Float, ax: Float, p: Float, d: Float|
        #![trigger is_exact_float_of(x, fx), is_reciprocal(fx, xr), is_difference(p, ax, d)]
        is_exact_float_of(x, fx) && is_reciprocal(fx, xr)
            && is_float_of_fp492(ax, approx_atan_spec(fp492_of_float(xr)))
            && is_float_frac_pi_2(p, fx.signum as int) && is_difference(p, ax, d) && is_f256_of_float(d, r)
}

/// The encoding of `|x|` is the numeric value of `abs(x)`'s bits.
pub(crate) proof fn lemma_abs_bits(x: f256, a: f256)
    requires
        sign_of(a) == 0,
        bexp(a) == bexp(x),
        fraction(a) == fraction(x),
    ensures
        a.bits@ == abs_bits_value(x),
{
    lemma_bits_value(a);
}

/// An exponent of at least 262144 puts `|x|` above 1.
pub(crate) proof fn lemma_above_one(x: f256)
    requires
        bexp(x) >= 262144,
    ensures
        abs_bits_value(x) > one_bits(),
{
    lemma_pow2_pos(236);
    lemma_mul_inequality(262144, bexp(x) as int, pow2(236) as int);
}

/// 2²⁵⁵ as the product of its upper word and 2¹²⁸.
pub(crate) proof fn lemma_pow2_255()
    ensures
        pow2(255) == 0x80000000000000000000000000000000nat * p128(),
{
    lemma_pow2_64_128();
    lemma2_to64();
    lemma_pow2_adds(64, 63);
    lemma_pow2_adds(32, 31);
    lemma_pow2_adds(127, 128);
}

/// An encoding with the given sign and magnitude encoding.
pub(crate) proof fn lemma_signed_bits(r: f256, s: nat, m: nat)
    requires
        s <= 1,
        m < pow2(255),
        sign_of(r) == s,
        abs_bits_value(r) == m,
    ensures
        r.bits@ == s * pow2(255) + m,
{
    lemma_bits_value(r);
}

/// The sign and magnitude encoding of a value below 2²⁵⁵.
pub(crate) proof fn lemma_bits_split(r: f256, v: nat)
    requires
        r.bits@ == v,
        v < pow2(255),
    ensures
        sign_of(r) == 0,
        abs_bits_value(r) == v,
{
    lemma_bits_value(r);
    lemma_fraction_bound(r);
    lemma_pow2_pos(236);
    lemma_hi_fields(r.bits.hi);
    lemma_mul_nonnegative(bexp(r) as int, pow2(236) as int);
    if sign_of(r) == 1 {
        assert(sign_of(r) * pow2(255) == pow2(255));
        assert(r.bits@ >= pow2(255));
    }
    assert(sign_of(r) == 0);
    assert(sign_of(r) * pow2(255) == 0);
}

/// A value in FP492 below 2⁴⁹² stays in range.
pub(crate) proof fn lemma_fp492_in_range(v: int)
    requires
        -pow2(492) < v < pow2(492),
    ensures
        -(p511() as int) <= v < p511(),
{
    lemma_p512();
    crate::uint512::lemma_u512_bound(crate::uint512::u512 { hi: u256 { hi: 0, lo: 0 }, lo: u256 { hi: 0, lo: 0 } });
    lemma_pow2_unfold(512);
    lemma_pow2_strictly_increases(492, 511);
}

/// The fixed-point value of an `f256` below 1 is below 2⁴⁹².
proof fn lemma_fixed_below_one(x: f256)
    requires
        is_finite_spec(x),
        bexp(x) < 262143,
    ensures
        -pow2(492) < fixed_of_f256(x, 0, 19, 492) < pow2(492),
{
    let e: int = if bexp(x) == 0 { -262142 } else { bexp(x) - 262143 };
    let shr: nat = if e > 0 { 0 } else if e < -492 { 492 } else { (-e) as nat };
    assert(shr >= 1);
    lemma_fraction_bound(x);
    lemma2_to64();
    lemma_pow2_64_128();
    lemma_pow2_adds(237, 256);
    lemma_pow2_adds(492, 1);
    lemma_pow2_strictly_increases(0, shr);
    vstd::arithmetic::mul::lemma_mul_basics(signif(x) as int);
    let n = signif(x) * pow2(0) * p256();
    assert(n < pow2(493)) by {
        lemma_mul_strict_inequality(signif(x) as int, pow2(237) as int, p256() as int);
    }
    vstd::arithmetic::div_mod::lemma_div_is_ordered_by_denominator(n as int, 2, pow2(shr) as int);
    crate::bits::lemma_div_strictly_bounded(n as int, 2, pow2(492) as int);
}

/// A [`Float`] nearest to an FP492 value of magnitude at most 2⁵¹¹ has an
/// exponent in `[-492, 20]`.
pub(crate) proof fn lemma_float_of_fp492_exp(r: Float, v: int)
    requires
        is_float_of_fp492(r, v),
        -(p511() as int) <= v < p511(),
    ensures
        -492 <= r.exp <= 20,
{
    lemma_p512();
    crate::uint512::lemma_u512_bound(crate::uint512::u512 { hi: u256 { hi: 0, lo: 0 }, lo: u256 { hi: 0, lo: 0 } });
    lemma_pow2_unfold(512);
    if v != 0 {
        let m = magnitude(v);
        assert(0 < m <= pow2(511));
        if m >= pow2(255) {
            let k = choose|k: nat| 1 <= k && pow2(254) <= m / pow2(k) < pow2(255)
                && #[trigger] crate::fp492_conv::is_rounded_at(r, m, k, 492);
            if k >= 258 {
                lemma_pow2_pos(k);
                lemma_pow2_adds(254, k);
                lemma_pow2_strictly_increases(511, 254 + k);
                lemma_fundamental_div_mod(m as int, pow2(k) as int);
                lemma_mod_bound(m as int, pow2(k) as int);
                lemma_mul_inequality(pow2(254) as int, (m / pow2(k)) as int, pow2(k) as int);
                assert(m >= pow2(254) * pow2(k));
            }
        } else {
            let j = choose|j: nat| pow2(254) <= m * pow2(j) < pow2(255)
                && r.exp == 254 - 492 - j && #[trigger] (m * pow2(j)) == r.signif@;
            if j >= 255 {
                if j > 255 {
                    lemma_pow2_strictly_increases(255, j);
                }
                lemma_mul_inequality(1, m as int, pow2(j) as int);
            }
        }
    }
}

/// For `1 < |x| < 2²³⁷`, the exact [`Float`] of `x` has an exponent in
/// `[0, 236]`, and a significand above 2²⁵⁴ where the exponent is 0.
pub(crate) proof fn lemma_exact_beyond_one(x: f256, fx: Float)
    requires
        is_finite_spec(x),
        one_bits() < abs_bits_value(x),
        bexp(x) < 262380,
        is_exact_float_of(x, fx),
    ensures
        0 <= fx.exp <= 236,
        fx.signum != 0,
        fx.exp == 0 ==> pow2(254) < fx.signif@,
{
    lemma_fraction_bound(x);
    lemma2_to64();
    lemma_pow2_pos(236);
    if bexp(x) < 262143 {
        lemma_mul_inequality(bexp(x) as int, 262142, pow2(236) as int);
        assert(false);
    }
    assert(!is_zero_spec(x));
    assert(fx.exp == bexp(x) - 262143);
    assert(fx.signif@ == signif(x) * pow2(18));
    lemma_pow2_adds(236, 18);
    if fx.exp == 0 {
        assert(fraction(x) > 0);
        lemma_mul_strict_inequality(pow2(236) as int, signif(x) as int, pow2(18) as int);
    }
}

/// The fixed-point value of a [`Float`] below 1 lies below 2⁴⁹².
pub(crate) proof fn lemma_fixed_of_float_below_one(q: Float)
    requires
        q.wf(),
        q.exp <= -1,
    ensures
        -pow2(492) < fp492_of_float(q) < pow2(492),
{
    lemma2_to64();
    lemma_pow2_pos(492);
    lemma_pow2_pos(256);
    let k = (18 - q.exp) as nat;
    if k < 512 {
        let n = q.signif@ * p256();
        lemma_pow2_64_128();
        lemma_pow2_adds(255, 256);
        lemma_pow2_adds(19, 492);
        lemma_pow2_strictly_increases(254, 255);
        if q.signum != 0 {
            lemma_mul_strict_inequality(q.signif@ as int, pow2(255) as int, p256() as int);
        } else {
            vstd::arithmetic::mul::lemma_mul_basics(p256() as int);
            assert(n == 0);
        }
        lemma_pow2_strictly_increases(0, 19);
        if k > 19 {
            lemma_pow2_strictly_increases(19, k);
        }
        vstd::arithmetic::div_mod::lemma_div_is_ordered_by_denominator(n as int, pow2(19) as int, pow2(k) as int);
        crate::bits::lemma_div_strictly_bounded(n as int, pow2(19) as int, pow2(492) as int);
        let d = n / pow2(k);
        assert(fp492_of_float(q) == q.signum * d);
        assert(-pow2(492) < q.signum * d < pow2(492)) by (nonlinear_arith)
            requires
                q.signum == 1 || q.signum == -1 || q.signum == 0,
                0 <= d < pow2(492),
        ;
    }
}

/// The reciprocal of a [`Float`] above 1 lies below 1.
proof fn lemma_reciprocal_below_one(fx: Float, xr: Float)
    requires
        fx.signum != 0,
        0 <= fx.exp <= 236,
        fx.exp == 0 ==> pow2(254) < fx.signif@,
        is_reciprocal(fx, xr),
    ensures
        -1000 <= xr.exp <= -1,
        -pow2(492) < fp492_of_float(xr) < pow2(492),
{
    lemma_fixed_of_float_below_one(xr);
}

/// The arctangent of `x` with `1 < |x| < 2²³⁷`, by
/// `atan(±x) = ±½π - atan(1/x)`.
fn atan_of_large(x: &f256) -> (r: f256)
    requires
        is_finite_spec(*x),
        one_bits() < abs_bits_value(*x),
        bexp(*x) < 262380,
    ensures
        atan_beyond_one(*x, r),
{
    let fx = Float::from_f256(x);
    proof {
        lemma_exact_beyond_one(*x, fx);
    }
    let xr = fx.recip();
    proof {
        assert(is_reciprocal(fx, xr));
        lemma_reciprocal_below_one(fx, xr);
        lemma_fp492_in_range(fp492_of_float(xr));
    }
    let xr_fixed = FP492::from_float(&xr);
    let a = approx_atan(&xr_fixed);
    let ax = a.to_float();
    proof {
        lemma_p512();
        crate::uint512::lemma_u512_bound(a.0);
        lemma_float_of_fp492_exp(ax, a.value());
    }
    let mut p = Float::frac_pi_2();
    if x.is_sign_negative() {
        p = p.neg();
    }
    let d = p.sub(&ax);
    let res = f256::from_float(&d);
    proof {
        assert(is_exact_float_of(*x, fx));
        assert(is_reciprocal(fx, xr));
        assert(is_float_frac_pi_2(p, fx.signum as int));
        assert(is_difference(p, ax, d));
        assert(is_float_of_fp492(ax, approx_atan_spec(fp492_of_float(xr))));
        assert(is_f256_of_float(d, res));
    }
    res
}

impl f256 {
    /// Computes the arctangent of `self` (in radians), in the range
    /// `[-½π, ½π]`.
    pub fn atan(&self) -> (r: Self)
        ensures
            is_nan_spec(*self) ==> is_nan_spec(r),
            !is_nan_spec(*self) && bexp(*self) >= 262380 ==>
                r.bits@ == sign_of(*self) * pow2(255) + frac_pi_2_bits(),
            bexp(*self) < 262380 && abs_bits_value(*self) <= atan_small_cut_off() ==> r == *self,
            atan_small_cut_off() < abs_bits_value(*self) < one_bits() ==>
                is_f256_of_fp492(r, approx_atan_spec(fixed_of_f256(*self, 0, 19, 492))),
            abs_bits_value(*self) == one_bits() ==>
                r.bits@ == sign_of(*self) * pow2(255) + frac_pi_4_bits(),
            one_bits() < abs_bits_value(*self) && bexp(*self) < 262380 ==> atan_beyond_one(*self, r),
    {
        // If self is NAN, atan self is NAN.
        if self.is_nan() {
            proof {
                lemma_above_one(*self);
            }
            return f256::nan();
        }
        let abs = self.abs();
        proof {
            lemma_abs_bits(*self, abs);
            lemma_hi_fields(self.bits.hi);
            lemma_pow2_64_128();
            lemma_fraction_bound(*self);
        }
        // If |self| >= 2²³⁷, atan self = ±½π.
        if exp_bits(self.bits.hi) >= EXP_BIAS + SIGNIFICAND_BITS {
            let res = f256::frac_pi_2();
            proof {
                lemma_above_one(*self);
                lemma_pow2_255();
                lemma_bits_split(res, frac_pi_2_bits());
            }
            if self.is_sign_negative() {
                let neg = res.negated();
                proof {
                    lemma_signed_bits(neg, 1, frac_pi_2_bits());
                }
                return neg;
            }
            return res;
        }
        // If |self| is very small, atan self = self.
        let small = u256::new(0x3ff89250bfe1b082f4f9b8d4ce85ca7fu128, 0xcf68624f8a91d242f267bb52b5b4432au128);
        if !small.lt(&abs.bits) {
            return *self;
        }
        proof {
            assert(is_finite_spec(*self));
            lemma_pow2_adds(236, 19);
        }
        // Now we have ε < |self| < 2²³⁷.
        let one = f256::one();
        proof {
            lemma_abs_bits(one, one);
        }
        if abs.bits.lt(&one.bits) {
            proof {
                if bexp(*self) >= 262143 {
                    lemma_mul_inequality(262143, bexp(*self) as int, pow2(236) as int);
                }
                lemma_fixed_below_one(*self);
                lemma_fp492_in_range(fixed_of_f256(*self, 0, 19, 492));
            }
            let fx = FP492::from_f256(self);
            let a = approx_atan(&fx);
            f256::from_fp492(&a)
        } else if one.bits.lt(&abs.bits) {
            // atan(±x) = ±½π - atan(1/x) for |x| > 1
            atan_of_large(self)
        } else {
            // atan(±1) = ±¼π
            let res = f256::frac_pi_4();
            proof {
                lemma_pow2_255();
                lemma_bits_split(res, frac_pi_4_bits());
            }
            if self.is_sign_negative() {
                let neg = res.negated();
                proof {
                    lemma_signed_bits(neg, 1, frac_pi_4_bits());
                }
                return neg;
            }
            res
        }
    }
}

} // verus!
