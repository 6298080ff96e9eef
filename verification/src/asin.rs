//! Arcsine and arccosine of `f256` values.
use vstd::prelude::*;
use vstd::arithmetic::power2::{pow2, lemma_pow2_pos, lemma_pow2_adds, lemma_pow2_strictly_increases,
    lemma2_to64};
use vstd::arithmetic::div_mod::lemma_div_is_ordered_by_denominator;
use vstd::arithmetic::mul::{lemma_mul_inequality, lemma_mul_strict_inequality};
use crate::bits::{p128, lemma_pow2_64_128, lemma_div_strictly_bounded};
use crate::uint256::{u256, div_pow2_round};
use crate::binary256::{f256, sign_of, bexp, fraction, signif, is_nan_spec, is_finite_spec, is_zero_spec,
    lemma_fraction_bound};
use crate::big_float::{Float, signif_one, round_product};
use crate::float_mul::{parts, product};
use crate::float_add::{is_difference, is_aligned_sum, lemma_difference_exp};
use crate::float_div::{is_reciprocal, is_quotient};
use crate::float_sqrt::is_float_sqrt;
use crate::float_conv::is_exact_float_of;
use crate::fp492::{FP492, lemma_p512, lemma_signed_pattern_congruent};
use crate::fp492_conv::fp492_of_float;
use crate::fixed_series::{table_entry, wrap492};
use crate::approx_atan::{approx_atan, approx_atan_spec};
use crate::reduce::{REDUCTION_CONSTS, fp_frac_pi_2, fp_frac_pi_4};
use crate::atan::{abs_bits_value, one_bits, is_f256_of_fp492, lemma_abs_bits,
    lemma_pow2_255, lemma_signed_bits, lemma_bits_split, lemma_fixed_of_float_below_one};
use crate::f256_consts::{frac_pi_2_bits, pi_bits};

verus! {

/// The encoding of the largest `x` with `asin x = x` (≈ 4.3401179238484127e-36).
pub open spec fn asin_small_cut_off() -> nat {
    0x3ff89713765fce269de05bbe5d2df6f0nat * p128() + 0xb6f406126cab80a1f5eca809c5595b15nat
}

/// `o` is 1 as [`Float`].
pub open spec fn is_float_one(o: Float) -> bool {
    &&& o.signum == 1
    &&& o.exp == 0
    &&& o.signif@ == signif_one()
}

/// `v` is the arctangent of the [`Float`] `x` in FP492 as computed here:
/// `approx_atan(x)` for `|x| < 1`, `±½π - approx_atan(1/x)` for `|x| > 1`
/// (`1/x` rounded as [`Float`]), and `±¼π` for `|x| = 1`.
pub open spec fn is_fixed_atan(x: Float, v: int) -> bool {
    if x.signum == 0 || x.exp < 0 {
        v == approx_atan_spec(fp492_of_float(x))
    } else if x.exp > 0 || x.signif@ > signif_one() {
        exists|xr: Float| #[trigger] is_reciprocal(x, xr)
            && v == wrap492(x.signum * fp_frac_pi_2() - approx_atan_spec(fp492_of_float(xr)))
    } else {
        v == wrap492(x.signum * fp_frac_pi_4())
    }
}

/// `q` is `x/√(1-x²)` for the finite `f256` value `x`, each step rounded as
/// [`Float`] computes it.
pub open spec fn is_asin_quotient(x: f256, q: Float) -> bool {
    exists|fx: Float, sq: Float, o: Float, d: Float, s: Float|
        #![trigger is_exact_float_of(x, fx), is_difference(o, sq, d), is_quotient(fx, s, q)]
        is_exact_float_of(x, fx) && sq.wf() && parts(sq) == product(fx, fx) && is_float_one(o)
            && is_difference(o, sq, d) && is_float_sqrt(d, s) && is_quotient(fx, s, q)
}

/// The arcsine of `x` with `|x| < 1` as computed via
/// `asin(x) = atan(x/√(1-x²))`, the arctangent taken in FP492 and rounded
/// to `f256`.
pub open spec fn asin_via_atan(x: f256, r: f256) -> bool {
    exists|q: Float, v: int| #![trigger is_asin_quotient(x, q), is_fixed_atan(q, v)]
        is_asin_quotient(x, q) && is_fixed_atan(q, v) && is_f256_of_fp492(r, v)
}

/// The arccosine of `x` with `|x| < 1` as computed via
/// `acos(x) = ½π - atan(x/√(1-x²))`, the difference taken in FP492 and
/// rounded to `f256`.
pub open spec fn acos_via_atan(x: f256, r: f256) -> bool {
    exists|q: Float, v: int| #![trigger is_asin_quotient(x, q), is_fixed_atan(q, v)]
        is_asin_quotient(x, q) && is_fixed_atan(q, v) && is_f256_of_fp492(r, wrap492(fp_frac_pi_2() - v))
}

/// A value with `|x| < 1` is finite.
pub(crate) proof fn lemma_below_one_finite(x: f256)
    requires
        abs_bits_value(x) < one_bits(),
    ensures
        is_finite_spec(x),
{
    if bexp(x) >= 262143 {
        lemma_pow2_pos(236);
        lemma_mul_inequality(262143, bexp(x) as int, pow2(236) as int);
    }
}

/// For `|x| < 1`, the exact [`Float`] of `x` is below 1 and its significand
/// has at most 237 significant bits.
pub(crate) proof fn lemma_exact_below_one(x: f256, fx: Float)
    requires
        is_finite_spec(x),
        abs_bits_value(x) < one_bits(),
        is_exact_float_of(x, fx),
    ensures
        fx.signum != 0 ==> -262378 <= fx.exp <= -1 && fx.signif@ <= pow2(255) - pow2(18),
        fx.signum == 0 ==> fx.exp == 0,
{
    lemma_fraction_bound(x);
    lemma2_to64();
    lemma_pow2_pos(18);
    lemma_pow2_adds(237, 18);
    if fx.signum != 0 {
        assert(!is_zero_spec(x));
        if bexp(x) != 0 {
            if bexp(x) >= 262143 {
                lemma_mul_inequality(262143, bexp(x) as int, pow2(236) as int);
                assert(false);
            }
            assert(fx.signif@ == signif(x) * pow2(18));
            lemma_mul_inequality(signif(x) as int, (pow2(237) - 1) as int, pow2(18) as int);
            assert((pow2(237) - 1) * pow2(18) == pow2(255) - pow2(18)) by (nonlinear_arith)
                requires
                    pow2(255) == pow2(237) * pow2(18),
            ;
        } else {
            let k = (-262124 - fx.exp) as nat;
            assert(fx.signif@ == signif(x) * pow2(k));
            assert(k >= 19);
            lemma_pow2_strictly_increases(18, k);
            if k > 254 {
                if k > 255 {
                    lemma_pow2_strictly_increases(255, k);
                }
                assert(signif(x) >= 1);
                lemma_mul_inequality(1, signif(x) as int, pow2(k) as int);
                assert(false);
            }
            // the significand is a multiple of 2ᵏ below 2²⁵⁵
            lemma_pow2_adds((255 - k) as nat, k);
            if signif(x) >= pow2((255 - k) as nat) {
                lemma_mul_inequality(pow2((255 - k) as nat) as int, signif(x) as int, pow2(k) as int);
                assert(false);
            }
            lemma_mul_inequality(signif(x) as int, pow2((255 - k) as nat) - 1, pow2(k) as int);
            assert((pow2((255 - k) as nat) - 1) * pow2(k) == pow2(255) - pow2(k)) by (nonlinear_arith)
                requires
                    pow2(255) == pow2((255 - k) as nat) * pow2(k),
            ;
        }
    }
}

/// The square of a [`Float`] below 1 with at most 237 significant bits is
/// below 1: rounding never carries it up to 1.
pub(crate) proof fn lemma_square_below_one(fx: Float, sq: Float)
    requires
        fx.wf(),
        fx.signum != 0,
        fx.exp <= -1,
        fx.signif@ <= pow2(255) - pow2(18),
        sq.wf(),
        parts(sq) == product(fx, fx),
    ensures
        sq.signum == 1,
        sq.exp <= 2 * fx.exp + 1,
{
    let m = fx.signif@;
    let p = m * m;
    let t = pow2(18);
    let tt = pow2(255);
    lemma2_to64();
    lemma_pow2_pos(18);
    lemma_pow2_adds(18, 18);
    lemma_pow2_adds(255, 255);
    lemma_pow2_strictly_increases(36, 255);
    assert(fx.signum * fx.signum == 1) by (nonlinear_arith)
        requires
            fx.signum == 1 || fx.signum == -1,
    ;
    let (mr, inc) = round_product(p);
    if p >= pow2(509) {
        assert(p <= (tt - t) * (tt - t)) by (nonlinear_arith)
            requires
                0 <= m <= tt - t,
                p == m * m,
        ;
        assert((tt - t) * (tt - t) < (tt - 2 * t + 1) * tt) by (nonlinear_arith)
            requires
                t * t < tt,
        ;
        lemma_div_strictly_bounded(p as int, tt as int, tt - 2 * t + 1);
        let q = p / tt;
        assert(div_pow2_round(p, 255) <= q + 1);
        assert(mr != pow2(255));
        assert(inc == 1);
    }
}

/// `1 - x²` for a square `x²` below 1 is positive and at most 1.
pub(crate) proof fn lemma_one_minus_square(o: Float, sq: Float, d: Float)
    requires
        is_float_one(o),
        sq.wf(),
        sq.signum >= 0,
        sq.signum == 0 ==> sq.exp == 0,
        sq.signum != 0 ==> sq.exp <= -1,
        is_difference(o, sq, d),
    ensures
        d.signum == 1,
        d.exp <= 0,
{
    let b = sq.neg_spec();
    assert(o != sq);
    assert(is_aligned_sum(o, b, d));
    if b.signum != 0 && -b.exp <= 254 {
        let k = (-b.exp) as nat;
        lemma2_to64();
        lemma_pow2_strictly_increases(254, 255);
        lemma_pow2_strictly_increases(0, k);
        lemma_div_is_ordered_by_denominator(sq.signif@ as int, 2, pow2(k) as int);
        vstd::arithmetic::power2::lemma_pow2_unfold(255);
        lemma_div_strictly_bounded(sq.signif@ as int, 2, pow2(254) as int);
        assert(o.signif@ / pow2(0) == o.signif@);
        assert(sq.signif@ / pow2(k) < pow2(254));
    }
}

/// `x/√(1-x²)` for the finite `x` with `|x| < 1`.
fn asin_quotient(x: &f256) -> (q: Float)
    requires
        is_finite_spec(*x),
        abs_bits_value(*x) < one_bits(),
    ensures
        q.wf(),
        -0x10_0000 <= q.exp <= 0x10_0000,
        is_asin_quotient(*x, q),
{
    let fx = Float::from_f256(x);
    proof {
        lemma_exact_below_one(*x, fx);
    }
    let sq = fx.square();
    proof {
        if fx.signum != 0 {
            lemma_square_below_one(fx, sq);
        } else {
            assert(sq.signum == 0);
            assert(sq.signif@ == 0);
        }
    }
    let one = Float::one();
    let d = one.sub(&sq);
    proof {
        lemma_one_minus_square(one, sq, d);
        lemma_difference_exp(one, sq, d, -0x10_0000, 0);
    }
    let s = d.sqrt();
    proof {
        assert(s.signum == 1);
        assert(-0x8_1000 <= s.exp <= 0);
    }
    let q = fx.div(&s);
    proof {
        assert(is_float_one(one));
        assert(is_float_sqrt(d, s));
        assert(is_quotient(fx, s, q));
        assert(is_exact_float_of(*x, fx));
        assert(is_difference(one, sq, d));
    }
    q
}

/// The reciprocal of a [`Float`] above 1 lies below 1.
proof fn lemma_reciprocal_below_one(x: Float, xr: Float)
    requires
        x.wf(),
        x.signum != 0,
        0 <= x.exp,
        x.exp > 0 || x.signif@ > signif_one(),
        is_reciprocal(x, xr),
    ensures
        -pow2(492) < fp492_of_float(xr) < pow2(492),
{
    assert(xr.exp <= -1);
    lemma_fixed_of_float_below_one(xr);
}

/// `±½π` in FP492, with the sign of `s`.
fn fixed_frac_pi_2(s: i32) -> (r: FP492)
    requires
        s == 1 || s == -1,
    ensures
        r.value() == wrap492(s * fp_frac_pi_2()),
{
    let c = table_entry(&REDUCTION_CONSTS, 1);
    if s < 0 {
        c.neg()
    } else {
        proof {
            lemma_p512();
            crate::uint512::lemma_u512_bound(c.0);
            crate::fp492::lemma_pattern_signed_pub(c.value());
        }
        c
    }
}

/// `±½π - approx_atan(1/x)` for the [`Float`] `x` with `|x| > 1`.
fn fixed_atan_beyond_one(x: &Float) -> (r: FP492)
    requires
        x.wf(),
        x.signum != 0,
        0 <= x.exp <= 0x3fff_ffff,
        x.exp > 0 || x.signif@ > signif_one(),
    ensures
        exists|xr: Float| #[trigger] is_reciprocal(*x, xr)
            && r.value() == wrap492(x.signum * fp_frac_pi_2() - approx_atan_spec(fp492_of_float(xr))),
{
    let xr = x.recip();
    proof {
        lemma_reciprocal_below_one(*x, xr);
    }
    let a = approx_atan(&FP492::from_float(&xr));
    let c = fixed_frac_pi_2(x.signum());
    let res = c.sub(&a);
    proof {
        lemma_signed_pattern_congruent(x.signum * fp_frac_pi_2(), -a.value());
        assert(is_reciprocal(*x, xr)
            && res.value() == wrap492(x.signum * fp_frac_pi_2() - approx_atan_spec(fp492_of_float(xr))));
    }
    res
}

/// `±¼π` in FP492, with the sign of `s`.
fn fixed_frac_pi_4(s: i32) -> (r: FP492)
    requires
        s == 1 || s == -1,
    ensures
        r.value() == wrap492(s * fp_frac_pi_4()),
{
    let c = table_entry(&REDUCTION_CONSTS, 0);
    if s < 0 {
        c.neg()
    } else {
        proof {
            lemma_p512();
            crate::uint512::lemma_u512_bound(c.0);
            crate::fp492::lemma_pattern_signed_pub(c.value());
        }
        c
    }
}

/// The arctangent of the [`Float`] `x` as FP492 value, by
/// `atan(±x) = ±½π - atan(1/x)` for `|x| > 1`.
fn fixed_atan(x: &Float) -> (r: FP492)
    requires
        x.wf(),
        -0x3fff_ffff <= x.exp <= 0x3fff_ffff,
    ensures
        is_fixed_atan(*x, r.value()),
{
    let one = Float::one();
    if x.signum() == 0 || x.exp() < 0 {
        proof {
            if x.signum == 0 {
                assert(x.signif@ == 0);
                assert(fp492_of_float(*x) == 0);
                lemma_pow2_pos(492);
            } else {
                lemma_fixed_of_float_below_one(*x);
            }
        }
        approx_atan(&FP492::from_float(x))
    } else if x.exp() > 0 || one.signif().lt(&x.signif()) {
        // atan(±x) = ±½π - atan(1/x) for |x| > 1
        fixed_atan_beyond_one(x)
    } else {
        // atan(±1) = ±¼π
        fixed_frac_pi_4(x.signum())
    }
}

/// The cut-off for small arguments lies below 1.
proof fn lemma_small_cut_off_below_one()
    ensures
        asin_small_cut_off() < one_bits(),
{
    lemma_fraction_bound(f256 { bits: u256 { hi: 0, lo: 0 } });
}

impl f256 {
    /// Computes the arcsine of `self` (in radians), in the range
    /// `[-½π, ½π]`, or NaN where `self` is NaN or outside `[-1, 1]`.
    pub fn asin(&self) -> (r: Self)
        ensures
            abs_bits_value(*self) > one_bits() ==> is_nan_spec(r),
            abs_bits_value(*self) == one_bits() ==>
                r.bits@ == sign_of(*self) * pow2(255) + frac_pi_2_bits(),
            abs_bits_value(*self) <= asin_small_cut_off() ==> r == *self,
            asin_small_cut_off() < abs_bits_value(*self) < one_bits() ==> asin_via_atan(*self, r),
    {
        let abs = self.abs();
        let one = f256::one();
        proof {
            lemma_abs_bits(*self, abs);
            lemma_abs_bits(one, one);
            lemma_small_cut_off_below_one();
            crate::binary256::lemma_hi_fields(self.bits.hi);
        }
        // If self is NaN or |self| > 1, asin self is NaN.
        if one.bits.lt(&abs.bits) {
            return f256::nan();
        }
        // asin(±1) = ±½π
        if !abs.bits.lt(&one.bits) {
            let res = f256::frac_pi_2();
            proof {
                lemma_pow2_255();
                lemma_bits_split(res, frac_pi_2_bits());
            }
            if self.is_sign_negative() {
                let neg = res.negated();
                proof {
                    lemma_signed_bits(neg, 1, frac_pi_2_bits());
                }
                return neg;
            }
            return res;
        }
        // If |self| is very small, asin self = self.
        let small = u256::new(0x3ff89713765fce269de05bbe5d2df6f0u128, 0xb6f406126cab80a1f5eca809c5595b15u128);
        if !small.lt(&abs.bits) {
            return *self;
        }
        proof {
            lemma_below_one_finite(*self);
        }
        // Now we have ε < |self| < 1: asin(x) = atan(x/√(1-x²)).
        let q = asin_quotient(self);
        let a = fixed_atan(&q);
        let res = f256::from_fp492(&a);
        proof {
            assert(is_asin_quotient(*self, q) && is_fixed_atan(q, a.value()) && is_f256_of_fp492(res, a.value()));
        }
        res
    }

    /// Computes the arccosine of `self` (in radians), in the range `[0, π]`,
    /// or NaN where `self` is NaN or outside `[-1, 1]`.
    pub fn acos(&self) -> (r: Self)
        ensures
            abs_bits_value(*self) > one_bits() ==> is_nan_spec(r),
            abs_bits_value(*self) == one_bits() && sign_of(*self) == 0 ==> r.bits@ == 0,
            abs_bits_value(*self) == one_bits() && sign_of(*self) == 1 ==> r.bits@ == pi_bits(),
            abs_bits_value(*self) < one_bits() ==> acos_via_atan(*self, r),
    {
        let abs = self.abs();
        let one = f256::one();
        proof {
            lemma_abs_bits(*self, abs);
            lemma_abs_bits(one, one);
        }
        // If self is NaN or |self| > 1, acos self is NaN.
        if one.bits.lt(&abs.bits) {
            return f256::nan();
        }
        // acos(1) = 0, acos(-1) = π
        if !abs.bits.lt(&one.bits) {
            if self.is_sign_negative() {
                let res = f256::pi();
                proof {
                    lemma_pow2_255();
                    lemma_bits_split(res, pi_bits());
                }
                return res;
            }
            let res = f256::zero();
            proof {
                lemma_pow2_pos(255);
                lemma_signed_bits(res, 0, 0);
            }
            return res;
        }
        proof {
            lemma_below_one_finite(*self);
        }
        // Now we have |self| < 1: acos(x) = ½π - atan(x/√(1-x²)).
        let q = asin_quotient(self);
        let a = fixed_atan(&q);
        let c = table_entry(&REDUCTION_CONSTS, 1);
        let d = c.sub(&a);
        let res = f256::from_fp492(&d);
        proof {
            assert(is_asin_quotient(*self, q) && is_fixed_atan(q, a.value())
                && is_f256_of_fp492(res, wrap492(fp_frac_pi_2() - a.value())));
        }
        res
    }
}

} // verus!
