//! Four-quadrant arctangent of `f256` values.
use vstd::prelude::*;
use vstd::arithmetic::power2::{pow2, lemma_pow2_pos, lemma_pow2_adds, lemma_pow2_strictly_increases, lemma2_to64};
use vstd::arithmetic::mul::{lemma_mul_inequality, lemma_mul_strict_inequality, lemma_mul_nonnegative};
use crate::bits::{p128, lemma_pow2_64_128};
use crate::binary256::{f256, sign_of, bexp, fraction, signif, is_nan_spec, is_inf_spec, is_finite_spec,
    is_zero_spec, lemma_bits_value, lemma_fraction_bound, lemma_hi_fields};
use crate::bits::p256;
use crate::big_float::Float;
use crate::float_add::{is_aligned_sum, is_normalized_of};
use crate::float_conv::is_exact_float_of;
use crate::fp492::{FP492, p511, lemma_p512};
use crate::approx_atan::{approx_atan, approx_atan_spec};
use crate::atan::{abs_bits_value, lemma_abs_bits, lemma_signed_bits, lemma_bits_split, lemma_pow2_255,
    lemma_fp492_in_range, lemma_fixed_of_float_below_one, lemma_float_of_fp492_exp, is_float_frac_pi_2};
use crate::float_add::{is_difference, lemma_sum_exp};
use crate::float_div::is_quotient;
use crate::float_conv::is_f256_of_float;
use crate::fp492_conv::{is_float_of_fp492, fp492_of_float};
use crate::f256_consts::{pi_bits, frac_pi_2_bits, frac_pi_4_bits, frac_3_pi_4_bits};

verus! {

/// `p` is ◯₂₅₅(¼π) as [`Float`] with signum `s`.
pub open spec fn is_float_frac_pi_4(p: Float, s: int) -> bool {
    &&& p.signum == s
    &&& p.exp == -1
    &&& p.signif@ == crate::atan::frac_pi_2_signif()
}

/// `p` is ◯₂₅₅(π) as [`Float`].
pub open spec fn is_float_pi(p: Float) -> bool {
    &&& p.signum == 1
    &&& p.exp == 1
    &&& p.signif@ == crate::atan::frac_pi_2_signif()
}

/// `t` is the arctangent of `y / x` in `[-½π, ½π]` for finite non-zero
/// `y` and `x`, given exactly as `fy` and `fx`, with `ay` and `ax` the
/// encodings of their magnitudes: the arctangent of the quotient of the
/// smaller by the larger magnitude, approximated in FP492; `±½π` minus
/// that where `|y| > |x|`; and `±¼π` where `|y| = |x|`.
pub open spec fn atan2_base(fy: Float, fx: Float, ay: nat, ax: nat, t: Float) -> bool {
    let s = fy.signum * fx.signum;
    if ay < ax {
        exists|q: Float| #[trigger] is_quotient(fy, fx, q)
            && is_float_of_fp492(t, approx_atan_spec(fp492_of_float(q)))
    } else if ax < ay {
        exists|q: Float, a: Float, p: Float|
            #![trigger is_quotient(fx, fy, q), is_difference(p, a, t)]
            is_quotient(fx, fy, q) && is_float_of_fp492(a, approx_atan_spec(fp492_of_float(q)))
                && is_float_frac_pi_2(p, s) && is_difference(p, a, t)
    } else {
        is_float_frac_pi_4(t, s)
    }
}

/// `u` is `t` moved into the quadrant of `(x, y)` by the signs `sy` of `y`
/// and `sx` of `x`: `t + π` for `x < 0 <= y`, `t - π` for `x < 0` and
/// `y < 0`, else `t`.
pub open spec fn atan2_quadrant(sy: nat, sx: nat, t: Float, u: Float) -> bool {
    if sx == 1 && sy == 0 {
        exists|p: Float| #[trigger] is_float_pi(p) && u.wf() && is_aligned_sum(t, p, u)
    } else if sx == 1 && sy == 1 {
        exists|p: Float| #[trigger] is_float_pi(p) && is_difference(t, p, u)
    } else {
        u == t
    }
}

/// The four-quadrant arctangent of finite non-zero `y` and `x`, rounded
/// to `f256`.
pub open spec fn atan2_of_finite(y: f256, x: f256, r: f256) -> bool {
    exists|fy: Float, fx: Float, t: Float, u: Float|
        #![trigger is_exact_float_of(y, fy), is_exact_float_of(x, fx), is_f256_of_float(u, r),
            atan2_base(fy, fx, abs_bits_value(y), abs_bits_value(x), t)]
        is_exact_float_of(y, fy) && is_exact_float_of(x, fx)
            && atan2_base(fy, fx, abs_bits_value(y), abs_bits_value(x), t)
            && atan2_quadrant(sign_of(y), sign_of(x), t, u) && is_f256_of_float(u, r)
}

/// The exponent of the exact [`Float`] of a finite non-zero `f256`.
pub(crate) proof fn lemma_exact_exp_range(x: f256, fx: Float)
    requires
        is_finite_spec(x),
        !is_zero_spec(x),
        is_exact_float_of(x, fx),
    ensures
        -262400 <= fx.exp <= 262143,
        fx.signum != 0,
{
    if bexp(x) == 0 {
        let k = (-262124 - fx.exp) as nat;
        lemma_fraction_bound(x);
        assert(signif(x) >= 1);
        if k >= 255 {
            if k > 255 {
                lemma_pow2_strictly_increases(255, k);
            }
            lemma_mul_inequality(1, signif(x) as int, pow2(k) as int);
        }
    }
}

/// The order of the magnitudes of two finite non-zero `f256` values
/// carries over to the exponents and significands of their exact
/// [`Float`]s.
pub(crate) proof fn lemma_float_order(y: f256, x: f256, fy: Float, fx: Float)
    requires
        is_finite_spec(y),
        is_finite_spec(x),
        !is_zero_spec(y),
        !is_zero_spec(x),
        is_exact_float_of(y, fy),
        is_exact_float_of(x, fx),
        abs_bits_value(y) < abs_bits_value(x),
    ensures
        fy.exp <= fx.exp,
        fy.exp == fx.exp ==> fy.signif@ < fx.signif@,
{
    lemma_fraction_bound(y);
    lemma_fraction_bound(x);
    lemma_pow2_pos(236);
    lemma2_to64();
    let (by, bx) = (bexp(y), bexp(x));
    if by > bx {
        lemma_mul_inequality(bx as int + 1, by as int, pow2(236) as int);
        assert((bx + 1) * pow2(236) == bx * pow2(236) + pow2(236)) by (nonlinear_arith);
        assert(false);
    }
    if by == bx {
        assert(fraction(y) < fraction(x));
        if by == 0 {
            let a = (-262124 - fy.exp) as nat;
            let b = (-262124 - fx.exp) as nat;
            if fy.exp > fx.exp {
                // 2²⁵⁴ <= fraction(y)⋅2ᵃ and fraction(x)⋅2ᵇ < 2²⁵⁵ with b > a
                lemma_pow2_adds(a, (b - a) as nat);
                lemma_pow2_pos(a);
                lemma_pow2_strictly_increases(0, (b - a) as nat);
                lemma_mul_inequality(fraction(y) as int + 1, fraction(x) as int, pow2(a) as int);
                lemma_mul_inequality(2, pow2((b - a) as nat) as int, (fraction(x) * pow2(a)) as int);
                assert(fraction(x) * pow2(b) == (fraction(x) * pow2(a)) * pow2((b - a) as nat)) by (nonlinear_arith)
                    requires
                        pow2(b) == pow2(a) * pow2((b - a) as nat),
                ;
                assert((fraction(y) + 1) * pow2(a) == fraction(y) * pow2(a) + pow2(a)) by (nonlinear_arith);
                lemma_pow2_adds(254, 1);
                assert(false);
            }
            if fy.exp == fx.exp {
                lemma_pow2_pos(a);
                lemma_mul_strict_inequality(fraction(y) as int, fraction(x) as int, pow2(a) as int);
            }
        } else {
            lemma_pow2_pos(18);
            lemma_mul_strict_inequality(signif(y) as int, signif(x) as int, pow2(18) as int);
        }
    } else {
        if by == 0 {
            assert(fy.exp < -262142);
        }
    }
}

/// `c` (non-negative) with its sign bit set to `s`.
fn with_sign(c: f256, s: u32) -> (r: f256)
    requires
        s <= 1,
        c.bits@ < pow2(255),
    ensures
        r.bits@ == s * pow2(255) + c.bits@,
{
    proof {
        lemma_bits_split(c, c.bits@);
    }
    if s == 1 {
        let r = c.negated();
        proof {
            lemma_signed_bits(r, 1, c.bits@);
        }
        r
    } else {
        c
    }
}

/// The arctangent of `a / b` for `|a| < |b|`, approximated in FP492 and
/// returned as [`Float`].
fn atan_of_quotient(y: &f256, x: &f256, fy: &Float, fx: &Float) -> (t: Float)
    requires
        is_finite_spec(*y),
        is_finite_spec(*x),
        !is_zero_spec(*y),
        !is_zero_spec(*x),
        is_exact_float_of(*y, *fy),
        is_exact_float_of(*x, *fx),
        abs_bits_value(*y) < abs_bits_value(*x),
    ensures
        exists|q: Float| #[trigger] is_quotient(*fy, *fx, q)
            && is_float_of_fp492(t, approx_atan_spec(fp492_of_float(q))),
        -492 <= t.exp <= 20,
        t.signum == 0 ==> t == Float::zero_spec(),
{
    proof {
        lemma_exact_exp_range(*y, *fy);
        lemma_exact_exp_range(*x, *fx);
        lemma_float_order(*y, *x, *fy, *fx);
    }
    let q = fy.div(fx);
    proof {
        assert(is_quotient(*fy, *fx, q));
        lemma_fixed_of_float_below_one(q);
        lemma_fp492_in_range(fp492_of_float(q));
    }
    let a = approx_atan(&FP492::from_float(&q));
    let t = a.to_float();
    proof {
        lemma_p512();
        crate::uint512::lemma_u512_bound(a.0);
        lemma_float_of_fp492_exp(t, a.value());
    }
    t
}

/// The four-quadrant arctangent of finite non-zero `y` and `x`.
fn atan2_finite(y: &f256, x: &f256) -> (r: f256)
    requires
        is_finite_spec(*y),
        is_finite_spec(*x),
        !is_zero_spec(*y),
        !is_zero_spec(*x),
    ensures
        atan2_of_finite(*y, *x, r),
{
    let fy = Float::from_f256(y);
    let fx = Float::from_f256(x);
    proof {
        lemma_exact_exp_range(*y, fy);
        lemma_exact_exp_range(*x, fx);
    }
    let ay = y.abs();
    let ax = x.abs();
    proof {
        lemma_abs_bits(*y, ay);
        lemma_abs_bits(*x, ax);
    }
    let negative_q = y.sign() != x.sign();
    proof {
        assert(negative_q == (fy.signum * fx.signum == -1));
    }
    let t = if ay.bits.lt(&ax.bits) {
        let t = atan_of_quotient(y, x, &fy, &fx);
        proof {
            assert(atan2_base(fy, fx, abs_bits_value(*y), abs_bits_value(*x), t));
        }
        t
    } else if ax.bits.lt(&ay.bits) {
        let a = atan_of_quotient(x, y, &fx, &fy);
        let mut p = Float::frac_pi_2();
        if negative_q {
            p = p.neg();
        }
        let t = p.sub(&a);
        proof {
            let q = choose|q: Float| #[trigger] is_quotient(fx, fy, q)
                && is_float_of_fp492(a, approx_atan_spec(fp492_of_float(q)));
            assert(is_quotient(fx, fy, q));
            assert(is_float_frac_pi_2(p, fy.signum * fx.signum));
            assert(is_difference(p, a, t));
            assert(atan2_base(fy, fx, abs_bits_value(*y), abs_bits_value(*x), t));
            if p != a {
                lemma_sum_exp(p, a.neg_spec(), t, -492, 20);
            }
        }
        t
    } else {
        let mut p = Float::frac_pi_4();
        if negative_q {
            p = p.neg();
        }
        proof {
            assert(atan2_base(fy, fx, abs_bits_value(*y), abs_bits_value(*x), p));
        }
        p
    };
    assert(-747 <= t.exp <= 21);
    let u = if x.is_sign_negative() {
        let pi = Float::pi();
        if y.is_sign_negative() {
            let u = t.sub(&pi);
            proof {
                assert(is_float_pi(pi));
                assert(atan2_quadrant(sign_of(*y), sign_of(*x), t, u));
            }
            u
        } else {
            let u = t.add(&pi);
            proof {
                assert(is_float_pi(pi));
                assert(atan2_quadrant(sign_of(*y), sign_of(*x), t, u));
            }
            u
        }
    } else {
        t
    };
    let r = f256::from_float(&u);
    proof {
        assert(is_exact_float_of(*y, fy));
        assert(is_exact_float_of(*x, fx));
        assert(is_f256_of_float(u, r));
        assert(atan2_base(fy, fx, abs_bits_value(*y), abs_bits_value(*x), t));
    }
    r
}

impl f256 {
    /// Computes the four quadrant arctangent of `self` (`y`) and `other`
    /// (`x`) in radians:
    ///
    /// * `x = 0`, `y = 0`: `0`
    /// * `x >= 0`: `arctan(y/x)` -> `[-½π, ½π]`
    /// * `y >= 0`: `arctan(y/x) + π` -> `(½π, π]`
    /// * `y < 0`: `arctan(y/x) - π` -> `(-π, -½π)`
    pub fn atan2(&self, other: &Self) -> (r: Self)
        ensures
            is_nan_spec(*self) || is_nan_spec(*other) ==> is_nan_spec(r),
            !is_nan_spec(*self) && is_zero_spec(*other) ==>
                r.bits@ == (if is_zero_spec(*self) { 0 } else { sign_of(*self) * pow2(255) + frac_pi_2_bits() }),
            !is_nan_spec(*other) && !is_zero_spec(*other) && is_zero_spec(*self) ==>
                r.bits@ == (if sign_of(*other) == 0 { 0 } else { pi_bits() }),
            is_inf_spec(*self) && is_inf_spec(*other) ==>
                r.bits@ == sign_of(*self) * pow2(255)
                    + (if sign_of(*other) == 0 { frac_pi_4_bits() } else { frac_3_pi_4_bits() }),
            is_inf_spec(*other) && is_finite_spec(*self) && !is_zero_spec(*self) ==>
                r.bits@ == sign_of(*self) * pow2(255) + (if sign_of(*other) == 0 { 0 } else { pi_bits() }),
            is_inf_spec(*self) && is_finite_spec(*other) && !is_zero_spec(*other) ==>
                r.bits@ == sign_of(*self) * pow2(255) + frac_pi_2_bits(),
            is_finite_spec(*self) && is_finite_spec(*other) && !is_zero_spec(*self) && !is_zero_spec(*other)
                ==> atan2_of_finite(*self, *other, r),
    {
        // At least one operand is NAN.
        if self.is_nan() || other.is_nan() {
            return f256::nan();
        }
        proof {
            lemma_pow2_255();
            lemma_pow2_64_128();
            lemma_hi_fields(self.bits.hi);
            lemma_hi_fields(other.bits.hi);
            vstd::arithmetic::mul::lemma_mul_basics(pow2(255) as int);
            vstd::arithmetic::mul::lemma_mul_basics(pow2(236) as int);
        }
        let sy = self.sign();
        if other.eq_zero() {
            if self.eq_zero() {
                // Both operands are zero.
                let z = f256::zero();
                proof {
                    lemma_bits_value(z);
                }
                return z;
            }
            // other = 0, self != 0 => ±½π
            return with_sign(f256::frac_pi_2(), sy);
        }
        if self.eq_zero() {
            // self = 0, other > 0 => 0
            // self = 0, other < 0 => π
            if other.is_sign_negative() {
                return f256::pi();
            }
            let z = f256::zero();
            proof {
                lemma_bits_value(z);
                vstd::arithmetic::mul::lemma_mul_basics(pow2(255) as int);
                vstd::arithmetic::mul::lemma_mul_basics(pow2(236) as int);
                assert(z.bits@ == 0);
            }
            return z;
        }
        let x_inf = other.is_infinite();
        let y_inf = self.is_infinite();
        if x_inf && y_inf {
            // Both operands are infinite.
            if other.is_sign_negative() {
                return with_sign(f256::frac_3_pi_4(), sy);
            }
            return with_sign(f256::frac_pi_4(), sy);
        }
        if x_inf {
            // y / x = ±0
            if other.is_sign_negative() {
                return with_sign(f256::pi(), sy);
            }
            let z = f256::zero();
            proof {
                lemma_bits_value(z);
                assert(z.bits@ == 0);
            }
            return with_sign(z, sy);
        }
        if y_inf {
            // y / x = ±∞
            return with_sign(f256::frac_pi_2(), sy);
        }
        // Both operands are finite and non-zero.
        proof {
            lemma_hi_fields(self.bits.hi);
            lemma_hi_fields(other.bits.hi);
        }
        atan2_finite(self, other)
    }
}

} // verus!
