//! The ranges of the arctangent beyond 1 and of the four-quadrant
//! arctangent.
use vstd::prelude::*;
use vstd::arithmetic::power2::{pow2, lemma_pow2_pos, lemma_pow2_adds, lemma_pow2_strictly_increases, lemma2_to64};
use vstd::arithmetic::div_mod::{lemma_fundamental_div_mod, lemma_mod_bound};
use crate::fp492::magnitude;
use crate::big_float::Float;
use crate::fp492_conv::{is_float_of_fp492, is_rounded_at, fp492_of_float};
use crate::bits::{p128, lemma_pow2_64_128};
use crate::binary256::{f256, sign_of, is_finite_spec, is_zero_spec};
use crate::float_conv::{is_exact_float_of, is_f256_of_float};
use crate::float_add::{is_difference, is_aligned_sum};
use crate::float_div::is_quotient;
use crate::approx_atan::approx_atan_spec;
use crate::atan::{abs_bits_value, one_bits, frac_pi_2_signif, is_float_frac_pi_2, atan_beyond_one,
    lemma_exact_beyond_one};
use crate::float_div::is_reciprocal;
use crate::binary256::bexp;
use crate::atan2::{atan2_base, atan2_quadrant, atan2_of_finite, is_float_pi, is_float_frac_pi_4, lemma_float_order,
    lemma_exact_exp_range};
use crate::atan_laws::{fixed_magnitude, lemma_fixed_magnitude, lemma_approx_atan_bounds};

verus! {

/// A [`Float`] nearest to a non-zero FP492 value of magnitude at most
/// `1 + 2⁻⁶` has the sign of the value and lies below 2, with a
/// significand of at most `2²⁵⁴ + 2²⁴⁸ + 1` at the exponent 0.
proof fn lemma_float_of_small_fixed(a: Float, v: int)
    requires
        is_float_of_fp492(a, v),
        v != 0,
        -(pow2(492) + pow2(486)) <= v <= pow2(492) + pow2(486),
    ensures
        a.signum == (if v < 0 { -1int } else { 1int }),
        a.exp <= 0,
        a.exp == 0 ==> a.signif@ <= pow2(254) + pow2(248) + 1,
{
    let m = magnitude(v);
    lemma_pow2_adds(486, 6);
    lemma_pow2_adds(492, 1);
    lemma2_to64();
    lemma_pow2_pos(486);
    assert(m < pow2(493));
    if m >= pow2(255) {
        let k = choose|k: nat| 1 <= k && pow2(254) <= m / pow2(k) < pow2(255)
            && #[trigger] is_rounded_at(a, m, k, 492);
        lemma_pow2_pos(k);
        lemma_fundamental_div_mod(m as int, pow2(k) as int);
        lemma_mod_bound(m as int, pow2(k) as int);
        if k >= 239 {
            lemma_pow2_adds(254, k);
            if 254 + k > 493 {
                lemma_pow2_strictly_increases(493, 254 + k);
            }
            vstd::arithmetic::mul::lemma_mul_inequality(pow2(254) as int, (m / pow2(k)) as int, pow2(k) as int);
            assert(false);
        }
        let q = m / pow2(k);
        assert(crate::uint256::div_pow2_round(m, k) <= q + 1);
        if k == 238 {
            lemma_pow2_adds(254, 238);
            lemma_pow2_adds(248, 238);
            lemma_pow2_strictly_increases(248, 254);
            let b = pow2(254) + pow2(248);
            assert(b * pow2(238) == pow2(492) + pow2(486)) by (nonlinear_arith)
                requires
                    b == pow2(254) + pow2(248),
                    pow2(492) == pow2(254) * pow2(238),
                    pow2(486) == pow2(248) * pow2(238),
            ;
            vstd::arithmetic::div_mod::lemma_div_is_ordered(m as int, (b * pow2(238)) as int, pow2(238) as int);
            vstd::arithmetic::div_mod::lemma_div_multiples_vanish(b as int, pow2(238) as int);
            lemma_pow2_adds(254, 1);
            assert(q <= b);
            assert(pow2(255) == 2 * pow2(254));
            lemma_pow2_adds(248, 6);
            lemma_pow2_pos(248);
            assert(pow2(254) == 64 * pow2(248));
            assert(crate::uint256::div_pow2_round(m, k) < pow2(255));
            assert(a.exp == 0);
        } else {
            assert(k <= 237);
            assert(a.exp <= 0);
        }
    } else {
        let j = choose|j: nat| pow2(254) <= m * pow2(j) < pow2(255)
            && a.exp == 254 - 492 - j && #[trigger] (m * pow2(j)) == a.signif@;
    }
}

/// The significand of `½π` lies above `2²⁵⁴ + 2²⁴⁸ + 1` and below `2²⁵⁵`.
proof fn lemma_frac_pi_2_signif_bounds()
    ensures
        pow2(254) + pow2(248) + 1 < frac_pi_2_signif() < pow2(255),
        pow2(254) < frac_pi_2_signif(),
        pow2(253) + pow2(254) + pow2(248) + 1 <= frac_pi_2_signif(),
{
    lemma2_to64();
    vstd::arithmetic::power2::lemma2_to64_rest();
    lemma_pow2_64_128();
    lemma_pow2_adds(60, 60);
    lemma_pow2_adds(63, 63);
    lemma_pow2_adds(63, 64);
    lemma_pow2_adds(120, 128);
    lemma_pow2_adds(126, 128);
    lemma_pow2_adds(127, 128);
    assert(pow2(120) == 0x100_0000_0000_0000_0000_0000_0000_0000nat);
    assert(pow2(126) == 0x4000_0000_0000_0000_0000_0000_0000_0000nat);
    assert(pow2(127) == 0x8000_0000_0000_0000_0000_0000_0000_0000nat);
    assert(pow2(248) == 0x100_0000_0000_0000_0000_0000_0000_0000nat * p128());
    assert(pow2(254) == 0x4000_0000_0000_0000_0000_0000_0000_0000nat * p128());
    assert(pow2(255) == 0x8000_0000_0000_0000_0000_0000_0000_0000nat * p128());
    lemma_pow2_adds(125, 128);
    lemma_pow2_adds(62, 63);
    assert(pow2(125) == 0x2000_0000_0000_0000_0000_0000_0000_0000nat);
    assert(pow2(253) == 0x2000_0000_0000_0000_0000_0000_0000_0000nat * p128());
}

/// The [`Float`] of the fixed-point arctangent of a [`Float`] `q` below 1
/// is zero or has the sign of `q`, and lies below `1 + 2⁻⁶ + 2⁻²⁵⁴`.
proof fn lemma_float_atan_below_one(q: Float, a: Float)
    requires
        q.wf(),
        q.exp <= -1,
        is_float_of_fp492(a, approx_atan_spec(fp492_of_float(q))),
    ensures
        a.wf(),
        a.signum == 0 ==> a == Float::zero_spec(),
        a.signum == 0 || a.signum == q.signum,
        a.exp <= 0,
        a.exp == 0 ==> a.signif@ <= pow2(254) + pow2(248) + 1,
{
    lemma_fixed_magnitude(q);
    let m = fixed_magnitude(q);
    lemma_approx_atan_bounds(m);
    lemma2_to64();
    lemma_pow2_adds(485, 1);
    lemma_pow2_pos(485);
    let v = approx_atan_spec(fp492_of_float(q));
    if q.signum == 1 {
        assert(q.signum * m == m) by (nonlinear_arith) requires q.signum == 1;
        assert(v == approx_atan_spec(m));
    } else if q.signum == -1 {
        assert(q.signum * m == -m) by (nonlinear_arith) requires q.signum == -1;
        assert(v == -approx_atan_spec(m));
    } else {
        assert(q.signum * m == 0) by (nonlinear_arith) requires q.signum == 0;
        lemma_approx_atan_bounds(0);
        assert(v == 0);
    }
    if v != 0 {
        lemma_float_of_small_fixed(a, v);
    }
}

/// `±½π - a` for a [`Float`] `a` in `[0, 1 + 2⁻⁶ + 2⁻²⁵⁴]` in magnitude,
/// with the sign `s` or zero, lies in `[½, ½π]` in magnitude, with the
/// sign `s` (`½π` as its [`Float`]).
proof fn lemma_frac_pi_2_minus(p: Float, a: Float, t: Float, s: int)
    requires
        s == 1 || s == -1,
        is_float_frac_pi_2(p, s),
        a.wf(),
        a.signum == 0 ==> a == Float::zero_spec(),
        a.signum == 0 || a.signum == s,
        a.exp <= 0,
        a.exp == 0 ==> a.signif@ <= pow2(254) + pow2(248) + 1,
        is_difference(p, a, t),
    ensures
        t.wf(),
        t.signum == s,
        -1 <= t.exp <= 0,
        t.exp == 0 ==> t.signif@ <= frac_pi_2_signif(),
{
    lemma_frac_pi_2_signif_bounds();
    lemma2_to64();
    assert(p != a);
    let b = a.neg_spec();
    assert(is_aligned_sum(p, b, t));
    if b.signum != 0 && -b.exp <= 254 {
        let k = (-b.exp) as nat;
        let yy = b.signif@ / pow2(k);
        assert(p.signif@ / pow2(0) == p.signif@);
        if k >= 1 {
            lemma_pow2_strictly_increases(0, k);
            vstd::arithmetic::div_mod::lemma_div_is_ordered_by_denominator(b.signif@ as int, 2, pow2(k) as int);
            vstd::arithmetic::power2::lemma_pow2_unfold(255);
            crate::bits::lemma_div_strictly_bounded(b.signif@ as int, 2, pow2(254) as int);
        } else {
            vstd::arithmetic::div_mod::lemma_div_basics(b.signif@ as int);
            assert(yy == b.signif@);
        }
        assert(yy <= pow2(254) + pow2(248) + 1);
        let d = p.signif@ - yy;
        assert(d >= pow2(253));
        if t.exp < -1 {
            let j = (-t.exp) as nat;
            if j > 2 {
                lemma_pow2_strictly_increases(2, j);
            }
            lemma_pow2_adds(2, 253);
            let e: int = 0;
            assert(crate::float_add::is_normalized_of(t, s, e, d as nat));
            assert(t.signif@ == d * pow2(j));
            vstd::arithmetic::mul::lemma_mul_inequality(pow2(253) as int, d as int, pow2(j) as int);
            vstd::arithmetic::mul::lemma_mul_inequality(4, pow2(j) as int, pow2(253) as int);
            assert(false);
        }
        if t.exp == 0 {
            let e: int = 0;
            assert(crate::float_add::is_normalized_of(t, s, e, d as nat));
            assert(t.signif@ == d * pow2(0));
        }
    }
}

/// The base angle of the four-quadrant arctangent of finite non-zero `y`
/// and `x` lies in `[-½π, ½π]` (`½π` as its [`Float`]: an exponent of at
/// most 0, and at most the significand of `½π` at 0) and has the sign of
/// `y/x`; it is zero only where `|y| < |x|` and `y/x` vanishes in the
/// fixed point.
pub proof fn lemma_atan2_base_range(y: f256, x: f256, fy: Float, fx: Float, t: Float)
    requires
        is_finite_spec(y),
        is_finite_spec(x),
        !is_zero_spec(y),
        !is_zero_spec(x),
        is_exact_float_of(y, fy),
        is_exact_float_of(x, fx),
        atan2_base(fy, fx, abs_bits_value(y), abs_bits_value(x), t),
    ensures
        t.wf(),
        t.exp <= 0,
        t.exp == 0 ==> t.signif@ <= frac_pi_2_signif(),
        t.signum == 0 || t.signum == fy.signum * fx.signum,
        abs_bits_value(x) <= abs_bits_value(y) ==> t.signum == fy.signum * fx.signum,
{
    lemma_exact_exp_range(y, fy);
    lemma_exact_exp_range(x, fx);
    lemma_frac_pi_2_signif_bounds();
    lemma2_to64();
    let s = fy.signum * fx.signum;
    let (ay, ax) = (abs_bits_value(y), abs_bits_value(x));
    if ay < ax {
        let q = choose|q: Float| #[trigger] is_quotient(fy, fx, q)
            && is_float_of_fp492(t, approx_atan_spec(fp492_of_float(q)));
        lemma_float_order(y, x, fy, fx);
        assert(q.signum == s);
        lemma_float_atan_below_one(q, t);
    } else if ax < ay {
        let (q, a, p) = choose|q: Float, a: Float, p: Float|
            #![trigger is_quotient(fx, fy, q), is_difference(p, a, t)]
            is_quotient(fx, fy, q) && is_float_of_fp492(a, approx_atan_spec(fp492_of_float(q)))
                && is_float_frac_pi_2(p, s) && is_difference(p, a, t);
        lemma_float_order(x, y, fx, fy);
        assert(q.signum == fx.signum * fy.signum);
        assert(q.signum == s) by (nonlinear_arith)
            requires q.signum == fx.signum * fy.signum, s == fy.signum * fx.signum;
        lemma_float_atan_below_one(q, a);
        assert(s == 1 || s == -1) by (nonlinear_arith)
            requires s == fy.signum * fx.signum, fy.signum == 1 || fy.signum == -1,
                fx.signum == 1 || fx.signum == -1;
        lemma_frac_pi_2_minus(p, a, t, s);
    } else {
        assert(is_float_frac_pi_4(t, s));
        assert(s == 1 || s == -1) by (nonlinear_arith)
            requires s == fy.signum * fx.signum, fy.signum == 1 || fy.signum == -1,
                fx.signum == 1 || fx.signum == -1;
    }
}

/// Moving a base angle `t` of `[-½π, ½π]` with the sign `-1` or 0 (for
/// `y >= 0`), or `1` or 0 (for `y < 0`), into the quadrant of a negative
/// `x` gives a value in `[1, π]`, or in `[-π, -1]`.
proof fn lemma_quadrant_of_negative_x(sy: nat, t: Float, u: Float)
    requires
        sy == 0 || sy == 1,
        t.wf(),
        t.exp <= 0,
        t.exp == 0 ==> t.signif@ <= frac_pi_2_signif(),
        t.signum == 0 || t.signum == (if sy == 0 { -1int } else { 1int }),
        atan2_quadrant(sy, 1, t, u),
    ensures
        u.signum == (if sy == 0 { 1int } else { -1int }),
        0 <= u.exp <= 1,
        u.exp == 1 ==> u.signif@ <= frac_pi_2_signif(),
{
    lemma_frac_pi_2_signif_bounds();
    lemma2_to64();
    let p = choose|p: Float| #[trigger] is_float_pi(p) && (if sy == 0 { u.wf() && is_aligned_sum(t, p, u) }
        else { is_difference(t, p, u) });
    let b = if sy == 0 { p } else { p.neg_spec() };
    assert(t != p);
    assert(is_aligned_sum(t, b, u));
    if t.signum != 0 && 1 - t.exp <= 254 {
        let k = (1 - t.exp) as nat;
        let xx = t.signif@ / pow2(k);
        assert(b.signif@ / pow2(0) == b.signif@);
        lemma_pow2_strictly_increases(0, k);
        vstd::arithmetic::div_mod::lemma_div_is_ordered_by_denominator(t.signif@ as int, 2, pow2(k) as int);
        vstd::arithmetic::power2::lemma_pow2_unfold(255);
        crate::bits::lemma_div_strictly_bounded(t.signif@ as int, 2, pow2(254) as int);
        assert(xx < pow2(254));
        let d = b.signif@ - xx;
        assert(d >= pow2(254) - pow2(253)) by {
            if t.exp == 0 {
                vstd::arithmetic::div_mod::lemma_div_is_ordered(t.signif@ as int, frac_pi_2_signif() as int, 2);
                vstd::arithmetic::power2::lemma_pow2_unfold(254);
            } else {
                if k > 2 {
                    lemma_pow2_strictly_increases(2, k);
                }
                vstd::arithmetic::div_mod::lemma_div_is_ordered_by_denominator(t.signif@ as int, 4, pow2(k) as int);
                lemma_pow2_adds(2, 253);
                crate::bits::lemma_div_strictly_bounded(t.signif@ as int, 4, pow2(253) as int);
            }
        }
        vstd::arithmetic::power2::lemma_pow2_unfold(254);
        if u.exp < 0 {
            let j = (1 - u.exp) as nat;
            if j > 2 {
                lemma_pow2_strictly_increases(2, j);
            }
            lemma_pow2_adds(2, 253);
            let e: int = 1;
            assert(crate::float_add::is_normalized_of(u, b.signum as int, e, d as nat));
            assert(u.signif@ == d * pow2(j));
            vstd::arithmetic::mul::lemma_mul_inequality(pow2(253) as int, d as int, pow2(j) as int);
            vstd::arithmetic::mul::lemma_mul_inequality(4, pow2(j) as int, pow2(253) as int);
            assert(false);
        }
        if u.exp == 1 {
            assert(u.signif@ == d * pow2(0));
        }
    }
}

/// The four-quadrant arctangent of finite non-zero `y` and `x` keeps its
/// quadrant: the result is rounded from a [`Float`] `u` of magnitude at
/// most `π` (with `π` as its [`Float`]); for `x < 0`, `u` lies in
/// `[1, π]` where `y > 0` and in `[-π, -1]` where `y < 0`, so that the
/// result has the sign of `y`; for `x > 0`, `u` lies below 2 in magnitude
/// and has the sign of `y` or is zero.
pub proof fn lemma_atan2_range(y: f256, x: f256, r: f256)
    requires
        is_finite_spec(y),
        is_finite_spec(x),
        !is_zero_spec(y),
        !is_zero_spec(x),
        atan2_of_finite(y, x, r),
    ensures
        exists|u: Float| #[trigger] is_f256_of_float(u, r)
            && u.exp <= 1 && (u.exp == 1 ==> u.signif@ <= frac_pi_2_signif())
            && (sign_of(x) == 1 ==> 0 <= u.exp && u.signum == (if sign_of(y) == 0 { 1int } else { -1int }))
            && (sign_of(x) == 0 ==> u.exp <= 0
                && (u.signum == 0 || u.signum == (if sign_of(y) == 0 { 1int } else { -1int })))
            && (sign_of(x) == 0 && abs_bits_value(x) <= abs_bits_value(y) ==>
                u.signum == (if sign_of(y) == 0 { 1int } else { -1int })),
        sign_of(x) == 1 ==> sign_of(r) == sign_of(y),
        sign_of(x) == 0 && abs_bits_value(x) <= abs_bits_value(y) ==> sign_of(r) == sign_of(y),
{
    let (fy, fx, t, u) = choose|fy: Float, fx: Float, t: Float, u: Float|
        #![trigger is_exact_float_of(y, fy), is_exact_float_of(x, fx), is_f256_of_float(u, r),
            atan2_base(fy, fx, abs_bits_value(y), abs_bits_value(x), t)]
        is_exact_float_of(y, fy) && is_exact_float_of(x, fx)
            && atan2_base(fy, fx, abs_bits_value(y), abs_bits_value(x), t)
            && atan2_quadrant(sign_of(y), sign_of(x), t, u) && is_f256_of_float(u, r);
    lemma_atan2_base_range(y, x, fy, fx, t);
    lemma_frac_pi_2_signif_bounds();
    crate::binary256::lemma_hi_fields(y.bits.hi);
    crate::binary256::lemma_hi_fields(x.bits.hi);
    assert(sign_of(y) == 0 || sign_of(y) == 1);
    assert(sign_of(x) == 0 || sign_of(x) == 1);
    if sign_of(x) == 1 {
        assert(fx.signum == -1);
        if sign_of(y) == 0 {
            assert(fy.signum * fx.signum == -1);
        } else {
            assert(fy.signum * fx.signum == 1);
        }
        lemma_quadrant_of_negative_x(sign_of(y), t, u);
    } else {
        assert(fx.signum == 1);
        assert(u == t);
        assert(fy.signum * fx.signum == fy.signum);
    }
    assert(is_f256_of_float(u, r));
}

/// The arctangent of `x` with `1 < |x| < 2²³⁷`, taken as `±½π - atan(1/x)`,
/// has the sign of `x` and a magnitude in `[½, ½π]`: it is rounded from a
/// [`Float`] with that sign, an exponent of -1 or 0, and at most the
/// significand of `½π` at 0.
pub proof fn lemma_atan_beyond_one_range(x: f256, r: f256)
    requires
        is_finite_spec(x),
        one_bits() < abs_bits_value(x),
        bexp(x) < 262380,
        atan_beyond_one(x, r),
    ensures
        exists|d: Float| #[trigger] is_f256_of_float(d, r)
            && d.signum == (if sign_of(x) == 0 { 1int } else { -1int })
            && -1 <= d.exp <= 0 && (d.exp == 0 ==> d.signif@ <= frac_pi_2_signif()),
        sign_of(r) == sign_of(x),
{
    let (fx, xr, ax, p, d) = choose|fx: Float, xr: Float, ax: Float, p: Float, d: Float|
        #![trigger is_exact_float_of(x, fx), is_reciprocal(fx, xr), is_difference(p, ax, d)]
        is_exact_float_of(x, fx) && is_reciprocal(fx, xr)
            && is_float_of_fp492(ax, approx_atan_spec(fp492_of_float(xr)))
            && is_float_frac_pi_2(p, fx.signum as int) && is_difference(p, ax, d) && is_f256_of_float(d, r);
    lemma_exact_beyond_one(x, fx);
    crate::binary256::lemma_hi_fields(x.bits.hi);
    assert(xr.exp <= -1);
    lemma_float_atan_below_one(xr, ax);
    lemma_frac_pi_2_minus(p, ax, d, fx.signum as int);
    assert(is_f256_of_float(d, r));
}

} // verus!
