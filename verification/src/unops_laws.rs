//! Laws relating the sign and rounding operations of `f256`.
use vstd::prelude::*;
use vstd::arithmetic::power2::{pow2, lemma_pow2_pos, lemma_pow2_unfold};
use vstd::arithmetic::div_mod::{lemma_fundamental_div_mod, lemma_mod_bound, lemma_div_pos_is_pos};
use crate::uint256::lemma_divmod_unique;
use crate::binary256::{f256, sign_of, bexp, fraction, units, one_units, value, is_finite_spec, lemma_fields_eq,
    lemma_hi_fields};
use crate::unops::{trunc_units, ceil_units, round_units};

verus! {

/// `u` rounded up is `u` rounded down, plus one unit of 1.0 unless `u` is
/// integral.
proof fn lemma_ceil_is_trunc_plus(u: nat)
    ensures
        ceil_units(u) == trunc_units(u) + (if u % one_units() == 0 { 0 } else { one_units() }),
{
    let o = one_units() as int;
    lemma_pow2_pos(262378);
    lemma_fundamental_div_mod(u as int, o);
    lemma_mod_bound(u as int, o);
    let q = u as int / o;
    let r = u as int % o;
    assert((q + 1) * o == q * o + o) by (nonlinear_arith);
    vstd::arithmetic::mul::lemma_mul_is_commutative(q, o);
    if r == 0 {
        lemma_divmod_unique(u + o - 1, o, q, o - 1);
    } else {
        lemma_divmod_unique(u + o - 1, o, q + 1, r - 1);
    }
}

/// Negating a value twice gives back its encoding.
pub proof fn lemma_neg_neg(x: f256, y: f256, z: f256)
    requires
        sign_of(y) == 1 - sign_of(x),
        bexp(y) == bexp(x),
        fraction(y) == fraction(x),
        sign_of(z) == 1 - sign_of(y),
        bexp(z) == bexp(y),
        fraction(z) == fraction(y),
    ensures
        z.bits == x.bits,
{
    lemma_hi_fields(x.bits.hi);
    lemma_fields_eq(z, x);
}

/// A value and its negation have the same absolute value.
pub proof fn lemma_abs_neg(x: f256, y: f256, a: f256, b: f256)
    requires
        sign_of(y) == 1 - sign_of(x),
        bexp(y) == bexp(x),
        fraction(y) == fraction(x),
        sign_of(a) == 0,
        bexp(a) == bexp(x),
        fraction(a) == fraction(x),
        sign_of(b) == 0,
        bexp(b) == bexp(y),
        fraction(b) == fraction(y),
    ensures
        a.bits == b.bits,
{
    lemma_fields_eq(a, b);
}

/// The integral part plus the fractional part of a finite value is the
/// value.
pub proof fn lemma_trunc_plus_fract(x: f256, t: f256, fr: f256)
    requires
        is_finite_spec(x),
        is_finite_spec(t),
        sign_of(t) == sign_of(x),
        units(t) == trunc_units(units(x)),
        is_finite_spec(fr),
        units(fr) == units(x) % one_units(),
        sign_of(fr) == (if units(fr) == 0 { 0 } else { sign_of(x) }),
    ensures
        value(t) + value(fr) == value(x),
{
    let o = one_units() as int;
    lemma_pow2_pos(262378);
    lemma_fundamental_div_mod(units(x) as int, o);
    vstd::arithmetic::mul::lemma_mul_is_commutative(o, units(x) as int / o);
    lemma_hi_fields(x.bits.hi);
}

/// Truncating an integral part changes nothing.
pub proof fn lemma_trunc_idempotent(u: nat)
    ensures
        trunc_units(trunc_units(u)) == trunc_units(u),
{
    let o = one_units() as int;
    lemma_pow2_pos(262378);
    lemma_div_pos_is_pos(u as int, o);
    vstd::arithmetic::div_mod::lemma_div_multiples_vanish(u as int / o, o);
    vstd::arithmetic::mul::lemma_mul_is_commutative(o, u as int / o);
}

/// A finite value lies between its floor and its ceiling, which are equal
/// for an integral value and one apart otherwise.
pub proof fn lemma_floor_ceil(x: f256, fl: f256, ce: f256)
    requires
        is_finite_spec(x),
        is_finite_spec(fl),
        sign_of(fl) == sign_of(x),
        units(fl) == (if sign_of(x) == 0 { trunc_units(units(x)) } else { ceil_units(units(x)) }),
        is_finite_spec(ce),
        sign_of(ce) == sign_of(x),
        units(ce) == (if sign_of(x) == 0 { ceil_units(units(x)) } else { trunc_units(units(x)) }),
    ensures
        value(fl) <= value(x) <= value(ce),
        units(x) % one_units() == 0 ==> value(ce) == value(fl),
        units(x) % one_units() != 0 ==> value(ce) == value(fl) + one_units(),
{
    let o = one_units() as int;
    let u = units(x) as int;
    lemma_pow2_pos(262378);
    lemma_fundamental_div_mod(u, o);
    lemma_mod_bound(u, o);
    vstd::arithmetic::mul::lemma_mul_is_commutative(o, u / o);
    lemma_ceil_is_trunc_plus(units(x));
    lemma_hi_fields(x.bits.hi);
}

/// The floor of the negation is the negation of the ceiling.
pub proof fn lemma_floor_neg(x: f256, y: f256, fl: f256, ce: f256)
    requires
        is_finite_spec(x),
        sign_of(y) == 1 - sign_of(x),
        units(y) == units(x),
        bexp(y) == bexp(x),
        is_finite_spec(fl),
        sign_of(fl) == sign_of(y),
        units(fl) == (if sign_of(y) == 0 { trunc_units(units(y)) } else { ceil_units(units(y)) }),
        is_finite_spec(ce),
        sign_of(ce) == sign_of(x),
        units(ce) == (if sign_of(x) == 0 { ceil_units(units(x)) } else { trunc_units(units(x)) }),
    ensures
        value(fl) == -value(ce),
{
    lemma_hi_fields(x.bits.hi);
}

/// Rounding moves a finite value by at most one half.
pub proof fn lemma_round_nearest(x: f256, r: f256)
    requires
        is_finite_spec(x),
        is_finite_spec(r),
        sign_of(r) == sign_of(x),
        units(r) == round_units(units(x)),
    ensures
        -(one_units() as int) <= 2 * (value(r) - value(x)) <= one_units(),
{
    let o = one_units() as int;
    let u = units(x) as int;
    lemma_pow2_pos(262377);
    lemma_pow2_unfold(262378);
    assert(o == 2 * (o / 2));
    lemma_fundamental_div_mod(u + o / 2, o);
    lemma_mod_bound(u + o / 2, o);
    vstd::arithmetic::mul::lemma_mul_is_commutative(o, (u + o / 2) / o);
    lemma_hi_fields(x.bits.hi);
}

} // verus!
