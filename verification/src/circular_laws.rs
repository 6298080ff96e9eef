//! Laws of the circular functions: symmetry of sine and cosine, and the
//! agreement of `sin_cos` with `sin` and `cos`.
use vstd::prelude::*;
use crate::binary256::{f256, sign_of, bexp, fraction, abs_of, is_finite_spec, is_zero_spec, lemma_fields_eq};
use crate::reduce::is_reduction;
use crate::circular::{is_sine_of, is_cosine_of, sine_of_reduction, cosine_of_reduction};

verus! {

/// The absolute value has sign 0 and keeps exponent and fraction.
pub(crate) proof fn lemma_abs_of_fields(x: f256)
    ensures
        sign_of(abs_of(x)) == 0,
        bexp(abs_of(x)) == bexp(x),
        fraction(abs_of(x)) == fraction(x),
{
    let hi = x.bits.hi;
    assert((hi & 0x7fffffffffffffffffffffffffffffffu128) >> 127u32 == 0) by (bit_vector);
    assert(((hi & 0x7fffffffffffffffffffffffffffffffu128) >> 108u32) & 0x7ffffu128
        == (hi >> 108u32) & 0x7ffffu128) by (bit_vector);
    assert((hi & 0x7fffffffffffffffffffffffffffffffu128) & 0xfffffffffffffffffffffffffffu128
        == hi & 0xfffffffffffffffffffffffffffu128) by (bit_vector);
}

/// Values that differ in their sign only have the same absolute value.
proof fn lemma_abs_of_negation(x: f256, y: f256)
    requires
        bexp(y) == bexp(x),
        fraction(y) == fraction(x),
    ensures
        abs_of(y) == abs_of(x),
{
    lemma_abs_of_fields(x);
    lemma_abs_of_fields(y);
    lemma_fields_eq(abs_of(x), abs_of(y));
}

/// The sine is odd: where `r` is the sine of the finite non-zero `x`, the
/// negation `s` of `r` is the sine of the negation `y` of `x`.
pub proof fn lemma_sine_odd(x: f256, y: f256, r: f256, s: f256)
    requires
        is_finite_spec(x),
        !is_zero_spec(x),
        sign_of(y) == 1 - sign_of(x),
        bexp(y) == bexp(x),
        fraction(y) == fraction(x),
        is_sine_of(x, r),
        sign_of(s) == 1 - sign_of(r),
        bexp(s) == bexp(r),
        fraction(s) == fraction(r),
    ensures
        is_sine_of(y, s),
{
    lemma_abs_of_negation(x, y);
    let (q, v) = choose|q: int, v: int| #[trigger] is_reduction(abs_of(x), q, v)
        && sine_of_reduction(sign_of(x), q, v, r);
    assert(is_reduction(abs_of(y), q, v));
    assert(sine_of_reduction(sign_of(y), q, v, s));
}

/// The cosine is even: where `r` is the cosine of the finite non-zero `x`,
/// it is the cosine of the negation `y` of `x` too.
pub proof fn lemma_cosine_even(x: f256, y: f256, r: f256)
    requires
        is_finite_spec(x),
        !is_zero_spec(x),
        sign_of(y) == 1 - sign_of(x),
        bexp(y) == bexp(x),
        fraction(y) == fraction(x),
        is_cosine_of(x, r),
    ensures
        is_cosine_of(y, r),
{
    lemma_abs_of_negation(x, y);
    let (q, v) = choose|q: int, v: int| #[trigger] is_reduction(abs_of(x), q, v) && cosine_of_reduction(q, v, r);
    assert(is_reduction(abs_of(y), q, v));
}

/// `sin_cos` agrees with `sin` and `cos`: its two results, computed from
/// one reduction of `|x|`, are a sine and a cosine of `x`.
pub proof fn lemma_sin_cos_parts(x: f256, s: f256, c: f256)
    requires
        exists|q: int, v: int| #[trigger] is_reduction(abs_of(x), q, v)
            && sine_of_reduction(sign_of(x), q, v, s) && cosine_of_reduction(q, v, c),
    ensures
        is_sine_of(x, s),
        is_cosine_of(x, c),
{
    let (q, v) = choose|q: int, v: int| #[trigger] is_reduction(abs_of(x), q, v)
        && sine_of_reduction(sign_of(x), q, v, s) && cosine_of_reduction(q, v, c);
    assert(is_reduction(abs_of(x), q, v) && sine_of_reduction(sign_of(x), q, v, s));
    assert(is_reduction(abs_of(x), q, v) && cosine_of_reduction(q, v, c));
}

} // verus!
