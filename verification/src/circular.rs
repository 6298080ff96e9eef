//! Sine and cosine of `f256` values.
use vstd::prelude::*;
use vstd::arithmetic::power2::pow2;
use crate::binary256::{f256, sign_of, bexp, fraction, is_nan_spec, is_inf_spec, is_finite_spec, is_zero_spec,
    abs_of, lemma_hi_fields, lemma_bits_value, EXP_BIAS};
use crate::fp492::{FP492, magnitude};
use crate::fp492_conv::is_f256_of_fixed;
use crate::approx_sin_cos::{approx_sin, approx_cos, approx_sin_cos, approx_sin_spec, approx_cos_spec};
use crate::reduce::{reduce, is_reduction};

verus! {

/// `r` is the `f256` value nearest to the FP492 value `v`, negated where
/// `neg` holds.
pub open spec fn is_signed_f256_of_fp492(r: f256, v: int, neg: bool) -> bool {
    let s: nat = if v < 0 { 1 } else { 0 };
    &&& sign_of(r) == (if neg { 1 - s } else { s as int })
    &&& v == 0 ==> is_zero_spec(r)
    &&& is_f256_of_fixed(r, magnitude(v), 492)
}

/// The sine of `x` from the quadrant `q` and the remainder `v` of `|x|`:
/// `±sin v` for even, `±cos v` for odd quadrants, negative in the lower
/// half-plane.
pub open spec fn sine_of_reduction(sx: nat, q: int, v: int, r: f256) -> bool {
    let neg = (q >= 2) != (sx == 1);
    if q % 2 == 0 {
        is_signed_f256_of_fp492(r, approx_sin_spec(v), neg)
    } else {
        is_signed_f256_of_fp492(r, approx_cos_spec(v), neg)
    }
}

/// The cosine of `x` from the quadrant `q` and the remainder `v` of `|x|`:
/// `±cos v` for even, `∓sin v` for odd quadrants, negative in the left
/// half-plane.
pub open spec fn cosine_of_reduction(q: int, v: int, r: f256) -> bool {
    let neg = q == 1 || q == 2;
    if q % 2 == 0 {
        is_signed_f256_of_fp492(r, approx_cos_spec(v), neg)
    } else {
        is_signed_f256_of_fp492(r, approx_sin_spec(v), neg)
    }
}

/// `r` is the sine of the finite non-zero `x` as computed from the
/// reduction of `|x|`.
pub open spec fn is_sine_of(x: f256, r: f256) -> bool {
    exists|q: int, v: int| #[trigger] is_reduction(abs_of(x), q, v) && sine_of_reduction(sign_of(x), q, v, r)
}

/// `r` is the cosine of the finite non-zero `x` as computed from the
/// reduction of `|x|`.
pub open spec fn is_cosine_of(x: f256, r: f256) -> bool {
    exists|q: int, v: int| #[trigger] is_reduction(abs_of(x), q, v) && cosine_of_reduction(q, v, r)
}

/// `f256` of the FP492 value `v`, negated where `neg` holds.
fn signed_from_fp492(v: &FP492, neg: bool) -> (r: f256)
    ensures
        is_signed_f256_of_fp492(r, v.value(), neg),
{
    let t = f256::from_fp492(v);
    if neg {
        t.negated()
    } else {
        t
    }
}

impl f256 {
    /// Computes the sine of a number (in radians).
    pub fn sin(&self) -> (r: Self)
        ensures
            is_nan_spec(*self) || is_inf_spec(*self) ==> is_nan_spec(r),
            is_zero_spec(*self) ==> r.bits@ == 0,
            is_finite_spec(*self) && !is_zero_spec(*self) ==> is_sine_of(*self, r),
    {
        proof {
            lemma_hi_fields(self.bits.hi);
        }
        if self.is_special() {
            // x is NAN or infinite => sine x is NAN
            if !self.is_finite() {
                return f256::nan();
            }
            // x = 0 => sine x = 0
            let z = f256::zero();
            proof {
                lemma_bits_value(z);
                vstd::arithmetic::mul::lemma_mul_basics(pow2(255) as int);
                vstd::arithmetic::mul::lemma_mul_basics(pow2(236) as int);
            }
            return z;
        }
        // Calculate ⌈x/½π⌋ % 4 and x % ½π.
        let a = self.abs();
        let (quadrant, fx) = reduce(&a);
        // Map result according to quadrant and sign
        let neg = (quadrant >= 2) != self.is_sign_negative();
        let r = if quadrant % 2 == 0 {
            signed_from_fp492(&approx_sin(&fx), neg)
        } else {
            signed_from_fp492(&approx_cos(&fx), neg)
        };
        proof {
            assert(quadrant < 4);
            assert(is_reduction(abs_of(*self), quadrant as int, fx.value()));
            assert(sine_of_reduction(sign_of(*self), quadrant as int, fx.value(), r));
        }
        r
    }

    /// Computes the cosine of a number (in radians).
    pub fn cos(&self) -> (r: Self)
        ensures
            is_nan_spec(*self) || is_inf_spec(*self) ==> is_nan_spec(r),
            is_zero_spec(*self) ==> sign_of(r) == 0 && bexp(r) == EXP_BIAS && fraction(r) == 0,
            is_finite_spec(*self) && !is_zero_spec(*self) ==> is_cosine_of(*self, r),
    {
        proof {
            lemma_hi_fields(self.bits.hi);
        }
        if self.is_special() {
            // x is NAN or infinite => cosine x is NAN
            if !self.is_finite() {
                return f256::nan();
            }
            // x = 0 => cosine x = 1
            return f256::one();
        }
        // Calculate ⌈|x|/½π⌋ % 4 and |x| % ½π.
        let a = self.abs();
        let (quadrant, fx) = reduce(&a);
        // Map result according to quadrant
        let neg = quadrant == 1 || quadrant == 2;
        let r = if quadrant % 2 == 0 {
            signed_from_fp492(&approx_cos(&fx), neg)
        } else {
            signed_from_fp492(&approx_sin(&fx), neg)
        };
        proof {
            assert(quadrant < 4);
            assert(is_reduction(abs_of(*self), quadrant as int, fx.value()));
            assert(cosine_of_reduction(quadrant as int, fx.value(), r));
        }
        r
    }

    /// Simultaneously computes the sine and cosine of the number x
    /// (in radians).
    ///
    /// Returns (sin(x), cos(x)).
    pub fn sin_cos(&self) -> (r: (Self, Self))
        ensures
            is_nan_spec(*self) || is_inf_spec(*self) ==> is_nan_spec(r.0) && is_nan_spec(r.1),
            is_zero_spec(*self) ==> r.0.bits@ == 0 && sign_of(r.1) == 0 && bexp(r.1) == EXP_BIAS
                && fraction(r.1) == 0,
            is_finite_spec(*self) && !is_zero_spec(*self) ==>
                exists|q: int, v: int| #[trigger] is_reduction(abs_of(*self), q, v)
                    && sine_of_reduction(sign_of(*self), q, v, r.0) && cosine_of_reduction(q, v, r.1),
    {
        proof {
            lemma_hi_fields(self.bits.hi);
        }
        if self.is_special() {
            // x is NAN or infinite => sine x and cosine x are NAN
            if !self.is_finite() {
                return (f256::nan(), f256::nan());
            }
            // x = 0 => sine x = 0 and cosine x = 1
            let z = f256::zero();
            proof {
                lemma_bits_value(z);
                vstd::arithmetic::mul::lemma_mul_basics(pow2(255) as int);
                vstd::arithmetic::mul::lemma_mul_basics(pow2(236) as int);
            }
            return (z, f256::one());
        }
        // Calculate ⌈|x|/½π⌋ % 4 and |x| % ½π.
        let a = self.abs();
        let (quadrant, fx) = reduce(&a);
        // Approximate sine and cosine
        let (sin, cos) = approx_sin_cos(&fx);
        // Map result according to quadrant and sign
        let neg_sin = (quadrant >= 2) != self.is_sign_negative();
        let neg_cos = quadrant == 1 || quadrant == 2;
        let r = if quadrant % 2 == 0 {
            (signed_from_fp492(&sin, neg_sin), signed_from_fp492(&cos, neg_cos))
        } else {
            (signed_from_fp492(&cos, neg_sin), signed_from_fp492(&sin, neg_cos))
        };
        proof {
            assert(quadrant < 4);
            assert(is_reduction(abs_of(*self), quadrant as int, fx.value()));
            assert(sine_of_reduction(sign_of(*self), quadrant as int, fx.value(), r.0));
            assert(cosine_of_reduction(quadrant as int, fx.value(), r.1));
        }
        r
    }
}

} // verus!
