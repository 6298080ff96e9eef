//! Sums and products of [`Float`] values together with their rounding
//! errors.
use vstd::prelude::*;
use crate::big_float::Float;
use crate::float_add::{is_sum, is_difference, lemma_sum_exp, lemma_difference_exp};
use crate::float_mul::{product, parts};
use crate::float_fma::is_fma_result;

verus! {

/// The exponent range in which the error-free transformations below may
/// operate.
pub open spec fn exact_range(f: Float) -> bool {
    -0x0f00_0000 <= f.exp <= 0x0f00_0000
}

/// The smallest of the exponents of `a` and `b` and 0.
pub open spec fn exp_floor(a: Float, b: Float) -> int {
    let m: int = if a.exp < b.exp { a.exp as int } else { b.exp as int };
    if m < 0 { m } else { 0 }
}

/// The largest of the exponents of `a` and `b` and 0.
pub open spec fn exp_ceil(a: Float, b: Float) -> int {
    let m: int = if a.exp < b.exp { b.exp as int } else { a.exp as int };
    if m > 0 { m } else { 0 }
}

/// `(s, r)` is the rounded sum of `a` and `b` with the remainder
/// `((a - (s - b)) + (b - (s - (s - b))))`, each operation rounded, as
/// [`Float::sum_exact`] computes them.
pub open spec fn is_two_sum(a: Float, b: Float, s: Float, r: Float) -> bool {
    &&& is_sum(a, b, s)
    &&& exists|d: Float, t1: Float, e: Float, t2: Float|
        #![trigger is_difference(s, b, d), is_difference(a, d, t1), is_difference(s, d, e),
            is_difference(b, e, t2)]
        is_difference(s, b, d) && is_difference(a, d, t1) && is_difference(s, d, e)
            && is_difference(b, e, t2) && is_sum(t1, t2, r)
}

/// `(p, r)` is the rounded product of `a` and `b` with the remainder
/// `a⋅b - p` rounded by a fused multiply-add, as [`Float::mul_exact`]
/// computes them.
pub open spec fn is_two_product(a: Float, b: Float, p: Float, r: Float) -> bool {
    &&& p.wf()
    &&& parts(p) == product(a, b)
    &&& r.wf()
    &&& is_fma_result(a, b, p.neg_spec(), r)
}

impl Float {
    /// Computes the rounded sum `s` of `self` and `rhs` and the remainder
    /// `((self - (s - rhs)) + (rhs - (s - (s - rhs))))`, each operation
    /// rounded.
    pub fn sum_exact(&self, rhs: &Self) -> (r: (Self, Self))
        requires
            self.wf(),
            rhs.wf(),
            exact_range(*self),
            exact_range(*rhs),
        ensures
            is_two_sum(*self, *rhs, r.0, r.1),
            exp_floor(*self, *rhs) - 255 <= r.0.exp <= exp_ceil(*self, *rhs) + 1,
            exp_floor(*self, *rhs) - 1275 <= r.1.exp <= exp_ceil(*self, *rhs) + 5,
    {
        let ghost lo = exp_floor(*self, *rhs);
        let ghost hi = exp_ceil(*self, *rhs);
        let s = self.add(rhs);
        proof {
            lemma_sum_exp(*self, *rhs, s, lo, hi);
        }
        let d = s.sub(rhs);
        proof {
            lemma_difference_exp(s, *rhs, d, lo - 255, hi + 1);
        }
        let t1 = self.sub(&d);
        proof {
            lemma_difference_exp(*self, d, t1, lo - 510, hi + 2);
        }
        let e = s.sub(&d);
        proof {
            lemma_difference_exp(s, d, e, lo - 510, hi + 2);
        }
        let t2 = rhs.sub(&e);
        proof {
            lemma_difference_exp(*rhs, e, t2, lo - 765, hi + 3);
        }
        let r = t1.add(&t2);
        proof {
            lemma_sum_exp(t1, t2, r, lo - 1020, hi + 4);
            assert(is_difference(s, *rhs, d));
            assert(is_difference(*self, d, t1));
            assert(is_difference(s, d, e));
            assert(is_difference(*rhs, e, t2));
            assert(is_sum(t1, t2, r));
        }
        let res = (s, r);
        assert(is_difference(res.0, *rhs, d) && is_difference(*self, d, t1) && is_difference(res.0, d, e)
            && is_difference(*rhs, e, t2) && is_sum(t1, t2, res.1));
        res
    }

    /// Computes the rounded product `p` of `self` and `rhs` and the
    /// remainder `self * rhs - p`, rounded once by a fused multiply-add.
    pub fn mul_exact(&self, rhs: &Self) -> (r: (Self, Self))
        requires
            self.wf(),
            rhs.wf(),
            exact_range(*self),
            exact_range(*rhs),
        ensures
            is_two_product(*self, *rhs, r.0, r.1),
            r.0.exp == 0 || self.exp + rhs.exp <= r.0.exp <= self.exp + rhs.exp + 2,
            ({
                let lo: int = if self.exp + rhs.exp < 0 { self.exp + rhs.exp } else { 0 };
                let hi: int = if self.exp + rhs.exp > 0 { self.exp + rhs.exp + 2 } else { 2 };
                lo - 510 <= r.1.exp <= hi + 3
            }),
    {
        let p = self.mul(rhs);
        let np = p.neg();
        let r = self.mul_add(rhs, &np);
        assert(np == p.neg_spec());
        proof {
            let lo: int = if self.exp + rhs.exp < 0 { self.exp + rhs.exp } else { 0 };
            let hi: int = if self.exp + rhs.exp > 0 { self.exp + rhs.exp + 2 } else { 2 };
            crate::float_fma::lemma_fma_exp(*self, *rhs, np, r, lo, hi);
        }
        (p, r)
    }
}

} // verus!
