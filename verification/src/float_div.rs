//! Division of [`Float`] values.
use vstd::prelude::*;
use vstd::arithmetic::power2::{pow2, lemma_pow2_pos, lemma_pow2_adds, lemma_pow2_unfold, lemma2_to64,
    lemma_pow2_strictly_increases};
use vstd::arithmetic::div_mod::{lemma_small_mod, lemma_fundamental_div_mod, lemma_mod_bound};
use vstd::arithmetic::mul::{lemma_mul_inequality, lemma_mul_strict_inequality, lemma_mul_is_commutative,
    lemma_mul_nonnegative};
use crate::bits::{p128, p256, lemma_pow2_64_128};
use crate::uint256::{u256, lemma_u256_bound, lemma_divmod_unique, lemma_odd_lo_pub};
use crate::uint512::{u512, p512, lemma_u512_bound};
use crate::big_float::Float;

verus! {

/// `n / d`, rounded to the nearest integer, ties to even.
pub open spec fn div_round(n: nat, d: nat) -> nat {
    let q = n / d;
    let r = n % d;
    if 2 * r > d || (2 * r == d && q % 2 == 1) {
        q + 1
    } else {
        q
    }
}

/// The rounded quotient of normalized significands: `div_round(x⋅2²⁵⁴, y)`,
/// shifted left by one bit if `x < y`, and that shift as exponent
/// adjustment.
pub open spec fn quotient_signif(x: nat, y: nat) -> (nat, int) {
    let adj: int = if x < y { 1 } else { 0 };
    (div_round(x * pow2(254), y) * pow2(adj as nat), adj)
}

/// `r` is the reciprocal of `x` as [`Float::recip`] computes it.
pub open spec fn is_reciprocal(x: Float, r: Float) -> bool {
    let (m, adj) = quotient_signif(pow2(254), x.signif@);
    &&& r.wf()
    &&& r.signum == x.signum
    &&& r.exp == -x.exp - adj
    &&& r.signif@ == m
}

/// `r` is the quotient `a / b` as [`Float::div`] computes it.
pub open spec fn is_quotient(a: Float, b: Float, r: Float) -> bool {
    &&& r.wf()
    &&& a.signum == 0 ==> r == a
    &&& a.signum != 0 ==> {
        let (m, adj) = quotient_signif(a.signif@, b.signif@);
        &&& r.signum == a.signum * b.signum
        &&& r.exp == a.exp - b.exp - adj
        &&& r.signif@ == m
    }
}

/// The rounded quotient of `x⋅2²⁵⁴` by `y` lies in `[2²⁵³, 2²⁵⁴)` where
/// `x < y`, else in `[2²⁵⁴, 2²⁵⁵)`.
proof fn lemma_quotient_range(x: nat, y: nat)
    requires
        pow2(254) <= x < pow2(255),
        pow2(254) <= y < pow2(255),
    ensures
        x < y ==> pow2(253) <= div_round(x * pow2(254), y) < pow2(254),
        x >= y ==> pow2(254) <= div_round(x * pow2(254), y) < pow2(255),
{
    let n = x * pow2(254);
    let q = n / y;
    let r = n % y;
    lemma_pow2_pos(254);
    lemma_pow2_unfold(255);
    lemma_pow2_unfold(254);
    lemma_fundamental_div_mod(n as int, y as int);
    lemma_mod_bound(n as int, y as int);
    let t = pow2(254) as int;
    let (xi, yi, qi, ri) = (x as int, y as int, q as int, r as int);
    assert(n == yi * qi + ri);
    let h = t / 2;
    assert(t == 2 * h);
    if x < y {
        // q < 2²⁵⁴
        assert(qi < t) by (nonlinear_arith)
            requires
                xi * t == yi * qi + ri,
                xi < yi,
                0 <= ri,
                t > 0,
                yi > 0,
        ;
        // q >= 2²⁵³: y⋅q + r < y⋅(q + 1) and x⋅2²⁵⁴ >= 2²⁵⁴⋅2²⁵⁴ > y⋅2²⁵³
        if qi < h {
            lemma_mul_inequality(qi + 1, h, yi);
            lemma_mul_strict_inequality(yi, 2 * t, h);
            lemma_mul_inequality(t, xi, t);
            assert(yi * (qi + 1) == yi * qi + yi) by (nonlinear_arith);
            assert((2 * t) * h == t * t) by (nonlinear_arith)
                requires
                    t == 2 * h,
            ;
            lemma_mul_is_commutative(qi + 1, yi);
            lemma_mul_is_commutative(h, yi);
            assert(false);
        }
        if qi == t - 1 {
            // x <= y - 1, so r = x⋅t - y⋅(t - 1) <= y - t
            lemma_mul_inequality(xi, yi - 1, t);
            assert((yi - 1) * t == yi * t - t) by (nonlinear_arith);
            assert(yi * (t - 1) == yi * t - yi) by (nonlinear_arith);
            assert(2 * ri < yi);
        }
    } else {
        if qi < t {
            lemma_mul_inequality(qi + 1, t, yi);
            lemma_mul_inequality(yi, xi, t);
            assert(yi * (qi + 1) == yi * qi + yi) by (nonlinear_arith);
            lemma_mul_is_commutative(qi + 1, yi);
            lemma_mul_is_commutative(t, yi);
            assert(false);
        }
        if qi >= 2 * t {
            lemma_mul_inequality(2 * t, qi, yi);
            lemma_mul_strict_inequality(xi, 2 * t, t);
            lemma_mul_inequality(t, yi, 2 * t);
            lemma_mul_is_commutative(2 * t, yi);
            lemma_mul_is_commutative(qi, yi);
            lemma_mul_is_commutative(2 * t, t);
            assert(false);
        }
        if qi == 2 * t - 1 {
            // x <= 2y - 1, so r = x⋅t - y⋅(2t - 1) <= y - t
            lemma_mul_inequality(xi, 2 * yi - 1, t);
            assert((2 * yi - 1) * t == 2 * (yi * t) - t) by (nonlinear_arith);
            assert(yi * (2 * t - 1) == 2 * (yi * t) - yi) by (nonlinear_arith);
            assert(2 * ri < yi);
        }
    }
}

/// Divides the normalized significand `x` by the normalized significand
/// `y`, rounding the quotient to nearest, and normalizes it; the exponent
/// adjustment is 1 if `x < y`.
#[verifier::spinoff_prover]
fn div_signifs(x: &u256, y: &u256) -> (r: (u256, i32))
    requires
        pow2(254) <= x@ < pow2(255),
        pow2(254) <= y@ < pow2(255),
    ensures
        (r.0@ as nat, r.1 as int) == quotient_signif(x@, y@),
        pow2(254) <= r.0@ < pow2(255),
{
    let exp_adj: i32 = if x.lt(y) { 1 } else { 0 };
    let xs = u512::from_hi_lo(u256::zero(), *x).shl_any(254);
    proof {
        lemma_pow2_64_128();
        lemma_pow2_adds(256, 256);
        lemma_pow2_adds(255, 254);
        lemma_pow2_pos(254);
        vstd::arithmetic::mul::lemma_mul_basics(p256() as int);
        lemma_mul_strict_inequality(x@ as int, pow2(255) as int, pow2(254) as int);
        lemma_pow2_strictly_increases(509, 512);
        lemma_small_mod(x@ * pow2(254), p512());
        assert(xs@ == x@ * pow2(254));
        lemma_u256_bound(xs.lo);
        lemma_pow2_adds(253, 256);
        lemma_pow2_strictly_increases(253, 255);
        if xs.hi@ >= y@ {
            lemma_mul_inequality(y@ as int, xs.hi@ as int, p256() as int);
            lemma_mul_inequality(pow2(254) as int, y@ as int, p256() as int);
            lemma_pow2_adds(254, 256);
            lemma_pow2_strictly_increases(509, 510);
        }
    }
    let (mut q, rem) = xs.div_rem_u256(y);
    proof {
        lemma_divmod_unique(xs@ as int, y@ as int, q@ as int, rem@ as int);
        lemma_quotient_range(x@, y@);
        lemma_odd_lo_pub(q);
        lemma_pow2_unfold(256);
        lemma_pow2_unfold(255);
    }
    // round to nearest, ties to even
    let twice_rem = rem.shl(1);
    proof {
        lemma2_to64();
        lemma_pow2_unfold(1);
        lemma_small_mod(rem@ * 2, p256());
        let l = q.lo;
        assert((l & 1) == l % 2) by (bit_vector);
    }
    if y.lt(&twice_rem) || (twice_rem == *y && (q.lo & 1) == 1) {
        proof {
            lemma_divmod_unique(twice_rem@ as int, p128() as int, twice_rem.hi as int, twice_rem.lo as int);
            lemma_divmod_unique(y@ as int, p128() as int, y.hi as int, y.lo as int);
            lemma_small_mod((q@ + 1) as nat, p256());
        }
        q.incr();
    } else {
        proof {
            if twice_rem@ == y@ {
                lemma_divmod_unique(twice_rem@ as int, p128() as int, twice_rem.hi as int, twice_rem.lo as int);
                lemma_divmod_unique(y@ as int, p128() as int, y.hi as int, y.lo as int);
            }
        }
    }
    proof {
        assert(q@ == div_round(x@ * pow2(254), y@));
    }
    let lz = q.leading_zeros();
    let ghost q0 = q@;
    proof {
        lemma_pow2_strictly_increases(254, 255);
        lemma_pow2_strictly_increases(253, 254);
        if lz == 0 {
            assert(q@ >= pow2(255));
            assert(false);
        }
        if lz > 2 {
            if lz > 3 {
                lemma_pow2_strictly_increases((256 - lz) as nat, 253);
            }
            assert(q@ < pow2(253));
            assert(false);
        }
    }
    if lz == 2 {
        q = q.shl(1);
        proof {
            lemma2_to64();
            lemma_pow2_strictly_increases(255, 256);
            lemma_pow2_unfold(255);
            lemma_pow2_64_128();
            lemma_pow2_unfold(256);
            lemma_pow2_unfold(254);
            assert(q0 < pow2(254));
            assert(pow2(255) == 2 * pow2(254));
            assert(pow2(256) == 2 * pow2(255));
            assert(q0 * 2 < pow2(255)) by (nonlinear_arith)
                requires
                    q0 < pow2(254),
                    pow2(255) == 2 * pow2(254),
            ;
            assert(pow2(256) == p256());
            assert(q0 * 2 < p256());
            lemma_small_mod(q0 * 2, p256());
            assert(q@ == q0 * pow2(1));
            assert(exp_adj == 1) by {
                if exp_adj == 0 {
                    assert(false);
                }
            }
        }
    } else {
        proof {
            lemma2_to64();
            vstd::arithmetic::mul::lemma_mul_basics(q@ as int);
            assert(exp_adj == 0);
        }
    }
    (q, exp_adj)
}

impl Float {
    /// Divides `self` by `other` inplace, rounding the quotient of the
    /// significands to nearest.
    pub fn idiv(&mut self, other: &Self)
        requires
            old(self).wf(),
            other.wf(),
            other.signum != 0,
            -0x3fff_ffff <= old(self).exp <= 0x3fff_ffff,
            -0x3fff_ffff <= other.exp <= 0x3fff_ffff,
        ensures
            final(self).wf(),
            old(self).signum == 0 ==> *final(self) == *old(self),
            old(self).signum != 0 ==> {
                let (m, adj) = quotient_signif(old(self).signif@, other.signif@);
                &&& final(self).signum == old(self).signum * other.signum
                &&& final(self).exp == old(self).exp - other.exp - adj
                &&& final(self).signif@ == m
            },
    {
        if self.signum == 0 {
            return;
        }
        self.signum = self.signum * other.signum;
        let (quot, exp_adj) = div_signifs(&self.signif, &other.signif);
        self.signif = quot;
        self.exp = self.exp - (other.exp + exp_adj);
    }

    /// Returns `self / other`.
    pub fn div(&self, other: &Self) -> (r: Self)
        requires
            self.wf(),
            other.wf(),
            other.signum != 0,
            -0x3fff_ffff <= self.exp <= 0x3fff_ffff,
            -0x3fff_ffff <= other.exp <= 0x3fff_ffff,
        ensures
            r.wf(),
            self.signum == 0 ==> r == *self,
            self.signum != 0 ==> {
                let (m, adj) = quotient_signif(self.signif@, other.signif@);
                &&& r.signum == self.signum * other.signum
                &&& r.exp == self.exp - other.exp - adj
                &&& r.signif@ == m
            },
    {
        let mut r = *self;
        r.idiv(other);
        r
    }

    /// Returns the reciprocal `1 / self`.
    pub fn recip(&self) -> (r: Self)
        requires
            self.wf(),
            self.signum != 0,
            -0x3fff_ffff <= self.exp <= 0x3fff_ffff,
        ensures
            r.wf(),
            ({
                let (m, adj) = quotient_signif(pow2(254), self.signif@);
                &&& r.signum == self.signum
                &&& r.exp == -self.exp - adj
                &&& r.signif@ == m
            }),
    {
        let mut recip = Self::one();
        recip.idiv(self);
        recip
    }
}

} // verus!
