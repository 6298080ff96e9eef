//! Multiplication and division of fixed-point numbers with 492 fractional
//! bits.
use vstd::prelude::*;
use vstd::arithmetic::power2::{pow2, lemma_pow2_pos, lemma_pow2_unfold, lemma_pow2_strictly_increases, lemma2_to64};
use vstd::arithmetic::div_mod::{lemma_small_mod, lemma_fundamental_div_mod, lemma_mod_bound};
use vstd::arithmetic::mul::lemma_mul_nonnegative;
use crate::bits::{p256, lemma_pow2_64_128};
use crate::uint256::{u256, lemma_u256_bound, lemma_divmod_unique};
use crate::uint512::{u512, p512, lemma_u512_bound};
use crate::fp492::{FP492, p511, signed512, lemma_p512, rounded_product};
use crate::float_fma::lemma_u512_parity_pub;

verus! {

/// The quotient `x / y` of two fixed-point magnitudes (both in units of
/// 2⁻⁴⁹²), in units of 2⁻⁴⁹²: the truncated quotient `q`, incremented where
/// the remainder exceeds `⌊y / 2⌋`, or equals it while `q` is odd.
pub open spec fn fixed_quotient(x: nat, y: nat) -> nat {
    let n = x * pow2(492);
    let q = n / y;
    let r = n % y;
    let t = y / 2;
    if r > t || (r == t && q % 2 == 1) {
        q + 1
    } else {
        q
    }
}

/// A non-negative pattern below 2⁵¹¹ is its own signed value.
proof fn lemma_small_signed(v: nat)
    requires
        v < p511(),
    ensures
        signed512(v) == v,
{
}

/// The `u512` value one.
fn u512_one() -> (r: u512)
    ensures
        r@ == 1,
{
    let r = u512 { hi: u256 { hi: 0, lo: 0 }, lo: u256 { hi: 0, lo: 1 } };
    proof {
        assert(r.hi@ == 0);
        assert(r.lo@ == 1);
    }
    r
}

/// One step of restoring division: doubles the partial remainder `r`,
/// subtracts `y` where it fits and appends the resulting quotient bit to `q`.
fn shift_subtract(q: &u512, r: &u512, y: &u512) -> (res: (u512, u512))
    requires
        r@ < y@ < p511(),
        2 * q@ + 1 < p512(),
        p512() == 2 * p511(),
    ensures
        res.1@ < y@,
        res.0@ == 2 * q@ || res.0@ == 2 * q@ + 1,
        res.0@ * y@ + res.1@ == 2 * (q@ * y@ + r@),
{
    proof {
        lemma2_to64();
        lemma_small_mod(r@ * 2, p512());
        lemma_small_mod(q@ * 2, p512());
    }
    let mut r2 = r.shl_any(1);
    let mut q2 = q.shl_any(1);
    assert(r2@ == r@ * 2);
    assert(q2@ == q@ * 2);
    if !r2.lt(y) {
        r2.sub_assign(y);
        let one = u512_one();
        q2.add_assign(&one);
        proof {
            crate::uint512::lemma_mod_once((r@ * 2 + p512() - y@) as int, p512() as int);
            lemma_small_mod(q@ * 2 + 1, p512());
        }
    }
    proof {
        assert(q2@ * y@ + r2@ == 2 * (q@ * y@ + r@)) by (nonlinear_arith)
            requires
                (q2@ == 2 * q@ && r2@ == 2 * r@) || (q2@ == 2 * q@ + 1 && r2@ == 2 * r@ - y@),
        {
        }
    }
    (q2, r2)
}

impl FP492 {
    /// Sets `self` to `self * rhs`, rounded to 492 fractional bits.
    pub fn mul_assign(&mut self, rhs: &Self)
        ensures
            -(p511() as int) < rounded_product(old(self).value(), rhs.value(), 492) < p511() ==>
                final(self).value() == rounded_product(old(self).value(), rhs.value(), 492),
            final(self).0@ == crate::fp492::pattern512(rounded_product(old(self).value(), rhs.value(), 492)),
    {
        self.imul_round(rhs);
    }

    /// Sets `self` to the quotient `self / rhs`, rounded to 492 fractional
    /// bits as described by [`fixed_quotient`]; `self` must be non-negative
    /// and below `rhs`.
    pub fn div_assign(&mut self, rhs: &Self)
        requires
            0 <= old(self).value() < rhs.value(),
        ensures
            final(self).value() == fixed_quotient(old(self).value() as nat, rhs.value() as nat),
    {
        let ghost x: nat = self.value() as nat;
        let ghost yv: nat = rhs.value() as nat;
        proof {
            lemma_p512();
            lemma_u512_bound(self.0);
            lemma_u512_bound(rhs.0);
            assert(self.0@ == x);
            assert(rhs.0@ == yv);
        }
        let y = rhs.0;
        let mut r = self.0;
        let mut q = u512 { hi: u256 { hi: 0, lo: 0 }, lo: u256 { hi: 0, lo: 0 } };
        let one = u512_one();
        proof {
            lemma_pow2_64_128();
            assert(q@ == 0) by {
                assert(q.hi@ == 0);
                assert(q.lo@ == 0);
            }
            lemma2_to64();
            lemma_pow2_unfold(512);
        }
        let mut i: u32 = 0;
        while i < 492
            invariant
                i <= 492,
                y@ == yv,
                0 < yv < p511(),
                r@ < yv,
                q@ < pow2(i as nat),
                x * pow2(i as nat) == q@ * yv + r@,
                p512() == 2 * p511(),
                pow2(511) == p511(),
            decreases 492 - i,
        {
            let ghost (q0, r0) = (q@, r@);
            proof {
                lemma_pow2_unfold((i + 1) as nat);
                if i + 1 < 492 {
                    lemma_pow2_strictly_increases((i + 1) as nat, 492);
                }
                lemma_pow2_strictly_increases(492, 511);
            }
            let (q1, r1) = shift_subtract(&q, &r, &y);
            q = q1;
            r = r1;
            proof {
                assert(x * pow2((i + 1) as nat) == q@ * yv + r@) by (nonlinear_arith)
                    requires
                        x * pow2(i as nat) == q0 * yv + r0,
                        pow2((i + 1) as nat) == 2 * pow2(i as nat),
                        q@ * yv + r@ == 2 * (q0 * yv + r0),
                {
                }
            }
            i = i + 1;
        }
        let tie = y.shr_any(1);
        proof {
            lemma2_to64();
            assert(tie@ == yv / 2);
            lemma_pow2_pos(492);
            lemma_mul_nonnegative(x as int, pow2(492) as int);
            lemma_divmod_unique((x * pow2(492)) as int, yv as int, q@ as int, r@ as int);
            lemma_u512_parity_pub(q);
            let n = x * pow2(492);
            assert(q@ == n / yv);
            assert(r@ == n % yv);
        }
        let ghost qb = q@;
        let up = tie.lt(&r) || (!r.lt(&tie) && q.lo.lo % 2 == 1);
        assert(up == (r@ > yv / 2 || (r@ == yv / 2 && qb % 2 == 1)));
        if up || (r == tie && q.lo.lo % 2 == 1) {
            proof {
                lemma_pow2_strictly_increases(492, 511);
                lemma_small_mod(q@ + 1, p512());
            }
            q.add_assign(&one);
        }
        proof {
            lemma_pow2_strictly_increases(492, 511);
            lemma_small_signed(q@);
            assert(q@ == (if up { qb + 1 } else { qb }));
        }
        self.0 = q;
        assert(self.value() == q@);
    }
}

} // verus!
