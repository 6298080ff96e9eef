//! Multiplication of [`Float`] values, rounded to nearest, ties to even.
use vstd::prelude::*;
use vstd::arithmetic::power2::{pow2, lemma_pow2_pos, lemma_pow2_adds, lemma_pow2_unfold, lemma2_to64,
    lemma_pow2_strictly_increases};
use vstd::arithmetic::div_mod::{lemma_small_mod, lemma_fundamental_div_mod, lemma_mod_bound};
use vstd::arithmetic::mul::{lemma_mul_inequality, lemma_mul_strict_inequality, lemma_mul_is_commutative,
    lemma_mul_upper_bound, lemma_mul_nonnegative};
use crate::bits::{p128, p256, lemma_pow2_64_128};
use crate::uint256::{u256, is_lz, div_pow2_round, lemma_u256_bound, lemma_divmod_unique, lemma_odd_lo_pub};
use crate::uint512::{u512, p512, lemma_u512_bound};
use crate::big_float::{Float, round_product, signif_one};

verus! {

/// Signum, exponent and significand of the product of `a` and `b`, rounded
/// to 255 significant bits (ties to even).
pub open spec fn product(a: Float, b: Float) -> (int, int, nat) {
    if a.signum * b.signum == 0 {
        (0, 0, 0)
    } else {
        let (m, inc) = round_product(a.signif@ * b.signif@);
        (a.signum * b.signum, a.exp + b.exp + inc, m)
    }
}

/// Signum, exponent and significand of `f`.
pub open spec fn parts(f: Float) -> (int, int, nat) {
    (f.signum as int, f.exp as int, f.signif@)
}

/// The product of two normalized significands lies in `[2⁵⁰⁸, 2⁵¹⁰)`.
pub proof fn lemma_signif_product(x: nat, y: nat)
    requires
        pow2(254) <= x < pow2(255),
        pow2(254) <= y < pow2(255),
    ensures
        pow2(508) <= x * y < pow2(510),
{
    lemma_pow2_adds(254, 254);
    lemma_pow2_adds(255, 255);
    lemma_pow2_pos(254);
    lemma_mul_inequality(pow2(254) as int, x as int, pow2(254) as int);
    lemma_mul_inequality(pow2(254) as int, y as int, x as int);
    lemma_mul_is_commutative(pow2(254) as int, x as int);
    lemma_mul_strict_inequality(x as int, pow2(255) as int, y as int);
    lemma_mul_strict_inequality(y as int, pow2(255) as int, pow2(255) as int);
    lemma_mul_is_commutative(pow2(255) as int, y as int);
}

/// `2²⁵⁴ <= p / 2ᵏ < 2²⁵⁵` for `2²⁵⁴⁺ᵏ <= p < 2²⁵⁵⁺ᵏ`.
proof fn lemma_quot_range(p: nat, k: nat)
    requires
        pow2(254 + k) <= p < pow2(255 + k),
    ensures
        pow2(254) <= p / pow2(k) < pow2(255),
{
    lemma_pow2_adds(254, k);
    lemma_pow2_adds(255, k);
    lemma_pow2_pos(k);
    lemma_mul_is_commutative(pow2(k) as int, pow2(255) as int);
    lemma_mul_is_commutative(pow2(k) as int, pow2(254) as int);
    crate::bits::lemma_div_strictly_bounded(p as int, pow2(k) as int, pow2(255) as int);
    vstd::arithmetic::div_mod::lemma_div_is_ordered((pow2(k) * pow2(254)) as int, p as int, pow2(k) as int);
    vstd::arithmetic::div_mod::lemma_div_multiples_vanish(pow2(254) as int, pow2(k) as int);
}

/// Splitting `p⋅2ˢ` at bit 256 yields `p / 2ᵏ` and `(p mod 2ᵏ)⋅2ˢ` with
/// `k = 256 - s`.
proof fn lemma_split_shifted(p: nat, s: nat, hi: nat, lo: nat)
    requires
        1 <= s <= 2,
        hi * p256() + lo == p * pow2(s),
        lo < p256(),
    ensures
        hi == p / pow2((256 - s) as nat),
        lo == (p % pow2((256 - s) as nat)) * pow2(s),
        (lo > pow2(255)) == (p % pow2((256 - s) as nat) > pow2((256 - s) as nat) / 2),
        (lo == pow2(255)) == (p % pow2((256 - s) as nat) == pow2((256 - s) as nat) / 2),
{
    let k = (256 - s) as nat;
    let pk = pow2(k) as int;
    let ps = pow2(s) as int;
    lemma_pow2_64_128();
    lemma_pow2_adds(k, s);
    lemma_pow2_pos(k);
    lemma_pow2_pos(s);
    lemma_fundamental_div_mod(p as int, pk);
    lemma_mod_bound(p as int, pk);
    let q = p as int / pk;
    let r = p as int % pk;
    assert(p * ps == q * (pk * ps) + r * ps) by (nonlinear_arith)
        requires
            p == pk * q + r,
    ;
    assert(0 <= r * ps < pk * ps) by (nonlinear_arith)
        requires
            0 <= r < pk,
            ps > 0,
    ;
    lemma_divmod_unique(p * ps, pk * ps, q, r * ps);
    lemma_divmod_unique(p * ps, pk * ps, hi as int, lo as int);
    lemma_pow2_unfold(k);
    lemma_pow2_adds((k - 1) as nat, s);
    let h = pow2((k - 1) as nat) as int;
    assert(pk / 2 == h);
    assert(h * ps == pow2(255));
    assert((r * ps > h * ps) == (r > h)) by (nonlinear_arith)
        requires
            ps > 0,
    ;
    assert((r * ps == h * ps) == (r == h)) by (nonlinear_arith)
        requires
            ps > 0,
    ;
}

/// Computes the full product of the normalized significands `x` and `y`,
/// shifted left so that the product has its leading bit at position 510,
/// and the exponent adjustment (1 if the product is >= 2⁵⁰⁹, else 0).
pub fn mul_signifs(x: &u256, y: &u256) -> (r: (u512, i32))
    requires
        pow2(254) <= x@ < pow2(255),
        pow2(254) <= y@ < pow2(255),
    ensures
        r.1 == (if x@ * y@ >= pow2(509) { 1int } else { 0int }),
        r.0@ == x@ * y@ * pow2((2 - r.1) as nat),
{
    let prod = x.widening_mul(y);
    let nlz = prod.hi.leading_zeros();
    proof {
        let p = x@ * y@;
        lemma_signif_product(x@, y@);
        lemma_u256_bound(prod.lo);
        lemma_pow2_64_128();
        lemma_pow2_adds(252, 256);
        lemma_pow2_adds(253, 256);
        lemma_pow2_adds(254, 256);
        lemma_divmod_unique(p as int, p256() as int, prod.hi@ as int, prod.lo@ as int);
        vstd::arithmetic::div_mod::lemma_div_is_ordered(pow2(508) as int, p as int, p256() as int);
        lemma_divmod_unique(pow2(508) as int, p256() as int, pow2(252) as int, 0);
        lemma_divmod_unique(pow2(509) as int, p256() as int, pow2(253) as int, 0);
        lemma_divmod_unique(pow2(510) as int, p256() as int, pow2(254) as int, 0);
        if p < pow2(509) {
            vstd::arithmetic::div_mod::lemma_div_is_ordered(p as int, (pow2(509) - 1) as int, p256() as int);
            assert(pow2(509) - 1 == (pow2(253) - 1) * p256() + (p256() - 1));
            lemma_divmod_unique((pow2(509) - 1) as int, p256() as int, pow2(253) - 1, p256() - 1);
        } else {
            vstd::arithmetic::div_mod::lemma_div_is_ordered(pow2(509) as int, p as int, p256() as int);
        }
        vstd::arithmetic::div_mod::lemma_div_is_ordered(p as int, (pow2(510) - 1) as int, p256() as int);
        assert(pow2(510) - 1 == (pow2(254) - 1) * p256() + (p256() - 1));
        lemma_divmod_unique((pow2(510) - 1) as int, p256() as int, pow2(254) - 1, p256() - 1);
        lemma_pow2_strictly_increases(252, 253);
        lemma_pow2_strictly_increases(253, 254);
        lemma_pow2_strictly_increases(251, 252);
        if nlz <= 1 {
            lemma_pow2_strictly_increases(254, (255 - nlz) as nat);
            assert(false);
        }
        if nlz >= 4 {
            lemma_pow2_strictly_increases((256 - nlz) as nat, 252);
            assert(false);
        }
    }
    let sh = nlz - 1;
    let res = prod.shl(sh);
    let exp_adj: i32 = if nlz == 2 { 1 } else { 0 };
    proof {
        let p = x@ * y@;
        lemma_pow2_unfold(1);
        lemma_pow2_unfold(2);
        lemma2_to64();
        lemma_pow2_adds(510, 2);
        lemma_pow2_adds(509, 2);
        lemma_pow2_adds(510, 1);
        lemma_pow2_pos(sh as nat);
        lemma_pow2_strictly_increases(511, 512);
        lemma_u512_bound(res);
        if nlz == 2 {
            assert(p >= pow2(509)) by {
                if p < pow2(509) {
                    lemma_pow2_strictly_increases(252, 253);
                }
            }
            lemma_mul_strict_inequality(p as int, pow2(510) as int, 2);
        } else {
            assert(p < pow2(509));
            lemma_mul_strict_inequality(p as int, pow2(509) as int, 4);
        }
        lemma_small_mod(p * pow2(sh as nat), p512());
    }
    (res, exp_adj)
}

impl Float {
    /// Multiplies `self` by `other` inplace, rounding the product to
    /// nearest, ties to even.
    pub fn imul(&mut self, other: &Self)
        requires
            old(self).wf(),
            other.wf(),
            -0x7fff_fff0 <= old(self).exp + other.exp <= 0x7fff_fff0,
        ensures
            final(self).wf(),
            parts(*final(self)) == product(*old(self), *other),
    {
        let signum = self.signum * other.signum;
        if signum == 0 {
            *self = Self::zero();
            return;
        }
        let (prod, exp_adj) = mul_signifs(&self.signif, &other.signif);
        let ghost p = old(self).signif@ * other.signif@;
        let ghost k: nat = if p >= pow2(509) { 255 } else { 254 };
        proof {
            lemma_signif_product(old(self).signif@, other.signif@);
            lemma_u256_bound(prod.lo);
            lemma_split_shifted(p, (2 - exp_adj) as nat, prod.hi@, prod.lo@);
            assert((256 - (2 - exp_adj)) as nat == k);
            lemma_pow2_64_128();
            lemma_pow2_adds(127, 128);
            lemma2_to64();
            lemma_odd_lo_pub(prod.hi);
            if k == 255 {
                lemma_quot_range(p, 255);
            } else {
                lemma_quot_range(p, 254);
            }
            assert(pow2(127) == 0x8000_0000_0000_0000_0000_0000_0000_0000nat) by {
                lemma_pow2_adds(64, 63);
                lemma_pow2_adds(32, 31);
            }
            lemma_divmod_unique(prod.lo@ as int, p128() as int, prod.lo.hi as int, prod.lo.lo as int);
            lemma_divmod_unique(pow2(255) as int, p128() as int, pow2(127) as int, 0);
        }
        let tie = u256::new(0x8000_0000_0000_0000_0000_0000_0000_0000u128, 0);
        let mut hi = prod.hi;
        let lo = prod.lo;
        let rnd = tie.lt(&lo) || (lo == tie && (hi.lo & 1) == 1);
        if rnd {
            hi.incr();
        }
        proof {
            lemma_pow2_strictly_increases(255, 256);
            lemma_small_mod((prod.hi@ + 1) as nat, p256());
            assert(hi@ == div_pow2_round(p, k));
        }
        let lzh = hi.leading_zeros();
        let ovf = lzh == 0;
        let mut inc: i32 = exp_adj;
        if ovf {
            hi = hi.shr(1);
            inc = inc + 1;
            proof {
                lemma_pow2_unfold(255);
                lemma_pow2_unfold(1);
            }
        }
        proof {
            if !ovf {
                if lzh > 1 {
                    lemma_pow2_strictly_increases((256 - lzh) as nat, 255);
                }
                assert(hi@ < pow2(255));
            } else {
                assert(div_pow2_round(p, k) == pow2(255));
            }
        }
        self.signum = signum;
        self.signif = hi;
        self.exp = self.exp + other.exp + inc;
    }

    /// Returns the product `self * other`, rounded to nearest, ties to
    /// even.
    pub fn mul(&self, other: &Self) -> (r: Self)
        requires
            self.wf(),
            other.wf(),
            -0x7fff_fff0 <= self.exp + other.exp <= 0x7fff_fff0,
        ensures
            r.wf(),
            parts(r) == product(*self, *other),
    {
        let mut r = *self;
        r.imul(other);
        r
    }

    /// Computes `self * self`.
    pub fn square(self) -> (r: Self)
        requires
            self.wf(),
            -0x3fff_fff0 <= self.exp <= 0x3fff_fff0,
        ensures
            r.wf(),
            parts(r) == product(self, self),
    {
        self.mul(&self)
    }
}

/// The rounded product does not depend on the order of the factors.
pub proof fn lemma_product_commutative(a: Float, b: Float)
    ensures
        product(a, b) == product(b, a),
{
    lemma_mul_is_commutative(a.signum as int, b.signum as int);
    lemma_mul_is_commutative(a.signif@ as int, b.signif@ as int);
}

/// Multiplying by one gives back the factor unchanged.
pub proof fn lemma_product_one(a: Float)
    requires
        a.wf(),
        a.signum != 0 || a.exp == 0,
    ensures
        product(a, Float { signum: 1, exp: 0, signif: u256 { hi: 0x4000_0000_0000_0000_0000_0000_0000_0000, lo: 0 } })
            == parts(a),
{
    let one = Float { signum: 1, exp: 0, signif: u256 { hi: 0x4000_0000_0000_0000_0000_0000_0000_0000, lo: 0 } };
    lemma_pow2_64_128();
    lemma_pow2_adds(126, 128);
    assert(pow2(126) == 0x4000_0000_0000_0000_0000_0000_0000_0000nat) by {
        lemma_pow2_adds(64, 62);
        lemma_pow2_adds(32, 30);
        lemma2_to64();
    }
    assert(one.signif@ == pow2(254));
    if a.signum != 0 {
        let p = a.signif@ * pow2(254);
        lemma_pow2_pos(254);
        lemma_pow2_adds(255, 254);
        lemma_mul_strict_inequality(a.signif@ as int, pow2(255) as int, pow2(254) as int);
        lemma_mul_is_commutative(a.signif@ as int, pow2(254) as int);
        vstd::arithmetic::div_mod::lemma_div_multiples_vanish(a.signif@ as int, pow2(254) as int);
        vstd::arithmetic::div_mod::lemma_mod_multiples_basic(a.signif@ as int, pow2(254) as int);
        lemma_pow2_unfold(254);
        lemma_pow2_pos(253);
        assert(div_pow2_round(p, 254) == a.signif@);
    }
}


/// `square` is multiplication by itself: any two [`Float`] values that are
/// the rounded product of `x` with `x` (as [`Float::square`] and
/// [`Float::mul`] return it) are equal.
pub proof fn lemma_square_is_mul(x: Float, s: Float, m: Float)
    requires
        parts(s) == product(x, x),
        parts(m) == product(x, x),
    ensures
        s == m,
{
    lemma_pow2_64_128();
    crate::uint256::lemma_divmod_unique(s.signif@ as int, p128() as int, s.signif.hi as int, s.signif.lo as int);
    crate::uint256::lemma_divmod_unique(m.signif@ as int, p128() as int, m.signif.hi as int, m.signif.lo as int);
}

} // verus!
