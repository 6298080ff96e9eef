//! Binary floating point numbers with a 255-bit significand and an unbounded
//! (`i32`) exponent, used as intermediate representation with extra
//! precision.
use vstd::prelude::*;
use vstd::arithmetic::power2::{pow2, lemma_pow2_pos, lemma_pow2_adds, lemma_pow2_unfold, lemma2_to64,
    lemma_pow2_strictly_increases};
use vstd::arithmetic::div_mod::{lemma_small_mod, lemma_fundamental_div_mod, lemma_mod_bound,
    lemma_div_pos_is_pos};
use vstd::arithmetic::mul::{lemma_mul_inequality, lemma_mul_is_commutative, lemma_mul_is_associative,
    lemma_mul_strict_inequality, lemma_mul_nonnegative, lemma_mul_upper_bound};
use crate::bits::{p128, p256, lemma_pow2_64_128, lemma_split};
use crate::uint256::{u256, is_lz, div_pow2_round, lemma_u256_bound, lemma_divmod_unique, lemma_odd_lo_pub};
use crate::uint512::{u512, p512, lemma_u512_bound};

verus! {

/// Number of fractional bits of the significand of a [`Float`].
pub const FLOAT_FRACTION_BITS: u32 = 254;

/// 2²⁵⁴ = 1.0 as significand of a [`Float`]
pub open spec fn signif_one() -> nat {
    pow2(254)
}

/// The result of rounding a product `p` of two normalized significands to
/// 255 bits (ties to even): the significand and the increment of the
/// exponent.
pub open spec fn round_product(p: nat) -> (nat, int) {
    let k: nat = if p >= pow2(509) { 255 } else { 254 };
    let m = div_pow2_round(p, k);
    if m == pow2(255) {
        (pow2(254), (k - 254) + 1)
    } else {
        (m, k - 254)
    }
}

/// `m` is the correctly rounded square root of `x` (`m` within half a unit
/// of `√x`).
pub open spec fn is_rounded_root(x: nat, m: nat) -> bool {
    (2 * m - 1) * (2 * m - 1) <= 4 * x <= (2 * m + 1) * (2 * m + 1)
}

/// Representation of the number s⋅m⋅2⁻²⁵⁴⋅2ᵉ with signum s, significand m
/// and exponent e.
#[derive(Clone, Copy, Debug, PartialEq, Eq, Structural)]
pub struct Float {
    pub signum: i32,
    pub exp: i32,
    pub signif: u256,
}

impl Float {
    /// The value is zero, or its significand is normalized:
    /// 2²⁵⁴ <= m < 2²⁵⁵.
    pub open spec fn wf(self) -> bool {
        ||| (self.signum == 0 && self.signif@ == 0)
        ||| ((self.signum == 1 || self.signum == -1) && pow2(254) <= self.signif@ < pow2(255))
    }

    /// 0
    pub fn zero() -> (r: Self)
        ensures
            r.wf(),
            r.signum == 0,
            r.exp == 0,
            r.signif@ == 0,
            r == Float::zero_spec(),
    {
        Float { signum: 0, exp: 0, signif: u256::zero() }
    }

    fn signif_one_u256() -> (r: u256)
        ensures
            r@ == signif_one(),
    {
        proof {
            lemma_pow2_64_128();
            lemma_pow2_adds(126, 128);
            assert(pow2(126) == 0x40000000000000000000000000000000nat) by {
                lemma_pow2_adds(64, 62);
                lemma_pow2_adds(32, 30);
                lemma2_to64();
            }
        }
        u256::new(0x40000000000000000000000000000000u128, 0)
    }

    /// 1
    pub fn one() -> (r: Self)
        ensures
            r.wf(),
            r.signum == 1,
            r.exp == 0,
            r.signif@ == signif_one(),
    {
        proof {
            lemma_pow2_strictly_increases(254, 255);
        }
        Float { signum: 1, exp: 0, signif: Self::signif_one_u256() }
    }

    /// -1
    pub fn neg_one() -> (r: Self)
        ensures
            r.wf(),
            r.signum == -1,
            r.exp == 0,
            r.signif@ == signif_one(),
    {
        proof {
            lemma_pow2_strictly_increases(254, 255);
        }
        Float { signum: -1, exp: 0, signif: Self::signif_one_u256() }
    }

    /// 2
    pub fn two() -> (r: Self)
        ensures
            r.wf(),
            r.signum == 1,
            r.exp == 1,
            r.signif@ == signif_one(),
    {
        proof {
            lemma_pow2_strictly_increases(254, 255);
        }
        Float { signum: 1, exp: 1, signif: Self::signif_one_u256() }
    }

    /// ½
    pub fn one_half() -> (r: Self)
        ensures
            r.wf(),
            r.signum == 1,
            r.exp == -1,
            r.signif@ == signif_one(),
    {
        proof {
            lemma_pow2_strictly_increases(254, 255);
        }
        Float { signum: 1, exp: -1, signif: Self::signif_one_u256() }
    }

    /// 2⁻²⁵⁴
    pub fn epsilon() -> (r: Self)
        ensures
            r.wf(),
            r.signum == 1,
            r.exp == -254,
            r.signif@ == signif_one(),
    {
        proof {
            lemma_pow2_strictly_increases(254, 255);
        }
        Float { signum: 1, exp: -254, signif: Self::signif_one_u256() }
    }

    /// Construct a `Float` from signum, exponent and normalized significand.
    pub fn new(signum: i32, exp: i32, signif: (u128, u128)) -> (r: Self)
        requires
            signum == 1 || signum == -1,
            pow2(254) <= signif.0 * p128() + signif.1 < pow2(255),
        ensures
            r.wf(),
            r.signum == signum,
            r.exp == exp,
            r.signif@ == signif.0 * p128() + signif.1,
            r.signif.hi == signif.0,
            r.signif.lo == signif.1,
    {
        Float { signum, exp, signif: u256::new(signif.0, signif.1) }
    }

    /// Construct a `Float` value f from sign s, quantum exponent t and
    /// integral significand c, so that f = (-1)ˢ × 2ᵗ × c (the lowest bit of
    /// a significand of 256 bits is dropped).
    pub fn from_sign_exp_signif(s: u32, t: i32, c: (u128, u128)) -> (r: Self)
        requires
            s == 0 || s == 1,
            -0x7000_0000 <= t <= 0x7000_0000,
        ensures
            r.wf(),
            c.0 == 0 && c.1 == 0 ==> r == Self::zero_spec(),
            !(c.0 == 0 && c.1 == 0) ==> {
                let m = c.0 * p128() + c.1;
                &&& r.signum == (if s == 0 { 1int } else { -1int })
                &&& m >= pow2(255) ==> r.signif@ == m / 2 && r.exp == t + 1 + 254
                &&& m < pow2(255) ==> r.exp <= t + 254
                    && r.signif@ == m * pow2((t + 254 - r.exp) as nat)
            },
    {
        let m = u256::new(c.0, c.1);
        if m.is_zero() {
            return Self::zero();
        }
        let lz = m.leading_zeros();
        proof {
            lemma_pow2_64_128();
            lemma2_to64();
            if lz == 256 {
                assert(false);
            }
        }
        let signum: i32 = if s == 0 { 1 } else { -1 };
        if lz == 0 {
            let signif = m.shr(1);
            proof {
                lemma_u256_bound(m);
                lemma_pow2_unfold(256);
                lemma_pow2_unfold(255);
                assert(m@ >= pow2(255));
                assert(signif@ == m@ / 2);
            }
            Float { signum, exp: t + 1 + 254, signif }
        } else {
            let sh = lz - 1;
            let signif = if sh == 0 { m } else { m.shl(sh) };
            proof {
                if sh > 0 {
                    lemma_pow2_adds((256 - lz) as nat, sh as nat);
                    lemma_pow2_adds((255 - lz) as nat, sh as nat);
                    lemma_pow2_pos(sh as nat);
                    lemma_mul_strict_inequality(m@ as int, pow2((256 - lz) as nat) as int, pow2(sh as nat) as int);
                    lemma_mul_inequality(pow2((255 - lz) as nat) as int, m@ as int, pow2(sh as nat) as int);
                    lemma_pow2_strictly_increases(255, 256);
                    lemma_small_mod(m@ * pow2(sh as nat), p256());
                    lemma_pow2_strictly_increases((256 - lz) as nat, 255);
                } else {
                    vstd::arithmetic::mul::lemma_mul_basics(m@ as int);
                }
                assert(signif@ == m@ * pow2(sh as nat));
                assert(m@ < pow2(255));
            }
            let r = Float { signum, exp: t - sh as i32 + 254, signif };
            assert(r.signif@ == m@ * pow2((t + 254 - r.exp) as nat));
            r
        }
    }

    pub open spec fn zero_spec() -> Self {
        Float { signum: 0, exp: 0, signif: u256 { hi: 0, lo: 0 } }
    }

    /// The signum of `self`: -1, 0 or 1.
    pub fn signum(&self) -> (r: i32)
        ensures
            r == self.signum,
    {
        self.signum
    }

    /// The exponent of `self`.
    pub fn exp(&self) -> (r: i32)
        ensures
            r == self.exp,
    {
        self.exp
    }

    /// The significand of `self`.
    pub fn signif(&self) -> (r: u256)
        ensures
            r == self.signif,
    {
        self.signif
    }

    /// The value of the least significant bit of the significand of `self`.
    pub fn quantum(&self) -> (r: Self)
        requires
            self.exp >= -0x7000_0000,
        ensures
            r.wf(),
            r.signum == 1,
            r.exp == self.exp - 254,
            r.signif@ == signif_one(),
    {
        proof {
            lemma_pow2_strictly_increases(254, 255);
        }
        Float { signum: 1, exp: self.exp - 254, signif: Self::signif_one_u256() }
    }

    /// Returns `true` if `self` is zero.
    pub fn is_zero(&self) -> (r: bool)
        ensures
            r == (self.signum == 0),
    {
        self.signum == 0
    }

    /// Flips the sign of `self`.
    pub fn flip_sign(&mut self)
        requires
            old(self).wf(),
        ensures
            final(self).wf(),
            final(self).signum == -old(self).signum,
            final(self).exp == old(self).exp,
            final(self).signif == old(self).signif,
    {
        self.signum = -self.signum;
    }

    /// Sets the sign of `self` to the sign of `other`.
    pub fn copy_sign(&mut self, other: &Self)
        requires
            old(self).wf(),
            other.wf(),
            other.signum != 0,
            old(self).signum != 0,
        ensures
            final(self).wf(),
            final(self).signum == other.signum,
            final(self).exp == old(self).exp,
            final(self).signif == old(self).signif,
    {
        self.signum = other.signum;
    }

    /// The absolute value of `self`.
    pub fn abs(&self) -> (r: Self)
        requires
            self.wf(),
        ensures
            r.wf(),
            r.signum == (if self.signum < 0 { -self.signum } else { self.signum as int }),
            r.exp == self.exp,
            r.signif == self.signif,
    {
        Float { signum: if self.signum < 0 { -self.signum } else { self.signum }, exp: self.exp, signif: self.signif }
    }

    /// Computes `self` * 2ⁿ
    pub fn mul_pow2(&self, n: i32) -> (r: Self)
        requires
            -0x7000_0000 <= self.exp + n <= 0x7000_0000,
        ensures
            r.signum == self.signum,
            r.exp == self.exp + n,
            r.signif == self.signif,
            self.wf() ==> r.wf(),
    {
        Float { signum: self.signum, exp: self.exp + n, signif: self.signif }
    }
}

} // verus!
