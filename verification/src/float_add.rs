//! Addition and subtraction of [`Float`] values.
//!
//! The operands are aligned to the larger exponent by shifting the
//! significand of the smaller one to the right; bits shifted out are
//! dropped, and so is the lowest bit of a sum that overflows.
use vstd::prelude::*;
use vstd::arithmetic::power2::{pow2, lemma_pow2_pos, lemma_pow2_adds, lemma_pow2_unfold, lemma2_to64,
    lemma_pow2_strictly_increases};
use vstd::arithmetic::div_mod::{lemma_small_mod, lemma_div_is_ordered_by_denominator};
use vstd::arithmetic::mul::{lemma_mul_inequality, lemma_mul_strict_inequality,
    lemma_mul_is_commutative};
use crate::bits::{p256, lemma_pow2_64_128};
use crate::uint256::{u256, is_lz, lemma_u256_bound, lemma_scaled_lz};
use crate::big_float::Float;
use crate::float_mul::parts;

verus! {

/// `r` is the normalized form of the non-zero magnitude `d` at exponent
/// `e`: `r.signif = d⋅2ᵉ⁻ʳ·ᵉˣᵖ`, normalized.
pub open spec fn is_normalized_of(r: Float, sg: int, e: int, d: nat) -> bool {
    &&& r.signum == sg
    &&& r.exp <= e
    &&& r.signif@ == d * pow2((e - r.exp) as nat)
    &&& pow2(254) <= r.signif@ < pow2(255)
}

/// The result of adding `a` and `b` as [`Float::iadd`] computes it.
pub open spec fn is_aligned_sum(a: Float, b: Float, r: Float) -> bool {
    let e = if a.exp >= b.exp { a.exp as int } else { b.exp as int };
    if a.signum == 0 || e - a.exp > 254 {
        r == b
    } else if b.signum == 0 || e - b.exp > 254 {
        r == a
    } else {
        let x = a.signif@ / pow2((e - a.exp) as nat);
        let y = b.signif@ / pow2((e - b.exp) as nat);
        if a.signum == b.signum {
            let s = x + y;
            &&& r.signum == a.signum
            &&& s >= pow2(255) ==> r.exp == e + 1 && r.signif@ == s / 2
            &&& s < pow2(255) ==> r.exp == e && r.signif@ == s
        } else {
            let sg = if x < y { b.signum as int } else { a.signum as int };
            let d: int = if x < y { y - x } else { x - y };
            &&& d == 0 ==> r == Float::zero_spec()
            &&& d != 0 ==> is_normalized_of(r, sg, e, d as nat)
        }
    }
}

/// `r` is the difference `a - b` as [`Float::sub`] computes it.
pub open spec fn is_difference(a: Float, b: Float, r: Float) -> bool {
    &&& r.wf()
    &&& a == b ==> r == Float::zero_spec()
    &&& a != b ==> is_aligned_sum(a, b.neg_spec(), r)
}

/// `r` is the sum `a + b` as [`Float::add`] computes it.
pub open spec fn is_sum(a: Float, b: Float, r: Float) -> bool {
    &&& r.wf()
    &&& is_aligned_sum(a, b, r)
}

/// The exponent of an aligned sum stays within 255 below and one above the
/// exponents of the operands, unless the sum is zero.
pub proof fn lemma_sum_exp(a: Float, b: Float, r: Float, lo: int, hi: int)
    requires
        a.wf(),
        b.wf(),
        r.wf(),
        is_aligned_sum(a, b, r),
        lo <= a.exp <= hi,
        lo <= b.exp <= hi,
        lo <= 0 <= hi,
    ensures
        lo - 255 <= r.exp <= hi + 1,
{
    let e = if a.exp >= b.exp { a.exp as int } else { b.exp as int };
    if a.signum != 0 && e - a.exp <= 254 && b.signum != 0 && e - b.exp <= 254 && a.signum != b.signum
        && r.signum != 0 {
        let x = a.signif@ / pow2((e - a.exp) as nat);
        let y = b.signif@ / pow2((e - b.exp) as nat);
        let d: int = if x < y { y - x } else { x - y };
        let k = (e - r.exp) as nat;
        assert(r.signif@ == d * pow2(k));
        if k >= 255 {
            if k > 255 {
                lemma_pow2_strictly_increases(255, k);
            }
            lemma_mul_inequality(1, d, pow2(k) as int);
        }
    }
}

/// The exponent of a difference stays within 255 below and one above the
/// exponents of the operands.
pub proof fn lemma_difference_exp(a: Float, b: Float, r: Float, lo: int, hi: int)
    requires
        a.wf(),
        b.wf(),
        is_difference(a, b, r),
        lo <= a.exp <= hi,
        lo <= b.exp <= hi,
        lo <= 0 <= hi,
    ensures
        lo - 255 <= r.exp <= hi + 1,
{
    if a != b {
        lemma_sum_exp(a, b.neg_spec(), r, lo, hi);
    }
}

/// Adds the significands `x` and `y`; a sum that overflows 255 bits is
/// shifted right by one bit, which is reported as exponent adjustment 1.
fn add_signifs(x: &u256, y: &u256) -> (r: (u256, i32))
    requires
        x@ < pow2(255),
        y@ < pow2(255),
    ensures
        x@ + y@ >= pow2(255) ==> r.0@ == (x@ + y@) / 2 && r.1 == 1,
        x@ + y@ < pow2(255) ==> r.0@ == x@ + y@ && r.1 == 0,
{
    let mut sum = *x;
    sum.add_assign(y);
    proof {
        lemma_pow2_64_128();
        lemma_pow2_unfold(256);
        lemma_small_mod((x@ + y@) as nat, p256());
    }
    let mut exp_adj: i32 = 0;
    let lz = sum.leading_zeros();
    proof {
        if lz > 1 {
            lemma_pow2_strictly_increases((256 - lz) as nat, 255);
        }
    }
    if lz == 0 {
        sum.shr_assign(1);
        exp_adj = 1;
        proof {
            lemma_pow2_unfold(1);
            lemma2_to64();
        }
    }
    (sum, exp_adj)
}

/// Subtracts the significand `y` from the normalized significand `x` and
/// normalizes the difference; the shift is reported as (negative) exponent
/// adjustment.
fn sub_signifs(x: &u256, y: &u256) -> (r: (u256, i32))
    requires
        y@ <= x@,
        pow2(254) <= x@ < pow2(255),
    ensures
        x@ == y@ ==> r.0@ == 0,
        x@ != y@ ==> {
            &&& -254 <= r.1 <= 0
            &&& r.0@ == (x@ - y@) * pow2((-r.1) as nat)
            &&& pow2(254) <= r.0@ < pow2(255)
        },
{
    let mut diff = *x;
    diff.sub_assign(y);
    proof {
        lemma_pow2_64_128();
        lemma_u256_bound(*x);
        vstd::arithmetic::div_mod::lemma_mod_add_multiples_vanish((x@ - y@) as int, p256() as int);
        lemma_small_mod((x@ - y@) as nat, p256());
    }
    let lz = diff.leading_zeros();
    proof {
        if lz == 0 {
            lemma_pow2_strictly_increases(255, 256);
        }
    }
    let shl = lz - 1;
    let d0 = diff;
    diff.shl_assign(shl);
    proof {
        let d = (x@ - y@) as nat;
        lemma2_to64();
        if d == 0 {
            vstd::arithmetic::mul::lemma_mul_basics(pow2(shl as nat) as int);
            lemma_small_mod(0, p256());
        } else {
            if lz == 256 {
                assert(false);
            }
            lemma_pow2_adds((256 - lz) as nat, shl as nat);
            lemma_pow2_adds((255 - lz) as nat, shl as nat);
            lemma_pow2_pos(shl as nat);
            lemma_mul_strict_inequality(d as int, pow2((256 - lz) as nat) as int, pow2(shl as nat) as int);
            lemma_mul_inequality(pow2((255 - lz) as nat) as int, d as int, pow2(shl as nat) as int);
            lemma_pow2_strictly_increases(255, 256);
            lemma_small_mod(d * pow2(shl as nat), p256());
            if lz > 1 {
                lemma_pow2_strictly_increases((256 - lz) as nat, 255);
            }
        }
    }
    (diff, -(shl as i32))
}

impl Float {
    /// `-self`
    pub fn neg(&self) -> (r: Self)
        requires
            self.wf(),
        ensures
            r.wf(),
            r.signum == -self.signum,
            r.exp == self.exp,
            r.signif == self.signif,
    {
        Float { signum: -self.signum, exp: self.exp, signif: self.signif }
    }

    /// Adds `other` to `self` inplace.
    pub fn iadd(&mut self, other: &Self)
        requires
            old(self).wf(),
            other.wf(),
            -0x3fff_ffff <= old(self).exp <= 0x3fff_ffff,
            -0x3fff_ffff <= other.exp <= 0x3fff_ffff,
        ensures
            final(self).wf(),
            is_aligned_sum(*old(self), *other, *final(self)),
    {
        let exp = if self.exp >= other.exp { self.exp } else { other.exp };
        if self.is_zero() || (exp - self.exp) > 254 {
            *self = *other;
            return;
        }
        if other.is_zero() || (exp - other.exp) > 254 {
            return;
        }
        let sh_self = (exp - self.exp) as u32;
        let sh_other = (exp - other.exp) as u32;
        let mut signif_self = if sh_self == 0 { self.signif } else { self.signif.shr(sh_self) };
        let mut signif_other = if sh_other == 0 { other.signif } else { other.signif.shr(sh_other) };
        let ghost x = signif_self@;
        let ghost y = signif_other@;
        proof {
            lemma_pow2_pos(sh_self as nat);
            lemma_pow2_pos(sh_other as nat);
            lemma2_to64();
            vstd::arithmetic::div_mod::lemma_div_basics(self.signif@ as int);
            vstd::arithmetic::div_mod::lemma_div_basics(other.signif@ as int);
            lemma_div_is_ordered_by_denominator(self.signif@ as int, 1, pow2(sh_self as nat) as int);
            lemma_div_is_ordered_by_denominator(other.signif@ as int, 1, pow2(sh_other as nat) as int);
            assert(sh_self == 0 || sh_other == 0);
        }
        let effective_sub = self.signum != other.signum;
        if signif_self.lt(&signif_other) {
            let t = signif_self;
            signif_self = signif_other;
            signif_other = t;
            self.signum = other.signum;
        }
        proof {
            // The larger significand is the one that was not shifted.
            if sh_self > 0 {
                lemma_pow2_unfold(sh_self as nat);
                vstd::arithmetic::div_mod::lemma_div_is_ordered_by_denominator(old(self).signif@ as int, 2,
                    pow2(sh_self as nat) as int);
                lemma_pow2_unfold(255);
            }
            if sh_other > 0 {
                lemma_pow2_unfold(sh_other as nat);
                vstd::arithmetic::div_mod::lemma_div_is_ordered_by_denominator(other.signif@ as int, 2,
                    pow2(sh_other as nat) as int);
                lemma_pow2_unfold(255);
            }
            assert(pow2(254) <= signif_self@ < pow2(255));
        }
        let (signif, exp_adj) = if effective_sub {
            sub_signifs(&signif_self, &signif_other)
        } else {
            add_signifs(&signif_self, &signif_other)
        };
        self.signif = signif;
        if self.signif.is_zero() {
            self.signum = 0;
            self.exp = 0;
        } else {
            self.exp = exp + exp_adj;
        }
        proof {
            if !effective_sub {
                lemma_pow2_unfold(255);
                assert(x + y >= pow2(254));
                if x + y >= pow2(255) {
                    lemma_pow2_unfold(256);
                    lemma_pow2_unfold(255);
                }
                assert(self.signif@ != 0);
            } else {
                if x != y {
                    assert(self.signif@ != 0) by {
                        lemma_pow2_pos(254);
                    }
                    assert(self.exp <= exp);
                    assert((exp - self.exp) as nat == (-exp_adj) as nat);
                }
            }
        }
    }

    /// Subtracts `other` from `self` inplace.
    pub fn isub(&mut self, other: &Self)
        requires
            old(self).wf(),
            other.wf(),
            -0x3fff_ffff <= old(self).exp <= 0x3fff_ffff,
            -0x3fff_ffff <= other.exp <= 0x3fff_ffff,
        ensures
            final(self).wf(),
            *old(self) == *other ==> *final(self) == Float::zero_spec(),
            *old(self) != *other ==> is_aligned_sum(*old(self), other.neg_spec(), *final(self)),
    {
        if *self == *other {
            *self = Self::zero();
        } else {
            self.iadd(&other.neg());
        }
    }

    /// Returns the integral part of `self`, i.e. `self` with its fractional
    /// bits cleared.
    pub fn trunc(&self) -> (r: Self)
        requires
            self.wf(),
        ensures
            r.wf(),
            self.exp >= 1 ==> {
                let sh: nat = if self.exp < 254 { (254 - self.exp) as nat } else { 0 };
                &&& r.signum == self.signum
                &&& r.exp == self.exp
                &&& r.signif@ == (self.signif@ / pow2(sh)) * pow2(sh)
            },
            self.exp == 0 && self.signum != 0 ==> r.signum == self.signum && r.exp == 0
                && r.signif@ == pow2(254),
            self.exp < 0 || self.signum == 0 && self.exp == 0 ==> r == Float::zero_spec(),
    {
        if self.exp >= 1 {
            let sh: u32 = if self.exp < 254 { (254 - self.exp) as u32 } else { 0 };
            let signif = if sh == 0 { self.signif } else { self.signif.shr(sh).shl(sh) };
            proof {
                lemma2_to64();
                lemma_pow2_pos(sh as nat);
                if sh == 0 {
                    vstd::arithmetic::div_mod::lemma_div_basics(self.signif@ as int);
                    vstd::arithmetic::mul::lemma_mul_basics((self.signif@ / 1) as int);
                } else {
                    crate::bits::lemma_split(self.signif@ as int, sh as nat);
                    lemma_u256_bound(self.signif);
                    lemma_small_mod((self.signif@ / pow2(sh as nat)) * pow2(sh as nat), p256());
                    if self.signum != 0 {
                        // the leading bit is kept
                        lemma_pow2_adds((254 - sh) as nat, sh as nat);
                        vstd::arithmetic::div_mod::lemma_div_is_ordered(
                            (pow2((254 - sh) as nat) * pow2(sh as nat)) as int, self.signif@ as int,
                            pow2(sh as nat) as int);
                        lemma_mul_is_commutative(pow2((254 - sh) as nat) as int, pow2(sh as nat) as int);
                        vstd::arithmetic::div_mod::lemma_div_multiples_vanish(pow2((254 - sh) as nat) as int,
                            pow2(sh as nat) as int);
                        lemma_mul_inequality(pow2((254 - sh) as nat) as int, (self.signif@ / pow2(sh as nat)) as int,
                            pow2(sh as nat) as int);
                    } else {
                        vstd::arithmetic::div_mod::lemma_basic_div(0, pow2(sh as nat) as int);
                    }
                }
            }
            Float { signum: self.signum, exp: self.exp, signif }
        } else if self.exp == 0 && !self.is_zero() {
            let one = Self::one();
            Float { signum: self.signum, exp: 0, signif: one.signif }
        } else {
            Self::zero()
        }
    }

    /// `-self` as spec value.
    pub open spec fn neg_spec(self) -> Self {
        Float { signum: -self.signum as i32, exp: self.exp, signif: self.signif }
    }

    /// Returns `self + other`.
    pub fn add(&self, other: &Self) -> (r: Self)
        requires
            self.wf(),
            other.wf(),
            -0x3fff_ffff <= self.exp <= 0x3fff_ffff,
            -0x3fff_ffff <= other.exp <= 0x3fff_ffff,
        ensures
            r.wf(),
            is_aligned_sum(*self, *other, r),
    {
        let mut r = *self;
        r.iadd(other);
        r
    }

    /// Returns `self - other`.
    pub fn sub(&self, other: &Self) -> (r: Self)
        requires
            self.wf(),
            other.wf(),
            -0x3fff_ffff <= self.exp <= 0x3fff_ffff,
            -0x3fff_ffff <= other.exp <= 0x3fff_ffff,
        ensures
            r.wf(),
            *self == *other ==> r == Float::zero_spec(),
            *self != *other ==> is_aligned_sum(*self, other.neg_spec(), r),
    {
        let mut r = *self;
        r.isub(other);
        r
    }
}

/// Two `u256` values with the same numeric value are equal.
proof fn lemma_u256_eq(u: u256, v: u256)
    requires
        u@ == v@,
    ensures
        u == v,
{
    lemma_pow2_64_128();
    crate::uint256::lemma_divmod_unique(u@ as int, crate::bits::p128() as int, u.hi as int, u.lo as int);
    crate::uint256::lemma_divmod_unique(v@ as int, crate::bits::p128() as int, v.hi as int, v.lo as int);
}

/// The normalized form of a magnitude at a given exponent is unique.
proof fn lemma_normalized_unique(r: Float, s: Float, sg: int, e: int, d: nat)
    requires
        is_normalized_of(r, sg, e, d),
        is_normalized_of(s, sg, e, d),
    ensures
        r == s,
{
    if r.exp < s.exp {
        let k = (s.exp - r.exp) as nat;
        lemma_pow2_adds((e - s.exp) as nat, k);
        vstd::arithmetic::mul::lemma_mul_is_associative(d as int, pow2((e - s.exp) as nat) as int, pow2(k) as int);
        lemma_pow2_unfold(k);
        lemma_pow2_pos((k - 1) as nat);
        lemma_mul_inequality(2, pow2(k) as int, s.signif@ as int);
        vstd::arithmetic::mul::lemma_mul_is_commutative(2, s.signif@ as int);
        vstd::arithmetic::mul::lemma_mul_is_commutative(pow2(k) as int, s.signif@ as int);
        lemma_pow2_unfold(255);
    } else if s.exp < r.exp {
        let k = (r.exp - s.exp) as nat;
        lemma_pow2_adds((e - r.exp) as nat, k);
        vstd::arithmetic::mul::lemma_mul_is_associative(d as int, pow2((e - r.exp) as nat) as int, pow2(k) as int);
        lemma_pow2_unfold(k);
        lemma_pow2_pos((k - 1) as nat);
        lemma_mul_inequality(2, pow2(k) as int, r.signif@ as int);
        vstd::arithmetic::mul::lemma_mul_is_commutative(2, r.signif@ as int);
        vstd::arithmetic::mul::lemma_mul_is_commutative(pow2(k) as int, r.signif@ as int);
        lemma_pow2_unfold(255);
    }
    lemma_u256_eq(r.signif, s.signif);
}

/// The addition of non-zero values is commutative.
pub proof fn lemma_aligned_sum_commutative(a: Float, b: Float, r: Float, s: Float)
    requires
        a.wf(),
        b.wf(),
        a.signum != 0,
        b.signum != 0,
        is_aligned_sum(a, b, r),
        is_aligned_sum(b, a, s),
    ensures
        r == s,
{
    let e = if a.exp >= b.exp { a.exp as int } else { b.exp as int };
    if e - a.exp <= 254 && e - b.exp <= 254 {
        let x = a.signif@ / pow2((e - a.exp) as nat);
        let y = b.signif@ / pow2((e - b.exp) as nat);
        if a.signum == b.signum {
            lemma_u256_eq(r.signif, s.signif);
        } else {
            let sg = if x < y { b.signum as int } else { a.signum as int };
            let d: int = if x < y { y - x } else { x - y };
            if d != 0 {
                lemma_normalized_unique(r, s, sg, e, d as nat);
            }
        }
    }
}

} // verus!
