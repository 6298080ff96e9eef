//! Fixed-point numbers with 509 fractional bits in two's complement.
use vstd::prelude::*;
use vstd::arithmetic::power2::{pow2, lemma_pow2_pos, lemma_pow2_adds, lemma_pow2_unfold, lemma2_to64,
    lemma_pow2_strictly_increases};
use vstd::arithmetic::div_mod::lemma_small_mod;
use crate::bits::{p128, p256, lemma_pow2_64_128};
use crate::uint256::{u256, lemma_divmod_unique};
use crate::uint512::{u512, p512, lemma_u512_bound};
use crate::big_float::Float;
use crate::binary256::{f256, sign_of, bexp, signif, is_finite_spec, is_zero_spec};
use crate::fp492::{FP492, p511, signed512, pattern512, magnitude, rounded_product, lemma_p512,
    mul_round_patterns};
use crate::fp492_conv::{is_float_of_fixed, is_f256_of_fixed, fixed_from_float, fixed_to_float,
    fixed_from_f256, fixed_to_f256, fixed_of_f256};

verus! {

/// Represents fixed-point numbers with 509 fractional bits in the range
/// [-4, 4 - 2⁻⁵⁰⁹], as 512-bit pattern in two's complement.
#[derive(Clone, Copy, Debug, PartialEq, Eq, Structural)]
pub struct FP509(pub u512);

impl FP509 {
    /// The value of `self` in units of 2⁻⁵⁰⁹.
    pub open spec fn value(self) -> int {
        signed512(self.0@)
    }

    /// The same pattern, read with 492 fractional bits.
    fn as_fp492(&self) -> (r: FP492)
        ensures
            r.0 == self.0,
            r.value() == self.value(),
    {
        FP492(self.0)
    }

    /// Assembles a value from its pattern given as four `u128` values,
    /// most significant first.
    pub fn new(hh: u128, hl: u128, lh: u128, ll: u128) -> (r: Self)
        ensures
            r.0@ == ((hh as nat * p128() + hl) * p256() + lh as nat * p128() + ll) as nat,
    {
        FP509(FP492::new(hh, hl, lh, ll).0)
    }

    /// 0
    pub fn zero() -> (r: Self)
        ensures
            r.value() == 0,
    {
        FP509(FP492::zero().0)
    }

    /// 1 (2⁵⁰⁹ units)
    pub fn one() -> (r: Self)
        ensures
            r.value() == pow2(509),
    {
        let r = Self::new(1u128 << 125u32, 0, 0, 0);
        proof {
            lemma_p512();
            lemma_pow2_64_128();
            crate::bits::lemma_one_shl(125);
            lemma_pow2_adds(125, 128);
            lemma_pow2_adds(253, 256);
            lemma_pow2_strictly_increases(509, 511);
            vstd::arithmetic::mul::lemma_mul_basics(p128() as int);
        }
        r
    }

    /// 2 (2⁵¹⁰ units)
    pub fn two() -> (r: Self)
        ensures
            r.value() == pow2(510),
    {
        let r = Self::new(1u128 << 126u32, 0, 0, 0);
        proof {
            lemma_p512();
            lemma_pow2_64_128();
            crate::bits::lemma_one_shl(126);
            lemma_pow2_adds(126, 128);
            lemma_pow2_adds(254, 256);
            lemma_pow2_strictly_increases(510, 511);
            vstd::arithmetic::mul::lemma_mul_basics(p128() as int);
        }
        r
    }

    /// ½ (2⁵⁰⁸ units)
    pub fn one_half() -> (r: Self)
        ensures
            r.value() == pow2(508),
    {
        let r = Self::new(1u128 << 124u32, 0, 0, 0);
        proof {
            lemma_p512();
            lemma_pow2_64_128();
            crate::bits::lemma_one_shl(124);
            lemma_pow2_adds(124, 128);
            lemma_pow2_adds(252, 256);
            lemma_pow2_strictly_increases(508, 511);
            vstd::arithmetic::mul::lemma_mul_basics(p128() as int);
        }
        r
    }

    /// 2⁻⁵⁰⁹ (one unit)
    pub fn epsilon() -> (r: Self)
        ensures
            r.value() == 1,
    {
        FP509(FP492::epsilon().0)
    }

    /// Returns `true` if `self` is zero.
    pub fn is_zero(&self) -> (r: bool)
        ensures
            r == (self.value() == 0),
    {
        self.as_fp492().is_zero()
    }

    /// Returns `true` if `self` is not negative.
    pub fn is_sign_positive(&self) -> (r: bool)
        ensures
            r == (self.value() >= 0),
    {
        self.as_fp492().is_sign_positive()
    }

    /// Returns `true` if `self` is negative.
    pub fn is_sign_negative(&self) -> (r: bool)
        ensures
            r == (self.value() < 0),
    {
        self.as_fp492().is_sign_negative()
    }

    /// Returns -1, 0 or 1 according to the sign of `self`.
    pub fn signum(&self) -> (r: i32)
        ensures
            r == (if self.value() < 0 { -1int } else if self.value() == 0 { 0int } else { 1int }),
    {
        self.as_fp492().signum()
    }

    /// Negates `self` inplace (two's complement, modulo 2⁵¹²).
    pub fn ineg(&mut self)
        ensures
            final(self).0@ == pattern512(-old(self).value()),
            -(p511() as int) < old(self).value() ==> final(self).value() == -old(self).value(),
    {
        let mut t = self.as_fp492();
        t.ineg();
        self.0 = t.0;
    }

    /// Sets `self` to its absolute value.
    pub fn iabs(&mut self)
        ensures
            final(self).0@ == pattern512(magnitude(old(self).value()) as int),
            -(p511() as int) < old(self).value() ==> final(self).value() == magnitude(old(self).value()),
    {
        let mut t = self.as_fp492();
        t.iabs();
        self.0 = t.0;
    }

    /// Returns the absolute value of `self`.
    pub fn abs(self) -> (r: Self)
        ensures
            r.0@ == pattern512(magnitude(self.value()) as int),
            -(p511() as int) < self.value() ==> r.value() == magnitude(self.value()),
    {
        let mut r = self;
        r.iabs();
        r
    }

    /// Returns `-self`.
    pub fn neg(&self) -> (r: Self)
        ensures
            r.0@ == pattern512(-self.value()),
            -(p511() as int) < self.value() ==> r.value() == -self.value(),
    {
        let mut r = *self;
        r.ineg();
        r
    }

    /// Returns `2 * self`; `|self|` must be below 2.
    pub fn mul2(&self) -> (r: Self)
        requires
            -pow2(510) < self.value() < pow2(510),
        ensures
            r.value() == 2 * self.value(),
    {
        FP509(self.as_fp492().mul2().0)
    }

    /// Sets `self` to the product `self * rhs`, rounded to 509 fractional
    /// bits as [`fixed_round`](crate::fp492::fixed_round) describes; the
    /// result wraps modulo 2⁵¹² where it exceeds the range.
    pub fn imul_round(&mut self, rhs: &Self)
        ensures
            final(self).0@ == pattern512(rounded_product(old(self).value(), rhs.value(), 509)),
            -(p511() as int) < rounded_product(old(self).value(), rhs.value(), 509) < p511() ==>
                final(self).value() == rounded_product(old(self).value(), rhs.value(), 509),
    {
        let r = mul_round_patterns(&self.as_fp492(), &rhs.as_fp492(), 509, false);
        self.0 = r.0;
    }

    /// Adds `rhs` to `self` inplace, modulo 2⁵¹².
    pub fn add_assign(&mut self, rhs: &Self)
        ensures
            final(self).0@ == pattern512(old(self).value() + rhs.value()),
            -(p511() as int) <= old(self).value() + rhs.value() < p511() ==>
                final(self).value() == old(self).value() + rhs.value(),
    {
        let mut t = self.as_fp492();
        t.add_assign(&rhs.as_fp492());
        self.0 = t.0;
    }

    /// Subtracts `rhs` from `self` inplace, modulo 2⁵¹².
    pub fn sub_assign(&mut self, rhs: &Self)
        ensures
            final(self).0@ == pattern512(old(self).value() - rhs.value()),
            -(p511() as int) <= old(self).value() - rhs.value() < p511() ==>
                final(self).value() == old(self).value() - rhs.value(),
    {
        let mut t = self.as_fp492();
        t.sub_assign(&rhs.as_fp492());
        self.0 = t.0;
    }

    /// Returns `self < other` (as signed values).
    pub fn lt(&self, other: &Self) -> (r: bool)
        ensures
            r == (self.value() < other.value()),
    {
        self.as_fp492().lt(&other.as_fp492())
    }

    /// Returns `self <= other` (as signed values).
    pub fn le(&self, other: &Self) -> (r: bool)
        ensures
            r == (self.value() <= other.value()),
    {
        !other.lt(self)
    }

    /// Converts the [`Float`] `value` into a fixed-point number, truncating
    /// bits below 2⁻⁵⁰⁹; values with an exponent above 1 give 0.
    pub fn from_float(value: &Float) -> (r: Self)
        requires
            value.wf(),
            -0x7000_0000 <= value.exp,
        ensures
            1 - value.exp < 0 || 1 - value.exp >= 512 ==> r.value() == 0,
            0 <= 1 - value.exp < 512 ==>
                r.value() == value.signum * ((value.signif@ * p256()) / pow2((1 - value.exp) as nat)),
    {
        FP509(fixed_from_float(value, 2).0)
    }

    /// Converts `self` into the nearest [`Float`] (rounded to nearest, ties
    /// to even).
    pub fn to_float(&self) -> (r: Float)
        ensures
            r.wf(),
            self.value() == 0 ==> r == Float::zero_spec(),
            self.value() != 0 ==> is_float_of_fixed(r, if self.value() < 0 { -1int } else { 1int },
                magnitude(self.value()), 509),
    {
        fixed_to_float(&self.as_fp492(), 509)
    }

    /// Converts the finite `f256` value `value` below 4 into a fixed-point
    /// number, truncating bits below 2⁻⁵⁰⁹.
    pub fn from_f256(value: &f256) -> (r: Self)
        requires
            is_finite_spec(*value),
            sign_of(*value) == 1 || bexp(*value) < 262143 + 2,
        ensures
            r.0@ == pattern512(fixed_of_f256(*value, 17, 2, 510)),
            -(p511() as int) <= fixed_of_f256(*value, 17, 2, 510) < p511() ==>
                r.value() == fixed_of_f256(*value, 17, 2, 510),
    {
        FP509(fixed_from_f256(value, 17, 2, 510).0)
    }
}

impl f256 {
    /// Converts the fixed-point number `value` into the nearest `f256`
    /// value (ties to even).
    pub fn from_fp509(value: &FP509) -> (r: f256)
        ensures
            sign_of(r) == (if value.value() < 0 { 1nat } else { 0nat }),
            value.value() == 0 ==> is_zero_spec(r),
            is_f256_of_fixed(r, magnitude(value.value()), 509),
    {
        fixed_to_f256(&value.as_fp492(), 509)
    }
}

} // verus!
