//! Fixed-point numbers with 492 fractional bits in two's complement.
use vstd::prelude::*;
use vstd::arithmetic::power2::{pow2, lemma_pow2_pos, lemma_pow2_adds, lemma_pow2_unfold, lemma2_to64,
    lemma_pow2_strictly_increases};
use vstd::arithmetic::div_mod::{lemma_small_mod, lemma_fundamental_div_mod, lemma_mod_bound};
use vstd::arithmetic::mul::{lemma_mul_inequality, lemma_mul_strict_inequality, lemma_mul_is_commutative,
    lemma_mul_nonnegative};
use crate::bits::{p128, p256, lemma_pow2_64_128};
use crate::uint256::{u256, lemma_u256_bound, lemma_divmod_unique};
use crate::uint512::{u512, p512, lemma_u512_bound, lemma_u512_order, lemma_rem_to_top};
use crate::uint256::div_pow2_round;

verus! {

/// 2⁵¹¹
pub open spec fn p511() -> nat {
    p512() / 2
}

/// The signed value represented by the 512-bit pattern `v` (two's
/// complement).
pub open spec fn signed512(v: nat) -> int {
    if v < p511() {
        v as int
    } else {
        v - p512()
    }
}

/// The pattern of the signed value `x`, modulo 2⁵¹².
pub open spec fn pattern512(x: int) -> nat {
    (x % (p512() as int)) as nat
}

/// Represents fixed-point numbers with 492 fractional bits in the range
/// [-2¹⁹, 2¹⁹ - 2⁻⁴⁹²], as 512-bit pattern in two's complement.
#[derive(Clone, Copy, Debug, PartialEq, Eq, Structural)]
pub struct FP492(pub u512);

impl FP492 {
    /// The value of `self` in units of 2⁻⁴⁹².
    pub open spec fn value(self) -> int {
        signed512(self.0@)
    }
}

/// Facts about 2⁵¹² and 2⁵¹¹.
pub proof fn lemma_p512()
    ensures
        p512() == 2 * p511(),
        p511() == pow2(511),
        p512() == pow2(512),
        p256() == pow2(256),
        p512() == p256() * p256(),
{
    lemma_pow2_64_128();
    lemma_pow2_adds(256, 256);
    lemma_pow2_unfold(512);
}

/// The pattern of a signed value in range, and the signed value of it.
proof fn lemma_pattern_signed(x: int)
    requires
        -(p511() as int) <= x < p511(),
    ensures
        pattern512(x) < p512(),
        signed512(pattern512(x)) == x,
{
    lemma_p512();
    let m = p512() as int;
    if x >= 0 {
        lemma_divmod_unique(x, m, 0, x);
    } else {
        lemma_divmod_unique(x, m, -1, x + m);
    }
}

/// Adding the signed value of the pattern of `x` is adding `x`, modulo
/// 2⁵¹².
pub(crate) proof fn lemma_signed_pattern_congruent(x: int, y: int)
    ensures
        pattern512(signed512(pattern512(x)) + y) == pattern512(x + y),
{
    lemma_p512();
    lemma_pow2_pos(512);
    let m = p512() as int;
    lemma_fundamental_div_mod(x, m);
    lemma_mod_bound(x, m);
    let q = x / m;
    let px = x % m;
    let sp = signed512(px as nat);
    let k: int = if px >= p511() { 1 } else { 0 };
    assert(sp == px - k * m);
    assert(sp + y == (x + y) + (-k - q) * m) by (nonlinear_arith)
        requires
            x == m * q + px,
            sp == px - k * m,
    ;
    vstd::arithmetic::div_mod::lemma_mod_multiples_vanish(-k - q, x + y, m);
    vstd::arithmetic::mul::lemma_mul_is_commutative(-k - q, m);
}

/// The pattern of a signed value in range, and the signed value of it.
pub proof fn lemma_pattern_signed_pub(x: int)
    requires
        -(p511() as int) <= x < p511(),
    ensures
        pattern512(x) < p512(),
        signed512(pattern512(x)) == x,
{
    lemma_pattern_signed(x);
}

/// `x ^ MAX` is `MAX - x`.
proof fn lemma_xor_max(x: u128)
    ensures
        (x ^ 0xffff_ffff_ffff_ffff_ffff_ffff_ffff_ffffu128) as int
            == 0xffff_ffff_ffff_ffff_ffff_ffff_ffff_ffffint - x,
{
    assert((x ^ 0xffff_ffff_ffff_ffff_ffff_ffff_ffff_ffffu128) == 0xffff_ffff_ffff_ffff_ffff_ffff_ffff_ffffu128 - x)
        by (bit_vector);
}

impl FP492 {
    /// Assembles a value from its pattern given as four `u128` values,
    /// most significant first.
    pub fn new(hh: u128, hl: u128, lh: u128, ll: u128) -> (r: Self)
        ensures
            r.0@ == ((hh as nat * p128() + hl) * p256() + lh as nat * p128() + ll) as nat,
    {
        FP492(u512::from_hi_lo(u256::new(hh, hl), u256::new(lh, ll)))
    }

    /// 0
    pub fn zero() -> (r: Self)
        ensures
            r.value() == 0,
    {
        proof {
            lemma_p512();
        }
        FP492(u512::zero())
    }

    /// 1 (2⁴⁹² units)
    pub fn one() -> (r: Self)
        ensures
            r.value() == pow2(492),
    {
        let r = Self::new(1u128 << 108u32, 0, 0, 0);
        proof {
            lemma_p512();
            lemma_pow2_64_128();
            crate::bits::lemma_one_shl(108);
            lemma_pow2_adds(108, 128);
            lemma_pow2_adds(236, 256);
            lemma_pow2_strictly_increases(492, 511);
            vstd::arithmetic::mul::lemma_mul_basics(p128() as int);
        }
        r
    }

    /// 2 (2⁴⁹³ units)
    pub fn two() -> (r: Self)
        ensures
            r.value() == pow2(493),
    {
        let r = Self::new(1u128 << 109u32, 0, 0, 0);
        proof {
            lemma_p512();
            lemma_pow2_64_128();
            crate::bits::lemma_one_shl(109);
            lemma_pow2_adds(109, 128);
            lemma_pow2_adds(237, 256);
            lemma_pow2_strictly_increases(493, 511);
            vstd::arithmetic::mul::lemma_mul_basics(p128() as int);
        }
        r
    }

    /// ½ (2⁴⁹¹ units)
    pub fn one_half() -> (r: Self)
        ensures
            r.value() == pow2(491),
    {
        let r = Self::new(1u128 << 107u32, 0, 0, 0);
        proof {
            lemma_p512();
            lemma_pow2_64_128();
            crate::bits::lemma_one_shl(107);
            lemma_pow2_adds(107, 128);
            lemma_pow2_adds(235, 256);
            lemma_pow2_strictly_increases(491, 511);
            vstd::arithmetic::mul::lemma_mul_basics(p128() as int);
        }
        r
    }

    /// 2⁻⁴⁹² (one unit)
    pub fn epsilon() -> (r: Self)
        ensures
            r.value() == 1,
    {
        let r = Self::new(0, 0, 0, 1);
        proof {
            lemma_p512();
            lemma_pow2_strictly_increases(0, 511);
            lemma2_to64();
            vstd::arithmetic::mul::lemma_mul_basics(p128() as int);
            vstd::arithmetic::mul::lemma_mul_basics(p256() as int);
        }
        r
    }

    /// Returns `true` if `self` is zero.
    pub fn is_zero(&self) -> (r: bool)
        ensures
            r == (self.value() == 0),
    {
        proof {
            lemma_p512();
            lemma_u512_bound(self.0);
        }
        self.0.is_zero()
    }

    /// Returns `true` if `self` is not negative.
    pub fn is_sign_positive(&self) -> (r: bool)
        ensures
            r == (self.value() >= 0),
    {
        proof {
            lemma_p512();
            lemma_u512_bound(self.0);
            self.lemma_sign_bit();
        }
        self.0.hi.hi < 0x8000_0000_0000_0000_0000_0000_0000_0000u128
    }

    /// Returns `true` if `self` is negative.
    pub fn is_sign_negative(&self) -> (r: bool)
        ensures
            r == (self.value() < 0),
    {
        !self.is_sign_positive()
    }

    /// The sign bit is the top bit of the upper limb.
    proof fn lemma_sign_bit(&self)
        ensures
            (self.0@ < p511()) == (self.0.hi.hi < 0x8000_0000_0000_0000_0000_0000_0000_0000u128),
    {
        lemma_p512();
        lemma_pow2_64_128();
        lemma_u256_bound(self.0.lo);
        lemma_u256_bound(self.0.hi);
        let b = p128() as int;
        let bb = p256() as int;
        let h = self.0.hi;
        assert(p511() == 0x8000_0000_0000_0000_0000_0000_0000_0000int * b * bb) by (nonlinear_arith)
            requires
                p512() == bb * bb,
                bb == b * b,
                b == 0x1_0000_0000_0000_0000_0000_0000_0000_0000int,
                p512() == 2 * p511(),
        ;
        let t = 0x8000_0000_0000_0000_0000_0000_0000_0000int;
        if h.hi < t {
            assert(self.0@ < p511()) by (nonlinear_arith)
                requires
                    self.0@ == h@ * bb + self.0.lo@,
                    h@ == h.hi * b + h.lo,
                    h.hi < t,
                    h.lo < b,
                    self.0.lo@ < bb,
                    p511() == t * b * bb,
                    h.hi >= 0,
                    h.lo >= 0,
            ;
        } else {
            assert(self.0@ >= p511()) by (nonlinear_arith)
                requires
                    self.0@ == h@ * bb + self.0.lo@,
                    h@ == h.hi * b + h.lo,
                    h.hi >= t,
                    h.lo >= 0,
                    self.0.lo@ >= 0,
                    p511() == t * b * bb,
                    bb > 0,
                    b > 0,
            ;
        }
    }

    /// Returns -1, 0 or 1 according to the sign of `self`.
    pub fn signum(&self) -> (r: i32)
        ensures
            r == (if self.value() < 0 { -1int } else if self.value() == 0 { 0int } else { 1int }),
    {
        if self.is_sign_negative() {
            -1
        } else if self.is_zero() {
            0
        } else {
            1
        }
    }

    /// Inverts all bits of `self`.
    fn invert(&mut self)
        ensures
            final(self).0@ == p512() - 1 - old(self).0@,
    {
        let ghost o = self.0;
        proof {
            lemma_xor_max(self.0.lo.lo);
            lemma_xor_max(self.0.lo.hi);
            lemma_xor_max(self.0.hi.lo);
            lemma_xor_max(self.0.hi.hi);
        }
        self.0.lo.lo = self.0.lo.lo ^ 0xffff_ffff_ffff_ffff_ffff_ffff_ffff_ffffu128;
        self.0.lo.hi = self.0.lo.hi ^ 0xffff_ffff_ffff_ffff_ffff_ffff_ffff_ffffu128;
        self.0.hi.lo = self.0.hi.lo ^ 0xffff_ffff_ffff_ffff_ffff_ffff_ffff_ffffu128;
        self.0.hi.hi = self.0.hi.hi ^ 0xffff_ffff_ffff_ffff_ffff_ffff_ffff_ffffu128;
        proof {
            lemma_p512();
            lemma_pow2_64_128();
            let b = p128() as int;
            let bb = p256() as int;
            assert(self.0@ == p512() - 1 - o@) by (nonlinear_arith)
                requires
                    self.0@ == (self.0.hi.hi * b + self.0.hi.lo) * bb + self.0.lo.hi * b + self.0.lo.lo,
                    o@ == (o.hi.hi * b + o.hi.lo) * bb + o.lo.hi * b + o.lo.lo,
                    self.0.hi.hi == b - 1 - o.hi.hi,
                    self.0.hi.lo == b - 1 - o.hi.lo,
                    self.0.lo.hi == b - 1 - o.lo.hi,
                    self.0.lo.lo == b - 1 - o.lo.lo,
                    bb == b * b,
                    p512() == bb * bb,
            ;
        }
    }

    /// Negates `self` inplace (two's complement, modulo 2⁵¹²).
    pub fn ineg(&mut self)
        ensures
            final(self).0@ == pattern512(-old(self).value()),
            -(p511() as int) < old(self).value() ==> final(self).value() == -old(self).value(),
    {
        let ghost o = self.0@;
        proof {
            lemma_u512_bound(self.0);
        }
        let one = u512::from_hi_lo(u256::zero(), u256::new(0, 1));
        proof {
            lemma_p512();
            lemma_pow2_64_128();
            vstd::arithmetic::mul::lemma_mul_basics(p256() as int);
            vstd::arithmetic::mul::lemma_mul_basics(p128() as int);
        }
        self.0.sub_assign(&one);
        self.invert();
        proof {
            lemma_u512_bound(self.0);
            let m = p512() as int;
            let v = signed512(o);
            if o == 0 {
                lemma_divmod_unique(o + m - 1, m, 0, m - 1);
                lemma_divmod_unique(0, m, 0, 0);
            } else {
                lemma_divmod_unique(o + m - 1, m, 1, o - 1);
                if o < p511() {
                    lemma_divmod_unique(-v, m, -1, m - o);
                } else {
                    lemma_divmod_unique(-v, m, 0, m - o);
                }
            }
            if -(p511() as int) < v {
                lemma_pattern_signed(-v);
            }
        }
    }

    /// Sets `self` to its absolute value.
    pub fn iabs(&mut self)
        ensures
            final(self).0@ == pattern512(if old(self).value() < 0 { -old(self).value() } else { old(self).value() }),
            -(p511() as int) < old(self).value() ==> final(self).value()
                == (if old(self).value() < 0 { -old(self).value() } else { old(self).value() }),
    {
        proof {
            lemma_p512();
            lemma_u512_bound(self.0);
        }
        if self.is_sign_negative() {
            self.ineg();
        } else {
            proof {
                lemma_pattern_signed(self.value());
            }
        }
    }

    /// Returns the absolute value of `self`.
    pub fn abs(self) -> (r: Self)
        ensures
            r.0@ == pattern512(if self.value() < 0 { -self.value() } else { self.value() }),
            -(p511() as int) < self.value() ==> r.value()
                == (if self.value() < 0 { -self.value() } else { self.value() }),
    {
        let mut r = self;
        r.iabs();
        r
    }

    /// Returns `-self`.
    pub fn neg(&self) -> (r: Self)
        ensures
            r.0@ == pattern512(-self.value()),
            -(p511() as int) < self.value() ==> r.value() == -self.value(),
    {
        let mut r = *self;
        r.ineg();
        r
    }

    /// Adds `rhs` to `self` inplace, modulo 2⁵¹².
    pub fn add_assign(&mut self, rhs: &Self)
        ensures
            final(self).0@ == pattern512(old(self).value() + rhs.value()),
            -(p511() as int) <= old(self).value() + rhs.value() < p511() ==>
                final(self).value() == old(self).value() + rhs.value(),
    {
        let ghost o = self.0@;
        self.0.add_assign(&rhs.0);
        proof {
            lemma_p512();
            lemma_u512_bound(rhs.0);
            let m = p512() as int;
            let so = signed512(o);
            let sr = signed512(rhs.0@);
            let s = so + sr;
            // both patterns are congruent to the signed values
            let ko: int = if o >= p511() { 1int } else { 0int };
            let kr: int = if rhs.0@ >= p511() { 1int } else { 0int };
            assert(o == so + ko * m);
            assert(rhs.0@ == sr + kr * m);
            let k = ko + kr;
            assert(o + rhs.0@ == s + k * m) by (nonlinear_arith)
                requires
                    o == so + ko * m,
                    rhs.0@ == sr + kr * m,
                    s == so + sr,
                    k == ko + kr,
            ;
            vstd::arithmetic::div_mod::lemma_mod_add_multiples_vanish(s, m);
            vstd::arithmetic::div_mod::lemma_mod_multiples_vanish(k, s, m);
            if -(p511() as int) <= s < p511() {
                lemma_pattern_signed(s);
            }
        }
    }

    /// Subtracts `rhs` from `self` inplace, modulo 2⁵¹².
    pub fn sub_assign(&mut self, rhs: &Self)
        ensures
            final(self).0@ == pattern512(old(self).value() - rhs.value()),
            -(p511() as int) <= old(self).value() - rhs.value() < p511() ==>
                final(self).value() == old(self).value() - rhs.value(),
    {
        let n = rhs.neg();
        let ghost o = self.value();
        self.add_assign(&n);
        proof {
            lemma_signed_pattern_congruent(-rhs.value(), o);
            if -(p511() as int) <= o - rhs.value() < p511() {
                lemma_pattern_signed(o - rhs.value());
            }
        }
    }

    /// Returns `self - rhs`.
    pub fn sub(&self, rhs: &Self) -> (r: Self)
        ensures
            r.0@ == pattern512(self.value() - rhs.value()),
            -(p511() as int) <= self.value() - rhs.value() < p511() ==> r.value() == self.value() - rhs.value(),
    {
        let mut r = *self;
        r.sub_assign(rhs);
        r
    }

    /// Returns `self < other` (as signed values).
    pub fn lt(&self, other: &Self) -> (r: bool)
        ensures
            r == (self.value() < other.value()),
    {
        let sn = self.is_sign_negative();
        let on = other.is_sign_negative();
        proof {
            lemma_p512();
            lemma_u512_bound(self.0);
            lemma_u512_bound(other.0);
        }
        if sn != on {
            sn
        } else {
            self.0.lt(&other.0)
        }
    }

    /// Returns `self <= other` (as signed values).
    pub fn le(&self, other: &Self) -> (r: bool)
        ensures
            r == (self.value() <= other.value()),
    {
        !other.lt(self)
    }

    /// Converts the integer `i` with `|i| < 2¹⁹`.
    pub fn from_i32(i: i32) -> (r: Self)
        requires
            -0x80000 < i < 0x80000,
        ensures
            r.value() == i * pow2(492),
    {
        let a: u128 = if i < 0 { (-i) as u128 } else { i as u128 };
        let mut t = Self::new(a << 108u32, 0, 0, 0);
        proof {
            lemma_p512();
            lemma_pow2_64_128();
            lemma_pow2_adds(108, 128);
            lemma_pow2_adds(236, 256);
            lemma_pow2_adds(19, 492);
            lemma_pow2_adds(19, 108);
            lemma_pow2_strictly_increases(127, 128);
            assert(pow2(19) == 0x80000) by {
                lemma2_to64();
            }
            lemma_pow2_pos(108);
            lemma_pow2_pos(492);
            lemma_mul_strict_inequality(a as int, pow2(19) as int, pow2(108) as int);
            crate::bits::lemma_shl_exact(a, 108);
            vstd::arithmetic::mul::lemma_mul_basics(p128() as int);
            vstd::arithmetic::mul::lemma_mul_is_associative(a as int, pow2(108) as int, p128() as int);
            vstd::arithmetic::mul::lemma_mul_is_associative(a as int, pow2(236) as int, p256() as int);
            lemma_mul_strict_inequality(a as int, pow2(19) as int, pow2(492) as int);
            assert(t.0@ == a * pow2(492));
            assert(a * pow2(492) < pow2(511));
            assert(t.value() == a * pow2(492));
        }
        if i < 0 {
            t.ineg();
            proof {
                assert(a == -i);
                assert(t.value() == -(a * pow2(492)));
                vstd::arithmetic::mul::lemma_mul_unary_negation(a as int, pow2(492) as int);
            }
        }
        t
    }
}

/// The magnitude of a signed value.
pub open spec fn magnitude(v: int) -> nat {
    if v < 0 {
        (-v) as nat
    } else {
        v as nat
    }
}

/// The sign of a signed value: -1, 0 or 1.
pub open spec fn sign_of_value(v: int) -> int {
    if v < 0 {
        -1
    } else if v == 0 {
        0
    } else {
        1
    }
}

/// `p / 2ᶠ` rounded to nearest, ties to even, as the fixed-point
/// multiplication rounds.
pub open spec fn fixed_round(p: nat, f: nat) -> nat {
    div_pow2_round(p, f)
}

/// `p / 2ᶠ` rounded as the reduction of large arguments rounds its final
/// product: to nearest, ties to even, and upwards wherever any of the
/// lowest 384 bits of `p` is set.
pub open spec fn fixed_round_sticky(p: nat, f: nat) -> nat {
    if p % pow2(384) != 0 {
        p / pow2(f) + 1
    } else {
        div_pow2_round(p, f)
    }
}

/// The product of the magnitudes of `a` and `b` (in units of 2⁻ᶠ) divided
/// by 2ᶠ, rounded by [`fixed_round_sticky`], with the sign of the product.
pub open spec fn rounded_product_sticky(a: int, b: int, f: nat) -> int {
    sign_of_value(a) * sign_of_value(b) * fixed_round_sticky(magnitude(a) * magnitude(b), f)
}

/// The rounded product of [`rounded_product`], or of
/// [`rounded_product_sticky`] where `sticky`.
pub open spec fn rounded_product_by(a: int, b: int, f: nat, sticky: bool) -> int {
    if sticky {
        rounded_product_sticky(a, b, f)
    } else {
        rounded_product(a, b, f)
    }
}

/// The product of the magnitudes of `a` and `b` (in units of 2⁻ᶠ) divided
/// by 2ᶠ, rounded by [`fixed_round`], with the sign of the product.
pub open spec fn rounded_product(a: int, b: int, f: nat) -> int {
    sign_of_value(a) * sign_of_value(b) * fixed_round(magnitude(a) * magnitude(b), f)
}

/// The value of `x` in units of 2⁻ᵏ with `v = x⋅2ᵏ + l`, `l < 2ᵏ` is
/// `x` plus `l / 2ᵏ`.
proof fn lemma_split_product(hi: nat, lo: nat, f: nat)
    requires
        lo < p512(),
        1 <= f <= 511,
    ensures
        (hi * p512() + lo) / pow2(f) == hi * pow2((512 - f) as nat) + lo / pow2(f),
        (hi * p512() + lo) % pow2(f) == lo % pow2(f),
{
    lemma_p512();
    lemma_pow2_adds((512 - f) as nat, f);
    lemma_pow2_pos(f);
    let k = pow2(f) as int;
    let li = lo as int;
    let hi_i = hi as int;
    lemma_fundamental_div_mod(li, k);
    lemma_mod_bound(li, k);
    let v = hi_i * p512() + li;
    let s = pow2((512 - f) as nat) as int;
    assert(v == (hi_i * s + li / k) * k + li % k) by (nonlinear_arith)
        requires
            v == hi_i * p512() + li,
            p512() == s * k,
            li == k * (li / k) + li % k,
    ;
    lemma_divmod_unique(v, k, hi_i * s + li / k, li % k);
}

/// The lowest 384 bits of a `u512` are its lowest two limbs and the low
/// half of the third.
proof fn lemma_low_384(v: u512)
    ensures
        (v.lo.hi != 0 || v.lo.lo != 0 || v.hi.lo != 0) == (v@ % pow2(384) != 0),
{
    lemma_pow2_64_128();
    lemma_pow2_adds(256, 128);
    lemma_pow2_adds(128, 128);
    lemma_u512_bound(v);
    crate::uint256::lemma_u256_bound(v.lo);
    let b = p128() as int;
    let bb = p256() as int;
    let low = v.hi.lo as int * bb + v.lo@ as int;
    assert(v@ == v.hi.hi as int * (bb * b) + low) by (nonlinear_arith)
        requires
            low == v.hi.lo as int * bb + v.lo@ as int,
            v@ == v.hi@ * bb + v.lo@,
            v.hi@ == v.hi.hi * b + v.hi.lo,
    ;
    assert(0 <= low < bb * b) by (nonlinear_arith)
        requires
            low == v.hi.lo as int * bb + v.lo@ as int,
            0 <= v.hi.lo < b,
            0 <= v.lo@ < bb,
    ;
    lemma_divmod_unique(v@ as int, bb * b, v.hi.hi as int, low);
    assert(v.lo@ == v.lo.hi as int * b + v.lo.lo);
    if low == 0 {
        assert(v.hi.lo == 0 && v.lo@ == 0) by (nonlinear_arith)
            requires
                low == v.hi.lo as int * bb + v.lo@ as int,
                0 <= v.hi.lo,
                0 <= v.lo@ < bb,
                low == 0,
                bb > 0,
        ;
        assert(v.lo.hi == 0 && v.lo.lo == 0) by (nonlinear_arith)
            requires
                v.lo@ == v.lo.hi as int * b + v.lo.lo,
                v.lo@ == 0,
                0 <= v.lo.lo,
                0 <= v.lo.hi,
                b > 0,
        ;
    } else {
        assert(v.hi.lo != 0 || v.lo@ != 0);
        if v.lo@ != 0 {
            assert(v.lo.hi != 0 || v.lo.lo != 0);
        }
    }
}

/// The product of the fixed-point patterns `x` and `y` with `frac`
/// fractional bits, rounded by [`fixed_round`] (or [`fixed_round_sticky`]
/// where `sticky`) and wrapped modulo 2⁵¹².
pub(crate) fn mul_round_patterns(x: &FP492, y: &FP492, frac: u32, sticky: bool) -> (r: FP492)
    requires
        384 <= frac <= 511,
    ensures
        r.0@ == pattern512(rounded_product_by(x.value(), y.value(), frac as nat, sticky)),
        -(p511() as int) < rounded_product_by(x.value(), y.value(), frac as nat, sticky) < p511() ==>
            r.value() == rounded_product_by(x.value(), y.value(), frac as nat, sticky),
{
    let ghost (va, vb) = (x.value(), y.value());
    let ghost f = frac as nat;
    let signum = x.signum() * y.signum();
    let mut a = *x;
    a.iabs();
    let mut b = *y;
    b.iabs();
    proof {
        lemma_p512();
        lemma_pow2_pos(512);
        lemma_u512_bound(x.0);
        lemma_u512_bound(y.0);
        // the patterns of the magnitudes are the magnitudes
        let m = p512() as int;
        lemma_divmod_unique(magnitude(va) as int, m, 0, magnitude(va) as int);
        lemma_divmod_unique(magnitude(vb) as int, m, 0, magnitude(vb) as int);
        assert(a.0@ == magnitude(va));
        assert(b.0@ == magnitude(vb));
    }
    let (lo, hi) = a.0.widening_mul(&b.0);
    let ghost p = magnitude(va) * magnitude(vb);
    let mut q = hi.shl_any(512 - frac);
    let low_q = lo.shr_any(frac);
    let t = lo.shl_any(512 - frac);
    proof {
        lemma_split_product(hi@, lo@, f);
        lemma_rem_to_top(lo@, f, t@);
        lemma_pow2_adds((512 - f) as nat, f);
        lemma_pow2_pos((512 - f) as nat);
        lemma_u512_bound(q);
        // the low bits of the shifted upper half are free
        lemma_u512_bound(hi);
        crate::bits::lemma_div_strictly_bounded(lo@ as int, pow2(f) as int, pow2((512 - f) as nat) as int);
    }
    let ghost q_hi = q@;
    q.add_assign(&low_q);
    let tie = u512::from_hi_lo(u256::new(0x8000_0000_0000_0000_0000_0000_0000_0000u128, 0), u256::zero());
    proof {
        lemma_pow2_64_128();
        lemma_pow2_adds(127, 128);
        lemma_pow2_adds(255, 256);
        assert(pow2(127) == 0x8000_0000_0000_0000_0000_0000_0000_0000nat) by {
            lemma_pow2_adds(64, 63);
            lemma_pow2_adds(32, 31);
            lemma2_to64();
        }
        vstd::arithmetic::mul::lemma_mul_basics(p256() as int);
        assert(tie@ == pow2(511));
        // q ≡ p / 2⁴⁹² (mod 2⁵¹²)
        let m = p512() as int;
        let qt = (hi@ * pow2((512 - f) as nat) + lo@ / pow2(f)) as int;
        vstd::arithmetic::div_mod::lemma_add_mod_noop((hi@ * pow2((512 - f) as nat)) as int, (lo@ / pow2(f)) as int, m);
        vstd::arithmetic::div_mod::lemma_mod_twice((hi@ * pow2((512 - f) as nat)) as int, m);
        lemma_small_mod(low_q@, p512());
        assert(q@ == qt % m);
        // parity
        crate::float_fma::lemma_u512_parity_pub(q);
        vstd::arithmetic::div_mod::lemma_mod_mod(qt, 2, m / 2);
        assert(m == 2 * (m / 2));
        let l = q.lo.lo;
        assert((l & 1) == l % 2) by (bit_vector);
    }
    let gt = tie.lt(&t);
    let eq = !gt && !t.lt(&tie);
    let odd = (q.lo.lo & 1) == 1;
    let low_set = sticky && (lo.lo.hi != 0 || lo.lo.lo != 0 || lo.hi.lo != 0);
    proof {
        lemma_low_384(lo);
    }
    if gt || (eq && odd) || low_set {
        q.add_assign(&u512::from_hi_lo(u256::zero(), u256::new(0, 1)));
    }
    let ghost rq = if sticky { fixed_round_sticky(p, f) } else { fixed_round(p, f) };
    proof {
        let m = p512() as int;
        vstd::arithmetic::mul::lemma_mul_basics(p256() as int);
        lemma_pow2_unfold(f);
        lemma_pow2_pos((f - 1) as nat);
        assert(p == hi@ * p512() + lo@);
        assert(p / pow2(f) == hi@ * pow2((512 - f) as nat) + lo@ / pow2(f));
        assert(p % pow2(f) == lo@ % pow2(f));
        lemma_pow2_adds(384, (f - 384) as nat);
        lemma_pow2_pos(384);
        vstd::arithmetic::div_mod::lemma_mod_mod(p as int, pow2(384) as int, pow2((f - 384) as nat) as int);
        vstd::arithmetic::div_mod::lemma_mod_mod(lo@ as int, pow2(384) as int, pow2((f - 384) as nat) as int);
        assert(p % pow2(384) == lo@ % pow2(384));
        if gt || (eq && odd) || low_set {
            vstd::arithmetic::div_mod::lemma_add_mod_noop(
                (hi@ * pow2((512 - f) as nat) + lo@ / pow2(f)) as int, 1, m);
            lemma_small_mod(1, p512());
            vstd::arithmetic::div_mod::lemma_mod_twice((hi@ * pow2((512 - f) as nat) + lo@ / pow2(f)) as int, m);
        }
        assert(q@ == (rq as int) % m);
    }
    let mut r = FP492(q);
    if signum < 0 {
        r.ineg();
        proof {
            lemma_signed_pattern_congruent(rq as int, 0);
            // -(q mod 2⁵¹²) ≡ -rq
            lemma_u512_bound(q);
            let m = p512() as int;
            lemma_fundamental_div_mod(rq as int, m);
            let k = (rq as int) / m;
            assert(-signed512(q@) == -(rq as int) + k * m + (if q@ >= p511() { m } else { 0 })) by {
                vstd::arithmetic::mul::lemma_mul_is_commutative(m, k);
            }
            vstd::arithmetic::div_mod::lemma_mod_multiples_vanish(k + (if q@ >= p511() { 1int } else { 0int }),
                -(rq as int), m);
            assert(-signed512(q@) == -(rq as int) + (k + (if q@ >= p511() { 1int } else { 0int })) * m) by (nonlinear_arith)
                requires
                    -signed512(q@) == -(rq as int) + k * m + (if q@ >= p511() { m } else { 0 }),
            ;
            vstd::arithmetic::mul::lemma_mul_is_commutative(m, k + (if q@ >= p511() { 1int } else { 0int }));
            assert(r.0@ == pattern512(-(rq as int)));
            assert(sign_of_value(va) * sign_of_value(vb) == -1);
            assert(rounded_product_by(va, vb, f, sticky) == -(rq as int));
        }
    } else {
        proof {
            lemma_small_mod(q@, p512());
            if signum == 0 {
                vstd::arithmetic::mul::lemma_mul_basics(magnitude(va) as int);
                vstd::arithmetic::mul::lemma_mul_basics(magnitude(vb) as int);
                assert(p == 0);
                lemma_small_mod(0, pow2(f));
                vstd::arithmetic::div_mod::lemma_basic_div(0, pow2(f) as int);
                lemma_pow2_pos(384);
                lemma_small_mod(0, pow2(384));
                assert(rq == 0);
                assert(rounded_product_by(va, vb, f, sticky) == 0);
            } else {
                assert(signum == sign_of_value(va) * sign_of_value(vb));
                assert(sign_of_value(va) * sign_of_value(vb) == 1);
                vstd::arithmetic::mul::lemma_mul_basics(rq as int);
                assert(rounded_product_by(va, vb, f, sticky) == rq);
            }
            assert(r.0@ == pattern512(rounded_product_by(va, vb, f, sticky)));
        }
    }
    proof {
        let rp = rounded_product_by(va, vb, f, sticky);
        assert(signum == sign_of_value(va) * sign_of_value(vb));
        if -(p511() as int) < rp < p511() {
            lemma_pattern_signed(rp);
        }
    }
    r
}

impl FP492 {
    /// Sets `self` to the product `self * rhs`, rounded to 492 fractional
    /// bits as [`fixed_round`](crate::fp492::fixed_round) describes; the
    /// result wraps modulo 2⁵¹² where it exceeds the range.
    pub fn imul_round(&mut self, rhs: &Self)
        ensures
            final(self).0@ == pattern512(rounded_product(old(self).value(), rhs.value(), 492)),
            -(p511() as int) < rounded_product(old(self).value(), rhs.value(), 492) < p511() ==>
                final(self).value() == rounded_product(old(self).value(), rhs.value(), 492),
    {
        *self = mul_round_patterns(self, rhs, 492, false);
    }

    /// Sets `self` to the product `self * rhs`, rounded to 492 fractional
    /// bits as [`fixed_round_sticky`] describes (as the reduction of large
    /// arguments rounds); the result wraps modulo 2⁵¹² where it exceeds the
    /// range.
    pub fn imul_round_sticky(&mut self, rhs: &Self)
        ensures
            final(self).0@ == pattern512(rounded_product_sticky(old(self).value(), rhs.value(), 492)),
            -(p511() as int) < rounded_product_sticky(old(self).value(), rhs.value(), 492) < p511() ==>
                final(self).value() == rounded_product_sticky(old(self).value(), rhs.value(), 492),
    {
        *self = mul_round_patterns(self, rhs, 492, true);
    }
}

impl FP492 {
    /// Returns `2 * self`; `|self|` must be below 2¹⁸.
    pub fn mul2(&self) -> (r: Self)
        requires
            -pow2(510) < self.value() < pow2(510),
        ensures
            r.value() == 2 * self.value(),
    {
        proof {
            lemma_p512();
            lemma_pow2_unfold(511);
            lemma_pow2_unfold(510);
            lemma_u512_bound(self.0);
        }
        let neg = self.signum() < 0;
        let mut res = self.abs();
        let ghost m = magnitude(self.value());
        proof {
            lemma_divmod_unique(m as int, p512() as int, 0, m as int);
            assert(res.0@ == m);
        }
        res.0 = res.0.shl_any(1);
        proof {
            lemma2_to64();
            lemma_small_mod(m * 2, p512());
            assert(res.0@ == 2 * m);
        }
        if neg {
            res.ineg();
        }
        res
    }

    /// Returns `self + ⌊self ⋅ 2⁻ⁿ⌋` of the patterns, modulo 2⁵¹².
    pub fn add_self_shr(self, n: u32) -> (r: Self)
        requires
            n < 512,
        ensures
            r.0@ == (self.0@ as int + self.0@ / pow2(n as nat)) % (p512() as int),
    {
        let mut v = self.0;
        v.add_assign(&self.0.shr_any(n));
        FP492(v)
    }

    /// Splits `|self|` at 2⁻⁸: returns `⌊|self|⋅256⌋`, that value divided by
    /// 256, and the remainder `|self| - ⌊|self|⋅256⌋ / 256`.
    pub fn divmod_1_over_256(self) -> (r: (i32, Self, Self))
        requires
            self.value() > -(p511() as int),
        ensures
            ({
                let a = magnitude(self.value());
                let q = a / pow2(484);
                &&& r.0 == q
                &&& r.1.value() == q * pow2(484)
                &&& r.2.value() == a % pow2(484)
            }),
    {
        proof {
            lemma_p512();
            lemma_pow2_64_128();
            lemma_u512_bound(self.0);
        }
        let mut a = self;
        a.iabs();
        let ghost av = magnitude(self.value());
        proof {
            lemma_divmod_unique(av as int, p512() as int, 0, av as int);
            assert(a.0@ == av);
            lemma_pow2_adds(484, 27);
            lemma_pow2_pos(484);
            crate::bits::lemma_div_strictly_bounded(av as int, pow2(484) as int, pow2(27) as int);
        }
        let q = a.0.shr_any(484);
        proof {
            lemma_u256_bound(q.lo);
            lemma_u256_bound(q.hi);
            lemma_pow2_strictly_increases(27, 128);
            if q.hi@ > 0 {
                lemma_mul_inequality(1, q.hi@ as int, p256() as int);
            }
            if q.lo.hi > 0 {
                lemma_mul_inequality(1, q.lo.hi as int, p128() as int);
            }
            assert(q.lo.lo == q@);
        }
        let qi = q.lo.lo;
        let c = FP492(u512::from_hi_lo(u256::zero(), u256::new(0, qi)).shl_any(484));
        proof {
            vstd::arithmetic::mul::lemma_mul_basics(p256() as int);
            vstd::arithmetic::mul::lemma_mul_basics(p128() as int);
            lemma_pow2_adds(27, 484);
            lemma_mul_strict_inequality(qi as int, pow2(27) as int, pow2(484) as int);
            lemma_pow2_strictly_increases(511, 512);
            lemma_small_mod((qi * pow2(484)) as nat, p512());
            assert(c.0@ == qi * pow2(484));
            assert(c.value() == qi * pow2(484));
            crate::bits::lemma_split(av as int, 484);
        }
        let mut rem = a;
        rem.sub_assign(&c);
        proof {
            lemma2_to64();
            assert(a.value() == av);
            assert(av - qi * pow2(484) == av % pow2(484));
            assert(rem.value() == av - qi * pow2(484));
            assert(qi < 0x8000_0000);
        }
        (qi as i32, c, rem)
    }
}

} // verus!
