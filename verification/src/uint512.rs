//! Unsigned integers of 512 bits, built from two `u256` halves.
use vstd::prelude::*;
use vstd::arithmetic::power2::{pow2, lemma_pow2_pos, lemma_pow2_adds, lemma2_to64, lemma_pow2_strictly_increases};
use vstd::arithmetic::div_mod::{lemma_small_mod, lemma_fundamental_div_mod, lemma_mod_bound,
    lemma_div_pos_is_pos, lemma_mod_multiples_vanish};
use vstd::arithmetic::mul::{lemma_mul_inequality, lemma_mul_is_commutative, lemma_mul_is_associative,
    lemma_mul_upper_bound, lemma_mul_nonnegative, lemma_mul_strict_inequality};
use crate::bits::{p128, p256, lemma_pow2_64_128, lemma_split, lemma_div_strictly_bounded};
use crate::uint256::{u256, u128_widening_mul, is_lz, lemma_u256_bound, lemma_divmod_unique,
    lemma_u256_order};

verus! {

/// 2⁵¹²
pub open spec fn p512() -> nat {
    p256() * p256()
}

/// Helper type representing unsigned integers of 512 bits.
#[derive(Clone, Copy, Debug, PartialEq, Eq, Structural)]
pub struct u512 {
    pub hi: u256,
    pub lo: u256,
}

impl View for u512 {
    type V = nat;

    open spec fn view(&self) -> nat {
        self.hi@ * p256() + self.lo@
    }
}

pub proof fn lemma_u512_bound(u: u512)
    ensures
        u@ < p512(),
        pow2(512) == p512(),
{
    lemma_u256_bound(u.hi);
    lemma_u256_bound(u.lo);
    lemma_mul_upper_bound(u.hi@ as int, (p256() - 1) as int, p256() as int, p256() as int);
    let b = p256() as int;
    assert((b - 1) * b + b == b * b) by (nonlinear_arith);
    lemma_pow2_64_128();
    lemma_pow2_adds(256, 256);
}

/// Reducing `0 <= x < 2m` modulo `m` subtracts `m` at most once.
pub proof fn lemma_mod_once(x: int, m: int)
    requires
        m > 0,
        0 <= x < 2 * m,
    ensures
        x % m == (if x >= m { x - m } else { x }),
        x / m == (if x >= m { 1int } else { 0int }),
{
    if x >= m {
        lemma_divmod_unique(x, m, 1, x - m);
    } else {
        lemma_divmod_unique(x, m, 0, x);
    }
}

proof fn lemma_mul_expand(xh: int, xl: int, yh: int, yl: int, b: int)
    ensures
        (xh * b + xl) * (yh * b + yl) == (xh * yh) * (b * b) + (xl * yh + xh * yl) * b + xl * yl,
{
    vstd::arithmetic::mul::lemma_mul_is_distributive_add(xh * b + xl, yh * b, yl);
    vstd::arithmetic::mul::lemma_mul_is_distributive_add_other_way(yh * b, xh * b, xl);
    vstd::arithmetic::mul::lemma_mul_is_distributive_add_other_way(yl, xh * b, xl);
    assert((xh * b) * (yh * b) == (xh * yh) * (b * b)) by (nonlinear_arith);
    assert(xl * (yh * b) == (xl * yh) * b) by (nonlinear_arith);
    assert((xh * b) * yl == (xh * yl) * b) by (nonlinear_arith);
    vstd::arithmetic::mul::lemma_mul_is_distributive_add_other_way(b, xl * yh, xh * yl);
}

/// Reducing `x⋅2²⁵⁶ + l` modulo 2⁵¹² keeps `x mod 2²⁵⁶` as upper half.
pub proof fn lemma_wrap_halves(x: int, h: int, l: int)
    requires
        x >= 0,
        0 <= l < p256(),
        h == x % (p256() as int),
    ensures
        (x * p256() + l) % (p512() as int) == h * p256() + l,
        0 <= h * p256() + l < p512(),
{
    let b = p256() as int;
    let q = x / b;
    lemma_fundamental_div_mod(x, b);
    lemma_mod_bound(x, b);
    assert(x * b + l == q * (b * b) + (h * b + l)) by (nonlinear_arith)
        requires
            x == b * q + h,
    ;
    assert(0 <= h * b + l < b * b) by (nonlinear_arith)
        requires
            0 <= h < b,
            0 <= l < b,
    ;
    lemma_divmod_unique(x * b + l, b * b, q, h * b + l);
}

impl u256 {
    /// Calculate the full product `self * rhs` as 512-bit value.
    pub fn widening_mul(&self, rhs: &u256) -> (r: u512)
        ensures
            r@ == self@ * rhs@,
    {
        let ll = u128_widening_mul(self.lo, rhs.lo);
        let lh = u128_widening_mul(self.lo, rhs.hi);
        let hl = u128_widening_mul(self.hi, rhs.lo);
        let hh = u128_widening_mul(self.hi, rhs.hi);
        let mut m = lh;
        m.add_assign(&hl);
        let mc = m.lt(&hl);
        let mut lo = ll;
        lo.hi = ll.hi.wrapping_add(m.lo);
        let c1 = lo.hi < m.lo;
        let mut hi = hh;
        proof {
            let b = p128() as int;
            let bb = p256() as int;
            lemma_u256_bound(*self);
            lemma_u256_bound(*rhs);
            lemma_u256_bound(lh);
            lemma_u256_bound(hl);
            lemma_u256_bound(m);
            lemma_u256_bound(hh);
            lemma_pow2_64_128();
            let mci: int = if lh@ + hl@ >= bb { 1 } else { 0 };
            lemma_divmod_unique((lh@ + hl@) as int, bb, mci, m@ as int);
            assert(mc == (mci == 1));
            let c1i: int = if ll.hi + m.lo >= b { 1 } else { 0 };
            assert(c1 == (c1i == 1));
            assert(ll.hi + m.lo == c1i * b + lo.hi);
            // the total product
            let x = self@ as int;
            let y = rhs@ as int;
            lemma_mul_expand(self.hi as int, self.lo as int, rhs.hi as int, rhs.lo as int, b);
            lemma_pow2_64_128();
            assert(x * y == hh@ * bb + (lh@ + hl@) * b + ll@);
            let hsum = hh@ + m.hi + c1i + mci * b;
            assert(x * y == hsum * bb + (lo.hi * b + ll.lo)) by (nonlinear_arith)
                requires
                    x * y == hh@ * bb + (lh@ + hl@) * b + ll@,
                    lh@ + hl@ == mci * bb + m@,
                    m@ == m.hi * b + m.lo,
                    ll@ == ll.hi * b + ll.lo,
                    ll.hi + m.lo == c1i * b + lo.hi,
                    hsum == hh@ + m.hi + c1i + mci * b,
                    bb == b * b,
            ;
            lemma_mul_upper_bound(x, bb - 1, y, bb - 1);
            assert(hsum < bb) by (nonlinear_arith)
                requires
                    x * y == hsum * bb + (lo.hi * b + ll.lo),
                    x * y <= (bb - 1) * (bb - 1),
                    lo.hi * b + ll.lo >= 0,
                    bb > 0,
            ;
            assert(lo@ == lo.hi * b + ll.lo);
            lemma_small_mod((hh@ + m.hi) as nat, p256());
            lemma_small_mod((hh@ + m.hi + c1i) as nat, p256());
        }
        hi.add_assign_u128(m.hi);
        hi.add_assign_u128(c1 as u128);
        proof {
            let b = p128() as int;
            let mci: int = if mc { 1 } else { 0 };
            let hv = hi@ as int;
            assert(hv == hi.hi * b + hi.lo);
            assert(hi.hi + mci < b) by (nonlinear_arith)
                requires
                    hv + mci * b < b * b,
                    hv == hi.hi * b + hi.lo,
                    hi.lo >= 0,
                    b > 0,
            ;
        }
        hi.hi = hi.hi + (mc as u128);
        u512 { hi, lo }
    }
}

impl u512 {
    /// The size of this integer type in bits.
    pub const BITS: u32 = 512;

    /// Additive identity = 0.
    pub fn zero() -> (r: Self)
        ensures
            r@ == 0,
    {
        proof {
            vstd::arithmetic::mul::lemma_mul_basics(p256() as int);
        }
        Self { hi: u256::zero(), lo: u256::zero() }
    }

    /// Create an `u512` value from two u256 values.
    pub fn from_hi_lo(hi: u256, lo: u256) -> (r: Self)
        ensures
            r.hi == hi,
            r.lo == lo,
            r@ == hi@ * p256() + lo@,
    {
        Self { hi, lo }
    }

    /// Return true, if `self` == 0.
    pub fn is_zero(&self) -> (r: bool)
        ensures
            r == (self@ == 0),
    {
        proof {
            lemma_mul_nonnegative(self.hi@ as int, p256() as int);
            if self.hi@ > 0 {
                lemma_mul_inequality(1, self.hi@ as int, p256() as int);
            }
        }
        self.hi.is_zero() && self.lo.is_zero()
    }

    /// Returns `self < other`.
    pub fn lt(&self, other: &Self) -> (r: bool)
        ensures
            r == (self@ < other@),
    {
        proof {
            lemma_u512_order(*self, *other);
            lemma_u256_order(self.hi, other.hi);
        }
        self.hi.lt(&other.hi) || (self.hi == other.hi && self.lo.lt(&other.lo))
    }

    /// Add `rhs` to `self` inplace, modulo 2⁵¹².
    pub fn add_assign(&mut self, rhs: &Self)
        ensures
            final(self)@ == (old(self)@ as int + rhs@) % (p512() as int),
    {
        let ghost o = *self;
        self.lo.add_assign(&rhs.lo);
        let c = self.lo.lt(&rhs.lo);
        self.hi.add_assign(&rhs.hi);
        if c {
            self.hi.incr();
        }
        proof {
            let bb = p256() as int;
            lemma_u256_bound(o.lo);
            lemma_u256_bound(rhs.lo);
            lemma_u256_bound(o.hi);
            lemma_u256_bound(rhs.hi);
            let ci: int = if o.lo@ + rhs.lo@ >= bb { 1 } else { 0 };
            lemma_mod_once((o.lo@ + rhs.lo@) as int, bb);
            assert(c == (ci == 1));
            let x = o.hi@ + rhs.hi@ + ci;
            lemma_mod_once((o.hi@ + rhs.hi@) as int, bb);
            vstd::arithmetic::div_mod::lemma_add_mod_noop((o.hi@ + rhs.hi@) as int, ci, bb);
            lemma_small_mod(ci as nat, p256());
            vstd::arithmetic::div_mod::lemma_mod_twice((o.hi@ + rhs.hi@) as int, bb);
            assert(self.hi@ == x % bb);
            lemma_wrap_halves(x, self.hi@ as int, self.lo@ as int);
            assert(o@ + rhs@ == x * bb + self.lo@) by (nonlinear_arith)
                requires
                    o@ == o.hi@ * bb + o.lo@,
                    rhs@ == rhs.hi@ * bb + rhs.lo@,
                    o.lo@ + rhs.lo@ == ci * bb + self.lo@,
                    x == o.hi@ + rhs.hi@ + ci,
            ;
        }
    }

    /// Subtract `rhs` from `self` inplace, modulo 2⁵¹².
    pub fn sub_assign(&mut self, rhs: &Self)
        ensures
            final(self)@ == (old(self)@ as int + p512() - rhs@) % (p512() as int),
    {
        let ghost o = *self;
        let borrow = self.lo.lt(&rhs.lo);
        self.lo.sub_assign(&rhs.lo);
        self.hi.sub_assign(&rhs.hi);
        if borrow {
            self.hi.sub_assign_u128(1);
        }
        proof {
            let bb = p256() as int;
            lemma_u256_bound(o.lo);
            lemma_u256_bound(rhs.lo);
            lemma_u256_bound(o.hi);
            lemma_u256_bound(rhs.hi);
            let bi: int = if borrow { 1 } else { 0 };
            lemma_mod_once(o.lo@ + bb - rhs.lo@, bb);
            let x = o.hi@ - rhs.hi@ - bi + bb;
            let t = o.hi@ + bb - rhs.hi@;
            let qt: int = if t >= bb { 1 } else { 0 };
            lemma_divmod_unique(t, bb, qt, t - qt * bb);
            if borrow {
                let t2 = (t - qt * bb) + bb - 1;
                let qt2: int = if t2 >= bb { 1 } else { 0 };
                lemma_divmod_unique(t2, bb, qt2, t2 - qt2 * bb);
                lemma_divmod_unique(x, bb, (qt + qt2 - 1), self.hi@ as int);
            } else {
                lemma_divmod_unique(x, bb, qt, self.hi@ as int);
            }
            lemma_wrap_halves(x, self.hi@ as int, self.lo@ as int);
            assert(o@ + p512() - rhs@ == x * bb + self.lo@) by (nonlinear_arith)
                requires
                    o@ == o.hi@ * bb + o.lo@,
                    rhs@ == rhs.hi@ * bb + rhs.lo@,
                    o.lo@ + bb - rhs.lo@ == (1 - bi) * bb + self.lo@,
                    x == o.hi@ - rhs.hi@ - bi + bb,
                    p512() == bb * bb,
            ;
        }
    }

    /// Shift `self` left by `n` bits (`0 < n < 256`), bits shifted out are lost.
    pub fn shl(&self, n: u32) -> (r: Self)
        requires
            0 < n < 256,
        ensures
            r@ == (self@ * pow2(n as nat)) % p512(),
    {
        let mut hi = self.hi.shl(n);
        let carry = self.lo.shr(256 - n);
        let lo = self.lo.shl(n);
        let ghost h0 = hi;
        proof {
            lemma_shl_halves(self.hi, self.lo, n as nat, hi, carry, lo);
        }
        hi.add_assign(&carry);
        proof {
            lemma_shl_halves_sum(self.hi, n as nat, h0, carry);
        }
        Self { hi, lo }
    }

    /// Shift `self` right by `n` bits (`0 < n < 256`).
    pub fn shr(&self, n: u32) -> (r: Self)
        requires
            0 < n < 256,
        ensures
            r@ == self@ / pow2(n as nat),
    {
        let hi = self.hi.shr(n);
        let mut lo = self.lo.shr(n);
        let carry = self.hi.shl(256 - n);
        proof {
            lemma_shr_halves(self.hi, self.lo, n as nat, hi, lo, carry);
        }
        lo.add_assign(&carry);
        proof {
            lemma_u256_bound(lo);
        }
        Self { hi, lo }
    }
}

/// The numeric order of `u512` values is the lexicographic order of their halves.
pub proof fn lemma_u512_order(a: u512, b: u512)
    ensures
        a@ < b@ <==> (a.hi@ < b.hi@ || (a.hi@ == b.hi@ && a.lo@ < b.lo@)),
{
    let bb = p256() as int;
    lemma_u256_bound(a.lo);
    lemma_u256_bound(b.lo);
    if a.hi@ < b.hi@ {
        assert(a@ < b@) by (nonlinear_arith)
            requires
                a.hi@ < b.hi@,
                0 <= a.lo@ < bb,
                0 <= b.lo@,
                a@ == a.hi@ * bb + a.lo@,
                b@ == b.hi@ * bb + b.lo@,
        ;
    } else if a.hi@ > b.hi@ {
        assert(a@ > b@) by (nonlinear_arith)
            requires
                a.hi@ > b.hi@,
                0 <= b.lo@ < bb,
                0 <= a.lo@,
                a@ == a.hi@ * bb + a.lo@,
                b@ == b.hi@ * bb + b.lo@,
        ;
    }
}

/// Parts of a left shift of two halves by `0 < n < 256`.
proof fn lemma_shl_halves(hi: u256, lo: u256, n: nat, h2: u256, c: u256, l2: u256)
    requires
        0 < n < 256,
        h2@ == (hi@ * pow2(n)) % p256(),
        c@ == lo@ / pow2((256 - n) as nat),
        l2@ == (lo@ * pow2(n)) % p256(),
    ensures
        h2@ + c@ < p256(),
        ((h2@ + c@) * p256() + l2@) == ((hi@ * p256() + lo@) * pow2(n)) % p512(),
        h2@ % pow2(n) == 0,
        c@ < pow2(n),
{
    let b = p256() as int;
    let pp = pow2(n) as int;
    let qq = pow2((256 - n) as nat) as int;
    lemma_pow2_64_128();
    lemma_pow2_adds(n, (256 - n) as nat);
    lemma_pow2_pos(n);
    lemma_pow2_pos((256 - n) as nat);
    assert(pp * qq == b);
    lemma_u256_bound(hi);
    lemma_u256_bound(lo);
    lemma_split(hi@ as int, (256 - n) as nat);
    lemma_split(lo@ as int, (256 - n) as nat);
    let e = hi@ as int / qq;
    let f = hi@ as int % qq;
    let cc = lo@ as int / qq;
    let d = lo@ as int % qq;
    assert(hi@ * pp == e * b + f * pp) by (nonlinear_arith)
        requires
            hi@ == e * qq + f,
            pp * qq == b,
    ;
    assert(lo@ * pp == cc * b + d * pp) by (nonlinear_arith)
        requires
            lo@ == cc * qq + d,
            pp * qq == b,
    ;
    assert(0 <= f * pp < b) by (nonlinear_arith)
        requires
            0 <= f < qq,
            pp * qq == b,
            pp > 0,
    ;
    assert(0 <= d * pp < b) by (nonlinear_arith)
        requires
            0 <= d < qq,
            pp * qq == b,
            pp > 0,
    ;
    assert(cc < pp) by {
        lemma_div_strictly_bounded(lo@ as int, qq, pp);
        lemma_mul_is_commutative(qq, pp);
    }
    assert(e >= 0) by {
        lemma_div_pos_is_pos(hi@ as int, qq);
    }
    lemma_divmod_unique(hi@ * pp, b, e, f * pp);
    lemma_divmod_unique(lo@ * pp, b, cc, d * pp);
    assert(0 <= f * pp + cc < b) by (nonlinear_arith)
        requires
            0 <= f < qq,
            0 <= cc < pp,
            pp * qq == b,
    ;
    let x = e * b + f * pp + cc;
    lemma_divmod_unique(x, b, e, f * pp + cc);
    assert((hi@ * b + lo@) * pp == x * b + d * pp) by (nonlinear_arith)
        requires
            hi@ * pp == e * b + f * pp,
            lo@ * pp == cc * b + d * pp,
            x == e * b + f * pp + cc,
    ;
    lemma_wrap_halves(x, f * pp + cc, d * pp);
    vstd::arithmetic::div_mod::lemma_mod_multiples_basic(f, pp);
}

proof fn lemma_shl_halves_sum(hi: u256, n: nat, h2: u256, c: u256)
    requires
        h2@ + c@ < p256(),
    ensures
        (h2@ + c@) % p256() == h2@ + c@,
{
    lemma_small_mod((h2@ + c@) as nat, p256());
}

/// Parts of a right shift of two halves by `0 < n < 256`.
proof fn lemma_shr_halves(hi: u256, lo: u256, n: nat, h2: u256, l2: u256, c: u256)
    requires
        0 < n < 256,
        h2@ == hi@ / pow2(n),
        l2@ == lo@ / pow2(n),
        c@ == (hi@ * pow2((256 - n) as nat)) % p256(),
    ensures
        l2@ + c@ < p256(),
        (l2@ as int + c@) % (p256() as int) == l2@ + c@,
        h2@ * p256() + (l2@ + c@) == (hi@ * p256() + lo@) / pow2(n),
{
    let b = p256() as int;
    let pp = pow2(n) as int;
    let qq = pow2((256 - n) as nat) as int;
    lemma_pow2_64_128();
    lemma_pow2_adds(n, (256 - n) as nat);
    lemma_pow2_pos(n);
    lemma_pow2_pos((256 - n) as nat);
    assert(pp * qq == b);
    lemma_u256_bound(hi);
    lemma_u256_bound(lo);
    lemma_split(hi@ as int, n);
    lemma_split(lo@ as int, n);
    let a = hi@ as int / pp;
    let bb = hi@ as int % pp;
    let cc = lo@ as int / pp;
    let d = lo@ as int % pp;
    assert(hi@ * qq == a * b + bb * qq) by (nonlinear_arith)
        requires
            hi@ == a * pp + bb,
            pp * qq == b,
    ;
    assert(0 <= bb * qq < b) by (nonlinear_arith)
        requires
            0 <= bb < pp,
            pp * qq == b,
            qq > 0,
    ;
    assert(a >= 0) by {
        lemma_div_pos_is_pos(hi@ as int, pp);
    }
    lemma_divmod_unique(hi@ * qq, b, a, bb * qq);
    assert(cc < qq) by {
        lemma_div_strictly_bounded(lo@ as int, pp, qq);
    }
    assert(0 <= bb * qq + cc < b) by (nonlinear_arith)
        requires
            0 <= bb < pp,
            0 <= cc < qq,
            pp * qq == b,
    ;
    lemma_small_mod((l2@ + c@) as nat, p256());
    assert(hi@ * b + lo@ == (a * b + bb * qq + cc) * pp + d) by (nonlinear_arith)
        requires
            hi@ == a * pp + bb,
            lo@ == cc * pp + d,
            pp * qq == b,
    ;
    lemma_divmod_unique(hi@ * b + lo@, pp, a * b + bb * qq + cc, d);
}


impl u512 {
    /// Returns the number of leading zeros in the binary representation of
    /// `self`.
    pub fn leading_zeros(&self) -> (r: u32)
        ensures
            is_lz(self@, 512, r as nat),
    {
        proof {
            lemma_u256_bound(self.lo);
            lemma_u256_bound(self.hi);
            lemma_pow2_64_128();
            lemma_pow2_adds(256, 256);
        }
        if self.hi.is_zero() {
            let l = self.lo.leading_zeros();
            proof {
                vstd::arithmetic::mul::lemma_mul_basics(p256() as int);
                assert((512 - (256 + l)) as nat == (256 - l) as nat);
                if l < 256 {
                    assert((512 - (256 + l) - 1) as nat == (256 - l - 1) as nat);
                }
            }
            256 + l
        } else {
            let h = self.hi.leading_zeros();
            proof {
                let n = h as nat;
                lemma2_to64();
                if h == 256 {
                    assert(false);
                }
                lemma_pow2_adds((256 - n) as nat, 256);
                lemma_pow2_adds((255 - n) as nat, 256);
                lemma_mul_inequality((self.hi@ + 1) as int, pow2((256 - n) as nat) as int, p256() as int);
                assert((self.hi@ + 1) * p256() == self.hi@ * p256() + p256()) by (nonlinear_arith);
                lemma_mul_inequality(pow2((255 - n) as nat) as int, self.hi@ as int, p256() as int);
                assert((512 - n) as nat == (256 - n) as nat + 256);
                assert((512 - n - 1) as nat == (255 - n) as nat + 256);
            }
            h
        }
    }

    /// Shift `self` left by `n` bits (`n < 512`); bits shifted out are lost.
    pub fn shl_any(&self, n: u32) -> (r: Self)
        requires
            n < 512,
        ensures
            r@ == (self@ * pow2(n as nat)) % p512(),
    {
        proof {
            lemma_u512_bound(*self);
            lemma_pow2_64_128();
            lemma_u256_bound(self.lo);
        }
        if n == 0 {
            proof {
                lemma2_to64();
                lemma_small_mod(self@, p512());
            }
            *self
        } else if n < 256 {
            self.shl(n)
        } else {
            let lo = if n == 256 { self.lo } else { self.lo.shl(n - 256) };
            proof {
                let k = (n - 256) as nat;
                let bb = p256() as int;
                lemma_pow2_adds(k, 256);
                lemma_pow2_adds(256, 256);
                lemma_pow2_pos(k);
                if n == 256 {
                    lemma2_to64();
                    lemma_small_mod(self.lo@, p256());
                    vstd::arithmetic::mul::lemma_mul_basics(self.lo@ as int);
                }
                assert(lo@ == (self.lo@ * pow2(k)) % p256());
                // v⋅2ⁿ = hi⋅2ᵏ⋅2⁵¹² + lo⋅2ᵏ⋅2²⁵⁶
                let a = self.lo@ * pow2(k);
                assert(self@ * pow2(n as nat) == (self.hi@ * pow2(k)) * (bb * bb) + a * bb) by (nonlinear_arith)
                    requires
                        self@ == self.hi@ * bb + self.lo@,
                        pow2(n as nat) == pow2(k) * bb,
                        a == self.lo@ * pow2(k),
                ;
                lemma_mul_nonnegative(self.hi@ as int, pow2(k) as int);
                lemma_mul_nonnegative(self.lo@ as int, pow2(k) as int);
                vstd::arithmetic::div_mod::lemma_mod_multiples_vanish((self.hi@ * pow2(k)) as int, a * bb, bb * bb);
                crate::uint256::lemma_mod_scaled_pub(a as int, bb, bb);
                vstd::arithmetic::mul::lemma_mul_basics(bb);
            }
            Self { hi: lo, lo: u256::zero() }
        }
    }

    /// Shift `self` right by `n` bits (`n < 512`).
    pub fn shr_any(&self, n: u32) -> (r: Self)
        requires
            n < 512,
        ensures
            r@ == self@ / pow2(n as nat),
    {
        proof {
            lemma_pow2_64_128();
            lemma_u256_bound(self.lo);
        }
        if n == 0 {
            proof {
                lemma2_to64();
                vstd::arithmetic::div_mod::lemma_div_basics(self@ as int);
            }
            *self
        } else if n < 256 {
            self.shr(n)
        } else {
            let lo = if n == 256 { self.hi } else { self.hi.shr(n - 256) };
            proof {
                let k = (n - 256) as nat;
                let bb = p256() as int;
                lemma_pow2_adds(256, k);
                lemma_pow2_pos(k);
                lemma_divmod_unique(self@ as int, bb, self.hi@ as int, self.lo@ as int);
                vstd::arithmetic::div_mod::lemma_div_denominator(self@ as int, bb, pow2(k) as int);
                if n == 256 {
                    lemma2_to64();
                    vstd::arithmetic::div_mod::lemma_div_basics(self.hi@ as int);
                }
                vstd::arithmetic::mul::lemma_mul_basics(bb);
            }
            Self { hi: u256::zero(), lo }
        }
    }
}

/// The low `k` bits of `v`, moved to the top of 512 bits, compare to 2⁵¹¹
/// as the remainder `v mod 2ᵏ` compares to 2ᵏ⁻¹.
pub proof fn lemma_rem_to_top(v: nat, k: nat, t: nat)
    requires
        1 <= k <= 511,
        t == (v * pow2((512 - k) as nat)) % p512(),
    ensures
        t == (v % pow2(k)) * pow2((512 - k) as nat),
        (t == 0) == (v % pow2(k) == 0),
        (t > pow2(511)) == (v % pow2(k) > pow2(k) / 2),
        (t == pow2(511)) == (v % pow2(k) == pow2(k) / 2),
{
    let s = (512 - k) as nat;
    lemma_pow2_adds(k, s);
    lemma_pow2_adds(256, 256);
    lemma_pow2_64_128();
    lemma_pow2_pos(k);
    lemma_pow2_pos(s);
    crate::uint256::lemma_mod_scaled_pub(v as int, pow2(s) as int, pow2(k) as int);
    vstd::arithmetic::power2::lemma_pow2_unfold(k);
    lemma_pow2_adds((k - 1) as nat, s);
    let r = v % pow2(k);
    let h = pow2((k - 1) as nat) as int;
    let ps = pow2(s) as int;
    assert(pow2(k) / 2 == h);
    assert(h * ps == pow2(511));
    assert((r * ps > h * ps) == (r > h)) by (nonlinear_arith)
        requires
            ps > 0,
    ;
    assert((r * ps == h * ps) == (r == h)) by (nonlinear_arith)
        requires
            ps > 0,
    ;
    assert((r * ps == 0) == (r == 0)) by (nonlinear_arith)
        requires
            ps > 0,
    ;
}


impl u512 {
    /// Divides `self` by `d`, returning quotient and remainder; the
    /// quotient must fit into 256 bits.
    pub fn div_rem_u256(&self, d: &u256) -> (r: (u256, u256))
        requires
            0 < d@ < pow2(255),
            self.hi@ < d@,
        ensures
            self@ == r.0@ * d@ + r.1@,
            r.1@ < d@,
    {
        proof {
            lemma_pow2_64_128();
            lemma_pow2_adds(256, 256);
            vstd::arithmetic::power2::lemma_pow2_unfold(256);
            vstd::arithmetic::power2::lemma_pow2_unfold(512);
            lemma_u256_bound(self.lo);
        }
        let mut w = *self;
        let mut q = u256::zero();
        let mut i: u32 = 0;
        proof {
            lemma2_to64();
            vstd::arithmetic::mul::lemma_mul_basics(self@ as int);
            vstd::arithmetic::mul::lemma_mul_basics(self.lo@ as int);
            vstd::arithmetic::mul::lemma_mul_basics(d@ as int);
            lemma_small_mod(self.lo@, p256());
        }
        while i < 256
            invariant
                i <= 256,
                0 < d@ < pow2(255),
                w.hi@ < d@,
                q@ < pow2(i as nat),
                self@ * pow2(i as nat) == (q@ * d@) * p256() + w@,
                w.lo@ == (self.lo@ * pow2(i as nat)) % p256(),
                pow2(256) == p256(),
                pow2(512) == p512(),
                pow2(256) == 2 * pow2(255),
                pow2(512) == 2 * pow2(511),
            decreases 256 - i,
        {
            let ghost (w0, q0) = (w, q@);
            w = w.shl(1);
            proof {
                lemma2_to64();
                lemma_u256_bound(w0.lo);
                assert(w0@ < pow2(511)) by {
                    assert(w0.hi@ < pow2(255));
                    lemma_mul_inequality((w0.hi@ + 1) as int, pow2(255) as int, p256() as int);
                    lemma_pow2_adds(255, 256);
                    assert((w0.hi@ + 1) * p256() == w0.hi@ * p256() + p256()) by (nonlinear_arith);
                }
                lemma_small_mod(w0@ * 2, p512());
                assert(w@ == 2 * w0@);
                // the lower half is shifted on its own
                lemma_divmod_unique(w@ as int, p256() as int, w.hi@ as int, w.lo@ as int);
                lemma_divmod_unique(w0@ as int, p256() as int, w0.hi@ as int, w0.lo@ as int);
                assert(w.lo@ == (2 * w0.lo@) % p256()) by {
                    vstd::arithmetic::div_mod::lemma_mod_multiples_vanish(2 * w0.hi@ as int, 2 * w0.lo@ as int,
                        p256() as int);
                    assert(2 * w0@ == (2 * w0.hi@) * p256() + 2 * w0.lo@) by (nonlinear_arith)
                        requires
                            w0@ == w0.hi@ * p256() + w0.lo@,
                    ;
                }
                let a = self.lo@ * pow2(i as nat);
                vstd::arithmetic::div_mod::lemma_mul_mod_noop_right(2, a as int, p256() as int);
                lemma_pow2_adds(i as nat, 1);
                vstd::arithmetic::mul::lemma_mul_is_associative(self.lo@ as int, pow2(i as nat) as int, 2);
                lemma_mul_is_commutative(2, a as int);
                lemma_mul_is_commutative(2, (a % p256()) as int);
                assert(w.hi@ < 2 * d@) by {
                    if w.hi@ >= 2 * d@ {
                        lemma_mul_inequality(2 * d@ as int, w.hi@ as int, p256() as int);
                        assert(2 * w0@ < 2 * d@ * p256()) by (nonlinear_arith)
                            requires
                                w0@ == w0.hi@ * p256() + w0.lo@,
                                w0.hi@ < d@,
                                w0.lo@ < p256(),
                        ;
                    }
                }
            }
            q = q.shl(1);
            proof {
                lemma_pow2_adds(i as nat, 1);
                lemma_mul_strict_inequality(q0 as int, pow2(i as nat) as int, 2);
                if i + 1 < 256 {
                    lemma_pow2_strictly_increases(i as nat + 1, 256);
                }
                lemma_small_mod(q0 * 2, p256());
                assert(q@ == 2 * q0);
                assert(self@ * pow2(i as nat + 1) == (q@ * d@) * p256() + w@) by (nonlinear_arith)
                    requires
                        self@ * pow2(i as nat) == (q0 * d@) * p256() + w0@,
                        pow2(i as nat + 1) == pow2(i as nat) * 2,
                        q@ == 2 * q0,
                        w@ == 2 * w0@,
                ;
            }
            if !w.hi.lt(d) {
                let ghost w1 = w;
                w.hi.sub_assign(d);
                q.incr();
                proof {
                    vstd::arithmetic::div_mod::lemma_mod_add_multiples_vanish((w1.hi@ - d@) as int, p256() as int);
                    lemma_small_mod((w1.hi@ - d@) as nat, p256());
                    lemma_small_mod((2 * q0 + 1) as nat, p256());
                    assert(self@ * pow2(i as nat + 1) == (q@ * d@) * p256() + w@) by (nonlinear_arith)
                        requires
                            self@ * pow2(i as nat + 1) == ((2 * q0) * d@) * p256() + w1@,
                            w1@ == w1.hi@ * p256() + w1.lo@,
                            w@ == w.hi@ * p256() + w.lo@,
                            w.hi@ == w1.hi@ - d@,
                            w.lo@ == w1.lo@,
                            q@ == 2 * q0 + 1,
                    ;
                }
            }
            i = i + 1;
        }
        proof {
            // all bits of the lower half have been shifted out
            vstd::arithmetic::div_mod::lemma_mod_multiples_basic(self.lo@ as int, p256() as int);
            assert(w.lo@ == 0);
            assert(self@ * p256() == (q@ * d@ + w.hi@) * p256()) by (nonlinear_arith)
                requires
                    self@ * p256() == (q@ * d@) * p256() + w@,
                    w@ == w.hi@ * p256() + w.lo@,
                    w.lo@ == 0,
            ;
            lemma_pow2_pos(256);
            vstd::arithmetic::mul::lemma_mul_is_commutative(self@ as int, p256() as int);
            vstd::arithmetic::mul::lemma_mul_is_commutative((q@ * d@ + w.hi@) as int, p256() as int);
            vstd::arithmetic::div_mod::lemma_div_multiples_vanish(self@ as int, p256() as int);
            vstd::arithmetic::div_mod::lemma_div_multiples_vanish((q@ * d@ + w.hi@) as int, p256() as int);
        }
        (q, w.hi)
    }
}

impl u512 {
    /// Calculates the full product `self * rhs` as pair of 512-bit values
    /// (lower half, upper half).
    pub fn widening_mul(&self, rhs: &u512) -> (r: (u512, u512))
        ensures
            self@ * rhs@ == r.1@ * p512() + r.0@,
            r.0@ < p512(),
    {
        let ll = self.lo.widening_mul(&rhs.lo);
        let lh = self.lo.widening_mul(&rhs.hi);
        let hl = self.hi.widening_mul(&rhs.lo);
        let hh = self.hi.widening_mul(&rhs.hi);
        let mut m = lh;
        m.add_assign(&hl);
        let mc = m.lt(&hl);
        let mut lo = ll;
        lo.hi.add_assign(&m.lo);
        let c1 = lo.hi.lt(&m.lo);
        let mut hi = hh;
        let ghost bb = p256() as int;
        let ghost mci: int = if lh@ + hl@ >= p512() { 1 } else { 0 };
        let ghost c1i: int = if ll.hi@ + m.lo@ >= p256() { 1 } else { 0 };
        proof {
            let b = p256() as int;
            let b2 = p512() as int;
            lemma_u512_bound(*self);
            lemma_u512_bound(*rhs);
            lemma_u512_bound(lh);
            lemma_u512_bound(hl);
            lemma_u512_bound(m);
            lemma_u512_bound(hh);
            lemma_u512_bound(ll);
            lemma_u256_bound(ll.hi);
            lemma_u256_bound(m.lo);
            lemma_u256_bound(m.hi);
            lemma_pow2_64_128();
            lemma_divmod_unique((lh@ + hl@) as int, b2, mci, m@ as int);
            assert(mc == (mci == 1));
            lemma_mod_once((ll.hi@ + m.lo@) as int, b);
            assert(ll.hi@ + m.lo@ == c1i * b + lo.hi@);
            assert(c1 == (c1i == 1));
            // the total product
            let x = self@ as int;
            let y = rhs@ as int;
            lemma_mul_expand(self.hi@ as int, self.lo@ as int, rhs.hi@ as int, rhs.lo@ as int, b);
            assert(x * y == hh@ * b2 + (lh@ + hl@) * b + ll@);
            let hsum = hh@ + m.hi@ + c1i + mci * b;
            assert(x * y == hsum * b2 + (lo.hi@ * b + ll.lo@)) by (nonlinear_arith)
                requires
                    x * y == hh@ * b2 + (lh@ + hl@) * b + ll@,
                    lh@ + hl@ == mci * b2 + m@,
                    m@ == m.hi@ * b + m.lo@,
                    ll@ == ll.hi@ * b + ll.lo@,
                    ll.hi@ + m.lo@ == c1i * b + lo.hi@,
                    hsum == hh@ + m.hi@ + c1i + mci * b,
                    b2 == b * b,
            ;
            lemma_mul_upper_bound(x, b2 - 1, y, b2 - 1);
            assert(hsum < b2) by (nonlinear_arith)
                requires
                    x * y == hsum * b2 + (lo.hi@ * b + ll.lo@),
                    x * y <= (b2 - 1) * (b2 - 1),
                    lo.hi@ * b + ll.lo@ >= 0,
                    b2 > 0,
            ;
            assert(lo@ == lo.hi@ * b + ll.lo@);
            vstd::arithmetic::mul::lemma_mul_basics(b);
            lemma_small_mod((hh@ + m.hi@) as nat, p512());
            lemma_small_mod((hh@ + m.hi@ + c1i) as nat, p512());
        }
        hi.add_assign(&u512::from_hi_lo(u256::zero(), m.hi));
        let carry = if c1 { u256::new(0, 1) } else { u256::zero() };
        hi.add_assign(&u512::from_hi_lo(u256::zero(), carry));
        if mc {
            hi.add_assign(&u512::from_hi_lo(u256::new(0, 1), u256::zero()));
        }
        proof {
            let b = p256() as int;
            lemma_pow2_64_128();
            vstd::arithmetic::mul::lemma_mul_basics(b);
            lemma_u512_bound(lo);
            if mc {
                assert(hh@ + m.hi@ + c1i + b < p512());
                lemma_small_mod((hh@ + m.hi@ + c1i + b) as nat, p512());
            }
        }
        (lo, hi)
    }
}
} // verus!
