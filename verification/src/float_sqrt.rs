//! Square root of [`Float`] values, rounded to nearest.
use vstd::prelude::*;
use vstd::arithmetic::power2::{pow2, lemma_pow2_pos, lemma_pow2_adds, lemma_pow2_unfold, lemma2_to64,
    lemma_pow2_strictly_increases};
use vstd::arithmetic::div_mod::{lemma_small_mod, lemma_mod_multiples_vanish};
use vstd::arithmetic::mul::{lemma_mul_inequality, lemma_mul_strict_inequality, lemma_mul_is_commutative,
    lemma_mul_nonnegative};
use crate::bits::{p128, p256, lemma_pow2_64_128};
use crate::uint256::{u256, lemma_u256_bound};
use crate::uint512::{u512, p512, lemma_u512_bound};
use crate::big_float::{Float, is_rounded_root};
use crate::sqrt::{lemma_sqrt_step, lemma_round_root};

verus! {

/// `u mod 4` is the value of the two lowest bits of the lower limb.
proof fn lemma_mod4_lo(u: u256)
    ensures
        (u.lo & 3) as nat == u@ % 4,
{
    let l = u.lo;
    assert((l & 3) == l % 4) by (bit_vector);
    let b = p128() as int;
    lemma_pow2_64_128();
    assert(b == 4 * (b / 4));
    lemma_mod_multiples_vanish(u.hi * (b / 4), u.lo as int, 4);
    assert(u.hi * b == (u.hi * (b / 4)) * 4) by (nonlinear_arith)
        requires
            b == 4 * (b / 4),
    ;
}

/// The square of an odd number is odd.
proof fn lemma_odd_square(q: int)
    requires
        q % 2 == 1,
    ensures
        (q * q) % 2 == 1,
{
    let k = q / 2;
    assert(q == 2 * k + 1);
    assert(q * q == 2 * (2 * k * k + 2 * k) + 1) by (nonlinear_arith)
        requires
            q == 2 * k + 1,
    ;
}

/// Integer square root of `X = m⋅2²⁵⁶⁺ᵒ` (`o` = 0 or 1), extracting one bit
/// per step: returns `q` with `q² <= X < (q + 1)²`, and whether the
/// remainder `X - q²` is zero.
fn isqrt_shifted(m: &u256, o: u32) -> (res: (u256, bool))
    requires
        pow2(254) <= m@ < pow2(255),
        o <= 1,
    ensures
        res.0@ * res.0@ <= m@ * pow2((256 + o) as nat) < (res.0@ + 1) * (res.0@ + 1),
        res.1 ==> res.0@ * res.0@ == m@ * pow2((256 + o) as nat),
        pow2(255) <= res.0@,
{
    let ghost xx = m@ * pow2((256 + o) as nat);
    proof {
        lemma_pow2_64_128();
        lemma_pow2_adds(127, 128);
        assert(pow2(127) == 0x8000_0000_0000_0000_0000_0000_0000_0000nat) by {
            lemma_pow2_adds(64, 63);
            lemma_pow2_adds(32, 31);
            lemma2_to64();
        }
        lemma_pow2_adds(255, 255);
        lemma_pow2_adds(255, 256);
        lemma_pow2_adds(255, 1);
        lemma_pow2_adds(255, 2);
        lemma_pow2_unfold(256);
        lemma_pow2_unfold(257);
        lemma_pow2_unfold(1);
        lemma_pow2_unfold(2);
        lemma2_to64();
        lemma_pow2_adds(256, 256);
    }
    let mut q = u256::new(0x8000_0000_0000_0000_0000_0000_0000_0000u128, 0);
    let x = u512::from_hi_lo(u256::zero(), *m).shl(1 + o);
    let mut r = x;
    r.sub_assign(&u512::from_hi_lo(u256::zero(), q));
    let mut s = q;
    proof {
        let sh = (1 + o) as nat;
        vstd::arithmetic::mul::lemma_mul_basics(p256() as int);
        lemma_pow2_pos(sh);
        lemma_mul_inequality(pow2(254) as int, m@ as int, pow2(sh) as int);
        lemma_mul_strict_inequality(m@ as int, pow2(255) as int, pow2(sh) as int);
        lemma_pow2_adds(254, sh);
        lemma_pow2_adds(255, sh);
        lemma_pow2_strictly_increases(257, 512);
        if 255 + sh < 257 {
            lemma_pow2_strictly_increases(255 + sh, 257);
        }
        lemma_small_mod(m@ * pow2(sh), p512());
        assert(x@ == m@ * pow2(sh));
        assert(q@ == pow2(255));
        assert(x@ >= pow2(255));
        lemma_small_mod((x@ - q@) as nat, p512());
        vstd::arithmetic::div_mod::lemma_mod_add_multiples_vanish((x@ - q@) as int, p512() as int);
        assert(r@ == x@ - q@);
        lemma_pow2_adds(sh, 255);
        lemma_pow2_adds(sh + 255, 1);
        assert(xx == x@ * pow2(255)) by {
            lemma_pow2_adds(sh, 255);
            vstd::arithmetic::mul::lemma_mul_is_associative(m@ as int, pow2(sh) as int, pow2(255) as int);
            assert((256 + o) as nat == sh + 255);
        }
        let (xi, qi) = (x@ as int, q@ as int);
        assert(xi * qi == qi * qi + (xi - qi) * qi) by (nonlinear_arith);
    }
    let mut i: u32 = 0;
    let mut go = !r.is_zero();
    while i <= 254 && go
        invariant
            i <= 255,
            s@ == pow2((255 - i) as nat),
            xx == q@ * q@ + r@ * s@,
            r@ < 2 * q@ + s@,
            q@ + s@ <= pow2(256),
            pow2(255) <= q@,
            go == (r@ != 0),
            pow2(256) == p256(),
            pow2(512) == p512(),
            pow2(257) == 2 * pow2(256),
            pow2(256) == 2 * pow2(255),
        decreases 255 - i,
    {
        let ghost (q0, r0, s0) = (q@ as int, r@ as int, s@ as int);
        s.shr_assign(1);
        proof {
            lemma_pow2_unfold((255 - i) as nat);
            lemma2_to64();
            assert(s@ == pow2((255 - i - 1) as nat));
            lemma_pow2_pos((255 - i - 1) as nat);
            lemma_pow2_strictly_increases(258, 512);
            lemma_pow2_unfold(258);
            lemma_small_mod((r0 * 2) as nat, p512());
            lemma_small_mod((q0 * 2) as nat, p512());
            lemma_small_mod((q0 * 2 + s@) as nat, p512());
        }
        let t = r.shl(1);
        let mut u = u512::from_hi_lo(u256::zero(), q).shl(1);
        u.add_assign(&u512::from_hi_lo(u256::zero(), s));
        proof {
            vstd::arithmetic::mul::lemma_mul_basics(p256() as int);
            assert(u@ == 2 * q0 + s@);
            assert(t@ == 2 * r0);
        }
        let taken = !t.lt(&u);
        if taken {
            q.add_assign(&s);
            r = t;
            r.sub_assign(&u);
            proof {
                lemma_small_mod((q0 + s@) as nat, p256());
                vstd::arithmetic::div_mod::lemma_mod_add_multiples_vanish((2 * r0 - (2 * q0 + s@)) as int, p512() as int);
                lemma_small_mod((2 * r0 - (2 * q0 + s@)) as nat, p512());
            }
        } else {
            r = t;
        }
        proof {
            lemma_sqrt_step(xx as int, q0, r0, s0, s@ as int, taken, q@ as int, r@ as int);
        }
        i += 1;
        go = !r.is_zero();
    }
    proof {
        if i == 255 {
            lemma2_to64();
            assert(s@ == 1);
        }
        assert((q@ + 1) * (q@ + 1) == q@ * q@ + 2 * q@ + 1) by (nonlinear_arith);
        lemma_pow2_pos((255 - i) as nat);
        lemma_mul_nonnegative(r@ as int, s@ as int);
        vstd::arithmetic::mul::lemma_mul_basics(r@ as int);
        if r@ == 0 {
            vstd::arithmetic::mul::lemma_mul_basics(s@ as int);
            assert(r@ * s@ == 0);
        } else {
            assert(i == 255);
            assert(r@ * s@ == r@);
        }
    }
    (q, r.is_zero())
}

/// `r` is the square root of the non-negative `x` as [`Float::sqrt`]
/// computes it.
pub open spec fn is_float_sqrt(x: Float, r: Float) -> bool {
    &&& r.wf()
    &&& x.signum == 0 ==> r == x
    &&& x.signum == 1 ==> {
        &&& r.signum == 1
        &&& 2 * r.exp + x.exp % 2 == x.exp
        &&& is_rounded_root(x.signif@ * pow2((254 + x.exp % 2) as nat), r.signif@)
    }
}

impl Float {
    /// Returns the square root of `self`, rounded to nearest.
    ///
    /// `self` must not be negative.
    pub fn sqrt(&self) -> (r: Self)
        requires
            self.wf(),
            self.signum >= 0,
        ensures
            r.wf(),
            self.signum == 0 ==> r == *self,
            self.signum == 1 ==> {
                &&& r.signum == 1
                &&& 2 * r.exp + self.exp % 2 == self.exp
                &&& is_rounded_root(self.signif@ * pow2((254 + self.exp % 2) as nat), r.signif@)
            },
    {
        if self.signum == 0 {
            return *self;
        }
        // Calculate the exponent
        let e = self.exp;
        let half: i32 = if e >= 0 { e / 2 } else { -((-(e + 1)) / 2) - 1 };
        let exp_is_odd: i32 = e - 2 * half;
        proof {
            assert(half == e / 2);
            assert(exp_is_odd == e % 2);
        }
        // Calculate the significand, gain extra bit for final rounding
        let (mut q, rem_is_zero) = isqrt_shifted(&self.signif, exp_is_odd as u32);
        let ghost xx = self.signif@ * pow2((256 + exp_is_odd) as nat);
        let ghost q0 = q@;
        proof {
            lemma_pow2_64_128();
            lemma_pow2_adds(255, 257);
            lemma_pow2_adds(256, 256);
            lemma_pow2_pos(256);
            let sh = (256 + exp_is_odd) as nat;
            lemma_pow2_adds(255, sh);
            lemma_mul_inequality(self.signif@ as int, (pow2(255) - 1) as int, pow2(sh) as int);
            lemma_pow2_unfold(257);
            lemma_pow2_unfold(256);
            if sh < 257 {
                lemma_pow2_strictly_increases(sh, 257);
            }
            assert(((pow2(255) - 1) * pow2(sh)) as int <= ((pow2(255) - 1) * pow2(257)) as int) by (nonlinear_arith)
                requires
                    pow2(sh) <= pow2(257),
                    pow2(255) >= 1,
            ;
            assert(xx <= p256() * p256() - 2 * p256()) by (nonlinear_arith)
                requires
                    xx <= (pow2(255) - 1) * pow2(257),
                    pow2(257) == 2 * pow2(256),
                    pow2(256) == 2 * pow2(255),
                    pow2(256) == p256(),
            ;
            if q0 >= p256() - 1 {
                lemma_mul_inequality((p256() - 1) as int, q0 as int, q0 as int);
                lemma_mul_inequality((p256() - 1) as int, q0 as int, (p256() - 1) as int);
                lemma_mul_is_commutative(q0 as int, (p256() - 1) as int);
                assert((p256() - 1) * (p256() - 1) == p256() * p256() - 2 * p256() + 1) by (nonlinear_arith);
                assert(false);
            }
            lemma_mod4_lo(q);
        }
        // Final rounding
        let rnd_bits = q.lo & 3;
        if rnd_bits == 3 || (rnd_bits == 1 && !rem_is_zero) {
            q.incr();
            proof {
                lemma_small_mod((q0 + 1) as nat, p256());
            }
        }
        q.shr_assign(1);
        proof {
            lemma_pow2_unfold(1);
            lemma2_to64();
            if q0 % 2 == 1 && rem_is_zero && q0 % 4 == 1 {
                lemma_odd_square(q0 as int);
                assert(xx == 4 * (self.signif@ * pow2((254 + exp_is_odd) as nat))) by {
                    lemma_pow2_adds(2, (254 + exp_is_odd) as nat);
                    vstd::arithmetic::mul::lemma_mul_is_associative(self.signif@ as int, 4,
                        pow2((254 + exp_is_odd) as nat) as int);
                    lemma_mul_is_commutative(self.signif@ as int, 4);
                    vstd::arithmetic::mul::lemma_mul_is_associative(4, self.signif@ as int,
                        pow2((254 + exp_is_odd) as nat) as int);
                }
                assert(false);
            }
            assert(2 * q@ == q0 || 2 * q@ == q0 + 1);
            assert(xx == 4 * (self.signif@ * pow2((254 + exp_is_odd) as nat))) by {
                lemma_pow2_adds(2, (254 + exp_is_odd) as nat);
                vstd::arithmetic::mul::lemma_mul_is_associative(self.signif@ as int, 4,
                    pow2((254 + exp_is_odd) as nat) as int);
                lemma_mul_is_commutative(self.signif@ as int, 4);
                vstd::arithmetic::mul::lemma_mul_is_associative(4, self.signif@ as int,
                    pow2((254 + exp_is_odd) as nat) as int);
            }
            lemma_round_root(xx as int, q0 as int, q@ as int);
            lemma_pow2_unfold(255);
        }
        Float { signum: 1, exp: half, signif: q }
    }
}

} // verus!
