//! Correctly rounded square root of `f256` values.
use vstd::prelude::*;
use vstd::arithmetic::power2::{pow2, lemma_pow2_pos, lemma_pow2_adds, lemma_pow2_unfold, lemma2_to64,
    lemma_pow2_strictly_increases};
use vstd::arithmetic::mul::{lemma_mul_inequality, lemma_mul_is_commutative, lemma_mul_is_associative,
    lemma_mul_strict_inequality, lemma_mul_nonnegative};
use vstd::arithmetic::div_mod::lemma_small_mod;
use crate::bits::{p128, p256, lemma_pow2_64_128};
use crate::uint256::{u256, lemma_u256_bound, lemma_divmod_unique};
use crate::binary256::{f256, sign_of, bexp, fraction, signif, units, one_units, quantum_shift,
    is_finite_spec, is_nan_spec, is_inf_spec, is_zero_spec, lemma_bits_value, lemma_fields_from_value,
    lemma_fraction_bound, lemma_units_simple, lemma_hi_fields, from_fields, exp_bits, p108};

verus! {

/// `m` (with `m = signif(r)` and `q = quantum_shift(r)`) rounds the square
/// root of `u ⋅ 2⁻²⁶²³⁷⁸` correctly: the root lies within half a unit of the
/// last place of `r`; where `r` is a power of two, the root lies within
/// half a unit of the last place of the binade below.
pub open spec fn is_rounded_sqrt(u: nat, m: nat, q: nat) -> bool {
    &&& (2 * m - 1) * (2 * m - 1) * pow2(2 * q) <= 4 * u * one_units()
    &&& 4 * u * one_units() <= (2 * m + 1) * (2 * m + 1) * pow2(2 * q)
    &&& m == pow2(236) ==> (4 * m - 1) * (4 * m - 1) * pow2(2 * q) <= 16 * u * one_units()
}

pub proof fn lemma_sqrt_step(x: int, q: int, r: int, s: int, s2: int, taken: bool, q2: int, r2: int)
    by (nonlinear_arith)
    requires
        x == q * q + r * s,
        s == 2 * s2,
        0 <= r < 2 * q + s,
        taken == (2 * r >= 2 * q + s2),
        taken ==> q2 == q + s2 && r2 == 2 * r - (2 * q + s2),
        !taken ==> q2 == q && r2 == 2 * r,
        s2 >= 1,
    ensures
        x == q2 * q2 + r2 * s2,
        0 <= r2 < 2 * q2 + s2,
        q2 + s2 <= q + s,
        q <= q2,
{
}

/// Integer square root by extracting one bit per step: returns `q` with
/// `q² <= m⋅2²³⁷ < (q + 1)²`.
fn sqrt_signif(m: &u256) -> (q: u256)
    requires
        pow2(237) <= m@ < pow2(239),
    ensures
        q@ * q@ <= m@ * pow2(237) < (q@ + 1) * (q@ + 1),
        pow2(237) <= q@ < pow2(238),
{
    proof {
        lemma_pow2_64_128();
        lemma_pow2_adds(109, 128);
        lemma_pow2_adds(108, 1);
        lemma_pow2_unfold(238);
        lemma_pow2_unfold(239);
        assert(pow2(108) == p108()) by {
            lemma_pow2_adds(64, 44);
            lemma_pow2_adds(32, 12);
            lemma_pow2_adds(8, 4);
            lemma2_to64();
        }
        vstd::arithmetic::mul::lemma_mul_basics(p128() as int);
        lemma2_to64();
        lemma_pow2_strictly_increases(239, 256);
        assert(pow2(109) == 2 * p108());
        assert(pow2(237) == 2 * p108() * p128());
    }
    let mut q = u256::new(0x2000000000000000000000000000u128, 0);
    let mut r = *m;
    r.sub_assign(&q);
    proof {
        lemma_u256_bound(*m);
        vstd::arithmetic::div_mod::lemma_mod_add_multiples_vanish((m@ - q@) as int, p256() as int);
        lemma_small_mod((m@ - q@) as nat, p256());
        assert(q@ == pow2(237));
    }
    let mut s = q;
    let mut i: u32 = 1;
    proof {
        let (mi, qi) = (m@ as int, q@ as int);
        assert(mi * qi == qi * qi + (mi - qi) * qi) by (nonlinear_arith);
    }
    let mut go = !r.is_zero();
    while i <= 237 && go
        invariant
            1 <= i <= 238,
            s@ == pow2((238 - i) as nat),
            m@ * pow2(237) == q@ * q@ + r@ * s@,
            r@ < 2 * q@ + s@,
            q@ + s@ <= pow2(238),
            pow2(237) <= q@,
            go == (r@ != 0),
            pow2(239) == 2 * pow2(238),
            pow2(238) == 2 * pow2(237),
        decreases 238 - i,
    {
        let ghost (q0, r0, s0) = (q@ as int, r@ as int, s@ as int);
        s.shr_assign(1);
        proof {
            lemma_pow2_64_128();
            lemma_pow2_unfold((238 - i) as nat);
            lemma2_to64();
            assert(s@ == pow2((238 - i - 1) as nat));
            lemma_pow2_pos((238 - i - 1) as nat);
            lemma_pow2_strictly_increases(237, 256);
            lemma_pow2_strictly_increases(240, 256);
            lemma_pow2_unfold(240);
            lemma_small_mod((r0 * 2) as nat, p256());
            lemma_small_mod((q0 * 2) as nat, p256());
        }
        r.shl_assign(1);
        let mut u = q.shl(1);
        u.add_assign(&s);
        proof {
            lemma_small_mod((q0 * 2 + s@) as nat, p256());
        }
        let taken = !r.lt(&u);
        if taken {
            q.add_assign(&s);
            r.sub_assign(&u);
            proof {
                lemma_small_mod((q0 + s@) as nat, p256());
                vstd::arithmetic::div_mod::lemma_mod_add_multiples_vanish((2 * r0 - (2 * q0 + s@)) as int, p256() as int);
                lemma_small_mod((2 * r0 - (2 * q0 + s@)) as nat, p256());
            }
        }
        proof {
            lemma_sqrt_step((m@ * pow2(237)) as int, q0, r0, s0, s@ as int, taken, q@ as int, r@ as int);
        }
        i += 1;
        go = !r.is_zero();
    }
    proof {
        if i == 238 {
            lemma2_to64();
            assert(s@ == 1);
        }
        assert((q@ + 1) * (q@ + 1) == q@ * q@ + 2 * q@ + 1) by (nonlinear_arith);
        lemma_pow2_pos((238 - i) as nat);
        lemma_mul_nonnegative(r@ as int, s@ as int);
        vstd::arithmetic::mul::lemma_mul_basics(r@ as int);
        if r@ == 0 {
            vstd::arithmetic::mul::lemma_mul_basics(s@ as int);
            assert(r@ * s@ == 0);
        } else {
            assert(i == 238);
            assert(r@ * s@ == r@);
        }
    }
    q
}

/// The significand of a correctly rounded root, from the integer square
/// root `q` of `x`.
pub proof fn lemma_round_root(x: int, q: int, h: int)
    requires
        q * q <= x < (q + 1) * (q + 1),
        2 * h == q || 2 * h == q + 1,
        q >= 1,
    ensures
        (2 * h - 1) * (2 * h - 1) <= x <= (2 * h + 1) * (2 * h + 1),
{
    if 2 * h == q {
        assert((q - 1) * (q - 1) <= q * q) by (nonlinear_arith)
            requires
                q >= 1,
        ;
        assert((q + 1) * (q + 1) >= 0) by (nonlinear_arith);
    } else {
        assert((q + 1) * (q + 1) <= (q + 2) * (q + 2)) by (nonlinear_arith)
            requires
                q >= 1,
        ;
    }
}

impl f256 {
    /// Returns the square root of `self`.
    ///
    /// Returns NaN if `self` is a negative number other than `-0.0`.
    pub fn sqrt(&self) -> (r: Self)
        ensures
            is_nan_spec(*self) ==> is_nan_spec(r),
            sign_of(*self) == 1 && !is_zero_spec(*self) ==> is_nan_spec(r),
            is_zero_spec(*self) || (is_inf_spec(*self) && sign_of(*self) == 0) ==> r.bits == self.bits,
            sign_of(*self) == 0 && is_finite_spec(*self) && !is_zero_spec(*self) ==> {
                &&& is_finite_spec(r)
                &&& sign_of(r) == 0
                &&& bexp(r) >= 1
                &&& is_rounded_sqrt(units(*self), signif(r), quantum_shift(r))
            },
    {
        proof {
            lemma_hi_fields(self.bits.hi);
            lemma_bits_value(*self);
            lemma_fraction_bound(*self);
        }
        if self.is_sign_negative() && !self.eq_zero() {
            return Self::nan();
        }
        if self.is_special() {
            return *self;
        }
        // `self` is (sub-)normal and positive
        let biased_exp = exp_bits(self.bits.hi);
        let hidden_bit: u32 = if biased_exp != 0 { 1 } else { 0 };
        let lz = self.bits.leading_zeros();
        let norm_shift: u32 = if lz > 19 { lz - 19 } else { 0 };
        proof {
            lemma_pow2_64_128();
            assert(sign_of(*self) == 0);
            assert(self.bits@ == bexp(*self) * pow2(236) + fraction(*self));
            lemma_pow2_pos(236);
            lemma_pow2_pos(255);
            lemma_pow2_adds(236, 19);
            if biased_exp != 0 {
                // lz <= 19
                lemma_mul_inequality(1, biased_exp as int, pow2(236) as int);
                if lz > 20 {
                    lemma_pow2_strictly_increases((256 - lz) as nat, 236);
                }
                assert(lz <= 19);
            }
        }
        let frac = u256::new(self.bits.hi & crate::binary256::HI_FRACTION_MASK, self.bits.lo);
        let mut signif_n = frac.shl(norm_shift);
        proof {
            assert(frac@ == fraction(*self));
            if biased_exp == 0 {
                // subnormal: normalize
                assert(self.bits@ == fraction(*self));
                assert(fraction(*self) > 0);
                if lz == 256 {
                    lemma2_to64();
                }
                assert(lz < 256);
                lemma_pow2_adds((256 - lz) as nat, norm_shift as nat);
                lemma_pow2_adds((255 - lz) as nat, norm_shift as nat);
                lemma_pow2_pos(norm_shift as nat);
                if lz <= 19 {
                    lemma_pow2_strictly_increases(236, (256 - lz - 1) as nat);
                }
                lemma_mul_strict_inequality(frac@ as int, pow2((256 - lz) as nat) as int, pow2(norm_shift as nat) as int);
                lemma_mul_inequality(pow2((255 - lz) as nat) as int, frac@ as int, pow2(norm_shift as nat) as int);
                lemma_pow2_strictly_increases(237, 256);
                lemma_small_mod(frac@ * pow2(norm_shift as nat), p256());
                assert(pow2(236) <= signif_n@ < pow2(237));
            } else {
                lemma2_to64();
                vstd::arithmetic::mul::lemma_mul_basics(frac@ as int);
                lemma_small_mod(frac@ as nat, p256());
                lemma_pow2_strictly_increases(236, 256);
                assert(signif_n@ == fraction(*self));
            }
        }
        if hidden_bit == 1 {
            proof {
                lemma_pow2_adds(108, 128);
                assert(pow2(108) == p108()) by {
                    lemma_pow2_adds(64, 44);
                    lemma_pow2_adds(32, 12);
                    lemma_pow2_adds(8, 4);
                    lemma2_to64();
                }
                assert(signif_n.hi < 0x1000000000000000000000000000u128) by {
                    if signif_n.hi >= p108() {
                        lemma_mul_inequality(p108() as int, signif_n.hi as int, p128() as int);
                    }
                }
                let h = signif_n.hi;
                assert(h | 0x1000000000000000000000000000u128 == h + 0x1000000000000000000000000000u128) by (bit_vector)
                    requires
                        h < 0x1000000000000000000000000000u128,
                ;
            }
            signif_n.hi = signif_n.hi | 0x1000000000000000000000000000u128;
            proof {
                assert(signif_n@ == fraction(*self) + pow2(236));
            }
        }
        proof {
            assert(signif_n@ == signif(*self) * pow2(norm_shift as nat));
            assert(pow2(236) <= signif_n@ < pow2(237)) by {
                if biased_exp != 0 {
                    lemma2_to64();
                    vstd::arithmetic::mul::lemma_mul_basics(signif(*self) as int);
                }
            }
        }
        // t = e + 524286 where e is the exponent of the normalized value
        let t: u32 = biased_exp + 262144 - hidden_bit - norm_shift;
        let a: u32 = t % 2;
        let m = signif_n.shl(1 + a);
        proof {
            lemma_pow2_adds(237, (1 + a) as nat);
            lemma_pow2_pos((1 + a) as nat);
            lemma_mul_strict_inequality(signif_n@ as int, pow2(237) as int, pow2((1 + a) as nat) as int);
            lemma_mul_inequality(pow2(236) as int, signif_n@ as int, pow2((1 + a) as nat) as int);
            lemma_pow2_adds(236, (1 + a) as nat);
            if a == 1 {
                lemma_pow2_strictly_increases(239, 256);
            } else {
                lemma_pow2_strictly_increases(238, 256);
                lemma_pow2_strictly_increases(238, 239);
            }
            assert(signif_n@ * pow2((1 + a) as nat) < pow2(239));
            assert(signif_n@ * pow2((1 + a) as nat) >= pow2(237)) by {
                if a == 1 {
                    lemma_pow2_strictly_increases(237, 238);
                }
            }
            lemma_pow2_strictly_increases(239, 256);
            lemma_small_mod(signif_n@ * pow2((1 + a) as nat), p256());
        }
        let mut q = sqrt_signif(&m);
        let ghost q0 = q@;
        proof {
            lemma_pow2_strictly_increases(238, 256);
            lemma_small_mod((q0 + q0 % 2) as nat, p256());
            let l = q.lo;
            assert((l & 1) == l % 2) by (bit_vector);
            crate::uint256::lemma_odd_lo_pub(q);
        }
        q.add_assign_u128(q.lo & 1);
        let res_signif = q.shr(1);
        let e_r: u32 = (t - a) / 2;
        proof {
            lemma2_to64();
            let pp = pow2(237) as int;
            let h = res_signif@ as int;
            assert(h * 2 == q0 + q0 % 2);
            // the rounded root has 237 bits
            assert(m@ <= 4 * pp - 4) by {
                assert(signif_n@ <= pp - 1);
                assert(pow2((1 + a) as nat) <= 4) by {
                    if a == 1 {
                        assert(pow2(2) == 4);
                    }
                }
                lemma_mul_inequality(signif_n@ as int, pp - 1, pow2((1 + a) as nat) as int);
                lemma_mul_inequality(pow2((1 + a) as nat) as int, 4, pp - 1);
                lemma_mul_is_commutative(pp - 1, pow2((1 + a) as nat) as int);
            }
            assert(q0 <= 2 * pp - 2) by {
                if q0 > 2 * pp - 2 {
                    lemma_mul_inequality(2 * pp - 1, q0 as int, q0 as int);
                    lemma_mul_inequality(2 * pp - 1, q0 as int, 2 * pp - 1);
                    lemma_mul_inequality(m@ as int, 4 * pp - 4, pp);
                    assert((2 * pp - 1) * (2 * pp - 1) == (4 * pp - 4) * pp + 1) by (nonlinear_arith);
                }
            }
            lemma_pow2_unfold(237);
            assert(pow2(236) <= h < pow2(237));
            lemma_round_root((m@ * pow2(237)) as int, q0 as int, h);
            // the upper limb holds the hidden bit
            lemma_pow2_adds(108, 128);
            assert(pow2(108) == p108()) by {
                lemma_pow2_adds(64, 44);
                lemma_pow2_adds(32, 12);
                lemma_pow2_adds(8, 4);
            }
            let b = p128() as int;
            assert(res_signif.hi >= pow2(108)) by {
                if res_signif.hi < pow2(108) {
                    lemma_mul_inequality(res_signif.hi as int + 1, pow2(108) as int, b);
                }
            }
            assert(res_signif.hi < 2 * pow2(108)) by {
                if res_signif.hi >= 2 * pow2(108) {
                    lemma_mul_inequality(2 * pow2(108) as int, res_signif.hi as int, b);
                    lemma_pow2_unfold(237);
                    lemma_pow2_adds(236, 1);
                }
            }
        }
        let r = from_fields(0, e_r, res_signif.hi - 0x1000000000000000000000000000u128, res_signif.lo);
        proof {
            lemma_fraction_bound(r);
            assert(fraction(r) + pow2(236) == res_signif@) by (nonlinear_arith)
                requires
                    fraction(r) == (res_signif.hi - pow2(108)) * p128() + res_signif.lo,
                    res_signif@ == res_signif.hi * p128() + res_signif.lo,
                    pow2(236) == pow2(108) * p128(),
            ;
            assert(signif(r) == res_signif@);
            assert(quantum_shift(r) == e_r - 1);
            let h = res_signif@ as int;
            let x = (m@ * pow2(237)) as int;
            let w = pow2((2 * (e_r - 1)) as nat) as int;
            lemma_pow2_pos((2 * (e_r - 1)) as nat);
            lemma_mul_inequality((2 * h - 1) * (2 * h - 1), x, w);
            lemma_mul_inequality(x, (2 * h + 1) * (2 * h + 1), w);
            // 4⋅u⋅2²⁶²³⁷⁸ = x⋅2²⁽ᵉ⁻¹⁾
            let sx = signif(*self) as int;
            let qs = quantum_shift(*self);
            lemma_pow2_adds(norm_shift as nat, (1 + a) as nat);
            lemma_pow2_adds((norm_shift + 1 + a) as nat, 237);
            lemma_pow2_adds((norm_shift + 1 + a + 237) as nat, (2 * (e_r - 1)) as nat);
            lemma_pow2_adds(qs, 2);
            lemma_pow2_adds((qs + 2) as nat, 262378);
            assert(norm_shift + 1 + a + 237 + 2 * (e_r - 1) == qs + 2 + 262378);
            assert(signif_n@ == sx * pow2(norm_shift as nat));
            assert(m@ == signif_n@ * pow2((1 + a) as nat));
            lemma_mul_is_associative(sx, pow2(norm_shift as nat) as int, pow2((1 + a) as nat) as int);
            lemma_mul_is_associative(sx, pow2((norm_shift + 1 + a) as nat) as int, pow2(237) as int);
            lemma_mul_is_associative(sx, pow2((norm_shift + 1 + a + 237) as nat) as int, w);
            lemma_mul_is_associative(sx, pow2(qs) as int, pow2(2) as int);
            lemma_mul_is_associative(sx, pow2((qs + 2) as nat) as int, pow2(262378) as int);
            assert(4 * units(*self) * one_units() == x * w) by (nonlinear_arith)
                requires
                    units(*self) == sx * pow2(qs),
                    x == sx * pow2((norm_shift + 1 + a + 237) as nat),
                    x * w == sx * pow2((norm_shift + 1 + a + 237 + 2 * (e_r - 1)) as nat),
                    sx * pow2((qs + 2 + 262378) as nat) == (sx * pow2((qs + 2) as nat)) * pow2(262378),
                    sx * pow2((qs + 2) as nat) == (sx * pow2(qs)) * 4,
                    norm_shift + 1 + a + 237 + 2 * (e_r - 1) == qs + 2 + 262378,
                    one_units() == pow2(262378),
            ;
            if h == pow2(236) {
                // the root was not rounded up to the power of two
                assert(q0 == 2 * h) by {
                    lemma_pow2_unfold(237);
                }
                assert((4 * h - 1) * (4 * h - 1) <= 4 * (q0 * q0)) by (nonlinear_arith)
                    requires
                        q0 == 2 * h,
                        h >= 1,
                ;
                lemma_mul_inequality((4 * h - 1) * (4 * h - 1), 4 * x, w);
                assert(q0 * q0 <= x);
                assert((4 * h - 1) * (4 * h - 1) * w <= 16 * units(*self) * one_units()) by (nonlinear_arith)
                    requires
                        (4 * h - 1) * (4 * h - 1) * w <= 4 * x * w,
                        4 * units(*self) * one_units() == x * w,
                ;
            }
        }
        r
    }
}

} // verus!
