//! Rounding of `f256` values to integral values, and the fractional part.
use vstd::prelude::*;
use vstd::arithmetic::power2::{pow2, lemma_pow2_pos, lemma_pow2_adds, lemma_pow2_unfold, lemma2_to64};
use vstd::arithmetic::div_mod::{lemma_div_denominator, lemma_div_pos_is_pos, lemma_mod_bound,
    lemma_fundamental_div_mod, lemma_div_plus_one};
use vstd::arithmetic::mul::{lemma_mul_inequality, lemma_mul_is_commutative, lemma_mul_is_associative,
    lemma_mul_nonnegative, lemma_mul_strict_inequality};
use crate::bits::{p128, p256, lemma_pow2_64_128, lemma_split};
use crate::uint256::{u256, lemma_divmod_unique, lemma_u256_bound};
use crate::binary256::{f256, encode_exact, sign_of, bexp, fraction, signif, units, one_units, value, quantum_shift,
    is_finite_spec, is_nan_spec, is_inf_spec, is_zero_spec, lemma_bits_value, lemma_fields_from_value,
    lemma_fraction_bound, lemma_units_simple, EXP_BIAS, EXP_MAX};

verus! {

/// Rounding the encoding of a normal value at bit `k` after adding `c`
/// rounds its significand at bit `k`.
proof fn lemma_round_signif(f: f256, k: nat, c: nat, g: f256)
    requires
        1 <= bexp(f) <= 0x7fffd,
        1 <= k <= 236,
        c < pow2(k),
        g.bits@ == ((f.bits@ + c) / pow2(k)) * pow2(k),
    ensures
        f.bits@ + c < p256(),
        is_finite_spec(g),
        sign_of(g) == sign_of(f),
        units(g) == ((signif(f) + c) / pow2(k)) * pow2(k) * pow2((bexp(f) - 1) as nat),
{
    let s = sign_of(f) as int;
    let e = bexp(f) as int;
    let frac = fraction(f) as int;
    let c = c as int;
    lemma_bits_value(f);
    lemma_fraction_bound(f);
    crate::binary256::lemma_hi_fields(f.bits.hi);
    let p255 = pow2(255) as int;
    let kk = pow2(k) as int;
    let h = pow2((236 - k) as nat) as int;
    lemma_pow2_adds((236 - k) as nat, k);
    lemma_pow2_adds(19, 236);
    lemma_pow2_pos(k);
    lemma_pow2_pos((236 - k) as nat);
    assert(pow2(236) == h * kk);
    let p236 = pow2(236) as int;
    let mm = (s * 0x80000 + e) * h;
    assert(f.bits@ == mm * kk + frac) by (nonlinear_arith)
        requires
            f.bits@ == s * (0x80000 * p236) + e * p236 + frac,
            p236 == h * kk,
            mm == (s * 0x80000 + e) * h,
    ;
    lemma_fundamental_div_mod(frac + c, kk);
    lemma_mod_bound(frac + c, kk);
    let q = (frac + c) / kk;
    let r = (frac + c) % kk;
    lemma_div_pos_is_pos(frac + c, kk);
    assert(f.bits@ + c == (mm + q) * kk + r) by (nonlinear_arith)
        requires
            f.bits@ == mm * kk + frac,
            frac + c == kk * q + r,
    ;
    assert(mm >= 0) by (nonlinear_arith)
        requires
            mm == (s * 0x80000 + e) * h,
            h > 0,
            s >= 0,
            e >= 0,
    ;
    lemma_divmod_unique(f.bits@ + c, kk, mm + q, r);
    let gg = q * kk;
    assert(g.bits@ == (mm + q) * kk);
    assert((mm + q) * kk == s * p255 + e * p236 + gg) by (nonlinear_arith)
        requires
            mm == (s * 0x80000 + e) * h,
            gg == q * kk,
            p236 == h * kk,
            p255 == 0x80000 * p236,
    ;
    assert(g.bits@ == s * pow2(255) + e * pow2(236) + gg);
    // q < h + 1
    assert(q * kk <= frac + c) by (nonlinear_arith)
        requires
            frac + c == kk * q + r,
            r >= 0,
    ;
    assert(q <= h) by (nonlinear_arith)
        requires
            q * kk <= frac + c,
            frac < h * kk,
            c < kk,
            kk > 0,
    ;
    // significand arithmetic
    assert(signif(f) + c == (q + h) * kk + r) by (nonlinear_arith)
        requires
            signif(f) == frac + p236,
            frac + c == kk * q + r,
            p236 == h * kk,
    ;
    lemma_divmod_unique(signif(f) + c, kk, q + h, r);
    let target = (q + h) * kk * pow2((e - 1) as nat);
    if q < h {
        assert(gg < p236) by (nonlinear_arith)
            requires
                q < h,
                gg == q * kk,
                p236 == h * kk,
                kk > 0,
        ;
        assert(gg >= 0) by (nonlinear_arith)
            requires
                q >= 0,
                gg == q * kk,
                kk > 0,
        ;
        lemma_fields_from_value(g, s as nat, e as nat, gg as nat);
        assert(signif(g) == gg + p236);
        assert(gg + p236 == (q + h) * kk) by (nonlinear_arith)
            requires
                gg == q * kk,
                p236 == h * kk,
        ;
    } else {
        assert(q == h);
        assert(gg == p236) by (nonlinear_arith)
            requires
                gg == q * kk,
                q == h,
                p236 == h * kk,
        ;
        assert(g.bits@ == s * pow2(255) + (e + 1) * pow2(236) + 0) by (nonlinear_arith)
            requires
                g.bits@ == s * p255 + e * p236 + gg,
                gg == p236,
                p255 == pow2(255),
                p236 == pow2(236),
        ;
        lemma_fields_from_value(g, s as nat, (e + 1) as nat, 0);
        lemma_units_simple(g);
        lemma_pow2_adds(236, (e - 1) as nat);
        lemma_pow2_adds(237, (e - 1) as nat);
        lemma_pow2_adds(236, 1);
        lemma2_to64();
        assert(units(g) == pow2(236) * pow2(e as nat));
        assert(pow2(e as nat) == 2 * pow2((e - 1) as nat)) by {
            lemma_pow2_unfold(e as nat);
        }
        assert(target == (2 * p236) * pow2((e - 1) as nat)) by (nonlinear_arith)
            requires
                target == (q + h) * kk * pow2((e - 1) as nat),
                q == h,
                p236 == h * kk,
        ;
        lemma_mul_is_associative(p236, 2, pow2((e - 1) as nat) as int);
    }
    lemma_u256_bound(g.bits);
    assert(f.bits@ + c < p256()) by {
        lemma_pow2_64_128();
        lemma_pow2_adds(128, 128);
        lemma_pow2_adds(255, 1);
        lemma2_to64();
        assert(kk <= p236) by (nonlinear_arith)
            requires
                p236 == h * kk,
                h >= 1,
                kk >= 0,
        ;
        assert(f.bits@ + c < s * p255 + (e + 2) * p236) by (nonlinear_arith)
            requires
                f.bits@ == s * p255 + e * p236 + frac,
                frac < p236,
                c < kk,
                kk <= p236,
        ;
        assert(s * p255 + (e + 2) * p236 <= pow2(256)) by (nonlinear_arith)
            requires
                0 <= s <= 1,
                e + 2 <= 0x7ffff,
                p255 == 0x80000 * p236,
                pow2(256) == 2 * p255,
                p236 > 0,
        ;
    }
    lemma_pow2_64_128();
}

/// Rounding a significand at bit `k` rounds the scaled magnitude at the
/// corresponding power of two.
proof fn lemma_round_scaled(m: nat, c: nat, k: nat, e: nat)
    requires
        c < pow2(k),
    ensures
        ((m + c) / pow2(k)) * pow2(k) * pow2(e)
            == ((m * pow2(e) + c * pow2(e)) / pow2(k + e)) * pow2(k + e),
{
    lemma_pow2_adds(k, e);
    lemma_pow2_pos(k);
    lemma_pow2_pos(e);
    let kk = pow2(k) as int;
    let pe = pow2(e) as int;
    lemma_fundamental_div_mod((m + c) as int, kk);
    lemma_mod_bound((m + c) as int, kk);
    let q = (m + c) as int / kk;
    let r = (m + c) as int % kk;
    assert(m * pe + c * pe == q * (kk * pe) + r * pe) by (nonlinear_arith)
        requires
            m + c == kk * q + r,
    ;
    assert(0 <= r * pe < kk * pe) by (nonlinear_arith)
        requires
            0 <= r < kk,
            pe > 0,
    ;
    lemma_div_pos_is_pos((m + c) as int, kk);
    lemma_divmod_unique(m * pe + c * pe, kk * pe, q, r * pe);
    lemma_mul_is_associative(q, kk, pe);
}

/// Adds `c` to the encoding of a normal `f` and clears its lowest `k` bits.
fn round_signif(f: &f256, k: u32, c: &u256) -> (r: f256)
    requires
        1 <= bexp(*f) <= 0x7fffd,
        1 <= k <= 236,
        c@ < pow2(k as nat),
    ensures
        is_finite_spec(r),
        sign_of(r) == sign_of(*f),
        units(r) == ((signif(*f) + c@) / pow2(k as nat)) * pow2(k as nat) * pow2((bexp(*f) - 1) as nat),
{
    let mut t = f.bits;
    let ghost g_val = ((f.bits@ + c@) / pow2(k as nat)) * pow2(k as nat);
    proof {
        lemma_pow2_pos(k as nat);
        lemma_bits_value(*f);
        lemma_fraction_bound(*f);
    }
    t.add_assign(c);
    proof {
        // the sum does not wrap
        lemma_sum_bound(*f, k as nat, c@);
        vstd::arithmetic::div_mod::lemma_small_mod((f.bits@ + c@) as nat, p256());
    }
    let t = t.shr(k).shl(k);
    proof {
        lemma_u256_bound(t);
        let b = (f.bits@ + c@) / pow2(k as nat);
        lemma_split((f.bits@ + c@) as int, k as nat);
        vstd::arithmetic::div_mod::lemma_small_mod(b * pow2(k as nat), p256());
        lemma_round_signif(*f, k as nat, c@, f256 { bits: t });
    }
    f256 { bits: t }
}

proof fn lemma_sum_bound(f: f256, k: nat, c: nat)
    requires
        1 <= bexp(f) <= 0x7fffd,
        1 <= k <= 236,
        c < pow2(k),
    ensures
        f.bits@ + c < p256(),
{
    let s = sign_of(f) as int;
    let e = bexp(f) as int;
    lemma_bits_value(f);
    lemma_fraction_bound(f);
    crate::binary256::lemma_hi_fields(f.bits.hi);
    let p255 = pow2(255) as int;
    lemma_pow2_64_128();
    lemma_pow2_adds(128, 128);
    lemma_pow2_adds(255, 1);
    lemma2_to64();
    let p236 = pow2(236) as int;
    if k < 236 {
        vstd::arithmetic::power2::lemma_pow2_strictly_increases(k, 236);
    }
    assert(f.bits@ + c < s * p255 + (e + 2) * p236) by (nonlinear_arith)
        requires
            f.bits@ == s * p255 + e * p236 + fraction(f),
            fraction(f) < p236,
            c < pow2(k),
            pow2(k) <= p236,
    ;
    assert(s * p255 + (e + 2) * p236 <= pow2(256)) by (nonlinear_arith)
        requires
            0 <= s <= 1,
            e + 2 <= 0x7ffff,
            p255 == 0x80000 * p236,
            pow2(256) == 2 * p255,
            p236 > 0,
    ;
}

/// A magnitude (in units of 2⁻²⁶²³⁷⁸) rounded towards zero to an integral value.
pub open spec fn trunc_units(u: nat) -> nat {
    (u / one_units()) * one_units()
}

/// A magnitude (in units of 2⁻²⁶²³⁷⁸) rounded away from zero to an integral value.
pub open spec fn ceil_units(u: nat) -> nat {
    ((u + one_units() - 1) as nat / one_units()) * one_units()
}

/// A magnitude (in units of 2⁻²⁶²³⁷⁸) rounded to the nearest integral value,
/// half-way cases away from zero.
pub open spec fn round_units(u: nat) -> nat {
    ((u + one_units() / 2) / one_units()) * one_units()
}

/// `(N⋅P + t) / (K⋅P) = N / K` for `0 <= t < P`.
proof fn lemma_div_add_small(n: int, pp: int, kk: int, t: int)
    requires
        n >= 0,
        pp > 0,
        kk > 0,
        0 <= t < pp,
    ensures
        (n * pp + t) / (kk * pp) == n / kk,
{
    lemma_fundamental_div_mod(n, kk);
    lemma_mod_bound(n, kk);
    lemma_div_pos_is_pos(n, kk);
    let q = n / kk;
    let r = n % kk;
    assert(n * pp + t == q * (kk * pp) + (r * pp + t)) by (nonlinear_arith)
        requires
            n == kk * q + r,
    ;
    assert(0 <= r * pp + t < kk * pp) by (nonlinear_arith)
        requires
            0 <= r < kk,
            0 <= t < pp,
    ;
    lemma_divmod_unique(n * pp + t, kk * pp, q, r * pp + t);
}

proof fn lemma_mul_facts(x: int)
    ensures
        0 * x == 0,
        1 * x == x,
        x * 1 == x,
{
    vstd::arithmetic::mul::lemma_mul_basics(x);
}

/// Magnitudes of values with small or large exponents.
proof fn lemma_units_range(f: f256)
    requires
        is_finite_spec(f),
    ensures
        bexp(f) < EXP_BIAS ==> units(f) < one_units(),
        bexp(f) < EXP_BIAS - 1 ==> units(f) < one_units() / 2,
        bexp(f) == EXP_BIAS - 1 ==> one_units() / 2 <= units(f),
        bexp(f) >= EXP_BIAS + 236 ==> units(f) % one_units() == 0,
        one_units() == 2 * (one_units() / 2),
        one_units() / 2 == pow2(262377),
{
    let e = bexp(f);
    lemma_fraction_bound(f);
    lemma_units_simple(f);
    vstd::arithmetic::power2::lemma_pow2_unfold(262378);
    lemma_pow2_pos(262377);
    if e == 0 {
        vstd::arithmetic::power2::lemma_pow2_strictly_increases(236, 262377);
    } else {
        let pe = pow2((e - 1) as nat) as int;
        lemma_pow2_pos((e - 1) as nat);
        lemma_mul_strict_inequality(signif(f) as int, pow2(237) as int, pe);
        lemma_pow2_adds(237, (e - 1) as nat);
        if e < EXP_BIAS - 1 && 237 + e - 1 < 262377 {
            vstd::arithmetic::power2::lemma_pow2_strictly_increases((237 + e - 1) as nat, 262377);
        }
        if e == EXP_BIAS - 1 {
            lemma_mul_inequality(pow2(236) as int, signif(f) as int, pe);
            lemma_pow2_adds(236, (e - 1) as nat);
        }
        if e >= EXP_BIAS + 236 {
            lemma_pow2_adds((e - 1 - 262378) as nat, 262378);
            lemma_mul_is_associative(signif(f) as int, pow2((e - 1 - 262378) as nat) as int, pow2(262378) as int);
            vstd::arithmetic::div_mod::lemma_mod_multiples_basic(
                (signif(f) * pow2((e - 1 - 262378) as nat)) as int, pow2(262378) as int);
        }
    }
}

/// The low bits of the significand from bit `k` on, i.e. the fractional
/// part of a normal value with `EXP_BIAS <= bexp < EXP_BIAS + 236`.
fn low_signif_bits(f: &f256, k: u32) -> (r: u256)
    requires
        1 <= k <= 236,
        bexp(*f) >= 1,
    ensures
        r@ == signif(*f) % pow2(k as nat),
{
    let t = f.bits.shr(k).shl(k);
    let mut r = f.bits;
    r.sub_assign(&t);
    proof {
        lemma_bits_value(*f);
        lemma_fraction_bound(*f);
        lemma_u256_bound(f.bits);
        let kk = pow2(k as nat) as int;
        lemma_pow2_pos(k as nat);
        lemma_split(f.bits@ as int, k as nat);
        vstd::arithmetic::div_mod::lemma_small_mod((f.bits@ / pow2(k as nat)) * pow2(k as nat), p256());
        assert(t@ == (f.bits@ / pow2(k as nat)) * pow2(k as nat));
        vstd::arithmetic::div_mod::lemma_mod_add_multiples_vanish((f.bits@ - t@) as int, p256() as int);
        vstd::arithmetic::div_mod::lemma_small_mod((f.bits@ - t@) as nat, p256());
        assert(r@ == f.bits@ % pow2(k as nat));
        // the encoding differs from the significand by a multiple of 2^k
        let h = pow2((236 - k) as nat) as int;
        lemma_pow2_adds((236 - k) as nat, k as nat);
        lemma_pow2_adds(19, 236);
        crate::binary256::lemma_hi_fields(f.bits.hi);
        let s = sign_of(*f) as int;
        let e = bexp(*f) as int;
        let p236 = pow2(236) as int;
        let m1 = (s * 0x80000 + e) * h;
        let m2 = h;
        assert(f.bits@ == m1 * kk + fraction(*f)) by (nonlinear_arith)
            requires
                f.bits@ == s * (0x80000 * p236) + e * p236 + fraction(*f),
                p236 == h * kk,
                m1 == (s * 0x80000 + e) * h,
        ;
        assert(signif(*f) == m2 * kk + fraction(*f));
        assert(m1 >= 0) by (nonlinear_arith)
            requires
                m1 == (s * 0x80000 + e) * h,
                h > 0,
                s >= 0,
                e >= 0,
        ;
        vstd::arithmetic::div_mod::lemma_mod_multiples_vanish(m1, fraction(*f) as int, kk);
        vstd::arithmetic::div_mod::lemma_mod_multiples_vanish(m2, fraction(*f) as int, kk);
        lemma_mul_is_commutative(m1, kk);
        lemma_mul_is_commutative(m2, kk);
    }
    r
}

impl f256 {
    /// Returns the integer part of `self`. This means that non-integer numbers
    /// are always truncated towards zero.
    pub fn trunc(&self) -> (r: Self)
        ensures
            !is_finite_spec(*self) ==> r.bits == self.bits,
            is_finite_spec(*self) ==> is_finite_spec(r) && sign_of(r) == sign_of(*self)
                && units(r) == trunc_units(units(*self)),
    {
        let e = crate::binary256::exp_bits(self.bits.hi);
        if e == EXP_MAX {
            return *self;
        }
        proof {
            lemma_units_range(*self);
            lemma_pow2_pos(262378);
            lemma_mul_facts(one_units() as int);
            crate::binary256::lemma_hi_fields(self.bits.hi);
        }
        if e < EXP_BIAS {
            proof {
                vstd::arithmetic::div_mod::lemma_basic_div(units(*self) as int, one_units() as int);
            }
            return if self.is_sign_negative() { Self::neg_zero() } else { Self::zero() };
        }
        if e >= EXP_BIAS + 236 {
            proof {
                lemma_fundamental_div_mod(units(*self) as int, one_units() as int);
                lemma_mul_is_commutative((units(*self) / one_units()) as int, one_units() as int);
            }
            return *self;
        }
        let k = EXP_BIAS + 236 - e;
        proof {
            lemma_pow2_pos(k as nat);
        }
        let r = round_signif(self, k, &u256::zero());
        proof {
            lemma_round_scaled(signif(*self), 0, k as nat, (e - 1) as nat);
            lemma_pow2_adds(k as nat, (e - 1) as nat);
            lemma_mul_facts(pow2((e - 1) as nat) as int);
        }
        r
    }

    /// Returns the largest integer less than or equal to `self`.
    pub fn floor(&self) -> (r: Self)
        ensures
            !is_finite_spec(*self) ==> r.bits == self.bits,
            is_finite_spec(*self) ==> is_finite_spec(r) && sign_of(r) == sign_of(*self)
                && units(r) == (if sign_of(*self) == 0 {
                    trunc_units(units(*self))
                } else {
                    ceil_units(units(*self))
                }),
    {
        proof {
            crate::binary256::lemma_hi_fields(self.bits.hi);
        }
        if self.is_sign_negative() {
            self.away_from_zero()
        } else {
            self.trunc()
        }
    }

    /// Returns the smallest integer greater than or equal to `self`.
    pub fn ceil(&self) -> (r: Self)
        ensures
            !is_finite_spec(*self) ==> r.bits == self.bits,
            is_finite_spec(*self) ==> is_finite_spec(r) && sign_of(r) == sign_of(*self)
                && units(r) == (if sign_of(*self) == 0 {
                    ceil_units(units(*self))
                } else {
                    trunc_units(units(*self))
                }),
    {
        proof {
            crate::binary256::lemma_hi_fields(self.bits.hi);
        }
        if self.is_sign_negative() {
            self.trunc()
        } else {
            self.away_from_zero()
        }
    }

    /// Rounds the magnitude of `self` up to the next integral value.
    fn away_from_zero(&self) -> (r: Self)
        ensures
            !is_finite_spec(*self) ==> r.bits == self.bits,
            is_finite_spec(*self) ==> is_finite_spec(r) && sign_of(r) == sign_of(*self)
                && units(r) == ceil_units(units(*self)),
    {
        let e = crate::binary256::exp_bits(self.bits.hi);
        if e == EXP_MAX {
            return *self;
        }
        proof {
            lemma_units_range(*self);
            lemma_pow2_pos(262378);
            lemma_mul_facts(one_units() as int);
            crate::binary256::lemma_hi_fields(self.bits.hi);
        }
        if self.eq_zero() {
            proof {
                vstd::arithmetic::div_mod::lemma_basic_div((one_units() - 1) as int, one_units() as int);
            }
            return *self;
        }
        if e < EXP_BIAS {
            proof {
                self.lemma_nonzero_units();
                vstd::arithmetic::div_mod::lemma_fundamental_div_mod_converse(
                    (units(*self) + one_units() - 1) as int, one_units() as int, 1, (units(*self) - 1) as int);
            }
            let one = Self::one();
            return if self.is_sign_negative() { one.negated() } else { one };
        }
        if e >= EXP_BIAS + 236 {
            proof {
                let u = units(*self) as int;
                let o = one_units() as int;
                lemma_fundamental_div_mod(u, o);
                let q = u / o;
                lemma_div_pos_is_pos(u, o);
                vstd::arithmetic::div_mod::lemma_fundamental_div_mod_converse(u + o - 1, o, q, o - 1);
                lemma_mul_is_commutative(q, o);
            }
            return *self;
        }
        let k = EXP_BIAS + 236 - e;
        proof {
            lemma_pow2_pos(k as nat);
            lemma_mul_facts(p128() as int);
            lemma_mul_facts(pow2(k as nat) as int);
        }
        let mut c = u256::new(0, 1).shl(k);
        c.sub_assign_u128(1);
        proof {
            lemma_pow2_64_128();
            vstd::arithmetic::power2::lemma_pow2_strictly_increases(k as nat, 256);
            vstd::arithmetic::div_mod::lemma_small_mod(pow2(k as nat), p256());
            vstd::arithmetic::div_mod::lemma_mod_add_multiples_vanish((pow2(k as nat) - 1) as int, p256() as int);
            vstd::arithmetic::div_mod::lemma_small_mod((pow2(k as nat) - 1) as nat, p256());
            assert(c@ == pow2(k as nat) - 1);
        }
        let r = round_signif(self, k, &c);
        proof {
            let m = signif(*self);
            let kk = pow2(k as nat) as int;
            let pe = pow2((e - 1) as nat) as int;
            lemma_round_scaled(m, c@, k as nat, (e - 1) as nat);
            lemma_pow2_adds(k as nat, (e - 1) as nat);
            lemma_pow2_pos((e - 1) as nat);
            let n = m + kk - 1;
            lemma_div_add_small(n, pe, kk, 0);
            lemma_div_add_small(n, pe, kk, pe - 1);
            assert(m * pe + c@ * pe == n * pe + 0) by (nonlinear_arith)
                requires
                    c@ == kk - 1,
                    n == m + kk - 1,
            ;
            assert(units(*self) + one_units() - 1 == n * pe + (pe - 1)) by (nonlinear_arith)
                requires
                    units(*self) == m * pe,
                    one_units() == kk * pe,
                    n == m + kk - 1,
            ;
        }
        r
    }

    proof fn lemma_nonzero_units(&self)
        requires
            is_finite_spec(*self),
            !is_zero_spec(*self),
        ensures
            units(*self) > 0,
    {
        lemma_pow2_pos(quantum_shift(*self));
        lemma_pow2_pos(236);
        lemma_mul_inequality(1, signif(*self) as int, pow2(quantum_shift(*self)) as int);
    }

    /// Returns the nearest integer to `self`. Rounds half-way cases away from
    /// 0.0.
    pub fn round(&self) -> (r: Self)
        ensures
            !is_finite_spec(*self) ==> r.bits == self.bits,
            is_finite_spec(*self) ==> is_finite_spec(r) && sign_of(r) == sign_of(*self)
                && units(r) == round_units(units(*self)),
    {
        let e = crate::binary256::exp_bits(self.bits.hi);
        if e == EXP_MAX {
            return *self;
        }
        proof {
            lemma_units_range(*self);
            lemma_pow2_pos(262378);
            lemma_mul_facts(one_units() as int);
            crate::binary256::lemma_hi_fields(self.bits.hi);
        }
        if e < EXP_BIAS - 1 {
            proof {
                vstd::arithmetic::div_mod::lemma_basic_div((units(*self) + one_units() / 2) as int, one_units() as int);
            }
            return if self.is_sign_negative() { Self::neg_zero() } else { Self::zero() };
        }
        if e == EXP_BIAS - 1 {
            proof {
                vstd::arithmetic::div_mod::lemma_fundamental_div_mod_converse(
                    (units(*self) + one_units() / 2) as int, one_units() as int, 1,
                    (units(*self) - one_units() / 2) as int);
            }
            let one = Self::one();
            return if self.is_sign_negative() { one.negated() } else { one };
        }
        if e >= EXP_BIAS + 236 {
            proof {
                let u = units(*self) as int;
                let o = one_units() as int;
                lemma_fundamental_div_mod(u, o);
                let q = u / o;
                lemma_div_pos_is_pos(u, o);
                vstd::arithmetic::div_mod::lemma_fundamental_div_mod_converse(u + o / 2, o, q, o / 2);
                lemma_mul_is_commutative(q, o);
            }
            return *self;
        }
        let k = EXP_BIAS + 236 - e;
        proof {
            lemma_pow2_pos(k as nat);
            vstd::arithmetic::power2::lemma_pow2_unfold(k as nat);
            lemma_mul_facts(p128() as int);
            lemma_mul_facts(pow2((k - 1) as nat) as int);
        }
        let c = u256::new(0, 1).shl(k - 1);
        proof {
            lemma_pow2_64_128();
            vstd::arithmetic::power2::lemma_pow2_strictly_increases((k - 1) as nat, 256);
            vstd::arithmetic::div_mod::lemma_small_mod(pow2((k - 1) as nat), p256());
        }
        let r = round_signif(self, k, &c);
        proof {
            let m = signif(*self);
            let pe = pow2((e - 1) as nat) as int;
            lemma_round_scaled(m, c@, k as nat, (e - 1) as nat);
            lemma_pow2_adds(k as nat, (e - 1) as nat);
            lemma_pow2_adds((k - 1) as nat, (e - 1) as nat);
            assert((k - 1) as nat + (e - 1) as nat == 262377);
        }
        r
    }

    /// Returns the fractional part of `self`.
    pub fn fract(&self) -> (r: Self)
        ensures
            !is_finite_spec(*self) ==> is_nan_spec(r),
            is_finite_spec(*self) ==> is_finite_spec(r)
                && units(r) == units(*self) % one_units()
                && sign_of(r) == (if units(r) == 0 { 0 } else { sign_of(*self) }),
    {
        let e = crate::binary256::exp_bits(self.bits.hi);
        if e == EXP_MAX {
            return Self::nan();
        }
        proof {
            lemma_units_range(*self);
            lemma_pow2_pos(262378);
            lemma_mul_facts(one_units() as int);
            crate::binary256::lemma_hi_fields(self.bits.hi);
        }
        if self.eq_zero() {
            proof {
                vstd::arithmetic::div_mod::lemma_small_mod(0, one_units());
            }
            return Self::zero();
        }
        if e < EXP_BIAS {
            proof {
                vstd::arithmetic::div_mod::lemma_small_mod(units(*self), one_units());
                self.lemma_nonzero_units();
            }
            return *self;
        }
        if e >= EXP_BIAS + 236 {
            return Self::zero();
        }
        let k = EXP_BIAS + 236 - e;
        let m = low_signif_bits(self, k);
        proof {
            let kk = pow2(k as nat) as int;
            let pe = pow2((e - 1) as nat) as int;
            lemma_pow2_pos(k as nat);
            lemma_pow2_pos((e - 1) as nat);
            lemma_pow2_adds(k as nat, (e - 1) as nat);
            crate::uint256::lemma_mod_scaled_pub(signif(*self) as int, pe, kk);
            lemma_mod_bound(signif(*self) as int, kk);
            if k < 236 {
                vstd::arithmetic::power2::lemma_pow2_strictly_increases(k as nat, 236);
            }
        }
        if m.is_zero() {
            return Self::zero();
        }
        let r = encode_exact(self.sign(), &m, e);
        proof {
            let pe = pow2((e - 1) as nat) as int;
            vstd::arithmetic::mul::lemma_mul_strictly_positive(m@ as int, pe);
            assert(units(*self) == signif(*self) * pow2((e - 1) as nat));
        }
        r
    }
}

} // verus!
