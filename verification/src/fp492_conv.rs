//! Conversions between [`FP492`] and [`Float`] and `f256`.
use vstd::prelude::*;
use vstd::arithmetic::power2::{pow2, lemma_pow2_pos, lemma_pow2_adds, lemma_pow2_unfold, lemma2_to64,
    lemma_pow2_strictly_increases};
use vstd::arithmetic::div_mod::lemma_small_mod;
use vstd::arithmetic::mul::{lemma_mul_inequality, lemma_mul_strict_inequality, lemma_mul_is_commutative};
use crate::bits::{p128, p256, lemma_pow2_64_128};
use crate::uint256::{u256, is_lz, div_pow2_round, lemma_u256_bound, lemma_divmod_unique};
use crate::uint512::{u512, p512, lemma_u512_bound};
use crate::big_float::Float;
use crate::binary256::{f256, sign_of, bexp, signif, units, is_finite_spec, is_zero_spec, exp_bits,
    lemma_hi_fields, lemma_fraction_bound, p108, HI_FRACTION_MASK};
use crate::fp492::{FP492, p511, signed512, pattern512, magnitude, lemma_p512};
use crate::float_fma::round_shr;
use crate::float_conv::encode_normal;

verus! {

/// `r` is the [`Float`] nearest to the magnitude `m` (in units of 2⁻ᶠ)
/// with sign `sg`: rounded to 255 bits where `m` has more, else exact.
pub open spec fn is_float_of_fixed(r: Float, sg: int, m: nat, f: nat) -> bool {
    &&& r.signum == sg
    &&& m >= pow2(255) ==> exists|k: nat| 1 <= k && pow2(254) <= m / pow2(k) < pow2(255)
        && #[trigger] is_rounded_at(r, m, k, f)
    &&& 0 < m < pow2(255) ==> exists|j: nat| pow2(254) <= m * pow2(j) < pow2(255)
        && r.exp == 254 - f - j && #[trigger] (m * pow2(j)) == r.signif@
}

/// `r` holds `m / 2ᵏ`, rounded to nearest (ties to even) and normalized,
/// at the exponent matching units of 2⁻ᶠ.
pub open spec fn is_rounded_at(r: Float, m: nat, k: nat, f: nat) -> bool {
    let q = div_pow2_round(m, k);
    if q == pow2(255) {
        r.exp == k + 255 - f && r.signif@ == pow2(254)
    } else {
        r.exp == k + 254 - f && r.signif@ == q
    }
}

/// `r` is the `f256` value nearest to the magnitude `m` (in units of
/// 2⁻ᶠ), rounded to 237 bits where `m` has more, else exact.
pub open spec fn is_f256_of_fixed(r: f256, m: nat, f: nat) -> bool {
    &&& is_finite_spec(r)
    &&& m >= pow2(237) ==> exists|k: nat| pow2(236) <= m / pow2(k) < pow2(237)
        && units(r) == #[trigger] div_pow2_round(m, k) * pow2((262378 - f + k) as nat)
    &&& m < pow2(237) ==> units(r) == m * pow2((262378 - f) as nat)
}

/// `r` is the [`Float`] nearest to the FP492 value `v`.
pub open spec fn is_float_of_fp492(r: Float, v: int) -> bool {
    &&& r.wf()
    &&& v == 0 ==> r == Float::zero_spec()
    &&& v != 0 ==> is_float_of_fixed(r, if v < 0 { -1int } else { 1int }, magnitude(v), 492)
}

/// The FP492 value of the [`Float`] `f` (with `f.exp <= 19`), truncated
/// below 2⁻⁴⁹².
pub open spec fn fp492_of_float(f: Float) -> int {
    if 18 - f.exp < 0 || 18 - f.exp >= 512 {
        0
    } else {
        f.signum * ((f.signif@ * p256()) / pow2((18 - f.exp) as nat))
    }
}

/// The finite `value` as a fixed-point number in units of 2⁻⁽⁴⁹²⁺ᵇᵃˢᵉ⁾,
/// truncated toward zero, where the exponent is clamped to at most
/// `max_shl` and at least `-max_shr`.
pub open spec fn fixed_of_f256(value: f256, base: nat, max_shl: nat, max_shr: nat) -> int {
    let e: int = if bexp(value) == 0 { -262142 } else { bexp(value) - 262143 };
    let shl: nat = (base + if e < 0 { 0 } else if e > max_shl { max_shl as int } else { e }) as nat;
    let shr: nat = if e > 0 { 0 } else if e < -max_shr { max_shr } else { (-e) as nat };
    let mag = (signif(value) * pow2(shl) * p256()) / pow2(shr);
    if sign_of(value) == 1 { -mag } else { mag as int }
}

/// Rounding a value in `[2²³⁶⁺ᵏ, 2²³⁷⁺ᵏ)` by `2ᵏ` gives a value in
/// `[2²³⁶, 2²³⁷]`.
proof fn lemma_round_range_237(v: nat, k: nat)
    requires
        k >= 1,
        pow2(236 + k) <= v < pow2(237 + k),
    ensures
        pow2(236) <= div_pow2_round(v, k) <= pow2(237),
{
    lemma_pow2_adds(236, k);
    lemma_pow2_adds(237, k);
    lemma_pow2_pos(k);
    lemma_mul_is_commutative(pow2(k) as int, pow2(237) as int);
    lemma_mul_is_commutative(pow2(k) as int, pow2(236) as int);
    crate::bits::lemma_div_strictly_bounded(v as int, pow2(k) as int, pow2(237) as int);
    vstd::arithmetic::div_mod::lemma_div_is_ordered((pow2(k) * pow2(236)) as int, v as int, pow2(k) as int);
    vstd::arithmetic::div_mod::lemma_div_multiples_vanish(pow2(236) as int, pow2(k) as int);
}

/// The magnitude of a fixed-point value, split at its leading one.
proof fn lemma_lz_range(m: nat, nlz: nat)
    requires
        is_lz(m, 512, nlz),
        m > 0,
    ensures
        nlz < 512,
        pow2((511 - nlz) as nat) <= m < pow2((512 - nlz) as nat),
{
    if nlz == 512 {
        lemma2_to64();
    }
}

/// Converts the [`Float`] `value` into a fixed-point number with
/// `int_bits` integral bits (and `511 - int_bits` fractional bits),
/// truncating the bits below the last fractional bit.
pub(crate) fn fixed_from_float(value: &Float, int_bits: u32) -> (r: FP492)
    requires
        value.wf(),
        1 <= int_bits <= 19,
        -0x7000_0000 <= value.exp,
    ensures
        int_bits - 1 - value.exp < 0 || int_bits - 1 - value.exp >= 512 ==> r.value() == 0,
        0 <= int_bits - 1 - value.exp < 512 ==>
            r.value() == value.signum * ((value.signif@ * p256()) / pow2((int_bits - 1 - value.exp) as nat)),
{
    proof {
        lemma_p512();
        lemma_pow2_pos(512);
    }
    let sh_i = int_bits as i32 - 1 - value.exp;
    if sh_i < 0 || sh_i >= 512 {
        return FP492::zero();
    }
    let sh = sh_i as u32;
    let mut res = FP492(u512::from_hi_lo(value.signif, u256::zero()).shr_any(sh));
    proof {
        vstd::arithmetic::mul::lemma_mul_basics(p256() as int);
        lemma_pow2_64_128();
        lemma_pow2_adds(255, 256);
        lemma_pow2_pos(sh as nat);
        let v = value.signif@ * p256();
        lemma_mul_strict_inequality(value.signif@ as int, pow2(255) as int, p256() as int);
        vstd::arithmetic::div_mod::lemma_div_is_ordered_by_denominator(v as int, 1, pow2(sh as nat) as int);
        vstd::arithmetic::div_mod::lemma_div_basics(v as int);
        assert(res.0@ < p511());
        if value.signum == 0 {
            vstd::arithmetic::mul::lemma_mul_basics(p256() as int);
            vstd::arithmetic::div_mod::lemma_basic_div(0, pow2(sh as nat) as int);
        }
    }
    let ghost x = (value.signif@ * p256()) / pow2(sh as nat);
    if value.signum < 0 {
        res.ineg();
    }
    proof {
        vstd::arithmetic::mul::lemma_mul_basics(x as int);
        vstd::arithmetic::mul::lemma_mul_unary_negation(1, x as int);
    }
    res
}

/// Converts the fixed-point number `x` with `frac` fractional bits into the
/// nearest [`Float`] (rounded to nearest, ties to even).
pub(crate) fn fixed_to_float(x: &FP492, frac: u32) -> (r: Float)
    requires
        256 <= frac <= 509,
    ensures
        r.wf(),
        x.value() == 0 ==> r == Float::zero_spec(),
        x.value() != 0 ==> is_float_of_fixed(r, if x.value() < 0 { -1int } else { 1int },
            magnitude(x.value()), frac as nat),
{
    let signum = x.signum();
    let a = x.abs();
    let ghost m = magnitude(x.value());
    proof {
        lemma_p512();
        lemma_pow2_pos(512);
        lemma_u512_bound(x.0);
        lemma_divmod_unique(m as int, p512() as int, 0, m as int);
        assert(a.0@ == m);
    }
    if signum == 0 {
        return Float::zero();
    }
    let nlz = a.0.leading_zeros();
    proof {
        lemma_lz_range(m, nlz as nat);
        lemma_pow2_64_128();
        lemma_pow2_strictly_increases(255, 256);
    }
    let mut exp: i32 = (511 - frac) as i32 - nlz as i32;
    let lo;
    if nlz <= 256 {
        let n = 257 - nlz;
        let q = round_shr(&a.0, n);
        proof {
            // m / 2ⁿ lies in [2²⁵⁴, 2²⁵⁵)
            lemma_pow2_adds(254, n as nat);
            lemma_pow2_adds(255, n as nat);
            assert((511 - nlz) as nat == 254 + n as nat);
            crate::float_fma::lemma_round_range_pub(m, n as nat);
            lemma_u256_bound(q.lo);
            if q.hi@ > 0 {
                lemma_mul_inequality(1, q.hi@ as int, p256() as int);
            }
            assert(q.lo@ == q@);
            lemma_pow2_pos(n as nat);
            lemma_mul_is_commutative(pow2(n as nat) as int, pow2(255) as int);
            lemma_mul_is_commutative(pow2(n as nat) as int, pow2(254) as int);
            crate::bits::lemma_div_strictly_bounded(m as int, pow2(n as nat) as int, pow2(255) as int);
            vstd::arithmetic::div_mod::lemma_div_is_ordered((pow2(n as nat) * pow2(254)) as int, m as int,
                pow2(n as nat) as int);
            vstd::arithmetic::div_mod::lemma_div_multiples_vanish(pow2(254) as int, pow2(n as nat) as int);
        }
        let mut l = q.lo;
        let lzq = l.leading_zeros();
        if lzq == 0 {
            l = l.shr(1);
            exp = exp + 1;
            proof {
                lemma_pow2_unfold(255);
                lemma_pow2_unfold(1);
                lemma2_to64();
                lemma_pow2_pos(254);
            }
        } else {
            proof {
                if lzq > 1 {
                    lemma_pow2_strictly_increases((256 - lzq) as nat, 255);
                }
            }
        }
        lo = l;
        proof {
            let r = Float { signum, exp, signif: lo };
            assert(is_rounded_at(r, m, n as nat, frac as nat));
        }
    } else if nlz == 257 {
        proof {
            lemma_u256_bound(a.0.lo);
            if a.0.hi@ > 0 {
                lemma_mul_inequality(1, a.0.hi@ as int, p256() as int);
            }
            assert(a.0.lo@ == m);
            lemma2_to64();
            vstd::arithmetic::mul::lemma_mul_basics(m as int);
        }
        lo = a.0.lo;
        proof {
            assert(m * pow2(0) == lo@);
        }
    } else {
        let j = nlz - 257;
        proof {
            lemma_u256_bound(a.0.lo);
            if (512 - nlz) < 256 {
                lemma_pow2_strictly_increases((512 - nlz) as nat, 256);
            }
            if a.0.hi@ > 0 {
                lemma_mul_inequality(1, a.0.hi@ as int, p256() as int);
            }
            assert(a.0.lo@ == m);
            lemma_pow2_adds((511 - nlz) as nat, j as nat);
            lemma_pow2_adds((512 - nlz) as nat, j as nat);
            lemma_pow2_pos(j as nat);
            lemma_mul_inequality(pow2((511 - nlz) as nat) as int, m as int, pow2(j as nat) as int);
            lemma_mul_strict_inequality(m as int, pow2((512 - nlz) as nat) as int, pow2(j as nat) as int);
            lemma_small_mod(m * pow2(j as nat), p256());
        }
        lo = a.0.lo.shl(j);
    }
    let r = Float::new(signum, exp, (lo.hi, lo.lo));
    proof {
        if nlz > 256 {
            let j: nat = (nlz - 257) as nat;
            if nlz > 257 {
                lemma_pow2_strictly_increases((512 - nlz) as nat, 255);
            }
            assert(m < pow2(255));
            assert(pow2(254) <= m * pow2(j) < pow2(255));
            assert(r.exp == 254 - frac - j);
            assert((m * pow2(j)) == r.signif@);
            assert(exists|j: nat| pow2(254) <= m * pow2(j) < pow2(255)
                && r.exp == 254 - frac - j && #[trigger] (m * pow2(j)) == r.signif@);
        } else {
            let k: nat = (257 - nlz) as nat;
            if nlz < 256 {
                lemma_pow2_strictly_increases(255, (511 - nlz) as nat);
            }
            assert(m >= pow2(255));
            assert(1 <= k && pow2(254) <= m / pow2(k) < pow2(255));
            assert(is_rounded_at(r, m, k, frac as nat));
        }
    }
    r
}

/// Converts the finite `f256` value `value` into a fixed-point number:
/// its significand is shifted left by `base` bits plus the exponent (at
/// most `max_shl`), or right by the negated exponent (at most `max_shr`),
/// truncating bits shifted out.
pub(crate) fn fixed_from_f256(value: &f256, base: u32, max_shl: u32, max_shr: u32) -> (r: FP492)
    requires
        is_finite_spec(*value),
        base + max_shl <= 19,
        max_shr < 512,
        sign_of(*value) == 1 || bexp(*value) < 262143 + max_shl,
    ensures
        r.0@ == pattern512(fixed_of_f256(*value, base as nat, max_shl as nat, max_shr as nat)),
        -(p511() as int) <= fixed_of_f256(*value, base as nat, max_shl as nat, max_shr as nat) < p511() ==>
            r.value() == fixed_of_f256(*value, base as nat, max_shl as nat, max_shr as nat),
{
    let s = value.sign();
    let be = exp_bits(value.bits.hi);
    let hf = value.bits.hi & HI_FRACTION_MASK;
    proof {
        lemma_hi_fields(value.bits.hi);
        lemma_fraction_bound(*value);
        lemma_pow2_64_128();
        lemma2_to64();
        lemma_pow2_adds(108, 128);
        assert(pow2(108) == p108()) by {
            lemma_pow2_adds(64, 44);
            lemma_pow2_adds(32, 12);
            lemma_pow2_adds(8, 4);
        }
    }
    let h: u128 = if be == 0 { hf } else { hf + 0x1000_0000_0000_0000_0000_0000_0000u128 };
    let sig = u256::new(h, value.bits.lo);
    let e: i32 = if be == 0 { -262142 } else { be as i32 - 262143 };
    let shl: u32 = base + if e < 0 { 0 } else if e > max_shl as i32 { max_shl } else { e as u32 };
    let shr: u32 = if e > 0 { 0 } else if e < -(max_shr as i32) { max_shr } else { (-e) as u32 };
    proof {
        assert(sig@ == signif(*value));
        lemma_pow2_adds(237, 19);
        lemma_pow2_pos(shl as nat);
        if shl < 19 {
            lemma_pow2_strictly_increases(shl as nat, 19);
        }
        assert(shl <= 19);
        lemma_mul_strict_inequality(sig@ as int, pow2(237) as int, pow2(shl as nat) as int);
        lemma_mul_inequality(pow2(237) as int, pow2(237) as int, pow2(shl as nat) as int);
        lemma_mul_inequality(pow2(shl as nat) as int, pow2(19) as int, pow2(237) as int);
        lemma_mul_is_commutative(pow2(shl as nat) as int, pow2(237) as int);
        lemma_pow2_strictly_increases(256, 256 + 1);
        lemma_small_mod(sig@ * pow2(shl as nat), p256());
    }
    let shifted = sig.shl(shl);
    let mut res = FP492(u512::from_hi_lo(shifted, u256::zero()).shr_any(shr));
    proof {
        lemma_p512();
        lemma_pow2_pos(512);
        lemma_u512_bound(res.0);
        vstd::arithmetic::mul::lemma_mul_basics(p256() as int);
        let mag = (signif(*value) * pow2(shl as nat) * p256()) / pow2(shr as nat);
        assert(res.0@ == mag);
        lemma_divmod_unique(mag as int, p512() as int, 0, mag as int);
    }
    if s == 1 {
        res.ineg();
    }
    proof {
        let mag = (signif(*value) * pow2(shl as nat) * p256()) / pow2(shr as nat);
        let v: int = if s == 1 { -mag } else { mag as int };
        if s == 0 && mag < p511() {
            crate::fp492::lemma_pattern_signed_pub(mag as int);
        }
        if s == 1 && mag <= p511() && mag > 0 {
            crate::fp492::lemma_pattern_signed_pub(-mag);
        }
    }
    res
}

/// Converts the fixed-point number `value` with `frac` fractional bits into
/// the nearest `f256` value (ties to even).
pub(crate) fn fixed_to_f256(value: &FP492, frac: u32) -> (r: f256)
    requires
        256 <= frac <= 509,
    ensures
        sign_of(r) == (if value.value() < 0 { 1nat } else { 0nat }),
        value.value() == 0 ==> is_zero_spec(r),
        is_f256_of_fixed(r, magnitude(value.value()), frac as nat),
{
    let sign: u32 = if value.is_sign_negative() { 1 } else { 0 };
    let a = value.abs();
    let ghost m = magnitude(value.value());
    proof {
        lemma_p512();
        lemma_pow2_pos(512);
        lemma_u512_bound(value.0);
        lemma_divmod_unique(m as int, p512() as int, 0, m as int);
        assert(a.0@ == m);
        lemma_pow2_64_128();
    }
    if a.is_zero() {
        let z = f256::zero();
        proof {
            vstd::arithmetic::mul::lemma_mul_basics(pow2((262378 - frac) as nat) as int);
            lemma_pow2_pos(237);
        }
        return z;
    }
    let nlz = a.0.leading_zeros();
    proof {
        lemma_lz_range(m, nlz as nat);
        lemma_pow2_strictly_increases(237, 256);
    }
    let e = (262654 - frac) - nlz;
    if nlz <= 274 {
        let n = 275 - nlz;
        let q = round_shr(&a.0, n);
        proof {
            lemma_pow2_adds(236, n as nat);
            lemma_pow2_adds(237, n as nat);
            assert((511 - nlz) as nat == 236 + n as nat);
            lemma_pow2_pos(n as nat);
            lemma_mul_is_commutative(pow2(n as nat) as int, pow2(237) as int);
            lemma_mul_is_commutative(pow2(n as nat) as int, pow2(236) as int);
            crate::bits::lemma_div_strictly_bounded(m as int, pow2(n as nat) as int, pow2(237) as int);
            vstd::arithmetic::div_mod::lemma_div_is_ordered((pow2(n as nat) * pow2(236)) as int, m as int,
                pow2(n as nat) as int);
            vstd::arithmetic::div_mod::lemma_div_multiples_vanish(pow2(236) as int, pow2(n as nat) as int);
            lemma_round_range_237(m, n as nat);
            lemma_u256_bound(q.lo);
            if q.hi@ > 0 {
                lemma_mul_inequality(1, q.hi@ as int, p256() as int);
            }
            assert(q.lo@ == q@);
            lemma_pow2_adds((e - 1) as nat, 0);
            assert((e - 1) as nat == (262378 - frac) as nat + n as nat);
        }
        let r = encode_normal(sign, &q.lo, e);
        proof {
            if nlz < 274 {
                lemma_pow2_strictly_increases(237, (511 - nlz) as nat);
            }
            assert(m >= pow2(237));
            assert(pow2(236) <= m / pow2(n as nat) < pow2(237));
            assert(units(r) == div_pow2_round(m, n as nat) * pow2((262378 - frac + n) as nat));
        }
        r
    } else {
        let j = nlz - 275;
        proof {
            if nlz > 275 {
                lemma_pow2_strictly_increases((512 - nlz) as nat, 237);
            }
            lemma_u256_bound(a.0.lo);
            if a.0.hi@ > 0 {
                lemma_mul_inequality(1, a.0.hi@ as int, p256() as int);
                lemma_pow2_strictly_increases((512 - nlz) as nat, 256);
            }
            assert(a.0.lo@ == m);
            lemma_pow2_adds((511 - nlz) as nat, j as nat);
            lemma_pow2_adds((512 - nlz) as nat, j as nat);
            lemma_pow2_pos(j as nat);
            lemma_mul_inequality(pow2((511 - nlz) as nat) as int, m as int, pow2(j as nat) as int);
            lemma_mul_strict_inequality(m as int, pow2((512 - nlz) as nat) as int, pow2(j as nat) as int);
            lemma_small_mod(m * pow2(j as nat), p256());
        }
        let mm = if j == 0 { a.0.lo } else { a.0.lo.shl(j) };
        proof {
            if j == 0 {
                lemma2_to64();
                vstd::arithmetic::mul::lemma_mul_basics(m as int);
            }
            assert(mm@ == m * pow2(j as nat));
            lemma_pow2_adds(j as nat, (e - 1) as nat);
            assert(j as nat + (e - 1) as nat == (262378 - frac) as nat);
            vstd::arithmetic::mul::lemma_mul_is_associative(m as int, pow2(j as nat) as int,
                pow2((e - 1) as nat) as int);
        }
        encode_normal(sign, &mm, e)
    }
}

impl FP492 {
    /// Converts the [`Float`] `value` into a fixed-point number, truncating
    /// bits below 2⁻⁴⁹²; values with an exponent above 18 give 0.
    pub fn from_float(value: &Float) -> (r: Self)
        requires
            value.wf(),
            -0x7000_0000 <= value.exp,
        ensures
            18 - value.exp < 0 || 18 - value.exp >= 512 ==> r.value() == 0,
            0 <= 18 - value.exp < 512 ==>
                r.value() == value.signum * ((value.signif@ * p256()) / pow2((18 - value.exp) as nat)),
    {
        fixed_from_float(value, 19)
    }

    /// Converts `self` into the nearest [`Float`] (rounded to nearest, ties
    /// to even).
    pub fn to_float(&self) -> (r: Float)
        ensures
            r.wf(),
            self.value() == 0 ==> r == Float::zero_spec(),
            self.value() != 0 ==> is_float_of_fixed(r, if self.value() < 0 { -1int } else { 1int },
                magnitude(self.value()), 492),
    {
        fixed_to_float(self, 492)
    }

    /// Converts the finite `f256` value `value` below 2¹⁹ into a fixed-point
    /// number, truncating bits below 2⁻⁴⁹².
    pub fn from_f256(value: &f256) -> (r: Self)
        requires
            is_finite_spec(*value),
            sign_of(*value) == 1 || bexp(*value) < 262143 + 19,
        ensures
            r.0@ == pattern512(fixed_of_f256(*value, 0, 19, 492)),
            -(p511() as int) <= fixed_of_f256(*value, 0, 19, 492) < p511() ==>
                r.value() == fixed_of_f256(*value, 0, 19, 492),
    {
        fixed_from_f256(value, 0, 19, 492)
    }
}

impl f256 {
    /// Converts the fixed-point number `value` into the nearest `f256`
    /// value (ties to even).
    pub fn from_fp492(value: &FP492) -> (r: f256)
        ensures
            sign_of(r) == (if value.value() < 0 { 1nat } else { 0nat }),
            value.value() == 0 ==> is_zero_spec(r),
            is_f256_of_fixed(r, magnitude(value.value()), 492),
    {
        fixed_to_f256(value, 492)
    }
}

} // verus!
