//! The binary256 floating-point type `f256`: encoding, classification and
//! sign handling.
//!
//! Layout of the 256 bits: 1 sign bit, 19 exponent bits and 236 fraction
//! bits. A finite value is `(-1)ˢ ⋅ units ⋅ 2⁻²⁶²³⁷⁸`, where `units` is the
//! significand (with hidden bit for normal numbers) scaled by the biased
//! exponent; see [`units`].
use vstd::prelude::*;
use vstd::arithmetic::power2::{pow2, lemma_pow2_pos, lemma_pow2_adds, lemma_pow2_strictly_increases, lemma2_to64};
use vstd::arithmetic::mul::{lemma_mul_inequality, lemma_mul_strict_inequality, lemma_mul_is_commutative,
    lemma_mul_is_associative, lemma_mul_nonnegative};
use crate::bits::{p128, p256, lemma_pow2_64_128, lemma_split};
use crate::uint256::{u256, is_lz, lemma_u256_bound};

verus! {

/// Number of bits of the fraction field.
pub const FRACTION_BITS: u32 = 236;
/// Number of bits of the significand, including the hidden bit.
pub const SIGNIFICAND_BITS: u32 = 237;
/// Number of bits of the exponent field.
pub const EXP_BITS: u32 = 19;
/// Maximal biased exponent (infinity and NaN).
pub const EXP_MAX: u32 = 0x7ffff;
/// Exponent bias.
pub const EXP_BIAS: u32 = 262143;
/// Maximal unbiased exponent of a finite value.
pub const EMAX: i32 = 262143;
/// Minimal unbiased exponent of a normal value.
pub const EMIN: i32 = -262142;
/// Number of fraction bits in the upper u128 of the encoding.
pub const HI_FRACTION_BITS: u32 = 108;
/// Mask of the fraction bits in the upper u128 of the encoding.
pub const HI_FRACTION_MASK: u128 = 0xfffffffffffffffffffffffffff;
/// Mask of the exponent bits in the upper u128 of the encoding.
pub const HI_EXP_MASK: u128 = 0x7ffff000000000000000000000000000;
/// Mask of all bits except the sign bit in the upper u128 of the encoding.
pub const HI_ABS_MASK: u128 = 0x7fffffffffffffffffffffffffffffff;
/// The sign bit in the upper u128 of the encoding.
pub const HI_SIGN_MASK: u128 = 0x80000000000000000000000000000000;

/// 2¹⁰⁸
pub open spec fn p108() -> nat {
    0x1000000000000000000000000000nat
}

/// A 256-bit binary floating point number (IEEE 754 binary256).
#[derive(Clone, Copy, Debug)]
pub struct f256 {
    pub bits: u256,
}

/// The sign bit of `f`.
pub open spec fn sign_of(f: f256) -> nat {
    (f.bits.hi >> 127u32) as nat
}

/// The biased exponent of `f`.
pub open spec fn bexp(f: f256) -> nat {
    ((f.bits.hi >> 108u32) & 0x7ffffu128) as nat
}

/// The upper 108 fraction bits of `f`.
pub open spec fn hi_frac(f: f256) -> nat {
    (f.bits.hi & 0xfffffffffffffffffffffffffffu128) as nat
}

/// The fraction field of `f`.
pub open spec fn fraction(f: f256) -> nat {
    hi_frac(f) * p128() + f.bits.lo as nat
}

pub open spec fn is_nan_spec(f: f256) -> bool {
    bexp(f) == 0x7ffff && fraction(f) != 0
}

pub open spec fn is_inf_spec(f: f256) -> bool {
    bexp(f) == 0x7ffff && fraction(f) == 0
}

pub open spec fn is_finite_spec(f: f256) -> bool {
    bexp(f) < 0x7ffff
}

pub open spec fn is_zero_spec(f: f256) -> bool {
    bexp(f) == 0 && fraction(f) == 0
}

/// The exponent of the least significant bit of the significand, relative
/// to the smallest subnormal quantum 2⁻²⁶²³⁷⁸.
pub open spec fn quantum_shift(f: f256) -> nat {
    if bexp(f) == 0 {
        0
    } else {
        (bexp(f) - 1) as nat
    }
}

/// The significand of `f`, including the hidden bit.
pub open spec fn signif(f: f256) -> nat {
    if bexp(f) == 0 {
        fraction(f)
    } else {
        fraction(f) + pow2(236)
    }
}

/// The magnitude of a finite `f` in units of 2⁻²⁶²³⁷⁸.
pub open spec fn units(f: f256) -> nat {
    signif(f) * pow2(quantum_shift(f))
}

/// The magnitude of 1.0 in units of 2⁻²⁶²³⁷⁸.
pub open spec fn one_units() -> nat {
    pow2(262378)
}

/// The signed value of a finite `f` in units of 2⁻²⁶²³⁷⁸.
pub open spec fn value(f: f256) -> int {
    if sign_of(f) == 1 {
        -(units(f) as int)
    } else {
        units(f) as int
    }
}

/// `f` with its sign bit cleared.
pub open spec fn abs_of(f: f256) -> f256 {
    f256 { bits: u256 { hi: f.bits.hi & 0x7fffffffffffffffffffffffffffffffu128, lo: f.bits.lo } }
}

/// Both values are finite and have the same magnitude and sign.
pub open spec fn same_finite(a: f256, b: f256) -> bool {
    &&& is_finite_spec(a)
    &&& is_finite_spec(b)
    &&& sign_of(a) == sign_of(b)
    &&& units(a) == units(b)
}

/// Decomposition of the upper half of the encoding into its fields.
pub proof fn lemma_hi_fields(hi: u128)
    ensures
        hi as int == (hi >> 127u32) as int * 0x80000000000000000000000000000000int
            + ((hi >> 108u32) & 0x7ffffu128) as int * 0x1000000000000000000000000000int
            + (hi & 0xfffffffffffffffffffffffffffu128) as int,
        (hi >> 127u32) <= 1,
        ((hi >> 108u32) & 0x7ffffu128) <= 0x7ffff,
        (hi & 0xfffffffffffffffffffffffffffu128) < 0x1000000000000000000000000000u128,
{
    assert(hi as int == (hi >> 127u32) as int * 0x80000000000000000000000000000000int
        + ((hi >> 108u32) & 0x7ffffu128) as int * 0x1000000000000000000000000000int
        + (hi & 0xfffffffffffffffffffffffffffu128) as int) by (bit_vector);
    assert((hi >> 127u32) <= 1) by (bit_vector);
    assert(((hi >> 108u32) & 0x7ffffu128) <= 0x7ffff) by (bit_vector);
    assert((hi & 0xfffffffffffffffffffffffffffu128) < 0x1000000000000000000000000000u128) by (bit_vector);
}

/// Composing the upper half of the encoding from its fields.
pub proof fn lemma_compose_hi(s: u128, e: u128, hf: u128)
    requires
        s <= 1,
        e <= 0x7ffff,
        hf < 0x1000000000000000000000000000u128,
    ensures
        ((s << 127u32) | (e << 108u32) | hf) >> 127u32 == s,
        (((s << 127u32) | (e << 108u32) | hf) >> 108u32) & 0x7ffffu128 == e,
        ((s << 127u32) | (e << 108u32) | hf) & 0xfffffffffffffffffffffffffffu128 == hf,
{
    assert(((s << 127u32) | (e << 108u32) | hf) >> 127u32 == s) by (bit_vector)
        requires
            s <= 1,
            e <= 0x7ffff,
            hf < 0x1000000000000000000000000000u128,
    ;
    assert((((s << 127u32) | (e << 108u32) | hf) >> 108u32) & 0x7ffffu128 == e) by (bit_vector)
        requires
            s <= 1,
            e <= 0x7ffff,
            hf < 0x1000000000000000000000000000u128,
    ;
    assert(((s << 127u32) | (e << 108u32) | hf) & 0xfffffffffffffffffffffffffffu128 == hf) by (bit_vector)
        requires
            s <= 1,
            e <= 0x7ffff,
            hf < 0x1000000000000000000000000000u128,
    ;
}

/// The fraction is less than 2²³⁶ and the significand less than 2²³⁷.
pub proof fn lemma_fraction_bound(f: f256)
    ensures
        fraction(f) < pow2(236),
        signif(f) < pow2(237),
        bexp(f) != 0 ==> signif(f) >= pow2(236),
        pow2(236) == p108() * p128(),
{
    lemma_hi_fields(f.bits.hi);
    lemma_pow2_64_128();
    lemma2_to64();
    lemma_pow2_adds(108, 128);
    lemma_pow2_adds(236, 1);
    lemma_pow2_adds(64, 44);
    lemma_pow2_adds(32, 12);
    lemma_pow2_adds(8, 4);
    assert(pow2(12) == 4096) by {
        lemma_pow2_adds(8, 4);
    }
    assert(pow2(44) == 0x1000_0000_0000) by {
        lemma_pow2_adds(32, 12);
    }
    assert(pow2(108) == p108());
    lemma_mul_inequality((hi_frac(f) + 1) as int, p108() as int, p128() as int);
}

/// Simple cases of the fraction and the units.
pub proof fn lemma_units_simple(f: f256)
    ensures
        hi_frac(f) == 0 ==> fraction(f) == f.bits.lo,
        bexp(f) == 0 ==> units(f) == fraction(f),
        bexp(f) == 1 ==> units(f) == signif(f),
{
    lemma2_to64();
    if bexp(f) <= 1 {
        assert(quantum_shift(f) == 0);
        vstd::arithmetic::mul::lemma_mul_basics(signif(f) as int);
    }
}

/// The numeric value of the encoding in terms of its fields.
pub proof fn lemma_bits_value(f: f256)
    ensures
        f.bits@ == sign_of(f) * pow2(255) + bexp(f) * pow2(236) + fraction(f),
        pow2(255) == pow2(19) * pow2(236),
        pow2(19) == 0x80000,
{
    lemma_hi_fields(f.bits.hi);
    lemma_fraction_bound(f);
    lemma_pow2_64_128();
    lemma2_to64();
    lemma_pow2_adds(236, 19);
    lemma_pow2_adds(127, 128);
    lemma_pow2_adds(108, 128);
    lemma_pow2_adds(64, 63);
    assert(pow2(127) == 0x80000000000000000000000000000000nat) by {
        lemma_pow2_adds(64, 63);
        lemma_pow2_adds(32, 31);
    }
    assert(pow2(19) == 0x80000) by {
        lemma_pow2_adds(16, 3);
    }
    let hi = f.bits.hi as int;
    let b = p128() as int;
    assert(hi * b == sign_of(f) * (0x80000000000000000000000000000000int * b)
        + bexp(f) * (0x1000000000000000000000000000int * b) + hi_frac(f) * b) by (nonlinear_arith)
        requires
            hi == sign_of(f) * 0x80000000000000000000000000000000int
                + bexp(f) * 0x1000000000000000000000000000int + hi_frac(f),
    ;
}

/// The fields of an encoding are determined by its numeric value.
pub proof fn lemma_fields_from_value(f: f256, s: nat, e: nat, frac: nat)
    requires
        s <= 1,
        e <= 0x7ffff,
        frac < pow2(236),
        f.bits@ == s * pow2(255) + e * pow2(236) + frac,
    ensures
        sign_of(f) == s,
        bexp(f) == e,
        fraction(f) == frac,
{
    lemma_bits_value(f);
    lemma_fraction_bound(f);
    let p = pow2(236) as int;
    let v = f.bits@ as int;
    lemma_hi_fields(f.bits.hi);
    assert(v == (s * 0x80000 + e) * p + frac) by (nonlinear_arith)
        requires
            v == s * (0x80000 * p) + e * p + frac,
    ;
    assert(v == (sign_of(f) * 0x80000 + bexp(f)) * p + fraction(f)) by (nonlinear_arith)
        requires
            v == sign_of(f) * (0x80000 * p) + bexp(f) * p + fraction(f),
    ;
    lemma_pow2_pos(236);
    crate::uint256::lemma_divmod_unique(v, p, (s * 0x80000 + e) as int, frac as int);
    crate::uint256::lemma_divmod_unique(v, p, (sign_of(f) * 0x80000 + bexp(f)) as int, fraction(f) as int);
    let t = (s * 0x80000 + e) as int;
    crate::uint256::lemma_divmod_unique(t, 0x80000, s as int, e as int);
    crate::uint256::lemma_divmod_unique(t, 0x80000, sign_of(f) as int, bexp(f) as int);
}

/// Two encodings of the same sign, exponent and fraction are equal.
pub proof fn lemma_fields_eq(a: f256, b: f256)
    requires
        sign_of(a) == sign_of(b),
        bexp(a) == bexp(b),
        fraction(a) == fraction(b),
    ensures
        a.bits == b.bits,
{
    lemma_hi_fields(a.bits.hi);
    lemma_hi_fields(b.bits.hi);
    lemma_fraction_bound(a);
    let ha = hi_frac(a) as int;
    let hb = hi_frac(b) as int;
    if ha < hb {
        lemma_mul_inequality(ha + 1, hb, p128() as int);
    } else if hb < ha {
        lemma_mul_inequality(hb + 1, ha, p128() as int);
    }
}

/// The biased exponent as read from the encoding.
pub fn exp_bits(hi: u128) -> (r: u32)
    ensures
        r as nat == ((hi >> 108u32) & 0x7ffffu128) as nat,
        r <= 0x7ffff,
{
    proof {
        lemma_hi_fields(hi);
    }
    ((hi >> 108u32) & 0x7ffffu128) as u32
}

/// Builds an `f256` from its fields.
pub fn from_fields(s: u32, e: u32, hf: u128, lo: u128) -> (r: f256)
    requires
        s <= 1,
        e <= 0x7ffff,
        hf < 0x1000000000000000000000000000u128,
    ensures
        sign_of(r) == s,
        bexp(r) == e,
        hi_frac(r) == hf,
        r.bits.lo == lo,
{
    proof {
        lemma_compose_hi(s as u128, e as u128, hf);
    }
    f256 { bits: u256::new((s as u128) << 127u32 | (e as u128) << 108u32 | hf, lo) }
}

/// Encodes the exact value `(-1)ˢ ⋅ m ⋅ 2⁻²⁶²³⁷⁸ ⋅ 2ᵉ⁻¹` with `0 < m < 2²³⁶`.
pub fn encode_exact(s: u32, m: &u256, e: u32) -> (r: f256)
    requires
        s <= 1,
        0 < m@ < pow2(236),
        1 <= e <= 0x7fffe,
    ensures
        is_finite_spec(r),
        !is_zero_spec(r),
        sign_of(r) == s,
        units(r) == m@ * pow2((e - 1) as nat),
{
    let lz = m.leading_zeros();
    proof {
        lemma_pow2_64_128();
        lemma_pow2_adds(236, 20);
        lemma_pow2_pos(20);
        if lz < 20 {
            vstd::arithmetic::power2::lemma_pow2_strictly_increases(236, (256 - lz - 1) as nat);
        }
        if lz == 256 {
            lemma2_to64();
        }
    }
    let sh = lz - 19;
    if sh < e {
        let mm = m.shl(sh);
        proof {
            // m < 2^(256 - lz), m >= 2^(255 - lz)
            lemma_pow2_adds((256 - lz) as nat, sh as nat);
            lemma_pow2_adds((255 - lz) as nat, sh as nat);
            lemma_pow2_pos(sh as nat);
            lemma_mul_strict_inequality(m@ as int, pow2((256 - lz) as nat) as int, pow2(sh as nat) as int);
            lemma_mul_inequality(pow2((255 - lz) as nat) as int, m@ as int, pow2(sh as nat) as int);
            lemma_pow2_adds(236, 1);
            lemma2_to64();
            vstd::arithmetic::power2::lemma_pow2_strictly_increases(237, 256);
            vstd::arithmetic::div_mod::lemma_small_mod(m@ * pow2(sh as nat), p256());
            assert(pow2(236) <= mm@ < pow2(237));
            // the upper limb holds the hidden bit
            lemma_pow2_adds(108, 128);
            lemma_pow2_adds(109, 128);
            assert(pow2(108) == 0x1000000000000000000000000000nat) by {
                lemma_pow2_adds(64, 44);
                lemma_pow2_adds(32, 12);
                lemma_pow2_adds(8, 4);
            }
            let b = p128() as int;
            assert(mm.hi >= pow2(108)) by {
                if mm.hi < pow2(108) {
                    lemma_mul_inequality(mm.hi as int + 1, pow2(108) as int, b);
                }
            }
            assert(mm.hi < 2 * pow2(108)) by {
                if mm.hi >= 2 * pow2(108) {
                    lemma_mul_inequality(2 * pow2(108) as int, mm.hi as int, b);
                    assert(pow2(109) == 2 * pow2(108)) by {
                        vstd::arithmetic::power2::lemma_pow2_unfold(109);
                    }
                }
            }
        }
        let r = from_fields(s, e - sh, mm.hi - 0x1000000000000000000000000000u128, mm.lo);
        proof {
            lemma_fraction_bound(r);
            assert(fraction(r) + pow2(236) == mm@) by (nonlinear_arith)
                requires
                    fraction(r) == (mm.hi - pow2(108)) * p128() + mm.lo,
                    mm@ == mm.hi * p128() + mm.lo,
                    pow2(236) == pow2(108) * p128(),
            ;
            lemma_pow2_adds(sh as nat, (e - sh - 1) as nat);
            lemma_mul_is_associative(m@ as int, pow2(sh as nat) as int, pow2((e - sh - 1) as nat) as int);
            assert(signif(r) == mm@);
        }
        r
    } else {
        let mm = m.shl(e - 1);
        proof {
            lemma_pow2_adds((256 - lz) as nat, (e - 1) as nat);
            lemma_pow2_pos((e - 1) as nat);
            lemma_mul_strict_inequality(m@ as int, pow2((256 - lz) as nat) as int, pow2((e - 1) as nat) as int);
            if (256 - lz) + (e - 1) < 236 {
                vstd::arithmetic::power2::lemma_pow2_strictly_increases(((256 - lz) + (e - 1)) as nat, 236);
            }
            vstd::arithmetic::power2::lemma_pow2_strictly_increases(236, 256);
            vstd::arithmetic::div_mod::lemma_small_mod(m@ * pow2((e - 1) as nat), p256());
            assert(mm@ < pow2(236));
            lemma_pow2_adds(108, 128);
            assert(pow2(108) == 0x1000000000000000000000000000nat) by {
                lemma_pow2_adds(64, 44);
                lemma_pow2_adds(32, 12);
                lemma_pow2_adds(8, 4);
                lemma2_to64();
            }
            assert(mm.hi < pow2(108)) by {
                if mm.hi >= pow2(108) {
                    lemma_mul_inequality(pow2(108) as int, mm.hi as int, p128() as int);
                }
            }
            lemma_mul_inequality(1, m@ as int, pow2((e - 1) as nat) as int);
        }
        let r = from_fields(s, 0, mm.hi, mm.lo);
        proof {
            lemma_units_simple(r);
        }
        r
    }
}

impl f256 {
    /// 0.0
    pub fn zero() -> (r: Self)
        ensures
            sign_of(r) == 0,
            is_zero_spec(r),
            is_finite_spec(r),
            units(r) == 0,
    {
        let r = from_fields(0, 0, 0, 0);
        proof {
            lemma_units_simple(r);
        }
        r
    }

    /// -0.0
    pub fn neg_zero() -> (r: Self)
        ensures
            sign_of(r) == 1,
            is_zero_spec(r),
            is_finite_spec(r),
            units(r) == 0,
    {
        let r = from_fields(1, 0, 0, 0);
        proof {
            lemma_units_simple(r);
        }
        r
    }

    /// 1.0
    pub fn one() -> (r: Self)
        ensures
            sign_of(r) == 0,
            bexp(r) == EXP_BIAS,
            fraction(r) == 0,
            is_finite_spec(r),
            units(r) == one_units(),
    {
        proof {
            lemma_pow2_adds(236, 262142);
        }
        from_fields(0, EXP_BIAS, 0, 0)
    }

    /// -1.0
    pub fn neg_one() -> (r: Self)
        ensures
            sign_of(r) == 1,
            bexp(r) == EXP_BIAS,
            fraction(r) == 0,
            is_finite_spec(r),
            units(r) == one_units(),
    {
        proof {
            lemma_pow2_adds(236, 262142);
        }
        from_fields(1, EXP_BIAS, 0, 0)
    }

    /// 2.0
    pub fn two() -> (r: Self)
        ensures
            sign_of(r) == 0,
            bexp(r) == EXP_BIAS + 1,
            fraction(r) == 0,
            is_finite_spec(r),
            units(r) == 2 * one_units(),
    {
        proof {
            lemma_pow2_adds(236, 262143);
            lemma_pow2_adds(262378, 1);
            lemma2_to64();
        }
        from_fields(0, EXP_BIAS + 1, 0, 0)
    }

    /// +∞
    pub fn infinity() -> (r: Self)
        ensures
            sign_of(r) == 0,
            is_inf_spec(r),
    {
        from_fields(0, EXP_MAX, 0, 0)
    }

    /// -∞
    pub fn neg_infinity() -> (r: Self)
        ensures
            sign_of(r) == 1,
            is_inf_spec(r),
    {
        from_fields(1, EXP_MAX, 0, 0)
    }

    /// Not a Number (NaN)
    pub fn nan() -> (r: Self)
        ensures
            sign_of(r) == 0,
            is_nan_spec(r),
    {
        from_fields(0, EXP_MAX, 0x800000000000000000000000000u128, 0)
    }

    /// Largest finite value: 2²⁶²¹⁴⁴ - 2²⁶¹⁹⁰⁷
    pub fn max_value() -> (r: Self)
        ensures
            sign_of(r) == 0,
            bexp(r) == EXP_MAX - 1,
            fraction(r) == pow2(236) - 1,
            is_finite_spec(r),
    {
        let r = from_fields(0, EXP_MAX - 1, 0xfffffffffffffffffffffffffffu128, 0xffffffffffffffffffffffffffffffffu128);
        proof {
            lemma_fraction_bound(r);
        }
        r
    }

    /// Smallest finite value: -(2²⁶²¹⁴⁴ - 2²⁶¹⁹⁰⁷)
    pub fn min_value() -> (r: Self)
        ensures
            sign_of(r) == 1,
            bexp(r) == EXP_MAX - 1,
            fraction(r) == pow2(236) - 1,
            is_finite_spec(r),
    {
        let r = from_fields(1, EXP_MAX - 1, 0xfffffffffffffffffffffffffffu128, 0xffffffffffffffffffffffffffffffffu128);
        proof {
            lemma_fraction_bound(r);
        }
        r
    }

    /// Smallest positive normal value: 2⁻²⁶²¹⁴²
    pub fn min_positive() -> (r: Self)
        ensures
            sign_of(r) == 0,
            bexp(r) == 1,
            fraction(r) == 0,
            is_finite_spec(r),
            units(r) == pow2(236),
    {
        let r = from_fields(0, 1, 0, 0);
        proof {
            lemma_units_simple(r);
        }
        r
    }

    /// Smallest positive (subnormal) value: 2⁻²⁶²³⁷⁸
    pub fn min_gt_zero() -> (r: Self)
        ensures
            sign_of(r) == 0,
            bexp(r) == 0,
            fraction(r) == 1,
            is_finite_spec(r),
            units(r) == 1,
    {
        let r = from_fields(0, 0, 0, 1);
        proof {
            lemma_units_simple(r);
        }
        r
    }

    /// Difference between 1.0 and the next larger representable number: 2⁻²³⁶
    pub fn epsilon() -> (r: Self)
        ensures
            sign_of(r) == 0,
            bexp(r) == EXP_BIAS - 236,
            fraction(r) == 0,
            is_finite_spec(r),
            units(r) * pow2(236) == one_units(),
    {
        proof {
            lemma_pow2_adds(236, 261906);
            lemma_pow2_adds(262142, 236);
        }
        from_fields(0, EXP_BIAS - 236, 0, 0)
    }

    /// Returns 0 if `self` is positive (incl. +0, +∞ and NaN with sign bit
    /// cleared), 1 otherwise.
    pub fn sign(&self) -> (r: u32)
        ensures
            r == sign_of(*self),
            r <= 1,
    {
        proof {
            lemma_hi_fields(self.bits.hi);
        }
        (self.bits.hi >> 127u32) as u32
    }

    /// Returns `true` if `self` is NaN.
    pub fn is_nan(&self) -> (r: bool)
        ensures
            r == is_nan_spec(*self),
    {
        let abs_hi = self.bits.hi & HI_ABS_MASK;
        proof {
            self.lemma_abs_hi();
        }
        abs_hi > HI_EXP_MASK || (abs_hi == HI_EXP_MASK && self.bits.lo != 0)
    }

    /// Returns `true` if `self` is positive infinity or negative infinity.
    pub fn is_infinite(&self) -> (r: bool)
        ensures
            r == is_inf_spec(*self),
    {
        let abs_hi = self.bits.hi & HI_ABS_MASK;
        proof {
            self.lemma_abs_hi();
        }
        abs_hi == HI_EXP_MASK && self.bits.lo == 0
    }

    /// Returns `true` if `self` is neither infinite nor NaN.
    pub fn is_finite(&self) -> (r: bool)
        ensures
            r == is_finite_spec(*self),
    {
        let abs_hi = self.bits.hi & HI_ABS_MASK;
        proof {
            self.lemma_abs_hi();
        }
        abs_hi < HI_EXP_MASK
    }

    /// Returns `true` if `self` is +0.0 or -0.0.
    pub fn eq_zero(&self) -> (r: bool)
        ensures
            r == is_zero_spec(*self),
            r == (is_finite_spec(*self) && units(*self) == 0),
    {
        let abs_hi = self.bits.hi & HI_ABS_MASK;
        proof {
            self.lemma_abs_hi();
            self.lemma_units_zero();
        }
        abs_hi == 0 && self.bits.lo == 0
    }

    /// Returns `true` if `self` is either not a number, infinite or equal to
    /// zero.
    pub fn is_special(&self) -> (r: bool)
        ensures
            r == (is_nan_spec(*self) || is_inf_spec(*self) || is_zero_spec(*self)),
    {
        let abs_hi = self.bits.hi & HI_ABS_MASK;
        proof {
            self.lemma_abs_hi();
        }
        abs_hi >= HI_EXP_MASK || (abs_hi == 0 && self.bits.lo == 0)
    }

    /// Returns `true` if `self` is neither zero, infinite, subnormal, nor NaN.
    pub fn is_normal(&self) -> (r: bool)
        ensures
            r == (0 < bexp(*self) < 0x7ffff),
    {
        let e = exp_bits(self.bits.hi);
        0 < e && e < EXP_MAX
    }

    /// Returns `true` if `self` is subnormal.
    pub fn is_subnormal(&self) -> (r: bool)
        ensures
            r == (bexp(*self) == 0 && fraction(*self) != 0),
    {
        let abs_hi = self.bits.hi & HI_ABS_MASK;
        proof {
            self.lemma_abs_hi();
        }
        abs_hi < 0x1000000000000000000000000000u128 && (abs_hi != 0 || self.bits.lo != 0)
    }

    /// Returns `true` if `self` has a positive sign, including +0.0, positive
    /// infinity and NaN with positive sign bit.
    pub fn is_sign_positive(&self) -> (r: bool)
        ensures
            r == (sign_of(*self) == 0),
    {
        self.sign() == 0
    }

    /// Returns `true` if `self` has a negative sign, including -0.0,
    /// negative infinity and NaN with negative sign bit.
    pub fn is_sign_negative(&self) -> (r: bool)
        ensures
            r == (sign_of(*self) == 1),
    {
        self.sign() == 1
    }

    proof fn lemma_abs_hi(&self)
        ensures
            (self.bits.hi & 0x7fffffffffffffffffffffffffffffffu128) as int
                == bexp(*self) * 0x1000000000000000000000000000int + hi_frac(*self),
            bexp(*self) <= 0x7ffff,
            hi_frac(*self) < p108(),
            ((self.bits.hi & 0x7fffffffffffffffffffffffffffffffu128) > 0x7ffff000000000000000000000000000u128)
                == (bexp(*self) == 0x7ffff && hi_frac(*self) != 0),
            ((self.bits.hi & 0x7fffffffffffffffffffffffffffffffu128) == 0x7ffff000000000000000000000000000u128)
                == (bexp(*self) == 0x7ffff && hi_frac(*self) == 0),
            ((self.bits.hi & 0x7fffffffffffffffffffffffffffffffu128) < 0x7ffff000000000000000000000000000u128)
                == (bexp(*self) < 0x7ffff),
            ((self.bits.hi & 0x7fffffffffffffffffffffffffffffffu128) < 0x1000000000000000000000000000u128)
                == (bexp(*self) == 0),
            ((self.bits.hi & 0x7fffffffffffffffffffffffffffffffu128) == 0)
                == (bexp(*self) == 0 && hi_frac(*self) == 0),
            (hi_frac(*self) == 0 && self.bits.lo == 0) == (fraction(*self) == 0),
    {
        let hi = self.bits.hi;
        assert((hi & 0x7fffffffffffffffffffffffffffffffu128) as int
            == ((hi >> 108u32) & 0x7ffffu128) as int * 0x1000000000000000000000000000int
            + (hi & 0xfffffffffffffffffffffffffffu128) as int) by (bit_vector);
        lemma_hi_fields(hi);
        lemma_fraction_bound(*self);
        lemma_mul_nonnegative(hi_frac(*self) as int, p128() as int);
        if hi_frac(*self) > 0 {
            lemma_mul_inequality(1, hi_frac(*self) as int, p128() as int);
        }
    }

    proof fn lemma_units_zero(&self)
        ensures
            units(*self) == 0 <==> signif(*self) == 0,
            signif(*self) == 0 <==> (bexp(*self) == 0 && fraction(*self) == 0),
    {
        lemma_pow2_pos(quantum_shift(*self));
        lemma_pow2_pos(236);
        if signif(*self) > 0 {
            lemma_mul_inequality(1, signif(*self) as int, pow2(quantum_shift(*self)) as int);
        }
    }

    /// Computes the absolute value of `self`.
    pub fn abs(&self) -> (r: Self)
        ensures
            r == abs_of(*self),
            sign_of(r) == 0,
            bexp(r) == bexp(*self),
            fraction(r) == fraction(*self),
            units(r) == units(*self),
    {
        let hi = self.bits.hi;
        proof {
            assert((hi & 0x7fffffffffffffffffffffffffffffffu128) >> 127u32 == 0) by (bit_vector);
            assert(((hi & 0x7fffffffffffffffffffffffffffffffu128) >> 108u32) & 0x7ffffu128
                == (hi >> 108u32) & 0x7ffffu128) by (bit_vector);
            assert((hi & 0x7fffffffffffffffffffffffffffffffu128) & 0xfffffffffffffffffffffffffffu128
                == hi & 0xfffffffffffffffffffffffffffu128) by (bit_vector);
        }
        Self { bits: u256::new(hi & HI_ABS_MASK, self.bits.lo) }
    }

    /// Returns `self` with its sign bit flipped.
    pub fn negated(&self) -> (r: Self)
        ensures
            sign_of(r) == 1 - sign_of(*self),
            bexp(r) == bexp(*self),
            fraction(r) == fraction(*self),
            units(r) == units(*self),
    {
        let hi = self.bits.hi;
        proof {
            lemma_hi_fields(hi);
            assert((hi ^ 0x80000000000000000000000000000000u128) >> 127u32 == 1 - (hi >> 127u32)) by (bit_vector);
            assert(((hi ^ 0x80000000000000000000000000000000u128) >> 108u32) & 0x7ffffu128
                == (hi >> 108u32) & 0x7ffffu128) by (bit_vector);
            assert((hi ^ 0x80000000000000000000000000000000u128) & 0xfffffffffffffffffffffffffffu128
                == hi & 0xfffffffffffffffffffffffffffu128) by (bit_vector);
        }
        Self { bits: u256::new(hi ^ HI_SIGN_MASK, self.bits.lo) }
    }

    /// Performs the unary `-` operation.
    pub fn neg(&self) -> (r: Self)
        ensures
            sign_of(r) == 1 - sign_of(*self),
            bexp(r) == bexp(*self),
            fraction(r) == fraction(*self),
            units(r) == units(*self),
    {
        self.negated()
    }

    /// Returns `self` with the sign of `other`.
    pub fn copysign(&self, other: &Self) -> (r: Self)
        ensures
            sign_of(r) == sign_of(*other),
            bexp(r) == bexp(*self),
            fraction(r) == fraction(*self),
            units(r) == units(*self),
    {
        let a = self.abs();
        proof {
            lemma_hi_fields(other.bits.hi);
        }
        if other.is_sign_negative() {
            a.negated()
        } else {
            a
        }
    }

    /// IEEE 754 equality: NaN is unequal to everything, +0 equals -0.
    pub fn eq_ieee(&self, other: &Self) -> (r: bool)
        ensures
            r == ieee_eq(*self, *other),
    {
        if self.is_nan() || other.is_nan() {
            false
        } else if self.eq_zero() && other.eq_zero() {
            true
        } else {
            self.bits.hi == other.bits.hi && self.bits.lo == other.bits.lo
        }
    }
}

/// IEEE 754 equality of two encodings.
pub open spec fn ieee_eq(a: f256, b: f256) -> bool {
    &&& !is_nan_spec(a)
    &&& !is_nan_spec(b)
    &&& (a.bits == b.bits || (is_zero_spec(a) && is_zero_spec(b)))
}

impl PartialEq for f256 {
    fn eq(&self, other: &Self) -> (r: bool) {
        self.eq_ieee(other)
    }
}

impl vstd::std_specs::cmp::PartialEqSpecImpl for f256 {
    open spec fn obeys_eq_spec() -> bool {
        true
    }

    open spec fn eq_spec(&self, other: &Self) -> bool {
        ieee_eq(*self, *other)
    }
}

} // verus!
