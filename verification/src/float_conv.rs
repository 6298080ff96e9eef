//! Conversions between [`Float`] and `f256` and from integers.
use vstd::prelude::*;
use vstd::arithmetic::power2::{pow2, lemma_pow2_pos, lemma_pow2_adds, lemma_pow2_unfold, lemma2_to64,
    lemma_pow2_strictly_increases};
use vstd::arithmetic::div_mod::lemma_small_mod;
use vstd::arithmetic::mul::{lemma_mul_inequality, lemma_mul_strict_inequality, lemma_mul_is_associative,
    lemma_mul_is_commutative};
use crate::bits::{p128, p256, lemma_pow2_64_128};
use crate::uint256::{u256, is_lz, div_pow2_round, lemma_u256_bound};
use crate::binary256::{f256, sign_of, bexp, hi_frac, fraction, signif, units, quantum_shift, p108,
    is_finite_spec, is_inf_spec, is_zero_spec, exp_bits, from_fields, lemma_hi_fields, lemma_fraction_bound,
    HI_FRACTION_MASK};
use crate::big_float::Float;

verus! {

/// The magnitude of `r` is `u` units of 2⁻²⁶²³⁷⁸ (the quantum of the
/// subnormal `f256` numbers).
pub open spec fn float_units_eq(r: Float, u: nat) -> bool {
    let t = r.exp + 262124;
    if t >= 0 {
        r.signif@ * pow2(t as nat) == u
    } else {
        r.signif@ == u * pow2((-t) as nat)
    }
}

/// `r` is the exact, normalized representation of the finite `f256` value
/// `f`.
pub open spec fn is_exact_float_of(f: f256, r: Float) -> bool {
    &&& r.wf()
    &&& is_zero_spec(f) ==> r == Float::zero_spec()
    &&& !is_zero_spec(f) ==> {
        &&& r.signum == (if sign_of(f) == 1 { -1int } else { 1int })
        &&& float_units_eq(r, units(f))
        &&& bexp(f) != 0 ==> r.signif@ == signif(f) * pow2(18) && r.exp == bexp(f) - 262143
        &&& bexp(f) == 0 ==> r.exp < -262142 && r.signif@ == signif(f) * pow2((-262124 - r.exp) as nat)
    }
}

/// `f256` value of the non-zero [`Float`] `fp`, rounded to nearest, ties to
/// even: `r` has the sign of `fp`, and its magnitude is the rounded
/// magnitude of `fp`, or infinity where that exceeds the range of `f256`.
pub open spec fn is_rounded_f256(fp: Float, r: f256) -> bool {
    let sgn: nat = if fp.signum < 0 { 1 } else { 0 };
    let m = div_pow2_round(fp.signif@, 18);
    &&& sign_of(r) == sgn
    &&& fp.exp >= 262144 ==> is_inf_spec(r)
    &&& -262142 <= fp.exp <= 262143 ==> {
        if fp.exp == 262143 && m == pow2(237) {
            is_inf_spec(r)
        } else {
            is_finite_spec(r) && units(r) == m * pow2((fp.exp + 262142) as nat)
        }
    }
    &&& fp.exp < -262142 ==> is_finite_spec(r)
        && units(r) == div_pow2_round(fp.signif@, (18 - 262142 - fp.exp) as nat)
}

/// `r` is the `f256` value nearest to the [`Float`] `f`.
pub open spec fn is_f256_of_float(f: Float, r: f256) -> bool {
    &&& f.signum == 0 ==> sign_of(r) == 0 && is_zero_spec(r)
    &&& f.signum != 0 ==> is_rounded_f256(f, r)
}

impl Float {
    /// Interprets the raw significand `ui` as `ui⋅2⁻²⁵⁴`, without any
    /// modification.
    pub fn from_u256(ui: &u256) -> (r: Self)
        ensures
            r.signum == 1,
            r.exp == 0,
            r.signif == *ui,
    {
        Float { signum: 1, exp: 0, signif: *ui }
    }

    /// Converts the integer `i` exactly.
    pub fn from_i32(i: i32) -> (r: Self)
        ensures
            r.wf(),
            i == 0 ==> r == Float::zero_spec(),
            i != 0 ==> {
                &&& r.signum == (if i < 0 { -1int } else { 1int })
                &&& r.exp <= 254
                &&& r.signif@ == (if i < 0 { -i } else { i as int }) * pow2((254 - r.exp) as nat)
            },
    {
        let a: u128 = if i < 0 { (-(i as i64)) as u128 } else { i as u128 };
        let s: u32 = if i < 0 { 1 } else { 0 };
        proof {
            lemma_pow2_64_128();
            vstd::arithmetic::mul::lemma_mul_basics(p128() as int);
            lemma_pow2_strictly_increases(128, 255);
        }
        Self::from_sign_exp_signif(s, 0, (0, a))
    }

    /// Converts the finite `f256` value `f` exactly.
    pub fn from_f256(f: &f256) -> (r: Self)
        requires
            is_finite_spec(*f),
        ensures
            is_exact_float_of(*f, r),
    {
        if f.eq_zero() {
            return Self::zero();
        }
        let s = f.sign();
        let e = exp_bits(f.bits.hi);
        let hf = f.bits.hi & HI_FRACTION_MASK;
        proof {
            lemma_hi_fields(f.bits.hi);
            lemma_fraction_bound(*f);
            lemma_pow2_64_128();
            lemma2_to64();
            lemma_pow2_adds(108, 128);
            assert(pow2(108) == p108()) by {
                lemma_pow2_adds(64, 44);
                lemma_pow2_adds(32, 12);
                lemma_pow2_adds(8, 4);
            }
        }
        let h: u128 = if e == 0 { hf } else { hf + 0x1000_0000_0000_0000_0000_0000_0000u128 };
        let mut m = u256::new(h, f.bits.lo);
        proof {
            assert(m@ == signif(*f));
            assert(m@ != 0) by {
                if e == 0 {
                    assert(fraction(*f) != 0);
                }
            }
        }
        let lz = m.leading_zeros();
        proof {
            if lz < 19 {
                lemma_pow2_strictly_increases(237, (255 - lz) as nat);
            }
            if lz == 256 {
                assert(false);
            }
        }
        let shl = lz - 1;
        m.shl_assign(shl);
        let q: i32 = if e == 0 { 0 } else { e as i32 - 1 };
        let exp = q - 262124 - shl as i32;
        proof {
            let sg = signif(*f);
            lemma_pow2_adds((256 - lz) as nat, shl as nat);
            lemma_pow2_adds((255 - lz) as nat, shl as nat);
            lemma_pow2_pos(shl as nat);
            lemma_mul_strict_inequality(sg as int, pow2((256 - lz) as nat) as int, pow2(shl as nat) as int);
            lemma_mul_inequality(pow2((255 - lz) as nat) as int, sg as int, pow2(shl as nat) as int);
            lemma_pow2_strictly_increases(255, 256);
            lemma_small_mod(sg * pow2(shl as nat), p256());
            assert(m@ == sg * pow2(shl as nat));
            assert(q == quantum_shift(*f));
            let t = exp + 262124;
            assert(t == q - shl);
            if e != 0 {
                assert(sg >= pow2(236));
                if lz > 20 {
                    lemma_pow2_strictly_increases((256 - lz) as nat, 236);
                }
                assert(lz == 19);
            } else {
                assert(sg < pow2(236));
                if lz < 20 {
                    lemma_pow2_strictly_increases(236, (255 - lz) as nat);
                }
            }
            if t >= 0 {
                lemma_pow2_adds(shl as nat, t as nat);
                lemma_mul_is_associative(sg as int, pow2(shl as nat) as int, pow2(t as nat) as int);
            } else {
                lemma_pow2_adds(q as nat, (-t) as nat);
                lemma_mul_is_associative(sg as int, pow2(q as nat) as int, pow2((-t) as nat) as int);
            }
        }
        Float { signum: if s == 1 { -1 } else { 1 }, exp, signif: m }
    }
}

/// The encoding of `m⋅2ᵉ⁻¹` units, for a significand `2²³⁶ <= m <= 2²³⁷`.
pub(crate) fn encode_normal(s: u32, m: &u256, e: u32) -> (r: f256)
    requires
        s <= 1,
        pow2(236) <= m@ <= pow2(237),
        1 <= e <= 0x7fffe,
    ensures
        sign_of(r) == s,
        e == 0x7fffe && m@ == pow2(237) ==> is_inf_spec(r),
        !(e == 0x7fffe && m@ == pow2(237)) ==> is_finite_spec(r) && units(r) == m@ * pow2((e - 1) as nat),
{
    proof {
        lemma_pow2_64_128();
        lemma2_to64();
        lemma_pow2_adds(108, 128);
        lemma_pow2_adds(109, 128);
        lemma_pow2_unfold(109);
        lemma_pow2_unfold(237);
        assert(pow2(108) == p108()) by {
            lemma_pow2_adds(64, 44);
            lemma_pow2_adds(32, 12);
            lemma_pow2_adds(8, 4);
        }
        let b = p128() as int;
        assert(m.hi >= pow2(108)) by {
            if m.hi < pow2(108) {
                lemma_mul_inequality(m.hi as int + 1, pow2(108) as int, b);
            }
        }
        assert(m.hi <= pow2(109)) by {
            if m.hi > pow2(109) {
                lemma_mul_inequality(pow2(109) as int + 1, m.hi as int, b);
                assert((pow2(109) as int + 1) * b == pow2(109) * b + b) by (nonlinear_arith);
            }
        }
    }
    if m.hi == 0x2000_0000_0000_0000_0000_0000_0000u128 {
        let r = from_fields(s, e + 1, 0, 0);
        proof {
            lemma_fraction_bound(r);
            assert(m.lo == 0) by {
                if m.lo > 0 {
                    assert(m@ > pow2(237));
                }
            }
            vstd::arithmetic::mul::lemma_mul_basics(p128() as int);
            if e + 1 < 0x7ffff {
                lemma_pow2_adds(236, (e - 1) as nat);
                lemma_pow2_adds(237, (e - 1) as nat);
                lemma_pow2_adds(236, e as nat);
                lemma_pow2_unfold(e as nat);
                lemma_mul_is_associative(2, pow2(236) as int, pow2((e - 1) as nat) as int);
            }
        }
        r
    } else {
        let r = from_fields(s, e, m.hi - 0x1000_0000_0000_0000_0000_0000_0000u128, m.lo);
        proof {
            lemma_fraction_bound(r);
            assert(m.hi < pow2(109));
            assert(fraction(r) + pow2(236) == m@) by (nonlinear_arith)
                requires
                    fraction(r) == (m.hi - pow2(108)) * p128() + m.lo,
                    m@ == m.hi * p128() + m.lo,
                    pow2(236) == pow2(108) * p128(),
            ;
        }
        r
    }
}

impl f256 {
    /// Converts the [`Float`] `fp` into the nearest `f256` value (ties to
    /// even); values beyond the range of `f256` become infinite.
    pub fn from_float(fp: &Float) -> (r: f256)
        requires
            fp.wf(),
        ensures
            fp.signum == 0 ==> sign_of(r) == 0 && is_zero_spec(r),
            fp.signum != 0 ==> is_rounded_f256(*fp, r),
    {
        if fp.is_zero() {
            return f256::zero();
        }
        let s: u32 = if fp.signum < 0 { 1 } else { 0 };
        proof {
            lemma_pow2_64_128();
            lemma2_to64();
        }
        if fp.exp <= -262380 {
            let r = from_fields(s, 0, 0, 0);
            proof {
                let k = (18 - 262142 - fp.exp) as nat;
                lemma_fraction_bound(r);
                vstd::arithmetic::mul::lemma_mul_basics(p128() as int);
                assert(units(r) == 0) by {
                    vstd::arithmetic::mul::lemma_mul_basics(pow2(quantum_shift(r)) as int);
                }
                lemma_pow2_strictly_increases(255, k);
                lemma_pow2_unfold(k);
                lemma_pow2_pos((k - 1) as nat);
                if k - 1 > 255 {
                    lemma_pow2_strictly_increases(255, (k - 1) as nat);
                }
                lemma_small_mod(fp.signif@, pow2(k));
                vstd::arithmetic::div_mod::lemma_basic_div(fp.signif@ as int, pow2(k) as int);
            }
            r
        } else if fp.exp < -262142 {
            let k = (18 - 262142 - fp.exp) as u32;
            let mut m = fp.signif;
            m.idiv_pow2(k);
            proof {
                lemma_pow2_adds(108, 128);
                assert(pow2(108) == p108()) by {
                    lemma_pow2_adds(64, 44);
                    lemma_pow2_adds(32, 12);
                    lemma_pow2_adds(8, 4);
                }
                // m <= 2²³⁶
                lemma_pow2_adds(236, k as nat);
                lemma_pow2_pos(k as nat);
                lemma_pow2_pos(236);
                if 236 + k > 255 {
                    lemma_pow2_strictly_increases(255, 236 + k as nat);
                }
                lemma_mul_is_commutative(pow2(k as nat) as int, pow2(236) as int);
                crate::bits::lemma_div_strictly_bounded(fp.signif@ as int, pow2(k as nat) as int, pow2(236) as int);
                let b = p128() as int;
                if m.hi >= pow2(108) && m@ != pow2(236) {
                    lemma_mul_inequality(pow2(108) as int, m.hi as int, b);
                    assert(m@ > pow2(236));
                }
            }
            if m.hi == 0x1000_0000_0000_0000_0000_0000_0000u128 {
                let r = from_fields(s, 1, 0, 0);
                proof {
                    lemma_fraction_bound(r);
                    vstd::arithmetic::mul::lemma_mul_basics(p128() as int);
                    crate::binary256::lemma_units_simple(r);
                    assert(m.lo == 0) by {
                        if m.lo > 0 {
                            assert(m@ > pow2(236));
                        }
                    }
                }
                r
            } else {
                let r = from_fields(s, 0, m.hi, m.lo);
                proof {
                    lemma_fraction_bound(r);
                    crate::binary256::lemma_units_simple(r);
                }
                r
            }
        } else if fp.exp <= 262143 {
            let mut m = fp.signif;
            m.idiv_pow2(18);
            let e = (fp.exp + 262143) as u32;
            proof {
                lemma_pow2_adds(236, 18);
                lemma_pow2_adds(237, 18);
                lemma_pow2_pos(18);
                lemma_mul_is_commutative(pow2(18) as int, pow2(237) as int);
                crate::bits::lemma_div_strictly_bounded(fp.signif@ as int, pow2(18) as int, pow2(237) as int);
                vstd::arithmetic::div_mod::lemma_div_is_ordered((pow2(18) * pow2(236)) as int, fp.signif@ as int,
                    pow2(18) as int);
                vstd::arithmetic::div_mod::lemma_div_multiples_vanish(pow2(236) as int, pow2(18) as int);
                lemma_mul_is_commutative(pow2(18) as int, pow2(236) as int);
                assert(pow2(236) <= m@ <= pow2(237));
            }
            encode_normal(s, &m, e)
        } else {
            let r = from_fields(s, 0x7ffff, 0, 0);
            proof {
                lemma_fraction_bound(r);
                vstd::arithmetic::mul::lemma_mul_basics(p128() as int);
            }
            r
        }
    }
}

/// Rounding an exact multiple of 2ᵏ to a multiple of 2ᵏ changes nothing.
proof fn lemma_round_exact(x: nat, k: nat)
    requires
        k > 0,
    ensures
        div_pow2_round(x * pow2(k), k) == x,
{
    lemma_pow2_pos(k);
    lemma_mul_is_commutative(x as int, pow2(k) as int);
    vstd::arithmetic::div_mod::lemma_div_multiples_vanish(x as int, pow2(k) as int);
    vstd::arithmetic::div_mod::lemma_mod_multiples_basic(x as int, pow2(k) as int);
    lemma_pow2_unfold(k);
    lemma_pow2_pos((k - 1) as nat);
}

/// Converting a finite `f256` value into a [`Float`] and back gives the
/// same value.
pub proof fn lemma_f256_float_roundtrip(f: f256, fp: Float, g: f256)
    requires
        is_finite_spec(f),
        !is_zero_spec(f),
        is_exact_float_of(f, fp),
        is_rounded_f256(fp, g),
    ensures
        is_finite_spec(g),
        sign_of(g) == sign_of(f),
        units(g) == units(f),
{
    lemma_hi_fields(f.bits.hi);
    lemma_fraction_bound(f);
    if bexp(f) != 0 {
        lemma_round_exact(signif(f), 18);
        lemma_pow2_strictly_increases(236, 237);
        assert(fp.exp + 262142 == quantum_shift(f));
        assert(units(g) == signif(f) * pow2(quantum_shift(f)));
    } else {
        lemma2_to64();
        let k = (-262124 - fp.exp) as nat;
        assert((18 - 262142 - fp.exp) as nat == k);
        lemma_round_exact(signif(f), k);
        assert(quantum_shift(f) == 0);
        vstd::arithmetic::mul::lemma_mul_basics(signif(f) as int);
    }
}

} // verus!
