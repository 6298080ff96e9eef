//! Fused multiply-add of [`Float`] values: `x⋅f + a` with one rounding of
//! the 512-bit intermediate sum.
use vstd::prelude::*;
use vstd::arithmetic::power2::{pow2, lemma_pow2_pos, lemma_pow2_adds, lemma_pow2_unfold, lemma2_to64,
    lemma_pow2_strictly_increases};
use vstd::arithmetic::div_mod::{lemma_small_mod, lemma_fundamental_div_mod, lemma_mod_bound};
use vstd::arithmetic::mul::{lemma_mul_inequality, lemma_mul_strict_inequality, lemma_mul_is_commutative,
    lemma_mul_nonnegative};
use crate::bits::{p128, p256, lemma_pow2_64_128};
use crate::uint256::{u256, is_lz, div_pow2_round, lemma_u256_bound, lemma_divmod_unique, lemma_odd_lo_pub};
use crate::uint512::{u512, p512, lemma_u512_bound, lemma_rem_to_top, lemma_u512_order};
use crate::big_float::Float;
use crate::float_mul::{mul_signifs, product, parts};

verus! {

/// `v / 2ᵏ` with the lowest bit set where bits shifted out were not all
/// zero ("sticky" bit).
pub open spec fn sticky_shr(v: nat, k: nat) -> nat {
    let q = v / pow2(k);
    if v % pow2(k) != 0 && q % 2 == 0 {
        q + 1
    } else {
        q
    }
}

/// The aligned operands of the fused multiply-add `x⋅f + a`, each as
/// 512-bit significand with its leading bit at position 510: sign,
/// significand and exponent of the operand with the larger magnitude
/// (or exponent) and the significand of the other one, shifted right to
/// the same exponent with a sticky bit.
pub open spec fn fma_operands(x: Float, f: Float, a: Float) -> (int, nat, int, nat) {
    let p = x.signif@ * f.signif@;
    let adj: int = if p >= pow2(509) { 1 } else { 0 };
    let pp = p * pow2((2 - adj) as nat);
    let pe = x.exp + f.exp + adj;
    let ps = x.signum * f.signum;
    let aa = a.signif@ * p256();
    let d = pe - a.exp;
    if d == 0 {
        if pp >= aa {
            (ps, pp, pe, aa)
        } else {
            (a.signum as int, aa, a.exp as int, pp)
        }
    } else if d > 0 {
        (ps, pp, pe, sticky_shr(aa, d as nat))
    } else {
        (a.signum as int, aa, a.exp as int, sticky_shr(pp, (-d) as nat))
    }
}

/// `r` is the normalized and rounded difference `d` of aligned
/// significands at exponent `xe`, where `d⋅2ˢʰ` has its leading bit at
/// position 510.
pub open spec fn is_rounded_difference(r: Float, xs: int, xe: int, d: nat, sh: nat) -> bool {
    let e = xe - sh;
    &&& r.signum == xs
    &&& sh < 256 ==> {
        let m = div_pow2_round(d, (256 - sh) as nat);
        if m == pow2(255) {
            r.exp == e + 1 && r.signif@ == pow2(254)
        } else {
            r.exp == e && r.signif@ == m
        }
    }
    &&& sh >= 256 ==> r.exp == e && r.signif@ == d * pow2((sh - 256) as nat)
}

/// The result of the fused multiply-add `x⋅f + a` as
/// [`Float::imul_add`] computes it.
pub open spec fn is_fma_result(x: Float, f: Float, a: Float, r: Float) -> bool {
    let d0 = x.exp + f.exp - a.exp;
    if x.signum == 0 || f.signum == 0 {
        r == a
    } else if a.signum == 0 || d0 >= 511 {
        parts(r) == product(x, f)
    } else if d0 <= -256 {
        r == a
    } else {
        let (xs, xx, xe, yy) = fma_operands(x, f, a);
        if x.signum * f.signum == a.signum {
            let s = xx + yy;
            let ovl: int = if s >= pow2(511) { 1 } else { 0 };
            let m = div_pow2_round(s, (256 + ovl) as nat);
            &&& r.signum == xs
            &&& m == pow2(255) ==> r.exp == xe + ovl + 1 && r.signif@ == pow2(254)
            &&& m != pow2(255) ==> r.exp == xe + ovl && r.signif@ == m
        } else {
            let d = xx - yy;
            &&& d == 0 ==> r == Float::zero_spec()
            &&& d != 0 ==> exists|sh: nat| sh <= 510 && pow2(510) <= d * pow2(sh) < pow2(511)
                && #[trigger] is_rounded_difference(r, xs, xe, d as nat, sh)
        }
    }
}

/// Setting the lowest bit of a `u128`.
proof fn lemma_or_one(l: u128)
    ensures
        (l | 1) as int == l + (if l % 2 == 0 { 1int } else { 0int }),
{
    assert((l | 1) == (if l % 2 == 0 { (l + 1) as u128 } else { l })) by (bit_vector);
}

/// The parity of a `u512` is the parity of its lowest limb.
proof fn lemma_u512_parity(v: u512)
    ensures
        v@ % 2 == v.lo.lo % 2,
{
    lemma_odd_lo_pub(v.lo);
    lemma_pow2_64_128();
    let bb = p256() as int;
    assert(bb == 2 * (bb / 2));
    vstd::arithmetic::div_mod::lemma_mod_multiples_vanish(v.hi@ * (bb / 2), v.lo@ as int, 2);
    assert(v.hi@ * bb == (v.hi@ * (bb / 2)) * 2) by (nonlinear_arith)
        requires
            bb == 2 * (bb / 2),
    ;
}

/// The parity of a `u512` is the parity of its lowest limb.
pub proof fn lemma_u512_parity_pub(v: u512)
    ensures
        v@ % 2 == v.lo.lo % 2,
{
    lemma_u512_parity(v);
}

/// Shifts `v` right by `k` bits and sets the lowest bit of the result if
/// any bit shifted out was set.
fn shr_sticky(v: &u512, k: u32) -> (r: u512)
    requires
        1 <= k <= 511,
    ensures
        r@ == sticky_shr(v@, k as nat),
{
    let mut q = v.shr_any(k);
    let t = v.shl_any(512 - k);
    proof {
        lemma_rem_to_top(v@, k as nat, t@);
        lemma_u512_parity(q);
    }
    if !t.is_zero() {
        let ghost q0 = q;
        q.lo.lo = q.lo.lo | 1;
        proof {
            lemma_or_one(q0.lo.lo);
            assert(q.lo@ == q0.lo@ + (if q0.lo.lo % 2 == 0 { 1int } else { 0int }));
        }
    }
    q
}

/// `v / 2ᵏ`, rounded to nearest, ties to even.
pub(crate) fn round_shr(v: &u512, k: u32) -> (r: u512)
    requires
        1 <= k <= 511,
    ensures
        r@ == div_pow2_round(v@, k as nat),
{
    let mut q = v.shr_any(k);
    let t = v.shl_any(512 - k);
    let tie = u512::from_hi_lo(u256::new(0x8000_0000_0000_0000_0000_0000_0000_0000u128, 0), u256::zero());
    proof {
        lemma_rem_to_top(v@, k as nat, t@);
        lemma_u512_parity(q);
        lemma_pow2_64_128();
        lemma_pow2_adds(127, 128);
        lemma_pow2_adds(255, 256);
        assert(pow2(127) == 0x8000_0000_0000_0000_0000_0000_0000_0000nat) by {
            lemma_pow2_adds(64, 63);
            lemma_pow2_adds(32, 31);
            lemma2_to64();
        }
        vstd::arithmetic::mul::lemma_mul_basics(p256() as int);
        assert(tie@ == pow2(511));
    }
    let gt = tie.lt(&t);
    let eq = !gt && !t.lt(&tie);
    let odd = (q.lo.lo & 1) == 1;
    proof {
        let l = q.lo.lo;
        assert((l & 1) == l % 2) by (bit_vector);
    }
    if gt || (eq && odd) {
        let ghost q0 = q@;
        let one = u512::from_hi_lo(u256::zero(), u256::new(0, 1));
        q.add_assign(&one);
        proof {
            lemma_pow2_pos(k as nat);
            lemma_pow2_unfold(k as nat);
            lemma_pow2_pos((k - 1) as nat);
            vstd::arithmetic::div_mod::lemma_div_is_ordered_by_denominator(v@ as int, 2, pow2(k as nat) as int);
            lemma_u512_bound(*v);
            lemma_pow2_unfold(512);
            crate::bits::lemma_div_strictly_bounded(v@ as int, 2, pow2(511) as int);
            lemma_pow2_adds(256, 256);
            vstd::arithmetic::mul::lemma_mul_basics(p256() as int);
            lemma_small_mod((q0 + 1) as nat, p512());
        }
    }
    q
}

/// Aligned significand at the scale 2⁵¹⁰: `2⁵¹⁰ <= a⋅2²⁵⁶ < 2⁵¹¹`.
proof fn lemma_addend_range(a: nat)
    requires
        pow2(254) <= a < pow2(255),
    ensures
        pow2(510) <= a * p256() < pow2(511),
{
    lemma_pow2_64_128();
    lemma_pow2_adds(254, 256);
    lemma_pow2_adds(255, 256);
    lemma_pow2_pos(256);
    lemma_mul_inequality(pow2(254) as int, a as int, p256() as int);
    lemma_mul_strict_inequality(a as int, pow2(255) as int, p256() as int);
}

/// A sticky shift by at least one bit of a value below 2⁵¹¹ stays at or
/// below 2⁵¹⁰.
proof fn lemma_sticky_range(v: nat, k: nat)
    requires
        v < pow2(511),
        k >= 1,
    ensures
        sticky_shr(v, k) <= pow2(510),
        sticky_shr(v, k) <= v,
{
    lemma_pow2_pos(k);
    lemma_pow2_unfold(511);
    lemma_pow2_unfold(k);
    lemma_pow2_pos((k - 1) as nat);
    vstd::arithmetic::div_mod::lemma_div_is_ordered_by_denominator(v as int, 2, pow2(k) as int);
    crate::bits::lemma_div_strictly_bounded(v as int, 2, pow2(510) as int);
    vstd::arithmetic::div_mod::lemma_div_is_ordered_by_denominator(v as int, 1, pow2(k) as int);
    vstd::arithmetic::div_mod::lemma_div_basics(v as int);
    if v % pow2(k) != 0 {
        lemma_fundamental_div_mod(v as int, pow2(k) as int);
        lemma_mul_inequality(2, pow2(k) as int, (v / pow2(k)) as int);
        lemma_mul_is_commutative(pow2(k) as int, (v / pow2(k)) as int);
    }
}

/// Rounding a value in `[2²⁵⁴⁺ᵏ, 2²⁵⁵⁺ᵏ)` by `2ᵏ` gives a value in
/// `[2²⁵⁴, 2²⁵⁵]`.
pub proof fn lemma_round_range_pub(v: nat, k: nat)
    requires
        k >= 1,
        pow2(254 + k) <= v < pow2(255 + k),
    ensures
        pow2(254) <= div_pow2_round(v, k) <= pow2(255),
{
    lemma_round_range(v, k);
}

/// Rounding a value in `[2²⁵⁴⁺ᵏ, 2²⁵⁵⁺ᵏ)` by `2ᵏ` gives a value in
/// `[2²⁵⁴, 2²⁵⁵]`.
proof fn lemma_round_range(v: nat, k: nat)
    requires
        k >= 1,
        pow2(254 + k) <= v < pow2(255 + k),
    ensures
        pow2(254) <= div_pow2_round(v, k) <= pow2(255),
{
    lemma_pow2_adds(254, k);
    lemma_pow2_adds(255, k);
    lemma_pow2_pos(k);
    lemma_mul_is_commutative(pow2(k) as int, pow2(255) as int);
    lemma_mul_is_commutative(pow2(k) as int, pow2(254) as int);
    crate::bits::lemma_div_strictly_bounded(v as int, pow2(k) as int, pow2(255) as int);
    vstd::arithmetic::div_mod::lemma_div_is_ordered((pow2(k) * pow2(254)) as int, v as int, pow2(k) as int);
    vstd::arithmetic::div_mod::lemma_div_multiples_vanish(pow2(254) as int, pow2(k) as int);
}

/// Adds the aligned significands `x` and `y` and rounds the sum to 255
/// bits.
fn fma_add_round(x: &u512, y: &u512, xe: i32, xs: i32) -> (r: Float)
    requires
        pow2(510) <= x@ < pow2(511),
        y@ <= x@,
        xs == 1 || xs == -1,
        -0x7fff_0000 <= xe <= 0x7fff_0000,
    ensures
        r.wf(),
        ({
            let s = x@ + y@;
            let ovl: int = if s >= pow2(511) { 1 } else { 0 };
            let m = div_pow2_round(s, (256 + ovl) as nat);
            &&& r.signum == xs
            &&& m == pow2(255) ==> r.exp == xe + ovl + 1 && r.signif@ == pow2(254)
            &&& m != pow2(255) ==> r.exp == xe + ovl && r.signif@ == m
        }),
{
    proof {
        lemma_pow2_64_128();
        lemma_pow2_adds(256, 256);
        lemma_pow2_unfold(512);
        lemma_pow2_unfold(511);
    }
    let mut sum = *x;
    sum.add_assign(y);
    proof {
        lemma_small_mod((x@ + y@) as nat, p512());
    }
    let lz = sum.leading_zeros();
    let ovl: u32 = if lz == 0 { 1 } else { 0 };
    proof {
        if lz > 1 {
            lemma_pow2_strictly_increases((512 - lz) as nat, 511);
        }
        assert((sum@ >= pow2(511)) == (ovl == 1));
        lemma_round_range(sum@, (256 + ovl) as nat);
    }
    let m = round_shr(&sum, 256 + ovl);
    proof {
        lemma_pow2_strictly_increases(255, 256);
        lemma_u256_bound(m.lo);
        if m.hi@ > 0 {
            lemma_mul_inequality(1, m.hi@ as int, p256() as int);
        }
        assert(m.lo@ == m@);
    }
    let mut sig = m.lo;
    let mut exp = xe + ovl as i32;
    let lzm = sig.leading_zeros();
    if lzm == 0 {
        sig = sig.shr(1);
        exp = exp + 1;
        proof {
            lemma_pow2_unfold(255);
            lemma_pow2_unfold(1);
            lemma2_to64();
            assert(m@ == pow2(255));
            assert(sig@ == pow2(254));
            lemma_pow2_pos(254);
            assert(pow2(254) <= sig@ < pow2(255));
        }
    } else {
        proof {
            if lzm > 1 {
                lemma_pow2_strictly_increases((256 - lzm) as nat, 255);
            }
            assert(m@ == div_pow2_round(sum@, (256 + ovl) as nat));
            assert(pow2(254) <= m@);
            assert(m@ < pow2(255));
            assert(pow2(254) <= sig@ < pow2(255));
        }
    }
    let r = Float { signum: xs, exp, signif: sig };
    proof {
        assert(pow2(254) <= r.signif@ < pow2(255));
        assert(r.signum == 1 || r.signum == -1);
        assert(r.wf());
    }
    r
}

/// Subtracts the aligned significand `y` from `x`, normalizes the
/// difference and rounds it to 255 bits.
#[verifier::rlimit(50)]
fn fma_sub_normalize(x: &u512, y: &u512, xe: i32, xs: i32) -> (r: Float)
    requires
        pow2(510) <= x@ < pow2(511),
        y@ <= x@,
        xs == 1 || xs == -1,
        -0x7fff_0000 <= xe <= 0x7fff_0000,
    ensures
        r.wf(),
        x@ == y@ ==> r == Float::zero_spec(),
        x@ != y@ ==> exists|sh: nat| sh <= 510 && pow2(510) <= (x@ - y@) * pow2(sh) < pow2(511)
            && #[trigger] is_rounded_difference(r, xs as int, xe as int, (x@ - y@) as nat, sh),
{
    proof {
        lemma_pow2_64_128();
        lemma_pow2_adds(256, 256);
        lemma_pow2_unfold(512);
        lemma_pow2_unfold(511);
        lemma_u512_bound(*x);
    }
    let mut diff = *x;
    diff.sub_assign(y);
    proof {
        vstd::arithmetic::div_mod::lemma_mod_add_multiples_vanish((x@ - y@) as int, p512() as int);
        lemma_small_mod((x@ - y@) as nat, p512());
    }
    if diff.is_zero() {
        return Float::zero();
    }
    let lz = diff.leading_zeros();
    let ghost d = diff@;
    proof {
        lemma2_to64();
        if lz == 512 {
            assert(false);
        }
    }
    let shl = lz - 1;
    proof {
        lemma_pow2_adds((512 - lz) as nat, shl as nat);
        lemma_pow2_adds((511 - lz) as nat, shl as nat);
        lemma_pow2_pos(shl as nat);
        lemma_mul_strict_inequality(d as int, pow2((512 - lz) as nat) as int, pow2(shl as nat) as int);
        lemma_mul_inequality(pow2((511 - lz) as nat) as int, d as int, pow2(shl as nat) as int);
        assert(pow2(510) <= d * pow2(shl as nat) < pow2(511));
        lemma_pow2_strictly_increases(255, 256);
    }
    let mut exp = xe - shl as i32;
    let mut sig;
    if shl < 256 {
        proof {
            assert((511 - lz) as nat == 254 + (256 - shl) as nat);
            lemma_round_range(d, (256 - shl) as nat);
        }
        let m = round_shr(&diff, 256 - shl);
        proof {
            lemma_u256_bound(m.lo);
            if m.hi@ > 0 {
                lemma_mul_inequality(1, m.hi@ as int, p256() as int);
            }
            assert(m.lo@ == m@);
        }
        sig = m.lo;
        let lzm = sig.leading_zeros();
        if lzm == 0 {
            sig = sig.shr(1);
            exp = exp + 1;
            proof {
                lemma_pow2_unfold(255);
                lemma_pow2_unfold(1);
                lemma2_to64();
                assert(m@ == pow2(255));
                assert(sig@ == pow2(254));
                lemma_pow2_pos(254);
                assert(pow2(254) <= sig@ < pow2(255));
            }
        } else {
            proof {
                if lzm > 1 {
                    lemma_pow2_strictly_increases((256 - lzm) as nat, 255);
                }
                assert(pow2(254) <= m@);
                assert(m@ < pow2(255));
                assert(pow2(254) <= sig@ < pow2(255));
            }
        }
    } else {
        proof {
            if 512 - lz < 256 {
                lemma_pow2_strictly_increases((512 - lz) as nat, 256);
            }
            lemma_u256_bound(diff.lo);
            if diff.hi@ > 0 {
                lemma_mul_inequality(1, diff.hi@ as int, p256() as int);
            }
            assert(diff.lo@ == d);
        }
        if shl == 256 {
            sig = diff.lo;
            proof {
                vstd::arithmetic::mul::lemma_mul_basics(d as int);
                assert(pow2(254) <= sig@ < pow2(255));
            }
        } else {
            sig = diff.lo.shl(shl - 256);
            proof {
                let e2 = pow2((shl - 256) as nat);
                lemma_pow2_adds((shl - 256) as nat, 256);
                assert(d * pow2(shl as nat) == (d * e2) * p256()) by {
                    vstd::arithmetic::mul::lemma_mul_is_associative(d as int, e2 as int, p256() as int);
                }
                if d * e2 >= pow2(255) {
                    lemma_mul_inequality(pow2(255) as int, (d * e2) as int, p256() as int);
                    lemma_pow2_adds(255, 256);
                }
                if d * e2 < pow2(254) {
                    lemma_mul_strict_inequality((d * e2) as int, pow2(254) as int, p256() as int);
                    lemma_pow2_adds(254, 256);
                }
                lemma_small_mod(d * e2, p256());
                assert(pow2(254) <= sig@ < pow2(255));
            }
        }
    }
    let r = Float { signum: xs, exp, signif: sig };
    proof {
        assert(pow2(254) <= r.signif@ < pow2(255));
        assert(is_rounded_difference(r, xs as int, xe as int, d, shl as nat));
    }
    r
}

impl Float {
    /// Computes `self * f + a` inplace (fused multiply-add), with a single
    /// rounding of the sum.
    pub fn imul_add(&mut self, f: &Self, a: &Self)
        requires
            old(self).wf(),
            f.wf(),
            a.wf(),
            -0x1fff_ffff <= old(self).exp <= 0x1fff_ffff,
            -0x1fff_ffff <= f.exp <= 0x1fff_ffff,
            -0x1fff_ffff <= a.exp <= 0x1fff_ffff,
        ensures
            final(self).wf(),
            is_fma_result(*old(self), *f, *a, *final(self)),
    {
        if self.is_zero() || f.is_zero() {
            *self = *a;
            return;
        }
        if a.is_zero() {
            self.imul(f);
            return;
        }
        let mut prod_exp = self.exp + f.exp;
        let mut exp_diff = prod_exp - a.exp;
        if exp_diff <= -256 {
            // Product is too small
            *self = *a;
            return;
        }
        if exp_diff >= 511 {
            // Addend is too small
            self.imul(f);
            return;
        }
        let ghost x0 = *self;
        let prod_signum = self.signum * f.signum;
        let (prod_signif, exp_adj) = mul_signifs(&self.signif, &f.signif);
        prod_exp = prod_exp + exp_adj;
        exp_diff = exp_diff + exp_adj;
        let addend_signif = u512::from_hi_lo(a.signif, u256::zero());
        proof {
            let p = x0.signif@ * f.signif@;
            crate::float_mul::lemma_signif_product(x0.signif@, f.signif@);
            lemma_pow2_adds(508, 2);
            lemma_pow2_adds(509, 1);
            lemma_pow2_adds(509, 2);
            lemma_pow2_adds(510, 1);
            lemma2_to64();
            if exp_adj == 1 {
                lemma_mul_inequality(pow2(509) as int, p as int, 2);
                lemma_mul_strict_inequality(p as int, pow2(510) as int, 2);
            } else {
                lemma_mul_inequality(pow2(508) as int, p as int, 4);
                lemma_mul_strict_inequality(p as int, pow2(509) as int, 4);
            }
            assert(pow2(510) <= prod_signif@ < pow2(511));
            vstd::arithmetic::mul::lemma_mul_basics(p256() as int);
            lemma_addend_range(a.signif@);
            assert(addend_signif@ == a.signif@ * p256());
        }
        let (x_sign, mut x_signif, x_exp, y_signif) = if exp_diff == 0 {
            if !prod_signif.lt(&addend_signif) {
                (prod_signum, prod_signif, prod_exp, addend_signif)
            } else {
                (a.signum, addend_signif, a.exp, prod_signif)
            }
        } else if exp_diff > 0 {
            let y = shr_sticky(&addend_signif, exp_diff as u32);
            (prod_signum, prod_signif, prod_exp, y)
        } else {
            let y = shr_sticky(&prod_signif, (-exp_diff) as u32);
            (a.signum, addend_signif, a.exp, y)
        };
        proof {
            if exp_diff > 0 {
                lemma_sticky_range(addend_signif@, exp_diff as nat);
            } else if exp_diff < 0 {
                lemma_sticky_range(prod_signif@, (-exp_diff) as nat);
            }
            assert(pow2(510) <= x_signif@ < pow2(511));
            assert(y_signif@ <= x_signif@);
            assert(fma_operands(x0, *f, *a) == (x_sign as int, x_signif@, x_exp as int, y_signif@));
            lemma_pow2_64_128();
            lemma_pow2_adds(256, 256);
            lemma_pow2_unfold(512);
            lemma_pow2_unfold(511);
        }
        if prod_signum == a.signum {
            *self = fma_add_round(&x_signif, &y_signif, x_exp, x_sign);
            proof {
                assert(x0.signum * f.signum == a.signum);
                assert(is_fma_result(x0, *f, *a, *self));
            }
        } else {
            *self = fma_sub_normalize(&x_signif, &y_signif, x_exp, x_sign);
            proof {
                assert(x0.signum * f.signum != a.signum);
                let d = x_signif@ - y_signif@;
                if d != 0 {
                    let sh = choose|sh: nat| sh <= 510 && pow2(510) <= (x_signif@ - y_signif@) * pow2(sh) < pow2(511)
                        && #[trigger] is_rounded_difference(*self, x_sign as int, x_exp as int,
                            (x_signif@ - y_signif@) as nat, sh);
                    assert(is_rounded_difference(*self, x_sign as int, x_exp as int, d as nat, sh));
                    let ops = fma_operands(x0, *f, *a);
                    assert(ops.0 == x_sign && ops.1 == x_signif@ && ops.2 == x_exp && ops.3 == y_signif@);
                    let dd = ops.1 - ops.3;
                    assert(dd == d);
                    assert(is_rounded_difference(*self, ops.0, ops.2, dd as nat, sh));
                    assert(sh <= 510 && pow2(510) <= dd * pow2(sh) < pow2(511));
                    assert(exists|sh2: nat| sh2 <= 510 && pow2(510) <= dd * pow2(sh2) < pow2(511)
                        && #[trigger] is_rounded_difference(*self, ops.0, ops.2, dd as nat, sh2));
                }
                assert(is_fma_result(x0, *f, *a, *self));
            }
        }
    }
}

impl Float {
    /// Returns `self * f + a` (fused multiply-add), with a single rounding
    /// of the sum.
    pub fn mul_add(self, f: &Self, a: &Self) -> (r: Self)
        requires
            self.wf(),
            f.wf(),
            a.wf(),
            -0x1fff_ffff <= self.exp <= 0x1fff_ffff,
            -0x1fff_ffff <= f.exp <= 0x1fff_ffff,
            -0x1fff_ffff <= a.exp <= 0x1fff_ffff,
        ensures
            r.wf(),
            is_fma_result(self, *f, *a, r),
    {
        let mut res = self;
        res.imul_add(f, a);
        res
    }
}

/// The exponent of a fused multiply-add result stays within 510 below and
/// three above the exponents of the product and the addend.
pub proof fn lemma_fma_exp(x: Float, f: Float, a: Float, r: Float, lo: int, hi: int)
    requires
        x.wf(),
        f.wf(),
        a.wf(),
        is_fma_result(x, f, a, r),
        lo <= x.exp + f.exp <= hi,
        lo <= a.exp <= hi,
        lo <= 0 <= hi,
    ensures
        lo - 510 <= r.exp <= hi + 3,
{
    let d0 = x.exp + f.exp - a.exp;
    if x.signum != 0 && f.signum != 0 && a.signum != 0 && d0 < 511 && d0 > -256 {
        let (xs, xx, xe, yy) = fma_operands(x, f, a);
        assert(lo <= xe <= hi + 1);
        if x.signum * f.signum != a.signum {
            let d = xx - yy;
            if d != 0 {
                let sh = choose|sh: nat| sh <= 510 && pow2(510) <= d * pow2(sh) < pow2(511)
                    && #[trigger] is_rounded_difference(r, xs, xe, d as nat, sh);
            }
        }
    }
}

/// A fused multiply-add with a zero addend is the rounded product.
pub proof fn lemma_fma_zero_addend(x: Float, f: Float, r: Float)
    requires
        x.signum != 0,
        f.signum != 0,
        is_fma_result(x, f, Float::zero_spec(), r),
    ensures
        parts(r) == product(x, f),
{
}

} // verus!
