//! Unsigned integers of 256 bits, built from two `u128` halves.
use vstd::prelude::*;
use vstd::arithmetic::power2::*;
use vstd::arithmetic::div_mod::*;
use vstd::arithmetic::mul::*;
use crate::bits::{p64, p128, p256, lemma_pow2_64_128, lemma_div_strictly_bounded, lemma_shl, lemma_shl_exact, lemma_shr, lemma_mask, lemma_split, lemma_one_shl, lemma_cast_u128};

verus! {

/// `n` is the number of leading zeros of `v` in a field of `width` bits.
pub open spec fn is_lz(v: nat, width: nat, n: nat) -> bool {
    &&& n <= width
    &&& v < pow2((width - n) as nat)
    &&& n < width ==> pow2((width - n - 1) as nat) <= v
}

/// `n` is the number of trailing zeros of `v` in a field of `width` bits.
pub open spec fn is_tz(v: nat, width: nat, n: nat) -> bool {
    &&& n <= width
    &&& v == 0 ==> n == width
    &&& v != 0 ==> v % pow2(n) == 0 && v % pow2(n + 1) != 0
}

/// `v / 2ᵖ`, rounded to the nearest integer, ties to even.
pub open spec fn div_pow2_round(v: nat, p: nat) -> nat {
    let q = v / pow2(p);
    let r = v % pow2(p);
    let tie = pow2(p) / 2;
    if r > tie || (r == tie && q % 2 == 1) {
        q + 1
    } else {
        q
    }
}

/// Returns the upper 64 bits of `u`.
pub fn u128_hi(u: u128) -> (r: u128)
    ensures
        r as nat == u as nat / p64(),
        r < p64(),
{
    proof {
        lemma_shr(u, 64);
        lemma_pow2_64_128();
        lemma_div_strictly_bounded(u as int, p64() as int, p64() as int);
    }
    u >> 64u32
}

/// Returns the lower 64 bits of `u`.
pub fn u128_lo(u: u128) -> (r: u128)
    ensures
        r as nat == u as nat % p64(),
        r < p64(),
{
    proof {
        lemma_mask(u, 64);
        lemma_pow2_64_128();
        assert(((1u128 << 64u32) - 1) as u128 == 0xffffffffffffffffu128) by (bit_vector);
        lemma_mod_bound(u as int, p64() as int);
    }
    u & 0xffffffffffffffff
}

proof fn lemma_halves(u: u128)
    ensures
        u as nat == (u as nat / p64()) * p64() + u as nat % p64(),
        u as nat / p64() < p64(),
        u as nat % p64() < p64(),
{
    lemma_pow2_64_128();
    lemma_split(u as int, 64);
    lemma_div_strictly_bounded(u as int, p64() as int, p64() as int);
}

proof fn lemma_limb_product(a: nat, b: nat)
    requires
        a < p64(),
        b < p64(),
    ensures
        a * b <= (p64() - 1) * (p64() - 1),
{
    lemma_mul_upper_bound(a as int, (p64() - 1) as int, b as int, (p64() - 1) as int);
}

proof fn lemma_widening_mul_identity(
    x: int, y: int, xh: int, xl: int, yh: int, yl: int,
    t0h: int, t0l: int, t1h: int, t1l: int, t2h: int, t2l: int,
)
    by (nonlinear_arith)
    requires
        x == xh * 0x1_0000_0000_0000_0000int + xl,
        y == yh * 0x1_0000_0000_0000_0000int + yl,
        xl * yl == t0h * 0x1_0000_0000_0000_0000int + t0l,
        xl * yh + t0h == t1h * 0x1_0000_0000_0000_0000int + t1l,
        xh * yl + t1l == t2h * 0x1_0000_0000_0000_0000int + t2l,
    ensures
        x * y == (t1h + (xh * yh + t2h)) * 0x1_0000_0000_0000_0000_0000_0000_0000_0000int
            + (t0l + t2l * 0x1_0000_0000_0000_0000int),
{
}

/// If `y = x⋅2ⁿ` has its top bit at position `w - 1`, then `x` has `n` leading zeros in a
/// field of `w` bits.
pub proof fn lemma_scaled_lz(x: nat, n: nat, w: nat)
    requires
        w >= 1,
        pow2((w - 1) as nat) <= x * pow2(n) < pow2(w),
    ensures
        n < w,
        is_lz(x, w, n),
{
    lemma_pow2_pos(n);
    if x == 0 {
        lemma_pow2_pos((w - 1) as nat);
    }
    if n >= w {
        lemma_pow2_adds(w, (n - w) as nat);
        lemma_pow2_pos((n - w) as nat);
        lemma_mul_increases(x as int, pow2(n) as int);
        lemma_mul_is_commutative(x as int, pow2(n) as int);
        lemma_mul_increases(pow2((n - w) as nat) as int, pow2(w) as int);
        lemma_mul_is_commutative(pow2((n - w) as nat) as int, pow2(w) as int);
    }
    lemma_pow2_adds((w - n) as nat, n);
    lemma_pow2_adds((w - n - 1) as nat, n);
    if x >= pow2((w - n) as nat) {
        lemma_mul_inequality(pow2((w - n) as nat) as int, x as int, pow2(n) as int);
    }
    if x < pow2((w - n - 1) as nat) {
        lemma_mul_strict_inequality(x as int, pow2((w - n - 1) as nat) as int, pow2(n) as int);
    }
}

/// Returns the number of leading zeros in the binary representation of `x`.
pub fn u128_leading_zeros(x: u128) -> (r: u32)
    ensures
        is_lz(x as nat, 128, r as nat),
{
    if x == 0 {
        proof {
            lemma2_to64();
        }
        return 128;
    }
    let mut n: u32 = 0;
    let mut y: u128 = x;
    let mut k: u32 = 64;
    proof {
        lemma2_to64();
    }
    while k > 0
        invariant
            k == 64 || k == 32 || k == 16 || k == 8 || k == 4 || k == 2 || k == 1 || k == 0,
            y as nat == x as nat * pow2(n as nat),
            n + 2 * k <= 128,
            k > 0 ==> pow2((128 - 2 * k) as nat) <= y,
            k == 0 ==> pow2(127) <= y,
            x > 0,
        decreases k,
    {
        proof {
            lemma_one_shl((128 - k) as u32);
        }
        if y < (1u128 << (128 - k)) {
            proof {
                lemma_pow2_64_128();
                lemma_pow2_pos(k as nat);
                lemma_pow2_adds((128 - k) as nat, k as nat);
                lemma_mul_strict_inequality(y as int, pow2((128 - k) as nat) as int, pow2(k as nat) as int);
                lemma_shl_exact(y, k);
                lemma_pow2_adds(n as nat, k as nat);
                lemma_mul_is_associative(x as int, pow2(n as nat) as int, pow2(k as nat) as int);
                lemma_pow2_adds((128 - 2 * k) as nat, k as nat);
                lemma_mul_inequality(pow2((128 - 2 * k) as nat) as int, y as int, pow2(k as nat) as int);
            }
            y = y << k;
            n = n + k;
        }
        k = k / 2;
    }
    proof {
        lemma_pow2_64_128();
        lemma_scaled_lz(x as nat, n as nat, 128);
    }
    n
}

/// Reducing a two-limb value `x⋅2¹²⁸ + l` modulo 2²⁵⁶ keeps `x mod 2¹²⁸` as upper limb.
pub proof fn lemma_wrap_limbs(x: int, h: int, l: int)
    requires
        x >= 0,
        0 <= l < p128(),
        h == x % (p128() as int),
    ensures
        (x * p128() + l) % (p256() as int) == h * p128() + l,
        0 <= h * p128() + l < p256(),
{
    let b = p128() as int;
    let q = x / b;
    lemma_fundamental_div_mod(x, b);
    lemma_mod_bound(x, b);
    assert(x * b + l == q * (b * b) + (h * b + l)) by (nonlinear_arith)
        requires
            x == b * q + h,
    ;
    assert(0 <= h * b + l < b * b) by (nonlinear_arith)
        requires
            0 <= h < b,
            0 <= l < b,
    ;
    lemma_fundamental_div_mod_converse(x * b + l, b * b, q, h * b + l);
}

/// Splitting `x = q⋅d + r` with `0 <= r < d` determines quotient and remainder.
pub proof fn lemma_divmod_unique(x: int, d: int, q: int, r: int)
    requires
        d > 0,
        0 <= r < d,
        x == q * d + r,
    ensures
        x / d == q,
        x % d == r,
{
    lemma_fundamental_div_mod_converse(x, d, q, r);
}

/// Value of a left shift by `0 < r < 128` bits across two limbs.
proof fn lemma_shl_limbs(hi: u128, lo: u128, r: u32)
    requires
        0 < r < 128,
    ensures
        ((hi << r) | (lo >> ((128 - r) as u32))) as nat * p128() + (lo << r) as nat
            == ((hi as nat * p128() + lo as nat) * pow2(r as nat)) % p256(),
{
    let s = (128 - r) as u32;
    assert((hi << r) | (lo >> s) == (hi << r) + (lo >> s)) by (bit_vector)
        requires
            0 < r < 128,
            s == 128 - r,
    ;
    let b = p128() as int;
    let pp = pow2(r as nat) as int;
    let qq = pow2(s as nat) as int;
    lemma_pow2_64_128();
    lemma_pow2_adds(r as nat, s as nat);
    lemma_pow2_pos(r as nat);
    lemma_pow2_pos(s as nat);
    assert(pp * qq == b);
    lemma_shl(hi, r);
    lemma_shl(lo, r);
    lemma_shr(lo, s);
    lemma_split(hi as int, s as nat);
    lemma_split(lo as int, s as nat);
    let e = hi as int / qq;
    let f = hi as int % qq;
    let c = lo as int / qq;
    let d = lo as int % qq;
    assert(hi * pp == e * b + f * pp) by (nonlinear_arith)
        requires
            hi == e * qq + f,
            pp * qq == b,
    ;
    assert(lo * pp == c * b + d * pp) by (nonlinear_arith)
        requires
            lo == c * qq + d,
            pp * qq == b,
    ;
    assert(0 <= f * pp < b) by (nonlinear_arith)
        requires
            0 <= f < qq,
            pp * qq == b,
            pp > 0,
    ;
    assert(0 <= d * pp < b) by (nonlinear_arith)
        requires
            0 <= d < qq,
            pp * qq == b,
            pp > 0,
    ;
    assert(c < pp) by {
        lemma_div_strictly_bounded(lo as int, qq, pp);
        lemma_mul_is_commutative(qq, pp);
    }
    assert(e >= 0) by {
        lemma_div_pos_is_pos(hi as int, qq);
    }
    lemma_divmod_unique(hi * pp, b, e, f * pp);
    lemma_divmod_unique(lo * pp, b, c, d * pp);
    assert(0 <= f * pp + c < b) by (nonlinear_arith)
        requires
            0 <= f < qq,
            0 <= c < pp,
            pp * qq == b,
    ;
    let x = e * b + f * pp + c;
    lemma_divmod_unique(x, b, e, f * pp + c);
    assert((hi * b + lo) * pp == x * b + d * pp) by (nonlinear_arith)
        requires
            hi * pp == e * b + f * pp,
            lo * pp == c * b + d * pp,
            x == e * b + f * pp + c,
    ;
    lemma_wrap_limbs(x, f * pp + c, d * pp);
}

/// Value of a right shift by `0 < r < 128` bits across two limbs.
proof fn lemma_shr_limbs(hi: u128, lo: u128, r: u32)
    requires
        0 < r < 128,
    ensures
        (hi >> r) as nat * p128() + ((hi << ((128 - r) as u32)) | (lo >> r)) as nat
            == (hi as nat * p128() + lo as nat) / pow2(r as nat),
{
    let s = (128 - r) as u32;
    assert((hi << s) | (lo >> r) == (hi << s) + (lo >> r)) by (bit_vector)
        requires
            0 < r < 128,
            s == 128 - r,
    ;
    let b = p128() as int;
    let pp = pow2(r as nat) as int;
    let qq = pow2(s as nat) as int;
    lemma_pow2_64_128();
    lemma_pow2_adds(r as nat, s as nat);
    lemma_pow2_pos(r as nat);
    lemma_pow2_pos(s as nat);
    assert(pp * qq == b);
    lemma_shl(hi, s);
    lemma_shr(hi, r);
    lemma_shr(lo, r);
    lemma_split(hi as int, r as nat);
    lemma_split(lo as int, r as nat);
    let a = hi as int / pp;
    let bb = hi as int % pp;
    let c = lo as int / pp;
    let d = lo as int % pp;
    assert(hi * qq == a * b + bb * qq) by (nonlinear_arith)
        requires
            hi == a * pp + bb,
            pp * qq == b,
    ;
    assert(0 <= bb * qq < b) by (nonlinear_arith)
        requires
            0 <= bb < pp,
            pp * qq == b,
            qq > 0,
    ;
    assert(a >= 0) by {
        lemma_div_pos_is_pos(hi as int, pp);
    }
    lemma_divmod_unique(hi * qq, b, a, bb * qq);
    assert(c < qq) by {
        lemma_div_strictly_bounded(lo as int, pp, qq);
    }
    assert(0 <= bb * qq + c < b) by (nonlinear_arith)
        requires
            0 <= bb < pp,
            0 <= c < qq,
            pp * qq == b,
    ;
    assert(hi * b + lo == (a * b + bb * qq + c) * pp + d) by (nonlinear_arith)
        requires
            hi == a * pp + bb,
            lo == c * pp + d,
            pp * qq == b,
    ;
    lemma_divmod_unique(hi * b + lo, pp, a * b + bb * qq + c, d);
}

proof fn lemma_shl64(t: u128)
    ensures
        (t << 64u32) as nat == (t as nat % p64()) * p64(),
{
    lemma_pow2_64_128();
    lemma_shl(t, 64);
    lemma_halves(t);
    let b = p64() as int;
    let ti = t as int;
    assert(ti * b == (ti / b) * (b * b) + (ti % b) * b) by (nonlinear_arith)
        requires
            ti == (ti / b) * b + ti % b,
    ;
    assert(0 <= (ti % b) * b < b * b) by (nonlinear_arith)
        requires
            0 <= ti % b < b,
    ;
    lemma_divmod_unique(ti * b, b * b, ti / b, (ti % b) * b);
}

proof fn lemma_mul10_identity(
    v: int, lo: int, hi: int, ll: int, lh: int, hl: int, hh: int, d: int,
    t0: int, t1: int, t2: int, t3: int, c0: int, r0: int, c1: int, r1: int, c2: int, r2: int,
)
    requires
        v == hi * 0x1_0000_0000_0000_0000_0000_0000_0000_0000int + lo,
        lo == lh * 0x1_0000_0000_0000_0000int + ll,
        hi == hh * 0x1_0000_0000_0000_0000int + hl,
        t0 == ll * 10 + d,
        t0 == c0 * 0x1_0000_0000_0000_0000int + r0,
        t1 == lh * 10 + c0,
        t1 == c1 * 0x1_0000_0000_0000_0000int + r1,
        t2 == hl * 10 + c1,
        t2 == c2 * 0x1_0000_0000_0000_0000int + r2,
        t3 == hh * 10 + c2,
    ensures
        v * 10 + d == (t3 * 0x1_0000_0000_0000_0000int + r2) * 0x1_0000_0000_0000_0000_0000_0000_0000_0000int
            + (r0 + r1 * 0x1_0000_0000_0000_0000int),
{
}

/// The parity of a `u256` is the parity of its lower limb.
proof fn lemma_odd_lo(u: u256)
    ensures
        ((u.lo & 1) == 1) == (u@ % 2 == 1),
{
    let l = u.lo;
    assert((l & 1) == l % 2) by (bit_vector);
    let b = p128() as int;
    assert(b == 2 * (b / 2));
    lemma_mod_multiples_vanish(u.hi * (b / 2), u.lo as int, 2);
    assert(u.hi * b == (u.hi * (b / 2)) * 2) by (nonlinear_arith)
        requires
            b == 2 * (b / 2),
    ;
}

/// The parity of a `u256` is the parity of its lower limb.
pub proof fn lemma_odd_lo_pub(u: u256)
    ensures
        ((u.lo & 1) == 1) == (u@ % 2 == 1),
        u.lo % 2 == u@ % 2,
{
    lemma_odd_lo(u);
    let l = u.lo;
    assert((l & 1) == l % 2) by (bit_vector);
}

/// Rounding a quotient by 2ᵖ up does not overflow 256 bits.
proof fn lemma_round_no_wrap(v: nat, p: nat)
    requires
        v < p256(),
        p >= 1,
    ensures
        v / pow2(p) + 1 < p256(),
{
    lemma_pow2_unfold(p);
    lemma_pow2_pos((p - 1) as nat);
    lemma_div_is_ordered_by_denominator(v as int, 2, pow2(p) as int);
}

/// `(a⋅P) mod (Q⋅P) = (a mod Q)⋅P`
proof fn lemma_mod_scaled(a: int, pp: int, qq: int)
    requires
        a >= 0,
        pp > 0,
        qq > 0,
    ensures
        (a * pp) % (qq * pp) == (a % qq) * pp,
{
    lemma_fundamental_div_mod(a, qq);
    lemma_mod_bound(a, qq);
    let q = a / qq;
    assert(a * pp == q * (qq * pp) + (a % qq) * pp) by (nonlinear_arith)
        requires
            a == qq * q + a % qq,
    ;
    assert(0 <= (a % qq) * pp < qq * pp) by (nonlinear_arith)
        requires
            0 <= a % qq < qq,
            pp > 0,
    ;
    lemma_divmod_unique(a * pp, qq * pp, q, (a % qq) * pp);
}

/// `(a⋅P) mod (Q⋅P) = (a mod Q)⋅P`
pub proof fn lemma_mod_scaled_pub(a: int, pp: int, qq: int)
    requires
        a >= 0,
        pp > 0,
        qq > 0,
    ensures
        (a * pp) % (qq * pp) == (a % qq) * pp,
{
    lemma_mod_scaled(a, pp, qq);
}

/// Returns the number of trailing zeros in the binary representation of `x`.
pub fn u128_trailing_zeros(x: u128) -> (r: u32)
    ensures
        is_tz(x as nat, 128, r as nat),
{
    if x == 0 {
        return 128;
    }
    let mut n: u32 = 0;
    let mut y: u128 = x;
    let mut k: u32 = 64;
    proof {
        lemma2_to64();
        lemma_pow2_64_128();
        lemma_small_mod(x as nat, p128());
    }
    while k > 0
        invariant
            k == 64 || k == 32 || k == 16 || k == 8 || k == 4 || k == 2 || k == 1 || k == 0,
            x as nat == y as nat * pow2(n as nat),
            y > 0,
            n + 2 * k <= 128,
            k > 0 ==> y as nat % pow2(2 * k as nat) != 0,
            k == 0 ==> y as nat % 2 != 0,
        decreases k,
    {
        proof {
            lemma_one_shl(k);
            lemma_mask(y, k);
            lemma2_to64();
        }
        if (y & ((1u128 << k) - 1)) == 0 {
            proof {
                lemma_shr(y, k);
                lemma_split(y as int, k as nat);
                let q = y as int / pow2(k as nat) as int;
                lemma_pow2_adds(k as nat, k as nat);
                lemma_pow2_pos(k as nat);
                lemma_mod_scaled(q, pow2(k as nat) as int, pow2(k as nat) as int);
                lemma_pow2_adds(n as nat, k as nat);
                lemma_mul_is_associative(q, pow2(k as nat) as int, pow2(n as nat) as int);
                lemma_mul_is_commutative(pow2(n as nat) as int, pow2(k as nat) as int);
                if k == 1 {
                    assert(pow2(1) == 2);
                }
            }
            y = y >> k;
            n = n + k;
        } else {
            proof {
                if k == 1 {
                    assert(pow2(1) == 2);
                }
            }
        }
        k = k / 2;
    }
    proof {
        let pn = pow2(n as nat) as int;
        lemma_pow2_pos(n as nat);
        lemma_mod_multiples_basic(y as int, pn);
        lemma_mul_is_commutative(y as int, pn);
        lemma_pow2_unfold((n + 1) as nat);
        lemma_mod_scaled(y as int, pn, 2);
        lemma_mul_is_commutative(2, pn);
    }
    n
}

/// Helper type representing unsigned integers of 256 bits.
#[derive(Clone, Copy, Debug, PartialEq, Eq, Structural)]
pub struct u256 {
    pub hi: u128,
    pub lo: u128,
}

impl View for u256 {
    type V = nat;

    open spec fn view(&self) -> nat {
        self.hi as nat * p128() + self.lo as nat
    }
}

/// The numeric order of `u256` values is the lexicographic order of their limbs.
pub proof fn lemma_u256_order(a: u256, b: u256)
    ensures
        a@ < b@ <==> (a.hi < b.hi || (a.hi == b.hi && a.lo < b.lo)),
        a@ == b@ <==> a == b,
{
    let bb = p128() as int;
    if a.hi < b.hi {
        assert(a@ < b@) by (nonlinear_arith)
            requires
                a.hi < b.hi,
                0 <= a.lo < bb,
                0 <= b.lo,
                a@ == a.hi * bb + a.lo,
                b@ == b.hi * bb + b.lo,
        ;
    } else if a.hi > b.hi {
        assert(a@ > b@) by (nonlinear_arith)
            requires
                a.hi > b.hi,
                0 <= b.lo < bb,
                0 <= a.lo,
                a@ == a.hi * bb + a.lo,
                b@ == b.hi * bb + b.lo,
        ;
    }
}

pub proof fn lemma_u256_bound(u: u256)
    ensures
        u@ < p256(),
{
    lemma_mul_upper_bound(u.hi as int, (p128() - 1) as int, p128() as int, p128() as int);
}

/// Calculate z = x * y.
pub fn u128_widening_mul(x: u128, y: u128) -> (z: u256)
    ensures
        z@ == x as nat * y as nat,
{
    let xh = u128_hi(x);
    let xl = u128_lo(x);
    let yh = u128_hi(y);
    let yl = u128_lo(y);
    proof {
        lemma_halves(x);
        lemma_halves(y);
        lemma_limb_product(xl as nat, yl as nat);
        lemma_limb_product(xl as nat, yh as nat);
        lemma_limb_product(xh as nat, yl as nat);
        lemma_limb_product(xh as nat, yh as nat);
    }
    let mut t = xl * yl;
    let ghost t0 = t;
    let mut rl = u128_lo(t);
    proof { lemma_halves(t0); }
    t = xl * yh + u128_hi(t);
    let ghost t1 = t;
    let mut rh = u128_hi(t);
    proof { lemma_halves(t1); }
    t = xh * yl + u128_lo(t);
    let ghost t2 = t;
    proof {
        lemma_halves(t2);
        lemma_pow2_64_128();
        lemma_shl_exact(u128_lo_spec(t2), 64);
        lemma_widening_mul_identity(
            x as int, y as int, xh as int, xl as int, yh as int, yl as int,
            (t0 as nat / p64()) as int, (t0 as nat % p64()) as int,
            (t1 as nat / p64()) as int, (t1 as nat % p64()) as int,
            (t2 as nat / p64()) as int, (t2 as nat % p64()) as int,
        );
        lemma_mul_upper_bound(x as int, (p128() - 1) as int, y as int, (p128() - 1) as int);
        let hi_part = (t1 as nat / p64()) + ((xh * yh) as nat + t2 as nat / p64());
        let lo_part = (t0 as nat % p64()) + (t2 as nat % p64()) * p64();
        assert(hi_part < p128()) by {
            assert(hi_part * p128() <= x * y) by {
                lemma_mul_nonnegative((t2 as nat % p64()) as int, p64() as int);
            }
            if hi_part >= p128() {
                lemma_mul_inequality(p128() as int, hi_part as int, p128() as int);
            }
        }
    }
    rl += u128_lo(t) << 64u32;
    rh += xh * yh + u128_hi(t);
    u256::new(rh, rl)
}

spec fn u128_lo_spec(u: u128) -> u128 {
    (u as nat % p64()) as u128
}

impl u256 {
    /// The size of this integer type in bits.
    pub const BITS: u32 = 256;

    /// Maximum number of decimal digits = ⌊log₁₀(2²⁵⁶ - 1)⌋.
    pub const MAX_N_DECIMAL_DIGITS: u32 = 77;

    /// Additive identity = 0.
    pub fn zero() -> (r: Self)
        ensures
            r@ == 0,
            r.hi == 0,
            r.lo == 0,
    {
        Self { hi: 0, lo: 0 }
    }

    /// Maximum value = 2²⁵⁶ - 1.
    pub fn max_value() -> (r: Self)
        ensures
            r@ == p256() - 1,
    {
        Self { hi: 0xffffffffffffffffffffffffffffffff, lo: 0xffffffffffffffffffffffffffffffff }
    }

    /// Create an `u256` value from two u128 values.
    pub fn new(hi: u128, lo: u128) -> (r: Self)
        ensures
            r.hi == hi,
            r.lo == lo,
            r@ == hi as nat * p128() + lo as nat,
    {
        Self { hi, lo }
    }

    /// Return true, if `self` == 0.
    pub fn is_zero(&self) -> (r: bool)
        ensures
            r == (self@ == 0),
    {
        self.hi == 0 && self.lo == 0
    }

    /// Returns the number of leading zeros in the binary representation of
    /// `self`.
    pub fn leading_zeros(&self) -> (r: u32)
        ensures
            is_lz(self@, 256, r as nat),
    {
        let h = u128_leading_zeros(self.hi);
        proof {
            lemma_pow2_64_128();
        }
        if self.hi == 0 {
            let l = u128_leading_zeros(self.lo);
            proof {
                if h < 128 {
                    lemma_pow2_pos((127 - h) as nat);
                }
                assert(h == 128);
                assert(self@ == self.lo);
                assert((256 - (h + l)) as nat == (128 - l) as nat);
            }
            h + l
        } else {
            proof {
                let n = h as nat;
                lemma_pow2_adds((128 - n) as nat, 128);
                lemma_pow2_adds((127 - n) as nat, 128);
                lemma_mul_inequality((self.hi + 1) as int, pow2((128 - n) as nat) as int, p128() as int);
                lemma_mul_is_distributive_add_other_way(p128() as int, self.hi as int, 1);
                assert(self@ < pow2((256 - n) as nat));
                assert(self@ >= pow2((256 - n - 1) as nat));
                lemma_mul_inequality(pow2((127 - n) as nat) as int, self.hi as int, p128() as int);
                assert((256 - n) as nat == (128 - n) as nat + 128);
                assert((256 - n - 1) as nat == (127 - n) as nat + 128);
            }
            h
        }
    }

    /// Returns the index of the most significant bit of `self`.
    /// Pre-condition: `self` must not be zero!
    pub fn msb(&self) -> (r: u32)
        requires
            self@ != 0,
        ensures
            r < 256,
            pow2(r as nat) <= self@ < pow2(r as nat + 1),
    {
        let lz = self.leading_zeros();
        proof {
            if lz == 256 {
                lemma2_to64();
            }
        }
        256 - lz - 1
    }

    /// Shift `self` left by `rhs` bits; bits shifted out are lost.
    pub fn shl(self, rhs: u32) -> (r: Self)
        requires
            rhs <= 255,
        ensures
            r@ == (self@ * pow2(rhs as nat)) % p256(),
    {
        proof {
            lemma_pow2_64_128();
            lemma_u256_bound(self);
        }
        if rhs == 0 {
            proof {
                lemma2_to64();
                lemma_small_mod(self@, p256());
            }
            self
        } else if rhs < 128 {
            proof {
                lemma_shl_limbs(self.hi, self.lo, rhs);
            }
            Self { hi: self.hi << rhs | self.lo >> (128 - rhs), lo: self.lo << rhs }
        } else if rhs == 128 {
            proof {
                let x = self.hi as int * p128() + self.lo;
                lemma_wrap_limbs(x, self.lo as int, 0);
                lemma_mod_multiples_vanish(self.hi as int, self.lo as int, p128() as int);
                lemma_small_mod(self.lo as nat, p128());
            }
            Self { hi: self.lo, lo: 0 }
        } else {
            let sh = rhs - 128;
            proof {
                let pp = pow2(sh as nat) as int;
                let b = p128() as int;
                lemma_pow2_adds(sh as nat, 128);
                lemma_shl(self.lo, sh);
                lemma_pow2_pos(sh as nat);
                let x = self.hi as int * pp * b + self.lo * pp;
                assert((self.hi as int * b + self.lo) * (pp * b) == x * b + 0) by (nonlinear_arith)
                    requires
                        x == self.hi as int * pp * b + self.lo * pp,
                ;
                assert(x >= 0) by (nonlinear_arith)
                    requires
                        x == self.hi as int * pp * b + self.lo * pp,
                        pp > 0,
                        b > 0,
                ;
                assert(self.hi as int * pp * b == (self.hi as int * pp) * b);
                lemma_mod_multiples_vanish(self.hi as int * pp, self.lo * pp, b);
                lemma_wrap_limbs(x, (self.lo << sh) as int, 0);
            }
            Self { hi: self.lo << sh, lo: 0 }
        }
    }

    /// Shift `self` right by `rhs` bits.
    pub fn shr(self, rhs: u32) -> (r: Self)
        requires
            rhs <= 255,
        ensures
            r@ == self@ / pow2(rhs as nat),
    {
        proof {
            lemma_pow2_64_128();
        }
        if rhs == 0 {
            proof {
                lemma2_to64();
                lemma_div_basics(self@ as int);
            }
            self
        } else if rhs < 128 {
            proof {
                lemma_shr_limbs(self.hi, self.lo, rhs);
            }
            Self { hi: self.hi >> rhs, lo: self.hi << (128 - rhs) | self.lo >> rhs }
        } else if rhs == 128 {
            proof {
                lemma_divmod_unique(self@ as int, p128() as int, self.hi as int, self.lo as int);
            }
            Self { hi: 0, lo: self.hi }
        } else {
            let sh = rhs - 128;
            proof {
                lemma_pow2_adds(128, sh as nat);
                lemma_pow2_pos(sh as nat);
                lemma_divmod_unique(self@ as int, p128() as int, self.hi as int, self.lo as int);
                lemma_div_denominator(self@ as int, p128() as int, pow2(sh as nat) as int);
                lemma_shr(self.hi, sh);
                assert(self@ / p128() == self.hi);
                assert(pow2(rhs as nat) == p128() * pow2(sh as nat));
            }
            Self { hi: 0, lo: self.hi >> sh }
        }
    }

    /// Shift `self` left inplace by `rhs` bits; bits shifted out are lost.
    pub fn shl_assign(&mut self, rhs: u32)
        requires
            rhs <= 255,
        ensures
            final(self)@ == (old(self)@ * pow2(rhs as nat)) % p256(),
    {
        *self = self.shl(rhs);
    }

    /// Shift `self` right inplace by `rhs` bits.
    pub fn shr_assign(&mut self, rhs: u32)
        requires
            rhs <= 255,
        ensures
            final(self)@ == old(self)@ / pow2(rhs as nat),
    {
        *self = self.shr(rhs);
    }

    /// Returns `self < other`.
    pub fn lt(&self, other: &Self) -> (r: bool)
        ensures
            r == (self@ < other@),
    {
        proof {
            lemma_u256_order(*self, *other);
        }
        self.hi < other.hi || (self.hi == other.hi && self.lo < other.lo)
    }

    /// Returns `self <= other`.
    pub fn le(&self, other: &Self) -> (r: bool)
        ensures
            r == (self@ <= other@),
    {
        proof {
            lemma_u256_order(*self, *other);
        }
        self.hi < other.hi || (self.hi == other.hi && self.lo <= other.lo)
    }

    /// Multiply by 10 and add decimal digit (inplace), modulo 2²⁵⁶.
    pub fn imul10_add(&mut self, d: u8)
        requires
            old(self)@ <= 0x19999999999999999999999999999999_99999999999999999999999999999999int,
            d < 10,
        ensures
            final(self)@ == (old(self)@ as int * 10 + d) % (p256() as int),
    {
        let ghost o = *self;
        let ll = u128_lo(self.lo);
        let lh = u128_hi(self.lo);
        let hl = u128_lo(self.hi);
        let hh = u128_hi(self.hi);
        let mut t = ll * 10 + d as u128;
        let ghost t0 = t;
        proof {
            lemma_halves(t0);
        }
        self.lo = u128_lo(t);
        t = lh * 10 + u128_hi(t);
        let ghost t1 = t;
        proof {
            lemma_halves(t1);
            lemma_shl64(t1);
        }
        self.lo += t << 64u32;
        t = hl * 10 + u128_hi(t);
        let ghost t2 = t;
        proof {
            lemma_halves(t2);
        }
        self.hi = u128_lo(t);
        t = hh * 10 + u128_hi(t);
        let ghost t3 = t;
        proof {
            lemma_halves(t3);
            lemma_shl64(t3);
            lemma_halves(o.lo);
            lemma_halves(o.hi);
            let b = p64() as int;
            let (t0, t1, t2, t3) = (t0 as int, t1 as int, t2 as int, t3 as int);
            let (ll, lh, hl, hh, d) = (ll as int, lh as int, hl as int, hh as int, d as int);
            lemma_pow2_64_128();
            let x = t3 * b + t2 % b;
            lemma_mul10_identity(o@ as int, o.lo as int, o.hi as int, ll, lh, hl, hh, d,
                t0, t1, t2, t3, t0 / b, t0 % b, t1 / b, t1 % b, t2 / b, t2 % b);
            assert(o@ * 10 + d == x * (b * b) + (t0 % b + (t1 % b) * b));
            assert(x == (t3 / b) * (b * b) + ((t3 % b) * b + t2 % b)) by (nonlinear_arith)
                requires
                    x == t3 * b + t2 % b,
                    t3 == (t3 / b) * b + t3 % b,
            ;
            assert(0 <= (t3 % b) * b + t2 % b < b * b) by (nonlinear_arith)
                requires
                    0 <= t3 % b < b,
                    0 <= t2 % b < b,
            ;
            lemma_divmod_unique(x, b * b, t3 / b, (t3 % b) * b + t2 % b);
            lemma_wrap_limbs(x, (t3 % b) * b + t2 % b, t0 % b + (t1 % b) * b);
        }
        self.hi += t << 64u32;
    }

    /// Divide `self` inplace by `2^p` and round (tie to even).
    pub fn idiv_pow2(&mut self, p: u32)
        requires
            0 < p < 256,
        ensures
            final(self)@ == div_pow2_round(old(self)@, p as nat),
    {
        let ghost o = *self;
        proof {
            lemma_pow2_64_128();
            lemma_u256_bound(o);
            lemma_pow2_pos(p as nat);
            lemma_pow2_unfold(p as nat);
        }
        if p > 128 {
            let p2 = p - 128;
            proof {
                lemma_one_shl(p2);
                lemma_pow2_pos(p2 as nat);
            }
            let tie = 1u128 << (p2 - 1);
            let hi_rem = self.hi & ((1u128 << p2) - 1);
            let lo_nz = self.lo != 0;
            *self = self.shr(p);
            let rnd = hi_rem > tie || (hi_rem == tie && (lo_nz || (self.lo & 1) == 1));
            proof {
                let b = p128() as int;
                lemma_one_shl((p2 - 1) as u32);
                lemma_mask(o.hi, p2);
                lemma_pow2_adds(p2 as nat, 128);
                lemma_pow2_adds((p2 - 1) as nat, 128);
                lemma_pow2_unfold(p2 as nat);
                lemma_pow2_pos(p2 as nat);
                let pp = pow2(p2 as nat) as int;
                let q = o.hi as int / pp;
                let hr = o.hi as int % pp;
                lemma_split(o.hi as int, p2 as nat);
                assert(o@ == q * (pp * b) + (hr * b + o.lo)) by (nonlinear_arith)
                    requires
                        o@ == o.hi * b + o.lo,
                        o.hi == q * pp + hr,
                ;
                assert(0 <= hr * b + o.lo < pp * b) by (nonlinear_arith)
                    requires
                        0 <= hr < pp,
                        0 <= o.lo < b,
                ;
                assert(q >= 0);
                lemma_divmod_unique(o@ as int, pp * b, q, hr * b + o.lo);
                let t2 = pow2((p2 - 1) as nat) as int;
                assert(pow2(p as nat) / 2 == t2 * b);
                assert(hr * b + o.lo > t2 * b <==> (hr > t2 || (hr == t2 && o.lo != 0))) by (nonlinear_arith)
                    requires
                        0 <= o.lo < b,
                ;
                assert(hr * b + o.lo == t2 * b <==> (hr == t2 && o.lo == 0)) by (nonlinear_arith)
                    requires
                        0 <= o.lo < b,
                ;
                lemma_odd_lo(*self);
                lemma_round_no_wrap(o@, p as nat);
            }
            if rnd {
                self.incr();
                proof {
                    lemma_small_mod((o@ / pow2(p as nat) + 1) as nat, p256());
                }
            }
        } else if p == 128 {
            let tie = 1u128 << 127u32;
            let rem = self.lo;
            *self = self.shr(p);
            let rnd = rem > tie || (rem == tie && (self.lo & 1) == 1);
            proof {
                lemma_one_shl(127);
                lemma_pow2_unfold(128);
                lemma_divmod_unique(o@ as int, p128() as int, o.hi as int, o.lo as int);
                lemma_odd_lo(*self);
                lemma_round_no_wrap(o@, p as nat);
            }
            if rnd {
                self.incr();
                proof {
                    lemma_small_mod((o@ / pow2(p as nat) + 1) as nat, p256());
                }
            }
        } else {
            proof {
                lemma_one_shl(p);
            }
            let tie = 1u128 << (p - 1);
            let lo_rem = self.lo & ((1u128 << p) - 1);
            *self = self.shr(p);
            let rnd = lo_rem > tie || (lo_rem == tie && (self.lo & 1) == 1);
            proof {
                let b = p128() as int;
                lemma_one_shl((p - 1) as u32);
                lemma_mask(o.lo, p);
                let pp = pow2(p as nat) as int;
                let qq = pow2((128 - p) as nat) as int;
                lemma_pow2_adds(p as nat, (128 - p) as nat);
                lemma_split(o.lo as int, p as nat);
                let c = o.lo as int / pp;
                let r = o.lo as int % pp;
                assert(o@ == (o.hi * qq + c) * pp + r) by (nonlinear_arith)
                    requires
                        o@ == o.hi * b + o.lo,
                        b == pp * qq,
                        o.lo == c * pp + r,
                ;
                assert(o.hi * qq + c >= 0) by (nonlinear_arith)
                    requires
                        o.hi >= 0,
                        qq >= 0,
                        c >= 0,
                ;
                lemma_divmod_unique(o@ as int, pp, o.hi * qq + c, r);
                lemma_odd_lo(*self);
                lemma_round_no_wrap(o@, p as nat);
            }
            if rnd {
                self.incr();
                proof {
                    lemma_small_mod((o@ / pow2(p as nat) + 1) as nat, p256());
                }
            }
        }
    }

    /// Returns the number of trailing zeros in the binary representation of
    /// `self`.
    pub fn trailing_zeros(&self) -> (r: u32)
        ensures
            is_tz(self@, 256, r as nat),
    {
        let l = u128_trailing_zeros(self.lo);
        proof {
            lemma_pow2_64_128();
        }
        if self.lo == 0 {
            let h = u128_trailing_zeros(self.hi);
            proof {
                let b = p128() as int;
                assert(l == 128);
                if self.hi != 0 {
                    lemma_pow2_adds(h as nat, 128);
                    lemma_pow2_adds((h + 1) as nat, 128);
                    lemma_pow2_pos(h as nat);
                    lemma_pow2_pos((h + 1) as nat);
                    lemma_mod_scaled(self.hi as int, b, pow2(h as nat) as int);
                    lemma_mod_scaled(self.hi as int, b, pow2((h + 1) as nat) as int);
                    lemma_mul_is_commutative(b, pow2(h as nat) as int);
                    lemma_mul_is_commutative(b, pow2((h + 1) as nat) as int);
                    assert((h + 128) as nat == h as nat + 128);
                    assert((h + 128 + 1) as nat == (h + 1) as nat + 128);
                    assert(self@ == self.hi as int * b);
                }
            }
            l + h
        } else {
            proof {
                let b = p128() as int;
                if l == 128 {
                    lemma_small_mod(self.lo as nat, p128());
                }
                assert(l < 128);
                lemma_pow2_pos((l + 1) as nat);
                lemma_pow2_adds((l + 1) as nat, (128 - l - 1) as nat);
                lemma_pow2_adds(l as nat, (128 - l) as nat);
                lemma_pow2_pos(l as nat);
                let q1 = pow2((128 - l - 1) as nat) as int;
                let q0 = pow2((128 - l) as nat) as int;
                lemma_mod_multiples_vanish(self.hi * q1, self.lo as int, pow2((l + 1) as nat) as int);
                lemma_mod_multiples_vanish(self.hi * q0, self.lo as int, pow2(l as nat) as int);
                assert(self.hi * b == (self.hi * q1) * pow2((l + 1) as nat)) by (nonlinear_arith)
                    requires
                        b == pow2((l + 1) as nat) * q1,
                ;
                assert(self.hi * b == (self.hi * q0) * pow2(l as nat)) by (nonlinear_arith)
                    requires
                        b == pow2(l as nat) * q0,
                ;
            }
            l
        }
    }

    /// Raw transmutation to `[u64; 4]` (in little endian order).
    pub fn to_bits(self) -> (r: [u64; 4])
        ensures
            r[0] as nat == self.lo as nat % p64(),
            r[1] as nat == self.lo as nat / p64(),
            r[2] as nat == self.hi as nat % p64(),
            r[3] as nat == self.hi as nat / p64(),
    {
        [
            u128_lo(self.lo) as u64,
            u128_hi(self.lo) as u64,
            u128_lo(self.hi) as u64,
            u128_hi(self.hi) as u64,
        ]
    }

    /// Raw transmutation from `[u64; 4]` (in little endian order).
    pub fn from_bits(bits: [u64; 4]) -> (r: Self)
        ensures
            r.lo as nat == bits[0] as nat + bits[1] as nat * p64(),
            r.hi as nat == bits[2] as nat + bits[3] as nat * p64(),
    {
        let (b0, b1, b2, b3) = (bits[0], bits[1], bits[2], bits[3]);
        proof {
            assert(((b3 as u128) << 64u32) | (b2 as u128) == (b3 as u128) * 0x1_0000_0000_0000_0000u128 + (b2 as u128)) by (bit_vector);
            assert(((b1 as u128) << 64u32) | (b0 as u128) == (b1 as u128) * 0x1_0000_0000_0000_0000u128 + (b0 as u128)) by (bit_vector);
        }
        Self {
            hi: (b3 as u128) << 64u32 | (b2 as u128),
            lo: (b1 as u128) << 64u32 | (b0 as u128),
        }
    }

    /// Add 1 to `self` inplace.
    pub fn incr(&mut self)
        ensures
            final(self)@ == (old(self)@ as int + 1) % (p256() as int),
    {
        self.lo = self.lo.wrapping_add(1u128);
        self.hi = self.hi.wrapping_add((self.lo == 0) as u128);
        proof {
            let o = *old(self);
            let c: int = if o.lo == u128::MAX { 1 } else { 0 };
            assert(o.lo + 1 == c * p128() + self.lo);
            lemma_wrap_limbs(o.hi + c, self.hi as int, self.lo as int);
            lemma_divmod_unique(o.hi + c, p128() as int, (if o.hi + c >= p128() { 1int } else { 0int }), self.hi as int);
        }
    }

    /// Add `rhs` to `self` inplace, modulo 2²⁵⁶.
    pub fn add_assign(&mut self, rhs: &Self)
        ensures
            final(self)@ == (old(self)@ as int + rhs@) % (p256() as int),
    {
        self.lo = self.lo.wrapping_add(rhs.lo);
        self.hi = self.hi.wrapping_add((self.lo < rhs.lo) as u128);
        self.hi = self.hi.wrapping_add(rhs.hi);
        proof {
            let o = *old(self);
            let c: int = if o.lo + rhs.lo >= p128() { 1 } else { 0 };
            assert(o.lo + rhs.lo == c * p128() + self.lo);
            let x = o.hi + c + rhs.hi;
            lemma_wrap_limbs(x, self.hi as int, self.lo as int);
            let hc = if o.hi + c >= p128() { (o.hi + c - p128()) as int } else { (o.hi + c) as int };
            let q2: int = if o.hi + c + rhs.hi >= 2 * p128() { 2 } else if o.hi + c + rhs.hi >= p128() { 1 } else { 0 };
            lemma_divmod_unique(x, p128() as int, q2, self.hi as int);
            assert(o@ + rhs@ == x * p128() + self.lo);
        }
    }

    /// Add the `u128` value `rhs` to `self` inplace, modulo 2²⁵⁶.
    pub fn add_assign_u128(&mut self, rhs: u128)
        ensures
            final(self)@ == (old(self)@ as int + rhs) % (p256() as int),
    {
        self.lo = self.lo.wrapping_add(rhs);
        self.hi = self.hi.wrapping_add((self.lo < rhs) as u128);
        proof {
            let o = *old(self);
            let c: int = if o.lo + rhs >= p128() { 1 } else { 0 };
            assert(o.lo + rhs == c * p128() + self.lo);
            let x = o.hi + c;
            lemma_wrap_limbs(x, self.hi as int, self.lo as int);
            lemma_divmod_unique(x, p128() as int, (if x >= p128() { 1int } else { 0int }), self.hi as int);
            assert(o@ + rhs == x * p128() + self.lo);
        }
    }

    /// Returns `(self⋅2ˢʰ) mod d` for a normalized divisor `d`
    /// (`2²⁵⁴ <= d < 2²⁵⁵`), shifting in one bit at a time.
    pub fn lshift_rem(&self, d: &Self, sh: u32) -> (r: Self)
        requires
            pow2(254) <= d@ < pow2(255),
        ensures
            r@ == (self@ * pow2(sh as nat)) % d@,
    {
        let mut t = *self;
        proof {
            lemma_pow2_64_128();
            lemma_pow2_strictly_increases(255, 256);
            lemma_pow2_unfold(256);
            lemma_pow2_pos(254);
        }
        while !t.lt(d)
            invariant
                pow2(254) <= d@ < pow2(255),
                0 < pow2(254),
                pow2(255) < p256(),
                t@ % d@ == self@ % d@,
            decreases t@,
        {
            let ghost o = t@;
            proof {
                lemma_u256_bound(t);
            }
            t.sub_assign(d);
            proof {
                lemma_mod_sub_multiples_vanish((o + p256() - d@) as int, p256() as int);
                lemma_small_mod((o - d@) as nat, p256());
                assert(t@ == o - d@);
                lemma_mod_sub_multiples_vanish(o as int, d@ as int);
            }
        }
        proof {
            lemma_small_mod(t@, d@);
            lemma2_to64();
            assert(self@ * pow2(0) == self@);
        }
        let mut i: u32 = 0;
        while i < sh
            invariant
                i <= sh,
                pow2(254) <= d@ < pow2(255),
                0 < pow2(254),
                p256() == 2 * pow2(255),
                t@ < d@,
                t@ == (self@ * pow2(i as nat)) % d@,
            decreases sh - i,
        {
            let ghost o = t@;
            t = t.shl(1);
            proof {
                lemma_pow2_unfold(1);
                lemma2_to64();
                lemma_small_mod(o * 2, p256());
                assert(t@ == o * 2);
                lemma_mul_mod_noop_left((self@ * pow2(i as nat)) as int, 2, d@ as int);
                lemma_pow2_unfold((i + 1) as nat);
                assert(self@ * pow2(i as nat) * 2 == self@ * pow2((i + 1) as nat)) by (nonlinear_arith)
                    requires
                        pow2((i + 1) as nat) == 2 * pow2(i as nat),
                ;
            }
            if !t.lt(d) {
                let ghost o2 = t@;
                t.sub_assign(d);
                proof {
                    lemma_mod_sub_multiples_vanish((o2 + p256() - d@) as int, p256() as int);
                    lemma_small_mod((o2 - d@) as nat, p256());
                    lemma_mod_sub_multiples_vanish(o2 as int, d@ as int);
                    lemma_small_mod((o2 - d@) as nat, d@);
                }
            } else {
                proof {
                    lemma_small_mod(t@, d@);
                }
            }
            i = i + 1;
        }
        t
    }

    /// Subtract `rhs` from `self` inplace, modulo 2²⁵⁶.
    pub fn sub_assign(&mut self, rhs: &Self)
        ensures
            final(self)@ == (old(self)@ as int + p256() - rhs@) % (p256() as int),
    {
        let t = self.lo.wrapping_sub(rhs.lo);
        self.hi = self.hi.wrapping_sub(rhs.hi).wrapping_sub((t > self.lo) as u128);
        self.lo = t;
        proof {
            let o = *old(self);
            let c: int = if o.lo < rhs.lo { 1 } else { 0 };
            assert(o.lo - rhs.lo == t - c * p128());
            assert((t > o.lo) == (c == 1));
            let x = o.hi - rhs.hi - c + p128();
            lemma_wrap_limbs(x, self.hi as int, self.lo as int);
            lemma_divmod_unique(x, p128() as int, (if x >= p128() { 1int } else { 0int }), self.hi as int);
            assert(o@ + p256() - rhs@ == x * p128() + self.lo) by {
                lemma_pow2_64_128();
            }
        }
    }

    /// Subtract the `u128` value `rhs` from `self` inplace, modulo 2²⁵⁶.
    pub fn sub_assign_u128(&mut self, rhs: u128)
        ensures
            final(self)@ == (old(self)@ as int + p256() - rhs) % (p256() as int),
    {
        let t = self.lo.wrapping_sub(rhs);
        self.hi = self.hi.wrapping_sub((t > self.lo) as u128);
        self.lo = t;
        proof {
            let o = *old(self);
            let c: int = if o.lo < rhs { 1 } else { 0 };
            assert(o.lo - rhs == t - c * p128());
            let x = o.hi - c + p128();
            lemma_wrap_limbs(x, self.hi as int, self.lo as int);
            lemma_divmod_unique(x, p128() as int, (if x >= p128() { 1int } else { 0int }), self.hi as int);
            assert(o@ + p256() - rhs == x * p128() + self.lo);
        }
    }

    /// Multiply `self` inplace by the `u128` value `rhs`, modulo 2²⁵⁶.
    pub fn mul_assign_u128(&mut self, rhs: u128)
        ensures
            final(self)@ == (old(self)@ as int * rhs) % (p256() as int),
    {
        let tl = u128_widening_mul(self.lo, rhs);
        self.lo = tl.lo;
        let th = u128_widening_mul(self.hi, rhs);
        self.hi = th.lo.wrapping_add(tl.hi);
        proof {
            let o = *old(self);
            let b = p128() as int;
            let x = th.hi * b + th.lo + tl.hi;
            assert(o@ * rhs == x * b + tl.lo) by (nonlinear_arith)
                requires
                    o@ == o.hi * b + o.lo,
                    o.lo * rhs == tl.hi * b + tl.lo,
                    o.hi * rhs == th.hi * b + th.lo,
                    x == th.hi * b + th.lo + tl.hi,
            ;
            let c: int = if th.lo + tl.hi >= b { 1 } else { 0 };
            assert(x == (th.hi + c) * b + self.hi);
            lemma_divmod_unique(x, b, th.hi + c, self.hi as int);
            lemma_wrap_limbs(x, self.hi as int, self.lo as int);
        }
    }
}

} // verus!
