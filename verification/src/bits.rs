//! Facts about powers of two and about shifts and masks on `u128`.
use vstd::prelude::*;
use vstd::arithmetic::power2::*;
use vstd::arithmetic::div_mod::*;
use vstd::arithmetic::mul::*;
use vstd::bits::*;

verus! {

/// 2⁶⁴
pub open spec fn p64() -> nat {
    0x1_0000_0000_0000_0000nat
}

/// 2¹²⁸
pub open spec fn p128() -> nat {
    0x1_0000_0000_0000_0000_0000_0000_0000_0000nat
}

/// 2²⁵⁶
pub open spec fn p256() -> nat {
    p128() * p128()
}

pub proof fn lemma_pow2_64_128()
    ensures
        pow2(64) == p64(),
        pow2(128) == p128(),
        pow2(256) == p256(),
        p128() == p64() * p64(),
{
    lemma2_to64();
    lemma2_to64_rest();
    lemma_pow2_adds(64, 64);
    lemma_pow2_adds(128, 128);
}

/// Shifting `1` left by `s` bits gives `2ˢ`.
pub proof fn lemma_one_shl(s: u32)
    requires
        s < 128,
    ensures
        (1u128 << s) == pow2(s as nat),
    decreases s,
{
    if s == 0 {
        assert((1u128 << 0u32) == 1u128) by (bit_vector);
        lemma2_to64();
    } else {
        assert((1u128 << s) == (1u128 << ((s - 1) as u32)) * 2) by (bit_vector)
            requires
                0 < s < 128,
        ;
        lemma_one_shl((s - 1) as u32);
        lemma_pow2_unfold(s as nat);
    }
}

/// The value of a truncating cast to `u128`.
pub proof fn lemma_cast_u128(v: nat)
    requires
        v < p128() * p128(),
    ensures
        (v as u128) as nat == v % p128(),
{
    let q = v / p128();
    let r = v % p128();
    assert(v == q * p128() + r) by {
        lemma_fundamental_div_mod(v as int, p128() as int);
    }
    assert(q < p128()) by {
        lemma_div_strictly_bounded(v as int, p128() as int, p128() as int);
    }
    let qq = q as u128;
    let rr = r as u128;
    assert(((qq as int) * 0x1_0000_0000_0000_0000_0000_0000_0000_0000int + (rr as int)) as u128 == rr)
        by (bit_vector);
}

/// If `x < a⋅b` and `a > 0` then `x / a < b`.
pub proof fn lemma_div_strictly_bounded(x: int, a: int, b: int)
    requires
        a > 0,
        b >= 0,
        0 <= x < a * b,
    ensures
        x / a < b,
{
    lemma_div_by_multiple(b, a);
    lemma_mul_is_commutative(a, b);
    lemma_div_by_multiple_is_strongly_ordered(x, a * b, b, a);
}

/// Shifting left is multiplying by a power of two, modulo 2¹²⁸.
pub proof fn lemma_shl(x: u128, s: u32)
    requires
        s < 128,
    ensures
        (x << s) as nat == (x as nat * pow2(s as nat)) % p128(),
        (x << s) as nat <= x as nat * pow2(s as nat),
{
    assert((x << s) == (x * (1u128 << s)) as u128) by (bit_vector)
        requires
            s < 128,
    ;
    lemma_one_shl(s);
    lemma_pow2_64_128();
    lemma_pow2_strictly_increases(s as nat, 128);
    let v = x as nat * pow2(s as nat);
    lemma_pow2_pos(s as nat);
    assert(v < p128() * p128()) by {
        lemma_mul_strict_inequality(x as int, p128() as int, pow2(s as nat) as int);
        lemma_mul_strict_inequality(pow2(s as nat) as int, p128() as int, p128() as int);
        lemma_mul_is_commutative(x as int, pow2(s as nat) as int);
    }
    lemma_cast_u128(v);
    lemma_mod_decreases(v, p128());
}

/// Shifting left without loss of bits is multiplying by a power of two.
pub proof fn lemma_shl_exact(x: u128, s: u32)
    requires
        s < 128,
        x as nat * pow2(s as nat) < p128(),
    ensures
        (x << s) as nat == x as nat * pow2(s as nat),
{
    lemma_shl(x, s);
    lemma_small_mod(x as nat * pow2(s as nat), p128());
}

/// Shifting right is dividing by a power of two.
pub proof fn lemma_shr(x: u128, s: u32)
    requires
        s < 128,
    ensures
        (x >> s) as nat == x as nat / pow2(s as nat),
{
    assert((x >> s) == (x >> (s as u128))) by (bit_vector);
    lemma_u128_shr_is_div(x, s as u128);
}

/// Masking the low `s` bits is taking the remainder modulo 2ˢ.
pub proof fn lemma_mask(x: u128, s: u32)
    requires
        s < 128,
    ensures
        (x & ((1u128 << s) - 1) as u128) as int == x as int % pow2(s as nat) as int,
{
    let m = ((1u128 << s) - 1) as u128;
    assert((x & m) == x - ((x >> s) << s)) by (bit_vector)
        requires
            s < 128,
            m == ((1u128 << s) - 1) as u128,
    ;
    let pp = pow2(s as nat) as int;
    lemma_shr(x, s);
    lemma_split(x as int, s as nat);
    let q = x as int / pp;
    lemma_pow2_strictly_increases(s as nat, 128);
    lemma_pow2_64_128();
    lemma_shl_exact((x >> s), s);
}

/// Splitting a value at a power of two.
pub proof fn lemma_split(x: int, s: nat)
    requires
        x >= 0,
    ensures
        x == (x / pow2(s) as int) * pow2(s) as int + x % pow2(s) as int,
        0 <= x % (pow2(s) as int) < (pow2(s) as int),
        0 <= x / (pow2(s) as int) <= x,
        (x / pow2(s) as int) * pow2(s) as int <= x,
{
    lemma_pow2_pos(s);
    lemma_fundamental_div_mod(x, pow2(s) as int);
    lemma_mul_is_commutative(x / pow2(s) as int, pow2(s) as int);
    lemma_mod_bound(x, pow2(s) as int);
    lemma_div_pos_is_pos(x, pow2(s) as int);
    lemma_div_is_ordered_by_denominator(x, 1, pow2(s) as int);
}

} // verus!
