//! Laws of the 256-bit unsigned integer operations.
use vstd::prelude::*;
use vstd::arithmetic::power2::{pow2, lemma_pow2_pos};
use vstd::arithmetic::div_mod::{lemma_small_mod, lemma_fundamental_div_mod, lemma_mod_bound};
use crate::bits::{p64, p128, p256, lemma_pow2_64_128};
use crate::uint256::{u256, lemma_divmod_unique, lemma_u256_bound};

verus! {

/// Converting the raw bits of a `u256` into four `u64` values and back
/// gives the same value.
pub proof fn lemma_bits_roundtrip(u: u256, b: [u64; 4], v: u256)
    requires
        b[0] as nat == u.lo as nat % p64(),
        b[1] as nat == u.lo as nat / p64(),
        b[2] as nat == u.hi as nat % p64(),
        b[3] as nat == u.hi as nat / p64(),
        v.lo as nat == b[0] as nat + b[1] as nat * p64(),
        v.hi as nat == b[2] as nat + b[3] as nat * p64(),
    ensures
        v == u,
{
    lemma_fundamental_div_mod(u.lo as int, p64() as int);
    lemma_fundamental_div_mod(u.hi as int, p64() as int);
    vstd::arithmetic::mul::lemma_mul_is_commutative(p64() as int, (u.lo as nat / p64()) as int);
    vstd::arithmetic::mul::lemma_mul_is_commutative(p64() as int, (u.hi as nat / p64()) as int);
}

/// Adding `b` and then subtracting it again, both modulo 2²⁵⁶, gives back
/// the original value.
pub proof fn lemma_add_sub_inverse(a: nat, b: nat)
    requires
        a < p256(),
        b < p256(),
    ensures
        (((a as int + b) % (p256() as int)) + p256() - b) % (p256() as int) == a,
{
    let m = p256() as int;
    lemma_pow2_64_128();
    lemma_pow2_pos(256);
    let (ai, bi) = (a as int, b as int);
    if ai + bi >= m {
        lemma_divmod_unique(ai + bi, m, 1, ai + bi - m);
        lemma_divmod_unique(ai + bi - m + m - bi, m, 0, ai);
    } else {
        lemma_divmod_unique(ai + bi, m, 0, ai + bi);
        lemma_divmod_unique(ai + bi + m - bi, m, 1, ai);
    }
}

/// Shifting left by `n` bits without losing bits and then right by `n`
/// bits gives back the original value.
pub proof fn lemma_shl_shr_inverse(x: nat, n: nat)
    requires
        x * pow2(n) < p256(),
    ensures
        ((x * pow2(n)) % p256()) / pow2(n) == x,
{
    lemma_pow2_pos(n);
    lemma_small_mod(x * pow2(n), p256());
    vstd::arithmetic::mul::lemma_mul_is_commutative(x as int, pow2(n) as int);
    vstd::arithmetic::div_mod::lemma_div_multiples_vanish(x as int, pow2(n) as int);
}

} // verus!
