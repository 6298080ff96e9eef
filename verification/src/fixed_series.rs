//! Tables of fixed-point constants and polynomial evaluation by Horner's
//! scheme in fixed-point arithmetic with 492 fractional bits.
use vstd::prelude::*;
use crate::bits::{p128, p256};
use crate::fp492::{FP492, signed512, pattern512, rounded_product};

verus! {

/// The FP492 pattern held by entry `i` of the word table `t`: four `u128`
/// words, most significant first.
pub open spec fn table_pattern(t: Seq<u128>, i: int) -> nat {
    ((t[4 * i] as nat * p128() + t[4 * i + 1]) * p256() + t[4 * i + 2] as nat * p128()
        + t[4 * i + 3]) as nat
}

/// The signed value (in units of 2⁻⁴⁹²) of entry `i` of the word table `t`.
pub open spec fn table_value(t: Seq<u128>, i: int) -> int {
    signed512(table_pattern(t, i))
}

/// `v` wrapped into the range of FP492 values (two's complement).
pub open spec fn wrap492(v: int) -> int {
    signed512(pattern512(v))
}

/// The value of the polynomial with the coefficients of `t` (highest
/// degree first) after `k` steps of Horner's scheme at `x`, each product
/// rounded to 492 fractional bits and each step wrapped into range.
pub open spec fn horner492(t: Seq<u128>, x: int, k: nat) -> int
    decreases k,
{
    if k == 0 {
        table_value(t, 0)
    } else {
        wrap492(wrap492(rounded_product(horner492(t, x, (k - 1) as nat), x, 492)) + table_value(t, k as int))
    }
}

/// Reads entry `i` of the word table `t`.
pub fn table_entry(t: &[u128], i: usize) -> (r: FP492)
    requires
        4 * i + 3 < t@.len(),
    ensures
        r.0@ == table_pattern(t@, i as int),
        r.value() == table_value(t@, i as int),
{
    let len = t.len();
    assert(4 * i + 3 < len);
    FP492::new(t[4 * i], t[4 * i + 1], t[4 * i + 2], t[4 * i + 3])
}

/// Evaluates the polynomial with the `n` coefficients of `t` (highest
/// degree first) at `x` by Horner's scheme.
pub fn eval_horner(t: &[u128], n: usize, x: &FP492) -> (r: FP492)
    requires
        1 <= n,
        4 * n <= t@.len(),
    ensures
        r.value() == horner492(t@, x.value(), (n - 1) as nat),
{
    let mut acc = table_entry(t, 0);
    let mut k: usize = 1;
    while k < n
        invariant
            1 <= k <= n,
            4 * n <= t@.len(),
            acc.value() == horner492(t@, x.value(), (k - 1) as nat),
        decreases n - k,
    {
        acc.imul_round(x);
        let c = table_entry(t, k);
        acc.add_assign(&c);
        k = k + 1;
    }
    acc
}

} // verus!
