//! The signs of sine and cosine by quadrant.
use vstd::prelude::*;
use crate::binary256::{f256, sign_of, bexp, abs_of, is_finite_spec, is_zero_spec};
use crate::fp492_conv::fixed_of_f256;
use crate::reduce::{is_reduction, fp_frac_pi_2, fp_frac_pi_4};
use crate::reduce_laws::{frac_pi_2_multiple, lemma_reduction_remainder};
use crate::series_laws::lemma_approx_sin_cos_signs;
use crate::circular::{is_sine_of, is_cosine_of, sine_of_reduction, cosine_of_reduction};
use crate::circular_laws::lemma_abs_of_fields;

verus! {

/// The FP492 value of `|x|`.
pub open spec fn fixed_abs(x: f256) -> int {
    fixed_of_f256(abs_of(x), 0, 19, 492)
}

/// The multiple `k` of `½π` that the reduction of a finite `y` in
/// `[0, 8)` subtracts.
proof fn lemma_reduction_multiple(y: f256, q: int, v: int) -> (k: int)
    requires
        is_finite_spec(y),
        sign_of(y) == 0,
        bexp(y) <= 262145,
        is_reduction(y, q, v),
    ensures
        0 <= k <= 5,
        q == k % 4,
        fixed_of_f256(y, 0, 19, 492) == frac_pi_2_multiple(k) + v,
        -fp_frac_pi_4() - 1 <= v <= fp_frac_pi_4() + 1,
        fixed_of_f256(y, 0, 19, 492) >= 0,
{
    lemma_reduction_remainder(y, q, v);
    crate::reduce_laws::lemma_reduction_remainder_nonneg(y);
    choose|k: int| 0 <= k <= 5 && q == k % 4
        && fixed_of_f256(y, 0, 19, 492) == #[trigger] frac_pi_2_multiple(k) + v
}

/// The reduction of `|x|` for `|x| < 8`, with the multiple `k` of `½π`
/// that it subtracts.
proof fn lemma_reduction_of_abs(x: f256, q: int, v: int) -> (k: int)
    requires
        is_finite_spec(x),
        bexp(x) <= 262145,
        is_reduction(abs_of(x), q, v),
    ensures
        0 <= k <= 5,
        q == k % 4,
        fixed_abs(x) == frac_pi_2_multiple(k) + v,
        -fp_frac_pi_4() - 1 <= v <= fp_frac_pi_4() + 1,
        fp_frac_pi_2() == 2 * fp_frac_pi_4(),
        fp_frac_pi_4() > 4,
        fixed_abs(x) >= 0,
{
    lemma_abs_of_fields(x);
    crate::reduce_laws::lemma_reduction_constants();
    vstd::arithmetic::power2::lemma2_to64();
    vstd::arithmetic::power2::lemma_pow2_strictly_increases(3, 492);
    let y = abs_of(x);
    assert(is_finite_spec(y));
    lemma_reduction_multiple(y, q, v)
}

/// The sign of the sine from the multiple `k` of `½π` and the remainder
/// `v` of `|x|` (FP492 value `fx`).
#[verifier::rlimit(40)]
proof fn lemma_sine_sign_by_quadrant(sx: nat, q: int, v: int, k: int, fx: int, r: f256)
    requires
        sx == 0 || sx == 1,
        0 <= k <= 5,
        q == k % 4,
        fx == frac_pi_2_multiple(k) + v,
        fx >= 0,
        -fp_frac_pi_4() - 1 <= v <= fp_frac_pi_4() + 1,
        fp_frac_pi_2() == 2 * fp_frac_pi_4(),
        fp_frac_pi_4() > 4,
        sine_of_reduction(sx, q, v, r),
    ensures
        is_zero_spec(r) || sign_of(r) == (if 2 * fp_frac_pi_2() < fx <= 4 * fp_frac_pi_2() {
            1 - sx
        } else {
            sx as int
        }),
{
    lemma_approx_sin_cos_signs(v);
    let p = fp_frac_pi_2();
    if k == 0 {
        assert(fx == v);
    } else if k == 1 {
        assert(fx == p + v);
    } else if k == 2 {
        assert(fx == 2 * p + v);
    } else if k == 3 {
        assert(fx == 3 * p + v);
    } else if k == 4 {
        assert(fx == 4 * p + v);
    } else {
        assert(fx == 5 * p + v);
    }
}

/// The sign of the cosine from the multiple `k` of `½π` and the remainder
/// `v` of `|x|` (FP492 value `fx`).
#[verifier::rlimit(40)]
proof fn lemma_cosine_sign_by_quadrant(q: int, v: int, k: int, fx: int, r: f256)
    requires
        0 <= k <= 5,
        q == k % 4,
        fx == frac_pi_2_multiple(k) + v,
        fx >= 0,
        -fp_frac_pi_4() - 1 <= v <= fp_frac_pi_4() + 1,
        fp_frac_pi_2() == 2 * fp_frac_pi_4(),
        fp_frac_pi_4() > 4,
        cosine_of_reduction(q, v, r),
    ensures
        is_zero_spec(r) || sign_of(r) == (if fp_frac_pi_2() < fx <= 3 * fp_frac_pi_2()
            || 5 * fp_frac_pi_2() < fx { 1int } else { 0int }),
{
    lemma_approx_sin_cos_signs(v);
    let p = fp_frac_pi_2();
    if k == 0 {
        assert(fx == v);
    } else if k == 1 {
        assert(fx == p + v);
    } else if k == 2 {
        assert(fx == 2 * p + v);
    } else if k == 3 {
        assert(fx == 3 * p + v);
    } else if k == 4 {
        assert(fx == 4 * p + v);
    } else {
        assert(fx == 5 * p + v);
    }
}

/// The sine of a finite non-zero `x` with `|x| < 8` has the sign of `x`
/// where `|x|` lies in `[0, π]` or beyond `2π`, and the opposite sign where
/// it lies in `(π, 2π]` (in FP492, `π` as twice the FP492 `½π`), unless
/// it is zero.
pub proof fn lemma_sine_sign(x: f256, r: f256)
    requires
        is_finite_spec(x),
        !is_zero_spec(x),
        bexp(x) <= 262145,
        is_sine_of(x, r),
    ensures
        is_zero_spec(r) || sign_of(r) == (if 2 * fp_frac_pi_2() < fixed_abs(x) <= 4 * fp_frac_pi_2() {
            1 - sign_of(x)
        } else {
            sign_of(x) as int
        }),
{
    let (q, v) = choose|q: int, v: int| #[trigger] is_reduction(abs_of(x), q, v)
        && sine_of_reduction(sign_of(x), q, v, r);
    let k = lemma_reduction_of_abs(x, q, v);
    crate::binary256::lemma_hi_fields(x.bits.hi);
    lemma_sine_sign_by_quadrant(sign_of(x), q, v, k, fixed_abs(x), r);
}

/// The cosine of a finite non-zero `x` with `|x| < 8` is positive where
/// `|x|` lies in `[0, ½π]` or `(3/2⋅π, 5/2⋅π]`, and negative where it lies
/// in `(½π, 3/2⋅π]` or beyond `5/2⋅π` (in FP492), unless it is zero.
pub proof fn lemma_cosine_sign(x: f256, r: f256)
    requires
        is_finite_spec(x),
        !is_zero_spec(x),
        bexp(x) <= 262145,
        is_cosine_of(x, r),
    ensures
        is_zero_spec(r) || sign_of(r) == (if fp_frac_pi_2() < fixed_abs(x) <= 3 * fp_frac_pi_2()
            || 5 * fp_frac_pi_2() < fixed_abs(x) { 1int } else { 0int }),
{
    let (q, v) = choose|q: int, v: int| #[trigger] is_reduction(abs_of(x), q, v) && cosine_of_reduction(q, v, r);
    let k = lemma_reduction_of_abs(x, q, v);
    lemma_cosine_sign_by_quadrant(q, v, k, fixed_abs(x), r);
}

} // verus!
