//! CORDIC in circular coordinates, on [`Float`] values: the vectoring mode
//! (arctangent) and the rotation mode (sine and cosine).
use vstd::prelude::*;
use crate::uint256::u256;
use crate::big_float::Float;
use crate::float_add::{is_difference, is_sum, lemma_sum_exp, lemma_difference_exp};
use crate::atan2::is_float_pi;
use crate::cordic_atans::{atans_value, atans_entry};

verus! {

/// The state of a CORDIC iteration: the coordinates `x`, `y` and the angle
/// `z`.
pub type CordicState = (Float, Float, Float);

/// `f⋅2⁻ⁱ` (the exponent lowered by `i`), negated where `flip`.
pub open spec fn shifted(f: Float, i: int, flip: bool) -> Float {
    Float { signum: (if flip { -f.signum } else { f.signum as int }) as i32, exp: (f.exp - i) as i32, signif: f.signif }
}

/// `f >= 0` in the order of (signum, exponent, significand).
pub open spec fn is_non_negative(f: Float) -> bool {
    f.signum > 0 || (f.signum == 0 && f.exp >= 0)
}

/// Step `i` of the vectoring mode from `s` to `t`: `y` is rotated towards 0
/// by `±atan(2⁻ⁱ)` (towards the negative side where `y >= 0`), each
/// operation rounded as [`Float`] computes it.
pub open spec fn is_vm_step(i: int, s: CordicState, t: CordicState) -> bool {
    let up = is_non_negative(s.1);
    &&& is_difference(s.0, shifted(s.1, i, up), t.0)
    &&& is_sum(s.1, shifted(s.0, i, up), t.1)
    &&& is_difference(s.2, shifted(atans_value(i), 0, up), t.2)
}

/// Step `i` of the rotation mode from `s` to `t`: the angle `z` is driven
/// towards 0 by `±atan(2⁻ⁱ)` (upwards where `z < 0`), each operation
/// rounded as [`Float`] computes it.
pub open spec fn is_rm_step(i: int, s: CordicState, t: CordicState) -> bool {
    let down = !is_non_negative(s.2);
    &&& is_difference(s.0, shifted(s.1, i, down), t.0)
    &&& is_sum(s.1, shifted(s.0, i, down), t.1)
    &&& is_difference(s.2, shifted(atans_value(i), 0, down), t.2)
}

/// `s` holds consecutive states of the vectoring mode.
pub open spec fn is_vm_chain(s: Seq<CordicState>) -> bool {
    forall|i: int| 1 <= i < s.len() ==> is_vm_step(i - 1, s[i - 1], #[trigger] s[i])
}

/// `s` holds consecutive states of the rotation mode.
pub open spec fn is_rm_chain(s: Seq<CordicState>) -> bool {
    forall|i: int| 1 <= i < s.len() ==> is_rm_step(i - 1, s[i - 1], #[trigger] s[i])
}

/// The state `s` after 255 steps of the vectoring mode from `s0`.
#[verifier::opaque]
pub open spec fn is_vm_result(s0: CordicState, s: CordicState) -> bool {
    exists|c: Seq<CordicState>| #[trigger] is_vm_chain(c) && c.len() == 256 && c[0] == s0 && c[255] == s
}

/// The state `s` after 255 steps of the rotation mode from `s0`.
#[verifier::opaque]
pub open spec fn is_rm_result(s0: CordicState, s: CordicState) -> bool {
    exists|c: Seq<CordicState>| #[trigger] is_rm_chain(c) && c.len() == 256 && c[0] == s0 && c[255] == s
}

/// The exponents of the three coordinates lie in `[lo, hi]`.
pub open spec fn exps_within(s: CordicState, lo: int, hi: int) -> bool {
    &&& lo <= s.0.exp <= hi
    &&& lo <= s.1.exp <= hi
    &&& lo <= s.2.exp <= hi
}

/// The coordinates are well formed.
pub open spec fn state_wf(s: CordicState) -> bool {
    s.0.wf() && s.1.wf() && s.2.wf()
}

/// One step of CORDIC from `(x, y, z)`: with `flip`, the shifted values are
/// negated before `x -= y⋅2⁻ⁱ`, `y += x⋅2⁻ⁱ`, `z -= atan(2⁻ⁱ)`.
fn cordic_step(x: &Float, y: &Float, z: &Float, i: usize, flip: bool) -> (r: CordicState)
    requires
        i < 255,
        state_wf((*x, *y, *z)),
        exps_within((*x, *y, *z), -0x100_0000 - 520 * i, 0x100_0000 + i),
    ensures
        state_wf(r),
        is_difference(*x, shifted(*y, i as int, flip), r.0),
        is_sum(*y, shifted(*x, i as int, flip), r.1),
        is_difference(*z, shifted(atans_value(i as int), 0, flip), r.2),
        exps_within(r, -0x100_0000 - 520 * (i + 1), 0x100_0000 + i + 1),
{
    let mut dx = y.mul_pow2(-(i as i32));
    let mut dy = x.mul_pow2(-(i as i32));
    let mut a = atans_entry(i);
    if flip {
        dx.flip_sign();
        dy.flip_sign();
        a.flip_sign();
    }
    let nx = x.sub(&dx);
    let ny = y.add(&dy);
    let nz = z.sub(&a);
    proof {
        assert(dx == shifted(*y, i as int, flip));
        assert(dy == shifted(*x, i as int, flip));
        assert(a == shifted(atans_value(i as int), 0, flip));
        let lo = -0x100_0000 - 520 * i - 255;
        let hi = 0x100_0000 + i;
        lemma_difference_exp(*x, dx, nx, lo, hi);
        lemma_sum_exp(*y, dy, ny, lo, hi);
        lemma_difference_exp(*z, a, nz, lo, hi);
    }
    (nx, ny, nz)
}

/// CORDIC in circular coordinates, vectoring mode: rotates `(x, y)` onto
/// the x-axis in 255 steps, accumulating the angle in `z`; returns the
/// final `x` and `z`.
pub fn cordic_circ_vm(x: Float, y: Float, z: Float) -> (r: (Float, Float))
    requires
        state_wf((x, y, z)),
        exps_within((x, y, z), -0x100_0000, 0x100_0000),
    ensures
        r.0.wf(),
        r.1.wf(),
        -0x200_0000 <= r.0.exp <= 0x200_0000,
        -0x200_0000 <= r.1.exp <= 0x200_0000,
        exists|s: CordicState| #[trigger] is_vm_result((x, y, z), s) && r == (s.0, s.2),
{
    let mut cx = x;
    let mut cy = y;
    let mut cz = z;
    let ghost mut c: Seq<CordicState> = seq![(x, y, z)];
    let mut i: usize = 0;
    while i < 255
        invariant
            0 <= i <= 255,
            c.len() == i + 1,
            c[0] == (x, y, z),
            c[i as int] == (cx, cy, cz),
            is_vm_chain(c),
            state_wf((cx, cy, cz)),
            exps_within((cx, cy, cz), -0x100_0000 - 520 * i, 0x100_0000 + i),
        decreases 255 - i,
    {
        let up = cy.signum > 0 || (cy.signum == 0 && cy.exp >= 0);
        let (nx, ny, nz) = cordic_step(&cx, &cy, &cz, i, up);
        proof {
            c = c.push((nx, ny, nz));
            assert(is_vm_step(i as int, c[i as int], c[i + 1]));
        }
        cx = nx;
        cy = ny;
        cz = nz;
        i = i + 1;
    }
    proof {
        assert(is_vm_chain(c) && c.len() == 256 && c[0] == (x, y, z) && c[255] == (cx, cy, cz));
        reveal(is_vm_result);
        assert(is_vm_result((x, y, z), (cx, cy, cz)));
    }
    (cx, cz)
}

/// CORDIC in circular coordinates, rotation mode: rotates `(x, y)` by the
/// angle `z` in 255 steps; returns the final `y` and `x`.
pub fn cordic_circ_rm(x: Float, y: Float, z: Float) -> (r: (Float, Float))
    requires
        state_wf((x, y, z)),
        exps_within((x, y, z), -0x100_0000, 0x100_0000),
    ensures
        r.0.wf(),
        r.1.wf(),
        -0x200_0000 <= r.0.exp <= 0x200_0000,
        -0x200_0000 <= r.1.exp <= 0x200_0000,
        exists|s: CordicState| #[trigger] is_rm_result((x, y, z), s) && r == (s.1, s.0),
{
    let mut cx = x;
    let mut cy = y;
    let mut cz = z;
    let ghost mut c: Seq<CordicState> = seq![(x, y, z)];
    let mut i: usize = 0;
    while i < 255
        invariant
            0 <= i <= 255,
            c.len() == i + 1,
            c[0] == (x, y, z),
            c[i as int] == (cx, cy, cz),
            is_rm_chain(c),
            state_wf((cx, cy, cz)),
            exps_within((cx, cy, cz), -0x100_0000 - 520 * i, 0x100_0000 + i),
        decreases 255 - i,
    {
        let down = cz.signum < 0 || (cz.signum == 0 && cz.exp < 0);
        let (nx, ny, nz) = cordic_step(&cx, &cy, &cz, i, down);
        proof {
            c = c.push((nx, ny, nz));
            assert(is_rm_step(i as int, c[i as int], c[i + 1]));
        }
        cx = nx;
        cy = ny;
        cz = nz;
        i = i + 1;
    }
    proof {
        assert(is_rm_chain(c) && c.len() == 256 && c[0] == (x, y, z) && c[255] == (cx, cy, cz));
        reveal(is_rm_result);
        assert(is_rm_result((x, y, z), (cx, cy, cz)));
    }
    (cy, cx)
}

/// `1.0` as significand of a [`Float`]: 2²⁵⁴.
fn signif_one_u256() -> (r: u256)
    ensures
        r.hi == 0x40000000000000000000000000000000,
        r.lo == 0,
        r@ == crate::big_float::signif_one(),
{
    proof {
        crate::atan::lemma_pow2_255();
        vstd::arithmetic::power2::lemma_pow2_unfold(255);
    }
    u256::new(0x40000000000000000000000000000000u128, 0)
}

/// The starting state of [`cordic_atan`] for `f`: `x = 2^(min(-e, 0) - 1)`,
/// `y = |f|⋅2^(min(e, 0) - e - 1)` (so that `y/x = |f|` and `y < 1`), `z = 0`.
pub open spec fn atan_start(f: Float) -> CordicState {
    let xe: int = if -f.exp < 0 { -f.exp } else { 0 };
    let ye: int = if f.exp < 0 { f.exp as int } else { 0 };
    (
        Float { signum: 1, exp: (xe - 1) as i32, signif: u256 { hi: 0x40000000000000000000000000000000, lo: 0 } },
        Float { signum: 1, exp: (ye - 1) as i32, signif: f.signif },
        Float::zero_spec(),
    )
}

/// Computes the arctangent of `f` by the vectoring mode of CORDIC, started
/// from `(1, |f|)` scaled so that `y < 1`; the angle gets the sign of `f`.
pub fn cordic_atan(f: &Float) -> (r: Float)
    requires
        f.wf(),
        -0x80_0000 <= f.exp <= 0x80_0000,
    ensures
        f.signum == 0 ==> r == Float::zero_spec(),
        f.signum != 0 ==> exists|s: CordicState| #[trigger] is_vm_result(atan_start(*f), s)
            && r == (Float { signum: f.signum, exp: s.2.exp, signif: s.2.signif }),
{
    if f.is_zero() {
        return Float::zero();
    }
    let xe: i32 = if f.exp > 0 { -f.exp } else { 0 };
    let ye: i32 = if f.exp < 0 { f.exp } else { 0 };
    let x = Float { signum: 1, exp: xe - 1, signif: signif_one_u256() };
    let y = Float { signum: 1, exp: ye - 1, signif: f.signif };
    let (_, a) = cordic_circ_vm(x, y, Float::zero());
    proof {
        assert((x, y, Float::zero_spec()) == atan_start(*f));
    }
    Float { signum: f.signum, exp: a.exp, signif: a.signif }
}

/// The starting state of [`cordic_atan2`] for `y` and `x`: both taken by
/// magnitude, scaled by the same power of two so that `y < 1`, `z = 0`.
pub open spec fn atan2_start(y: Float, x: Float) -> CordicState {
    (
        Float { signum: (if x.signum < 0 { -x.signum } else { x.signum as int }) as i32,
            exp: (x.exp - (y.exp + 1)) as i32, signif: x.signif },
        Float { signum: (if y.signum < 0 { -y.signum } else { y.signum as int }) as i32, exp: -1i32, signif: y.signif },
        Float::zero_spec(),
    )
}

/// `r` is the angle `a` of the first quadrant moved into the quadrant of
/// `(x, y)` by the signs `sy` and `sx`: `-a`, `π - a` or `a - π`, each
/// rounded as [`Float`] computes it.
pub open spec fn is_in_quadrant(sy: int, sx: int, a: Float, r: Float) -> bool {
    if sy == -1 && sx == 1 {
        r == a.neg_spec()
    } else if sy == 1 && sx == -1 {
        exists|p: Float| #[trigger] is_float_pi(p) && is_sum(a.neg_spec(), p, r)
    } else if sy == -1 && sx == -1 {
        exists|p: Float| #[trigger] is_float_pi(p) && is_difference(a, p, r)
    } else {
        r == a
    }
}

/// Computes the arctangent of `y / x` in `[-π, π]` by the vectoring mode of
/// CORDIC on `(|x|, |y|)`, moved into the quadrant of `(x, y)`.
pub fn cordic_atan2(y: &Float, x: &Float) -> (r: Float)
    requires
        y.wf(),
        x.wf(),
        -0x7f_ffff <= y.exp <= 0x7f_ffff,
        -0x7f_ffff <= x.exp <= 0x7f_ffff,
    ensures
        exists|s: CordicState| #[trigger] is_vm_result(atan2_start(*y, *x), s)
            && is_in_quadrant(y.signum as int, x.signum as int, s.2, r),
{
    let mut y_dash = y.abs();
    let mut x_dash = x.abs();
    x_dash.exp = x_dash.exp - (y_dash.exp + 1);
    y_dash.exp = -1;
    let (_, a) = cordic_circ_vm(x_dash, y_dash, Float::zero());
    proof {
        assert((x_dash, y_dash, Float::zero_spec()) == atan2_start(*y, *x));
    }
    let ys = y.signum();
    let xs = x.signum();
    if ys == -1 && xs == 1 {
        a.neg()
    } else if ys == 1 && xs == -1 {
        let p = Float::pi();
        let r = a.neg().add(&p);
        proof {
            assert(is_float_pi(p) && is_sum(a.neg_spec(), p, r));
        }
        r
    } else if ys == -1 && xs == -1 {
        let p = Float::pi();
        let r = a.sub(&p);
        proof {
            assert(is_float_pi(p) && is_difference(a, p, r));
        }
        r
    } else {
        a
    }
}

/// The reciprocal of the CORDIC gain, `1/K ≈ 0.6072529350088812561694`.
pub fn cordic_gain_inverse() -> (r: Float)
    ensures
        r.wf(),
        r == cordic_gain_inverse_spec(),
{
    Float::from_parts(1, -1, 0x4dba76d421af2d33fafc8495ebfea074u128, 0xe144628d1decfa24da40026b571d5fafu128)
}

/// The reciprocal of the CORDIC gain as [`Float`].
pub open spec fn cordic_gain_inverse_spec() -> Float {
    Float { signum: 1, exp: -1i32,
        signif: u256 { hi: 0x4dba76d421af2d33fafc8495ebfea074, lo: 0xe144628d1decfa24da40026b571d5faf } }
}

/// The CORDIC gain `K ≈ 1.6467602581210656483661`, the factor by which 255
/// steps of CORDIC scale a vector.
pub fn cordic_gain() -> (r: Float)
    ensures
        r.wf(),
        r.signum == 1,
        r.exp == 0,
        r.signif.hi == 0x696485233ee13440f04d9b77cec48780,
        r.signif.lo == 0x192cfbb73a9222fe2b92fafe0d59ae2a,
{
    Float::from_parts(1, 0, 0x696485233ee13440f04d9b77cec48780u128, 0x192cfbb73a9222fe2b92fafe0d59ae2au128)
}

/// Computes sine and cosine of `a` (`0 <= a <= ½π`) by the rotation mode of
/// CORDIC, started from `(1/K, 0)`.
pub fn cordic_sin_cos(a: &Float) -> (r: (Float, Float))
    requires
        a.wf(),
        -0x100_0000 <= a.exp <= 0x100_0000,
    ensures
        exists|s: CordicState| #[trigger] is_rm_result((cordic_gain_inverse_spec(), Float::zero_spec(), *a), s)
            && r == (s.1, s.0),
{
    cordic_circ_rm(cordic_gain_inverse(), Float::zero(), *a)
}

} // verus!
