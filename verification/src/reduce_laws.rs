//! The remainder law of the argument reduction below 8.
use vstd::prelude::*;
use vstd::arithmetic::power2::{pow2, lemma_pow2_pos, lemma_pow2_adds, lemma2_to64};
use crate::bits::{p256, lemma_pow2_64_128};
use crate::binary256::{f256, sign_of, bexp, signif, is_finite_spec, lemma_fraction_bound};
use crate::fp492_conv::fixed_of_f256;
use crate::reduce::{REDUCTION_CONSTS, fp_frac_pi_4, fp_frac_pi_2, fp_frac_3_pi_4, fp_pi, fp_frac_5_pi_4,
    fp_frac_7_pi_4_m4, fp_frac_9_pi_4_m4, small_reduction, is_reduction, quadrant_and_remainder,
    large_reduction};
use crate::fp492::{magnitude, sign_of_value, rounded_product_sticky, fixed_round_sticky};
use crate::uint256::div_pow2_round;
use crate::atan_laws::lemma_wrap_id;

verus! {

/// The reduction constants as literals.
pub(crate) proof fn lemma_reduction_literals()
    ensures
        fp_frac_pi_4() == 10042636607515963606702523585452887560190200165149987841986342689538909383362793664883109419881755434618895363072474833804915646702194013963306850005,
        fp_frac_pi_2() == 20085273215031927213405047170905775120380400330299975683972685379077818766725587329766218839763510869237790726144949667609831293404388027926613700010,
        fp_frac_3_pi_4() == 30127909822547890820107570756358662680570600495449963525959028068616728150088380994649328259645266303856686089217424501414746940106582041889920550015,
        fp_pi() == 40170546430063854426810094341811550240760800660599951367945370758155637533451174659532437679527021738475581452289899335219662586808776055853227400020,
        fp_frac_5_pi_4() == 50213183037579818033512617927264437800951000825749939209931713447694546916813968324415547099408777173094476815362374169024578233510970069816534250026,
        fp_frac_7_pi_4_m4() == 19151728004234528527961576085238976167946369186627027558227971200270275114716515734130670746580035586849663102014197727115389893385898831284889706452,
        fp_frac_9_pi_4_m4() == 39237001219266455741366623256144751288326769516927003242200656579348093881442103063896889586343546456087453828159147394725221186790286859211503406462,
{
    crate::atan_table_laws::lemma_word_literals();
    assert(REDUCTION_CONSTS@[0] == 0x00000c90fdaa22168c234c4c6628b80d);
    assert(REDUCTION_CONSTS@[1] == 0xc1cd129024e088a67cc74020bbea63b1);
    assert(REDUCTION_CONSTS@[2] == 0x39b22514a08798e3404ddef9519b3cd3);
    assert(REDUCTION_CONSTS@[3] == 0xa431b302b0a6df25f14374fe1356d6d5);
    assert(REDUCTION_CONSTS@[4] == 0x00001921fb54442d18469898cc51701b);
    assert(REDUCTION_CONSTS@[5] == 0x839a252049c1114cf98e804177d4c762);
    assert(REDUCTION_CONSTS@[6] == 0x73644a29410f31c6809bbdf2a33679a7);
    assert(REDUCTION_CONSTS@[7] == 0x48636605614dbe4be286e9fc26adadaa);
    assert(REDUCTION_CONSTS@[8] == 0x000025b2f8fe6643a469e4e5327a2829);
    assert(REDUCTION_CONSTS@[9] == 0x456737b06ea199f37655c06233bf2b13);
    assert(REDUCTION_CONSTS@[10] == 0xad166f3de196caa9c0e99cebf4d1b67a);
    assert(REDUCTION_CONSTS@[11] == 0xec95190811f49d71d3ca5efa3a04847f);
    assert(REDUCTION_CONSTS@[12] == 0x00003243f6a8885a308d313198a2e037);
    assert(REDUCTION_CONSTS@[13] == 0x07344a4093822299f31d0082efa98ec4);
    assert(REDUCTION_CONSTS@[14] == 0xe6c89452821e638d01377be5466cf34e);
    assert(REDUCTION_CONSTS@[15] == 0x90c6cc0ac29b7c97c50dd3f84d5b5b54);
    assert(REDUCTION_CONSTS@[16] == 0x00003ed4f452aa70bcb07d7dfecb9844);
    assert(REDUCTION_CONSTS@[17] == 0xc9015cd0b862ab406fe440a3ab93f276);
    assert(REDUCTION_CONSTS@[18] == 0x207ab96722a5fc7041855ade98083022);
    assert(REDUCTION_CONSTS@[19] == 0x34f87f0d73425bbdb65148f660b2322a);
    assert(REDUCTION_CONSTS@[20] == 0x000017f6efa6ee9dd4f71616cb1d0860);
    assert(REDUCTION_CONSTS@[21] == 0x4c9b81f10223bc8d6972c0e52368b9d8);
    assert(REDUCTION_CONSTS@[22] == 0x93df039063b52e36c22118d13b3ea9c9);
    assert(REDUCTION_CONSTS@[23] == 0x7d5be512d4901a0998d832f2875fdfd4);
    assert(REDUCTION_CONSTS@[24] == 0x00003118eafb32caed3daeaf976e787b);
    assert(REDUCTION_CONSTS@[25] == 0xd035a7114be4cdda630141269b3d813b);
    assert(REDUCTION_CONSTS@[26] == 0x07434db9a4c45ffd42bcd6c3de752370);
    assert(REDUCTION_CONSTS@[27] == 0xc5bf4b1835ddd8557b5f1ceeae0d8d7e);
}

/// The reduction constants are exact multiples of the FP492 ¼π (the odd
/// multiples above 4 one unit above), and bounds of ¼π against 1.
pub(crate) proof fn lemma_reduction_constants()
    ensures
        fp_frac_pi_2() == 2 * fp_frac_pi_4(),
        fp_pi() == 4 * fp_frac_pi_4(),
        fp_frac_3_pi_4() == 3 * fp_frac_pi_4(),
        fp_frac_5_pi_4() == 5 * fp_frac_pi_4() + 1,
        fp_frac_7_pi_4_m4() == 7 * fp_frac_pi_4() - 4 * pow2(492) + 1,
        fp_frac_9_pi_4_m4() == 9 * fp_frac_pi_4() - 4 * pow2(492) + 1,
        pow2(492) <= 2 * fp_frac_pi_4(),
        2 * pow2(492) <= 3 * fp_frac_pi_4(),
        5 * fp_frac_pi_4() <= 4 * pow2(492),
        8 * pow2(492) <= 11 * fp_frac_pi_4(),
        2 * pow2(491) == pow2(492),
        pow2(493) == 2 * pow2(492),
        pow2(494) == 4 * pow2(492),
        pow2(495) == 8 * pow2(492),
        16 * pow2(492) < pow2(511),
{
    lemma_reduction_literals();
    crate::atan_table_laws::lemma_pow2_literals();
    lemma2_to64();
    lemma_pow2_adds(491, 1);
    lemma_pow2_adds(492, 1);
    lemma_pow2_adds(492, 2);
    lemma_pow2_adds(492, 3);
    lemma_pow2_adds(492, 19);
    assert(pow2(492) == pow2(491) * 2);
    assert(pow2(493) == pow2(492) * 2);
    assert(pow2(494) == pow2(492) * 4);
    assert(pow2(495) == pow2(492) * 8);
    assert(pow2(511) == pow2(492) * 0x80000);
}

/// The fixed-point value of a finite `x >= 0` with exponent `e` in
/// `[-1, 2]` lies in `[2⁴⁹²⁺ᵉ, 2⁴⁹³⁺ᵉ)`; below ½ it lies in `[0, 2⁴⁹¹)`.
pub(crate) proof fn lemma_small_fixed_range(x: f256)
    requires
        is_finite_spec(x),
        sign_of(x) == 0,
        bexp(x) <= 262145,
    ensures
        bexp(x) == 0 || bexp(x) <= 262141 ==> 0 <= fixed_of_f256(x, 0, 19, 492) < pow2(491),
        bexp(x) == 262142 ==> pow2(491) <= fixed_of_f256(x, 0, 19, 492) < pow2(492),
        bexp(x) == 262143 ==> pow2(492) <= fixed_of_f256(x, 0, 19, 492) < pow2(493),
        bexp(x) == 262144 ==> pow2(493) <= fixed_of_f256(x, 0, 19, 492) < pow2(494),
        bexp(x) == 262145 ==> pow2(494) <= fixed_of_f256(x, 0, 19, 492) < pow2(495),
{
    let e: int = if bexp(x) == 0 { -262142 } else { bexp(x) - 262143 };
    let shl: nat = if e < 0 { 0 } else if e > 19 { 19 } else { e as nat };
    let shr: nat = if e > 0 { 0 } else if e < -492 { 492 } else { (-e) as nat };
    let m = signif(x);
    lemma_fraction_bound(x);
    lemma_pow2_64_128();
    lemma_pow2_pos(shl);
    lemma_pow2_pos(shr);
    let n = m * pow2(shl) * p256();
    assert(fixed_of_f256(x, 0, 19, 492) == n / pow2(shr));
    lemma_pow2_adds(shl, 256);
    assert(n == m * pow2(shl + 256)) by (nonlinear_arith)
        requires n == m * pow2(shl) * p256(), pow2(shl + 256) == pow2(shl) * pow2(256), p256() == pow2(256);
    lemma_pow2_adds(236, shl + 256);
    lemma_pow2_adds(237, shl + 256);
    assert(n < pow2(493 + shl)) by {
        vstd::arithmetic::mul::lemma_mul_strict_inequality(m as int, pow2(237) as int, pow2(shl + 256) as int);
    }
    vstd::arithmetic::mul::lemma_mul_nonnegative(m as int, pow2(shl + 256) as int);
    if bexp(x) != 0 {
        assert(n >= pow2(492 + shl)) by {
            vstd::arithmetic::mul::lemma_mul_inequality(pow2(236) as int, m as int, pow2(shl + 256) as int);
        }
    }
    if e >= 0 {
        assert(shr == 0);
        vstd::arithmetic::div_mod::lemma_div_basics(n as int);
        assert(pow2(0) == 1) by { lemma2_to64(); }
    } else {
        assert(shl == 0);
        lemma2_to64();
        lemma_pow2_adds(1, 492);
        if e == -1 {
            assert(shr == 1);
            lemma_pow2_adds(1, 491);
            assert(n >= pow2(1) * pow2(491));
            vstd::arithmetic::div_mod::lemma_div_is_ordered((pow2(1) * pow2(491)) as int, n as int, 2);
            vstd::arithmetic::div_mod::lemma_div_multiples_vanish(pow2(491) as int, 2);
            crate::bits::lemma_div_strictly_bounded(n as int, 2, pow2(492) as int);
        } else {
            assert(shr >= 2);
            lemma_pow2_adds(2, 491);
            if shr > 2 {
                vstd::arithmetic::power2::lemma_pow2_strictly_increases(2, shr);
            }
            vstd::arithmetic::div_mod::lemma_div_is_ordered_by_denominator(n as int, 4, pow2(shr) as int);
            crate::bits::lemma_div_strictly_bounded(n as int, 4, pow2(491) as int);
            vstd::arithmetic::div_mod::lemma_div_pos_is_pos(n as int, pow2(shr) as int);
        }
    }
}

/// `k` times the FP492 ½π.
pub open spec fn frac_pi_2_multiple(k: int) -> int {
    k * fp_frac_pi_2()
}

/// The remainder law for the exponents `-1` and `0`.
proof fn lemma_reduction_below_two(fx: int, q: int, v: int)
    requires
        pow2(491) <= fx < pow2(493),
        fx < pow2(492) ==> (q, v) == small_reduction(-1, fx),
        fx >= pow2(492) ==> (q, v) == small_reduction(0, fx),
    ensures
        exists|k: int| 0 <= k <= 5 && q == k % 4 && fx == #[trigger] frac_pi_2_multiple(k) + v,
        -fp_frac_pi_4() <= v <= fp_frac_pi_4() + 1,
{
    lemma_reduction_constants();
    let p4 = fp_frac_pi_4();
    if fx < pow2(492) && fx <= p4 {
        assert(fx == frac_pi_2_multiple(0) + v);
    } else {
        lemma_wrap_id(fx - 2 * p4);
        assert(fx == frac_pi_2_multiple(1) + v);
    }
}

/// The remainder law for the exponent `1`.
proof fn lemma_reduction_below_four(fx: int, q: int, v: int)
    requires
        pow2(493) <= fx < pow2(494),
        (q, v) == small_reduction(1, fx),
    ensures
        exists|k: int| 0 <= k <= 5 && q == k % 4 && fx == #[trigger] frac_pi_2_multiple(k) + v,
        -fp_frac_pi_4() <= v <= fp_frac_pi_4() + 1,
{
    lemma_reduction_constants();
    let p4 = fp_frac_pi_4();
    lemma_wrap_id(fx - 2 * p4);
    lemma_wrap_id(fx - 4 * p4);
    lemma_wrap_id(fx - 6 * p4);
    if fx <= 3 * p4 {
        assert(fx == frac_pi_2_multiple(1) + v);
    } else if fx <= 5 * p4 + 1 {
        assert(fx == frac_pi_2_multiple(2) + v);
    } else {
        assert(fx == frac_pi_2_multiple(3) + v);
    }
}

/// The remainder law for the exponent `2`.
proof fn lemma_reduction_below_eight(fx: int, q: int, v: int)
    requires
        pow2(494) <= fx < pow2(495),
        (q, v) == small_reduction(2, fx),
    ensures
        exists|k: int| 0 <= k <= 5 && q == k % 4 && fx == #[trigger] frac_pi_2_multiple(k) + v,
        -fp_frac_pi_4() <= v <= fp_frac_pi_4() + 1,
{
    lemma_reduction_constants();
    let p4 = fp_frac_pi_4();
    let u = pow2(492) as int;
    lemma_wrap_id(fx - 2 * u);
    lemma_wrap_id(fx - 4 * u);
    lemma_wrap_id(fx - 4 * u - 4 * p4);
    lemma_wrap_id(fx - 2 * u - 4 * p4);
    lemma_wrap_id(fx - 4 * p4);
    lemma_wrap_id(fx - 6 * p4);
    lemma_wrap_id(fx - 2 * u - 8 * p4);
    lemma_wrap_id(fx - 8 * p4);
    lemma_wrap_id(fx - 10 * p4);
    if fx <= 7 * p4 + 1 {
        assert(fx == frac_pi_2_multiple(3) + v);
    } else if fx <= 9 * p4 + 1 {
        assert(fx == frac_pi_2_multiple(4) + v);
    } else {
        assert(fx == frac_pi_2_multiple(5) + v);
    }
}

/// Argument reduction below 8 leaves the remainder nearest to zero: for a
/// finite `x` in `[0, 8)` with quadrant `q` and remainder `v`, the
/// fixed-point value of `x` is `k⋅½π + v` for a `k` in `[0, 5]` with
/// `q = k mod 4`, and `-¼π <= v <= ¼π` (in FP492, one unit more above).
pub proof fn lemma_reduction_remainder(x: f256, q: int, v: int)
    requires
        is_finite_spec(x),
        sign_of(x) == 0,
        bexp(x) <= 262145,
        is_reduction(x, q, v),
    ensures
        exists|k: int| 0 <= k <= 5 && q == k % 4
            && fixed_of_f256(x, 0, 19, 492) == #[trigger] frac_pi_2_multiple(k) + v,
        -fp_frac_pi_4() <= v <= fp_frac_pi_4() + 1,
{
    lemma_reduction_constants();
    lemma_small_fixed_range(x);
    let fx = fixed_of_f256(x, 0, 19, 492);
    if bexp(x) == 0 || bexp(x) <= 262141 {
        assert(fx == frac_pi_2_multiple(0) + v);
    } else if bexp(x) <= 262143 {
        lemma_reduction_below_two(fx, q, v);
    } else if bexp(x) == 262144 {
        lemma_reduction_below_four(fx, q, v);
    } else {
        lemma_reduction_below_eight(fx, q, v);
    }
}

/// The sticky rounding of `p / 2⁴⁹²` exceeds the quotient by at most one.
proof fn lemma_sticky_round_bound(p: nat)
    ensures
        fixed_round_sticky(p, 492) <= p / pow2(492) + 1,
{
    let q = p / pow2(492);
    assert(div_pow2_round(p, 492) <= q + 1);
}

/// The quadrant and remainder taken from a fraction `f` of `x⋅2/π` (with
/// 492 fractional bits) are those of the nearest integer: `f` is `k`
/// units plus `y` with `|y|` at most half a unit, the quadrant is
/// `k mod 4`, and the remainder is `y⋅½π` rounded up to one unit, so
/// within `[-¼π - 1, ¼π + 1]` (in units of 2⁻⁴⁹²).
pub proof fn lemma_fraction_reduction(f: nat)
    ensures
        exists|k: int| #![trigger k % 4]
            -pow2(491) <= f - k * pow2(492) <= pow2(491)
            && quadrant_and_remainder(f).0 == k % 4
            && magnitude(quadrant_and_remainder(f).1) * pow2(492)
                <= magnitude(f - k * pow2(492)) * fp_frac_pi_2() + pow2(492),
        -fp_frac_pi_4() - 1 <= quadrant_and_remainder(f).1 <= fp_frac_pi_4() + 1,
{
    lemma_reduction_constants();
    lemma_pow2_pos(492);
    let u = pow2(492) as int;
    let k0 = f / pow2(492);
    let y0 = f % pow2(492);
    vstd::arithmetic::div_mod::lemma_fundamental_div_mod(f as int, u);
    vstd::arithmetic::div_mod::lemma_mod_bound(f as int, u);
    let up = y0 > pow2(491) || (y0 == pow2(491) && k0 % 2 == 1);
    let k: int = if up { k0 + 1int } else { k0 as int };
    let y: int = if up { y0 - u } else { y0 as int };
    assert(f - k * u == y) by (nonlinear_arith)
        requires
            f == u * k0 + y0,
            up ==> k == k0 + 1 && y == y0 - u,
            !up ==> k == k0 && y == y0,
    ;
    let p2 = fp_frac_pi_2();
    let m: int = (magnitude(y) * magnitude(p2)) as int;
    lemma_sticky_round_bound(m as nat);
    let r = rounded_product_sticky(y, p2, 492);
    assert(magnitude(y) <= pow2(491));
    assert(m <= fp_frac_pi_4() * u) by (nonlinear_arith)
        requires
            m == magnitude(y) * p2,
            magnitude(y) <= pow2(491),
            p2 == 2 * fp_frac_pi_4(),
            2 * pow2(491) == u,
            p2 > 0,
    ;
    vstd::arithmetic::div_mod::lemma_div_is_ordered(m, fp_frac_pi_4() * u, u);
    vstd::arithmetic::div_mod::lemma_div_multiples_vanish(fp_frac_pi_4(), u);
    let w = fixed_round_sticky(m as nat, 492);
    assert(w <= fp_frac_pi_4() + 1);
    vstd::arithmetic::div_mod::lemma_fundamental_div_mod(m, u);
    vstd::arithmetic::div_mod::lemma_mod_bound(m, u);
    assert(w * u <= m + u) by (nonlinear_arith)
        requires
            w <= m / u + 1,
            m == u * (m / u) + m % u,
            m % u >= 0,
            u > 0,
    ;
    assert(sign_of_value(p2) == 1);
    assert(r == sign_of_value(y) * sign_of_value(p2) * w);
    if y < 0 {
        assert(sign_of_value(y) * sign_of_value(p2) == -1);
        assert(r == -1 * w);
        assert(r == -w);
        if w > 0 {
            assert(r < 0);
            assert(magnitude(r) == -r);
        } else {
            assert(r == 0);
        }
        assert(magnitude(r) == w);
    } else if y == 0 {
        assert(sign_of_value(y) * sign_of_value(p2) == 0);
        assert(r == 0 * w);
        assert(magnitude(r) == 0);
    } else {
        assert(sign_of_value(y) * sign_of_value(p2) == 1);
        assert(r == 1 * w);
        assert(magnitude(r) == w);
    }
    assert(magnitude(r) <= w);
    assert(-w <= r <= w);
    assert(fp_frac_pi_4() < u);
    lemma_wrap_id(r);
    assert(quadrant_and_remainder(f) == (k % 4, r));
    assert(magnitude(r) <= w);
    vstd::arithmetic::mul::lemma_mul_inequality(magnitude(r) as int, w as int, u);
    assert(magnitude(r) * u <= magnitude(f - k * u) * p2 + u);
    assert(-pow2(491) <= f - k * pow2(492) <= pow2(491)
        && quadrant_and_remainder(f).0 == k % 4
        && magnitude(quadrant_and_remainder(f).1) * pow2(492)
            <= magnitude(f - k * pow2(492)) * fp_frac_pi_2() + pow2(492));
}

/// The remainder of the reduction of a finite `x >= 0` below 8 or from
/// 2²⁴¹ on lies within `[-¼π - 1, ¼π + 1]` (in units of 2⁻⁴⁹²).
pub proof fn lemma_reduction_remainder_range(x: f256, q: int, v: int)
    requires
        is_finite_spec(x),
        sign_of(x) == 0,
        bexp(x) <= 262145 || bexp(x) >= 262384,
        is_reduction(x, q, v),
    ensures
        -fp_frac_pi_4() - 1 <= v <= fp_frac_pi_4() + 1,
{
    if bexp(x) <= 262145 {
        lemma_reduction_remainder(x, q, v);
    } else {
        let e = bexp(x) - 262143;
        let idx = e - 238;
        let r_hi = crate::two_over_pi::two_over_pi_bits(idx) / pow2(18);
        let r_mi = crate::two_over_pi::two_over_pi_bits(idx + 238);
        let r_lo = crate::two_over_pi::two_over_pi_bits(idx + 494);
        let m = signif(x);
        let f = (m * r_hi * p256() + m * r_mi + (m * r_lo) / p256()) % crate::uint512::p512();
        assert((q, v) == large_reduction(e, m));
        assert(large_reduction(e, m) == quadrant_and_remainder(f));
        lemma_fraction_reduction(f);
    }
}

/// The fixed-point value of a finite `x >= 0` is not negative.
pub(crate) proof fn lemma_reduction_remainder_nonneg(x: f256)
    requires
        is_finite_spec(x),
        sign_of(x) == 0,
        bexp(x) <= 262145,
    ensures
        fixed_of_f256(x, 0, 19, 492) >= 0,
{
    lemma_small_fixed_range(x);
    lemma_pow2_pos(491);
}

} // verus!
