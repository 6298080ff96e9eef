//! Frequently used constants as [`Float`] values, correctly rounded to 255
//! significant bits.
use vstd::prelude::*;
use vstd::arithmetic::power2::{pow2, lemma_pow2_adds, lemma2_to64};
use vstd::arithmetic::mul::lemma_mul_inequality;
use crate::bits::{p128, lemma_pow2_64_128};
use crate::big_float::Float;

verus! {

impl Float {
    /// Assembles a normalized `Float` from signum, exponent and the two
    /// halves of the significand.
    pub(crate) fn from_parts(signum: i32, exp: i32, hi: u128, lo: u128) -> (r: Self)
        requires
            signum == 1 || signum == -1,
            0x4000_0000_0000_0000_0000_0000_0000_0000u128 <= hi < 0x8000_0000_0000_0000_0000_0000_0000_0000u128,
        ensures
            r.wf(),
            r.signum == signum,
            r.exp == exp,
            r.signif@ == hi * p128() + lo,
            r.signif.hi == hi,
            r.signif.lo == lo,
    {
        proof {
            lemma_pow2_64_128();
            lemma_pow2_adds(126, 128);
            lemma_pow2_adds(127, 128);
            assert(pow2(126) == 0x4000_0000_0000_0000_0000_0000_0000_0000nat) by {
                lemma_pow2_adds(64, 62);
                lemma_pow2_adds(32, 30);
                lemma2_to64();
            }
            assert(pow2(127) == 0x8000_0000_0000_0000_0000_0000_0000_0000nat) by {
                lemma_pow2_adds(64, 63);
                lemma_pow2_adds(32, 31);
                lemma2_to64();
            }
            lemma_mul_inequality(pow2(126) as int, hi as int, p128() as int);
            lemma_mul_inequality(hi as int + 1, pow2(127) as int, p128() as int);
            assert((hi as int + 1) * p128() == hi * p128() + p128()) by (nonlinear_arith);
        }
        Self::new(signum, exp, (hi, lo))
    }

    /// ◯₂₅₄(π) ≈ 3.1415926535897932384626433832795028841971693993751058209749445923078164062862
    pub fn pi() -> (r: Self)
        ensures
            r.wf(),
            r.signum == 1,
            r.exp == 1,
            r.signif@ == 0x6487ed5110b4611a62633145c06e0e68nat * p128() + 0x948127044533e63a0105df531d89cd91nat,
    {
        Self::from_parts(1, 1, 0x6487ed5110b4611a62633145c06e0e68u128, 0x948127044533e63a0105df531d89cd91u128)
    }

    /// ◯₂₅₄(½π) ≈ 1.5707963267948966192313216916397514420985846996875529104874722961539082031431
    pub fn frac_pi_2() -> (r: Self)
        ensures
            r.wf(),
            r.signum == 1,
            r.exp == 0,
            r.signif@ == 0x6487ed5110b4611a62633145c06e0e68nat * p128() + 0x948127044533e63a0105df531d89cd91nat,
    {
        Self::from_parts(1, 0, 0x6487ed5110b4611a62633145c06e0e68u128, 0x948127044533e63a0105df531d89cd91u128)
    }

    /// ◯₂₅₄(¼π) ≈ 0.78539816339744830961566084581987572104929234984377645524373614807695410157155
    pub fn frac_pi_4() -> (r: Self)
        ensures
            r.wf(),
            r.signum == 1,
            r.exp == -1,
            r.signif@ == 0x6487ed5110b4611a62633145c06e0e68nat * p128() + 0x948127044533e63a0105df531d89cd91nat,
    {
        Self::from_parts(1, -1, 0x6487ed5110b4611a62633145c06e0e68u128, 0x948127044533e63a0105df531d89cd91u128)
    }

    /// ◯₂₅₄(3⋅½π) ≈ 4.7123889803846898576939650749192543262957540990626587314624168884617246094293
    pub fn frac_3_pi_2() -> (r: Self)
        ensures
            r.wf(),
            r.signum == 1,
            r.exp == 2,
            r.signif@ == 0x4b65f1fccc8748d3c9ca64f450528acenat * p128() + 0x6f60dd4333e6ecab80c4677e56275a2dnat,
    {
        Self::from_parts(1, 2, 0x4b65f1fccc8748d3c9ca64f450528aceu128, 0x6f60dd4333e6ecab80c4677e56275a2du128)
    }

    /// ◯₂₅₄(2⋅π) ≈ 6.2831853071795864769252867665590057683943387987502116419498891846156328125724
    pub fn tau() -> (r: Self)
        ensures
            r.wf(),
            r.signum == 1,
            r.exp == 2,
            r.signif@ == 0x6487ed5110b4611a62633145c06e0e68nat * p128() + 0x948127044533e63a0105df531d89cd91nat,
    {
        Self::from_parts(1, 2, 0x6487ed5110b4611a62633145c06e0e68u128, 0x948127044533e63a0105df531d89cd91u128)
    }

    /// ◯₂₅₄(3⋅¼π) ≈ 2.3561944901923449288469825374596271631478770495313293657312084442308623047147
    pub fn frac_3_pi_4() -> (r: Self)
        ensures
            r.wf(),
            r.signum == 1,
            r.exp == 1,
            r.signif@ == 0x4b65f1fccc8748d3c9ca64f450528acenat * p128() + 0x6f60dd4333e6ecab80c4677e56275a2dnat,
    {
        Self::from_parts(1, 1, 0x4b65f1fccc8748d3c9ca64f450528aceu128, 0x6f60dd4333e6ecab80c4677e56275a2du128)
    }

    /// ◯₂₅₄(5⋅¼π) ≈ 3.9269908169872415480783042290993786052464617492188822762186807403847705078577
    pub fn frac_5_pi_4() -> (r: Self)
        ensures
            r.wf(),
            r.signum == 1,
            r.exp == 1,
            r.signif@ == 0x7da9e8a554e17960fafbfd9730899202nat * p128() + 0xb9a170c55680dfc881475727e4ec40f5nat,
    {
        Self::from_parts(1, 1, 0x7da9e8a554e17960fafbfd9730899202u128, 0xb9a170c55680dfc881475727e4ec40f5u128)
    }

    /// ◯₂₅₄(7⋅¼π) ≈ 5.4977871437821381673096259207391300473450464489064351867061530365386787110009
    pub fn frac_7_pi_4() -> (r: Self)
        ensures
            r.wf(),
            r.signum == 1,
            r.exp == 2,
            r.signif@ == 0x57f6efa6ee9dd4f71616cb1d08604c9bnat * p128() + 0x81f10223bc8d6972c0e52368b9d893dfnat,
    {
        Self::from_parts(1, 2, 0x57f6efa6ee9dd4f71616cb1d08604c9bu128, 0x81f10223bc8d6972c0e52368b9d893dfu128)
    }

    /// ◯₂₅₄(9⋅¼π) ≈ 7.0685834705770347865409476123788814894436311485939880971936253326925869141439
    pub fn frac_9_pi_4() -> (r: Self)
        ensures
            r.wf(),
            r.signum == 1,
            r.exp == 2,
            r.signif@ == 0x7118eafb32caed3daeaf976e787bd035nat * p128() + 0xa7114be4cdda630141269b3d813b0743nat,
    {
        Self::from_parts(1, 2, 0x7118eafb32caed3daeaf976e787bd035u128, 0xa7114be4cdda630141269b3d813b0743u128)
    }

    /// ◯₂₅₄(√π) ≈ 1.77245385090551602729816748334114518279754945612238712821380778985291128459104
    pub fn sqrt_pi() -> (r: Self)
        ensures
            r.wf(),
            r.signum == 1,
            r.exp == 0,
            r.signif@ == 0x716fe246d3bdaa9e70ec1483576e4e0fnat * p128() + 0xf8e48551bd8ec94b728402f4fa851d1cnat,
    {
        Self::from_parts(1, 0, 0x716fe246d3bdaa9e70ec1483576e4e0fu128, 0xf8e48551bd8ec94b728402f4fa851d1cu128)
    }

    /// ◯₂₅₄(√2) ≈ 1.41421356237309504880168872420969807856967187537694807317667973799073247846212
    pub fn sqrt_2() -> (r: Self)
        ensures
            r.wf(),
            r.signum == 1,
            r.exp == 0,
            r.signif@ == 0x5a827999fcef32422cbec4d9baa55f4fnat * p128() + 0x8eb7b05d449dd426768bd642c199cc8bnat,
    {
        Self::from_parts(1, 0, 0x5a827999fcef32422cbec4d9baa55f4fu128, 0x8eb7b05d449dd426768bd642c199cc8bu128)
    }

    /// ◯₂₅₄(1/√2) ≈ 0.70710678118654752440084436210484903928483593768847403658833986899536623923106
    pub fn frac_1_sqrt_2() -> (r: Self)
        ensures
            r.wf(),
            r.signum == 1,
            r.exp == -1,
            r.signif@ == 0x5a827999fcef32422cbec4d9baa55f4fnat * p128() + 0x8eb7b05d449dd426768bd642c199cc8bnat,
    {
        Self::from_parts(1, -1, 0x5a827999fcef32422cbec4d9baa55f4fu128, 0x8eb7b05d449dd426768bd642c199cc8bu128)
    }
}

} // verus!
