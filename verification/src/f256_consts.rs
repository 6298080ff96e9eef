//! Circle constants as `f256` values, correctly rounded to 237 significant
//! bits.
use vstd::prelude::*;
use crate::bits::p128;
use crate::uint256::u256;
use crate::binary256::f256;

verus! {

/// The encoding of ◯₂₃₇(π).
pub open spec fn pi_bits() -> nat {
    0x40000921fb54442d18469898cc51701bnat * p128() + 0x839a252049c1114cf98e804177d4c762nat
}

/// The encoding of ◯₂₃₇(½π).
pub open spec fn frac_pi_2_bits() -> nat {
    0x3ffff921fb54442d18469898cc51701bnat * p128() + 0x839a252049c1114cf98e804177d4c762nat
}

/// The encoding of ◯₂₃₇(¼π).
pub open spec fn frac_pi_4_bits() -> nat {
    0x3fffe921fb54442d18469898cc51701bnat * p128() + 0x839a252049c1114cf98e804177d4c762nat
}

/// The encoding of ◯₂₃₇(◯₂₃₇(π) - ◯₂₃₇(¼π)), which is also ◯₂₃₇(¾π).
pub open spec fn frac_3_pi_4_bits() -> nat {
    0x400002d97c7f3321d234f272993d1414nat * p128() + 0xa2b39bd83750ccf9bb2ae03119df958anat
}

impl f256 {
    /// ◯₂₃₇(π) ≈ 3.1415926535897932384626433832795028841971693993751058209749445923078164062862
    pub fn pi() -> (r: Self)
        ensures
            r.bits@ == pi_bits(),
    {
        f256 { bits: u256::new(0x40000921fb54442d18469898cc51701bu128, 0x839a252049c1114cf98e804177d4c762u128) }
    }

    /// ◯₂₃₇(½π) ≈ 1.5707963267948966192313216916397514420985846996875529104874722961539082031431
    pub fn frac_pi_2() -> (r: Self)
        ensures
            r.bits@ == frac_pi_2_bits(),
    {
        f256 { bits: u256::new(0x3ffff921fb54442d18469898cc51701bu128, 0x839a252049c1114cf98e804177d4c762u128) }
    }

    /// ◯₂₃₇(¼π) ≈ 0.7853981633974483096156608458198757210492923498437764552437361480769541015715
    pub fn frac_pi_4() -> (r: Self)
        ensures
            r.bits@ == frac_pi_4_bits(),
    {
        f256 { bits: u256::new(0x3fffe921fb54442d18469898cc51701bu128, 0x839a252049c1114cf98e804177d4c762u128) }
    }

    /// ◯₂₃₇(¾π) ≈ 2.3561944901923449288469825374596271631478770495313293657312084442308623047146
    pub fn frac_3_pi_4() -> (r: Self)
        ensures
            r.bits@ == frac_3_pi_4_bits(),
    {
        f256 { bits: u256::new(0x400002d97c7f3321d234f272993d1414u128, 0xa2b39bd83750ccf9bb2ae03119df958au128) }
    }
}

} // verus!
