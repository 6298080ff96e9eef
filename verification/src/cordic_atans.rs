//! The arctangents `atan(2⁻ⁱ)`, `i = 0 ‥ 254`, as [`Float`] values.
use vstd::prelude::*;
use crate::uint256::u256;
use crate::big_float::Float;

verus! {

/// The significands of `atan(2⁻ⁱ)` for `i` in `[0, 64)`, each as two
/// `u128` words (most significant first).
pub const ATANS_SIGNIFS_0: [u128; 128] = [
    0x6487ed5110b4611a62633145c06e0e68, 0x948127044533e63a0105df531d89cd91,
    0x76b19c1586ed3da2b7f222f65e1d4681, 0xb70a0ac3930e6f8071678b7374b12385,
    0x7d6dd7e4b203758ab6e3cf7afbd10bf2, 0xd53fd481c459c1b5bd1d3b3e4a24d3b3,
    0x7f56ea6ab0bdb719644bcc4f9f44477b, 0xc59cabecaecd6c917649abbefdb60bb4,
    0x7fd56edcb3f7a71b6593c96e071706a8, 0x98ce0967acea596e1c3d4fc01e25c577,
    0x7ff556eea5d892a13bcebbb6ed463109, 0xc036814a606dc40b2380beda26b08304,
    0x7ffd556eedca6addf3c62b200afbb024, 0x1077b2e086f77a3034afc0193ab0e5d4,
    0x7fff5556eeea5cb40311a8fddf3057a3, 0xb42b500b8d17800d41e8abb3f7672848,
    0x7fffd5556eeedca5d8957db5b6a7bf0b, 0x3e0c5d75cde4abc491245693415f7b37,
    0x7ffff55556eeeea5ca6adeab02251ce8, 0xf2409fee23880bec67783a2d83ee2689,
    0x7ffffd55556eeeedca5cb4033f79d4be, 0x69b7875594262279d06b22bac1dcd381,
    0x7fffff555556eeeeea5ca5d895892a09, 0xe70d6531485a5ea15620c615b21160f9,
    0x7fffffd555556eeeeedca5ca6adeaddf, 0x3bc53a88bfc94608c52aa7843f7a3f03,
    0x7ffffff5555556eeeeeea5ca5cb40340, 0x311a8606152723c4795ee346b7d5f4a7,
    0x7ffffffd5555556eeeeeedca5ca5d895, 0x8957db5accfc793bf04dcaae26c692be,
    0x7fffffff55555556eeeeeeea5ca5ca6a, 0xdeadeab02247f691462ba669daface7a,
    0x7fffffffd55555556eeeeeeedca5ca5c, 0xb4034033f79d4b491b80fde149e9b5e1,
    0x7ffffffff555555556eeeeeeeea5ca5c, 0xa5d895895892a09e66fe5336a7c7719d,
    0x7ffffffffd555555556eeeeeeeedca5c, 0xa5ca6adeadeaddf3bc530b0bfd1ce914,
    0x7fffffffff5555555556eeeeeeeeea5c, 0xa5ca5cb40340340311a860577a723e6a,
    0x7fffffffffd5555555556eeeeeeeeedc, 0xa5ca5ca5d8958958957db5accf2a13bf,
    0x7ffffffffff55555555556eeeeeeeeee, 0xa5ca5ca5ca6adeadeadeab02247f5f3c,
    0x7ffffffffffd55555555556eeeeeeeee, 0xedca5ca5ca5cb4034034033f79d4b491,
    0x7fffffffffff555555555556eeeeeeee, 0xeeea5ca5ca5ca5d895895895892a09e6,
    0x7fffffffffffd555555555556eeeeeee, 0xeeeedca5ca5ca5ca6adeadeadeaddf3c,
    0x7ffffffffffff5555555555556eeeeee, 0xeeeeeea5ca5ca5ca5cb4034034034031,
    0x7ffffffffffffd5555555555556eeeee, 0xeeeeeeedca5ca5ca5ca5d89589589589,
    0x7fffffffffffff55555555555556eeee, 0xeeeeeeeeea5ca5ca5ca5ca6adeadeadf,
    0x7fffffffffffffd55555555555556eee, 0xeeeeeeeeeedca5ca5ca5ca5cb4034034,
    0x7ffffffffffffff555555555555556ee, 0xeeeeeeeeeeeea5ca5ca5ca5ca5d89589,
    0x7ffffffffffffffd555555555555556e, 0xeeeeeeeeeeeeedca5ca5ca5ca5ca6adf,
    0x7fffffffffffffff5555555555555556, 0xeeeeeeeeeeeeeeea5ca5ca5ca5ca5cb4,
    0x7fffffffffffffffd555555555555555, 0x6eeeeeeeeeeeeeeedca5ca5ca5ca5ca6,
    0x7ffffffffffffffff555555555555555, 0x56eeeeeeeeeeeeeeeea5ca5ca5ca5ca6,
    0x7ffffffffffffffffd55555555555555, 0x556eeeeeeeeeeeeeeeedca5ca5ca5ca6,
    0x7fffffffffffffffff55555555555555, 0x5556eeeeeeeeeeeeeeeeea5ca5ca5ca6,
    0x7fffffffffffffffffd5555555555555, 0x55556eeeeeeeeeeeeeeeeedca5ca5ca6,
    0x7ffffffffffffffffff5555555555555, 0x555556eeeeeeeeeeeeeeeeeea5ca5ca6,
    0x7ffffffffffffffffffd555555555555, 0x5555556eeeeeeeeeeeeeeeeeedca5ca6,
    0x7fffffffffffffffffff555555555555, 0x55555556eeeeeeeeeeeeeeeeeeea5ca6,
    0x7fffffffffffffffffffd55555555555, 0x555555556eeeeeeeeeeeeeeeeeeedca6,
    0x7ffffffffffffffffffff55555555555, 0x5555555556eeeeeeeeeeeeeeeeeeeea6,
    0x7ffffffffffffffffffffd5555555555, 0x55555555556eeeeeeeeeeeeeeeeeeeee,
    0x7fffffffffffffffffffff5555555555, 0x555555555556eeeeeeeeeeeeeeeeeeef,
    0x7fffffffffffffffffffffd555555555, 0x5555555555556eeeeeeeeeeeeeeeeeef,
    0x7ffffffffffffffffffffff555555555, 0x55555555555556eeeeeeeeeeeeeeeeef,
    0x7ffffffffffffffffffffffd55555555, 0x555555555555556eeeeeeeeeeeeeeeef,
    0x7fffffffffffffffffffffff55555555, 0x5555555555555556eeeeeeeeeeeeeeef,
    0x7fffffffffffffffffffffffd5555555, 0x55555555555555556eeeeeeeeeeeeeef,
    0x7ffffffffffffffffffffffff5555555, 0x555555555555555556eeeeeeeeeeeeef,
    0x7ffffffffffffffffffffffffd555555, 0x5555555555555555556eeeeeeeeeeeef,
    0x7fffffffffffffffffffffffff555555, 0x55555555555555555556eeeeeeeeeeef,
    0x7fffffffffffffffffffffffffd55555, 0x555555555555555555556eeeeeeeeeef,
    0x7ffffffffffffffffffffffffff55555, 0x5555555555555555555556eeeeeeeeef,
    0x7ffffffffffffffffffffffffffd5555, 0x55555555555555555555556eeeeeeeef,
    0x7fffffffffffffffffffffffffff5555, 0x555555555555555555555556eeeeeeef,
    0x7fffffffffffffffffffffffffffd555, 0x5555555555555555555555556eeeeeef,
    0x7ffffffffffffffffffffffffffff555, 0x55555555555555555555555556eeeeef,
    0x7ffffffffffffffffffffffffffffd55, 0x555555555555555555555555556eeeef,
    0x7fffffffffffffffffffffffffffff55, 0x5555555555555555555555555556eeef,
    0x7fffffffffffffffffffffffffffffd5, 0x55555555555555555555555555556eef,
    0x7ffffffffffffffffffffffffffffff5, 0x555555555555555555555555555556ef,
    0x7ffffffffffffffffffffffffffffffd, 0x5555555555555555555555555555556f,
    0x7fffffffffffffffffffffffffffffff, 0x55555555555555555555555555555557,
];

/// The significands of `atan(2⁻ⁱ)` for `i` in `[64, 128)`, each as two
/// `u128` words (most significant first).
pub const ATANS_SIGNIFS_1: [u128; 128] = [
    0x7fffffffffffffffffffffffffffffff, 0xd5555555555555555555555555555555,
    0x7fffffffffffffffffffffffffffffff, 0xf5555555555555555555555555555555,
    0x7fffffffffffffffffffffffffffffff, 0xfd555555555555555555555555555555,
    0x7fffffffffffffffffffffffffffffff, 0xff555555555555555555555555555555,
    0x7fffffffffffffffffffffffffffffff, 0xffd55555555555555555555555555555,
    0x7fffffffffffffffffffffffffffffff, 0xfff55555555555555555555555555555,
    0x7fffffffffffffffffffffffffffffff, 0xfffd5555555555555555555555555555,
    0x7fffffffffffffffffffffffffffffff, 0xffff5555555555555555555555555555,
    0x7fffffffffffffffffffffffffffffff, 0xffffd555555555555555555555555555,
    0x7fffffffffffffffffffffffffffffff, 0xfffff555555555555555555555555555,
    0x7fffffffffffffffffffffffffffffff, 0xfffffd55555555555555555555555555,
    0x7fffffffffffffffffffffffffffffff, 0xffffff55555555555555555555555555,
    0x7fffffffffffffffffffffffffffffff, 0xffffffd5555555555555555555555555,
    0x7fffffffffffffffffffffffffffffff, 0xfffffff5555555555555555555555555,
    0x7fffffffffffffffffffffffffffffff, 0xfffffffd555555555555555555555555,
    0x7fffffffffffffffffffffffffffffff, 0xffffffff555555555555555555555555,
    0x7fffffffffffffffffffffffffffffff, 0xffffffffd55555555555555555555555,
    0x7fffffffffffffffffffffffffffffff, 0xfffffffff55555555555555555555555,
    0x7fffffffffffffffffffffffffffffff, 0xfffffffffd5555555555555555555555,
    0x7fffffffffffffffffffffffffffffff, 0xffffffffff5555555555555555555555,
    0x7fffffffffffffffffffffffffffffff, 0xffffffffffd555555555555555555555,
    0x7fffffffffffffffffffffffffffffff, 0xfffffffffff555555555555555555555,
    0x7fffffffffffffffffffffffffffffff, 0xfffffffffffd55555555555555555555,
    0x7fffffffffffffffffffffffffffffff, 0xffffffffffff55555555555555555555,
    0x7fffffffffffffffffffffffffffffff, 0xffffffffffffd5555555555555555555,
    0x7fffffffffffffffffffffffffffffff, 0xfffffffffffff5555555555555555555,
    0x7fffffffffffffffffffffffffffffff, 0xfffffffffffffd555555555555555555,
    0x7fffffffffffffffffffffffffffffff, 0xffffffffffffff555555555555555555,
    0x7fffffffffffffffffffffffffffffff, 0xffffffffffffffd55555555555555555,
    0x7fffffffffffffffffffffffffffffff, 0xfffffffffffffff55555555555555555,
    0x7fffffffffffffffffffffffffffffff, 0xfffffffffffffffd5555555555555555,
    0x7fffffffffffffffffffffffffffffff, 0xffffffffffffffff5555555555555555,
    0x7fffffffffffffffffffffffffffffff, 0xffffffffffffffffd555555555555555,
    0x7fffffffffffffffffffffffffffffff, 0xfffffffffffffffff555555555555555,
    0x7fffffffffffffffffffffffffffffff, 0xfffffffffffffffffd55555555555555,
    0x7fffffffffffffffffffffffffffffff, 0xffffffffffffffffff55555555555555,
    0x7fffffffffffffffffffffffffffffff, 0xffffffffffffffffffd5555555555555,
    0x7fffffffffffffffffffffffffffffff, 0xfffffffffffffffffff5555555555555,
    0x7fffffffffffffffffffffffffffffff, 0xfffffffffffffffffffd555555555555,
    0x7fffffffffffffffffffffffffffffff, 0xffffffffffffffffffff555555555555,
    0x7fffffffffffffffffffffffffffffff, 0xffffffffffffffffffffd55555555555,
    0x7fffffffffffffffffffffffffffffff, 0xfffffffffffffffffffff55555555555,
    0x7fffffffffffffffffffffffffffffff, 0xfffffffffffffffffffffd5555555555,
    0x7fffffffffffffffffffffffffffffff, 0xffffffffffffffffffffff5555555555,
    0x7fffffffffffffffffffffffffffffff, 0xffffffffffffffffffffffd555555555,
    0x7fffffffffffffffffffffffffffffff, 0xfffffffffffffffffffffff555555555,
    0x7fffffffffffffffffffffffffffffff, 0xfffffffffffffffffffffffd55555555,
    0x7fffffffffffffffffffffffffffffff, 0xffffffffffffffffffffffff55555555,
    0x7fffffffffffffffffffffffffffffff, 0xffffffffffffffffffffffffd5555555,
    0x7fffffffffffffffffffffffffffffff, 0xfffffffffffffffffffffffff5555555,
    0x7fffffffffffffffffffffffffffffff, 0xfffffffffffffffffffffffffd555555,
    0x7fffffffffffffffffffffffffffffff, 0xffffffffffffffffffffffffff555555,
    0x7fffffffffffffffffffffffffffffff, 0xffffffffffffffffffffffffffd55555,
    0x7fffffffffffffffffffffffffffffff, 0xfffffffffffffffffffffffffff55555,
    0x7fffffffffffffffffffffffffffffff, 0xfffffffffffffffffffffffffffd5555,
    0x7fffffffffffffffffffffffffffffff, 0xffffffffffffffffffffffffffff5555,
    0x7fffffffffffffffffffffffffffffff, 0xffffffffffffffffffffffffffffd555,
    0x7fffffffffffffffffffffffffffffff, 0xfffffffffffffffffffffffffffff555,
    0x7fffffffffffffffffffffffffffffff, 0xfffffffffffffffffffffffffffffd55,
    0x7fffffffffffffffffffffffffffffff, 0xffffffffffffffffffffffffffffff55,
    0x7fffffffffffffffffffffffffffffff, 0xffffffffffffffffffffffffffffffd5,
    0x7fffffffffffffffffffffffffffffff, 0xfffffffffffffffffffffffffffffff5,
    0x7fffffffffffffffffffffffffffffff, 0xfffffffffffffffffffffffffffffffd,
    0x7fffffffffffffffffffffffffffffff, 0xffffffffffffffffffffffffffffffff,
];

/// The significands of `atan(2⁻ⁱ)` for `i` in `[128, 192)`, each as two
/// `u128` words (most significant first).
pub const ATANS_SIGNIFS_2: [u128; 128] = [
    0x40000000000000000000000000000000, 0x00000000000000000000000000000000,
    0x40000000000000000000000000000000, 0x00000000000000000000000000000000,
    0x40000000000000000000000000000000, 0x00000000000000000000000000000000,
    0x40000000000000000000000000000000, 0x00000000000000000000000000000000,
    0x40000000000000000000000000000000, 0x00000000000000000000000000000000,
    0x40000000000000000000000000000000, 0x00000000000000000000000000000000,
    0x40000000000000000000000000000000, 0x00000000000000000000000000000000,
    0x40000000000000000000000000000000, 0x00000000000000000000000000000000,
    0x40000000000000000000000000000000, 0x00000000000000000000000000000000,
    0x40000000000000000000000000000000, 0x00000000000000000000000000000000,
    0x40000000000000000000000000000000, 0x00000000000000000000000000000000,
    0x40000000000000000000000000000000, 0x00000000000000000000000000000000,
    0x40000000000000000000000000000000, 0x00000000000000000000000000000000,
    0x40000000000000000000000000000000, 0x00000000000000000000000000000000,
    0x40000000000000000000000000000000, 0x00000000000000000000000000000000,
    0x40000000000000000000000000000000, 0x00000000000000000000000000000000,
    0x40000000000000000000000000000000, 0x00000000000000000000000000000000,
    0x40000000000000000000000000000000, 0x00000000000000000000000000000000,
    0x40000000000000000000000000000000, 0x00000000000000000000000000000000,
    0x40000000000000000000000000000000, 0x00000000000000000000000000000000,
    0x40000000000000000000000000000000, 0x00000000000000000000000000000000,
    0x40000000000000000000000000000000, 0x00000000000000000000000000000000,
    0x40000000000000000000000000000000, 0x00000000000000000000000000000000,
    0x40000000000000000000000000000000, 0x00000000000000000000000000000000,
    0x40000000000000000000000000000000, 0x00000000000000000000000000000000,
    0x40000000000000000000000000000000, 0x00000000000000000000000000000000,
    0x40000000000000000000000000000000, 0x00000000000000000000000000000000,
    0x40000000000000000000000000000000, 0x00000000000000000000000000000000,
    0x40000000000000000000000000000000, 0x00000000000000000000000000000000,
    0x40000000000000000000000000000000, 0x00000000000000000000000000000000,
    0x40000000000000000000000000000000, 0x00000000000000000000000000000000,
    0x40000000000000000000000000000000, 0x00000000000000000000000000000000,
    0x40000000000000000000000000000000, 0x00000000000000000000000000000000,
    0x40000000000000000000000000000000, 0x00000000000000000000000000000000,
    0x40000000000000000000000000000000, 0x00000000000000000000000000000000,
    0x40000000000000000000000000000000, 0x00000000000000000000000000000000,
    0x40000000000000000000000000000000, 0x00000000000000000000000000000000,
    0x40000000000000000000000000000000, 0x00000000000000000000000000000000,
    0x40000000000000000000000000000000, 0x00000000000000000000000000000000,
    0x40000000000000000000000000000000, 0x00000000000000000000000000000000,
    0x40000000000000000000000000000000, 0x00000000000000000000000000000000,
    0x40000000000000000000000000000000, 0x00000000000000000000000000000000,
    0x40000000000000000000000000000000, 0x00000000000000000000000000000000,
    0x40000000000000000000000000000000, 0x00000000000000000000000000000000,
    0x40000000000000000000000000000000, 0x00000000000000000000000000000000,
    0x40000000000000000000000000000000, 0x00000000000000000000000000000000,
    0x40000000000000000000000000000000, 0x00000000000000000000000000000000,
    0x40000000000000000000000000000000, 0x00000000000000000000000000000000,
    0x40000000000000000000000000000000, 0x00000000000000000000000000000000,
    0x40000000000000000000000000000000, 0x00000000000000000000000000000000,
    0x40000000000000000000000000000000, 0x00000000000000000000000000000000,
    0x40000000000000000000000000000000, 0x00000000000000000000000000000000,
    0x40000000000000000000000000000000, 0x00000000000000000000000000000000,
    0x40000000000000000000000000000000, 0x00000000000000000000000000000000,
    0x40000000000000000000000000000000, 0x00000000000000000000000000000000,
    0x40000000000000000000000000000000, 0x00000000000000000000000000000000,
    0x40000000000000000000000000000000, 0x00000000000000000000000000000000,
    0x40000000000000000000000000000000, 0x00000000000000000000000000000000,
    0x40000000000000000000000000000000, 0x00000000000000000000000000000000,
    0x40000000000000000000000000000000, 0x00000000000000000000000000000000,
    0x40000000000000000000000000000000, 0x00000000000000000000000000000000,
    0x40000000000000000000000000000000, 0x00000000000000000000000000000000,
    0x40000000000000000000000000000000, 0x00000000000000000000000000000000,
    0x40000000000000000000000000000000, 0x00000000000000000000000000000000,
];

/// The significands of `atan(2⁻ⁱ)` for `i` in `[192, 255)`, each as two
/// `u128` words (most significant first).
pub const ATANS_SIGNIFS_3: [u128; 126] = [
    0x40000000000000000000000000000000, 0x00000000000000000000000000000000,
    0x40000000000000000000000000000000, 0x00000000000000000000000000000000,
    0x40000000000000000000000000000000, 0x00000000000000000000000000000000,
    0x40000000000000000000000000000000, 0x00000000000000000000000000000000,
    0x40000000000000000000000000000000, 0x00000000000000000000000000000000,
    0x40000000000000000000000000000000, 0x00000000000000000000000000000000,
    0x40000000000000000000000000000000, 0x00000000000000000000000000000000,
    0x40000000000000000000000000000000, 0x00000000000000000000000000000000,
    0x40000000000000000000000000000000, 0x00000000000000000000000000000000,
    0x40000000000000000000000000000000, 0x00000000000000000000000000000000,
    0x40000000000000000000000000000000, 0x00000000000000000000000000000000,
    0x40000000000000000000000000000000, 0x00000000000000000000000000000000,
    0x40000000000000000000000000000000, 0x00000000000000000000000000000000,
    0x40000000000000000000000000000000, 0x00000000000000000000000000000000,
    0x40000000000000000000000000000000, 0x00000000000000000000000000000000,
    0x40000000000000000000000000000000, 0x00000000000000000000000000000000,
    0x40000000000000000000000000000000, 0x00000000000000000000000000000000,
    0x40000000000000000000000000000000, 0x00000000000000000000000000000000,
    0x40000000000000000000000000000000, 0x00000000000000000000000000000000,
    0x40000000000000000000000000000000, 0x00000000000000000000000000000000,
    0x40000000000000000000000000000000, 0x00000000000000000000000000000000,
    0x40000000000000000000000000000000, 0x00000000000000000000000000000000,
    0x40000000000000000000000000000000, 0x00000000000000000000000000000000,
    0x40000000000000000000000000000000, 0x00000000000000000000000000000000,
    0x40000000000000000000000000000000, 0x00000000000000000000000000000000,
    0x40000000000000000000000000000000, 0x00000000000000000000000000000000,
    0x40000000000000000000000000000000, 0x00000000000000000000000000000000,
    0x40000000000000000000000000000000, 0x00000000000000000000000000000000,
    0x40000000000000000000000000000000, 0x00000000000000000000000000000000,
    0x40000000000000000000000000000000, 0x00000000000000000000000000000000,
    0x40000000000000000000000000000000, 0x00000000000000000000000000000000,
    0x40000000000000000000000000000000, 0x00000000000000000000000000000000,
    0x40000000000000000000000000000000, 0x00000000000000000000000000000000,
    0x40000000000000000000000000000000, 0x00000000000000000000000000000000,
    0x40000000000000000000000000000000, 0x00000000000000000000000000000000,
    0x40000000000000000000000000000000, 0x00000000000000000000000000000000,
    0x40000000000000000000000000000000, 0x00000000000000000000000000000000,
    0x40000000000000000000000000000000, 0x00000000000000000000000000000000,
    0x40000000000000000000000000000000, 0x00000000000000000000000000000000,
    0x40000000000000000000000000000000, 0x00000000000000000000000000000000,
    0x40000000000000000000000000000000, 0x00000000000000000000000000000000,
    0x40000000000000000000000000000000, 0x00000000000000000000000000000000,
    0x40000000000000000000000000000000, 0x00000000000000000000000000000000,
    0x40000000000000000000000000000000, 0x00000000000000000000000000000000,
    0x40000000000000000000000000000000, 0x00000000000000000000000000000000,
    0x40000000000000000000000000000000, 0x00000000000000000000000000000000,
    0x40000000000000000000000000000000, 0x00000000000000000000000000000000,
    0x40000000000000000000000000000000, 0x00000000000000000000000000000000,
    0x40000000000000000000000000000000, 0x00000000000000000000000000000000,
    0x40000000000000000000000000000000, 0x00000000000000000000000000000000,
    0x40000000000000000000000000000000, 0x00000000000000000000000000000000,
    0x40000000000000000000000000000000, 0x00000000000000000000000000000000,
    0x40000000000000000000000000000000, 0x00000000000000000000000000000000,
    0x40000000000000000000000000000000, 0x00000000000000000000000000000000,
    0x40000000000000000000000000000000, 0x00000000000000000000000000000000,
    0x40000000000000000000000000000000, 0x00000000000000000000000000000000,
    0x40000000000000000000000000000000, 0x00000000000000000000000000000000,
    0x40000000000000000000000000000000, 0x00000000000000000000000000000000,
    0x40000000000000000000000000000000, 0x00000000000000000000000000000000,
    0x40000000000000000000000000000000, 0x00000000000000000000000000000000,
    0x40000000000000000000000000000000, 0x00000000000000000000000000000000,
    0x40000000000000000000000000000000, 0x00000000000000000000000000000000,
    0x40000000000000000000000000000000, 0x00000000000000000000000000000000,
];

/// The exponents of `atan(2⁻ⁱ)` for `i` in `[0, 128)`.
pub const ATANS_EXPS_0: [i32; 128] = [
    -1, -2, -3, -4, -5, -6, -7, -8, -9, -10, -11, -12, -13, -14, -15, -16,
    -17, -18, -19, -20, -21, -22, -23, -24, -25, -26, -27, -28, -29, -30, -31, -32,
    -33, -34, -35, -36, -37, -38, -39, -40, -41, -42, -43, -44, -45, -46, -47, -48,
    -49, -50, -51, -52, -53, -54, -55, -56, -57, -58, -59, -60, -61, -62, -63, -64,
    -65, -66, -67, -68, -69, -70, -71, -72, -73, -74, -75, -76, -77, -78, -79, -80,
    -81, -82, -83, -84, -85, -86, -87, -88, -89, -90, -91, -92, -93, -94, -95, -96,
    -97, -98, -99, -100, -101, -102, -103, -104, -105, -106, -107, -108, -109, -110, -111, -112,
    -113, -114, -115, -116, -117, -118, -119, -120, -121, -122, -123, -124, -125, -126, -127, -128,
];

/// The exponents of `atan(2⁻ⁱ)` for `i` in `[128, 255)`.
pub const ATANS_EXPS_1: [i32; 127] = [
    -128, -129, -130, -131, -132, -133, -134, -135, -136, -137, -138, -139, -140, -141, -142, -143,
    -144, -145, -146, -147, -148, -149, -150, -151, -152, -153, -154, -155, -156, -157, -158, -159,
    -160, -161, -162, -163, -164, -165, -166, -167, -168, -169, -170, -171, -172, -173, -174, -175,
    -176, -177, -178, -179, -180, -181, -182, -183, -184, -185, -186, -187, -188, -189, -190, -191,
    -192, -193, -194, -195, -196, -197, -198, -199, -200, -201, -202, -203, -204, -205, -206, -207,
    -208, -209, -210, -211, -212, -213, -214, -215, -216, -217, -218, -219, -220, -221, -222, -223,
    -224, -225, -226, -227, -228, -229, -230, -231, -232, -233, -234, -235, -236, -237, -238, -239,
    -240, -241, -242, -243, -244, -245, -246, -247, -248, -249, -250, -251, -252, -253, -254,
];

/// The upper word of the significand of `atan(2⁻ⁱ)`.
pub open spec fn atans_hi(i: int) -> u128 {
    if i < 64 {
        ATANS_SIGNIFS_0@[2 * i]
    } else if i < 128 {
        ATANS_SIGNIFS_1@[2 * (i - 64)]
    } else if i < 192 {
        ATANS_SIGNIFS_2@[2 * (i - 128)]
    } else {
        ATANS_SIGNIFS_3@[2 * (i - 192)]
    }
}

/// The lower word of the significand of `atan(2⁻ⁱ)`.
pub open spec fn atans_lo(i: int) -> u128 {
    if i < 64 {
        ATANS_SIGNIFS_0@[2 * i + 1]
    } else if i < 128 {
        ATANS_SIGNIFS_1@[2 * (i - 64) + 1]
    } else if i < 192 {
        ATANS_SIGNIFS_2@[2 * (i - 128) + 1]
    } else {
        ATANS_SIGNIFS_3@[2 * (i - 192) + 1]
    }
}

/// The exponent of `atan(2⁻ⁱ)`.
pub open spec fn atans_exp(i: int) -> i32 {
    if i < 128 {
        ATANS_EXPS_0@[i]
    } else {
        ATANS_EXPS_1@[i - 128]
    }
}

/// `atan(2⁻ⁱ)`, rounded to [`Float`].
pub open spec fn atans_value(i: int) -> Float {
    Float { signum: 1, exp: atans_exp(i), signif: u256 { hi: atans_hi(i), lo: atans_lo(i) } }
}

/// The significands of entries 0 to 63 are normalized.
proof fn lemma_atans_signifs_0(i: int)
    requires
        0 <= i < 64,
    ensures
        0x40000000000000000000000000000000 <= atans_hi(i) < 0x80000000000000000000000000000000,
{
    if i == 0 {
        assert(ATANS_SIGNIFS_0@[0] == 0x6487ed5110b4611a62633145c06e0e68);
    } else if i == 1 {
        assert(ATANS_SIGNIFS_0@[2] == 0x76b19c1586ed3da2b7f222f65e1d4681);
    } else if i == 2 {
        assert(ATANS_SIGNIFS_0@[4] == 0x7d6dd7e4b203758ab6e3cf7afbd10bf2);
    } else if i == 3 {
        assert(ATANS_SIGNIFS_0@[6] == 0x7f56ea6ab0bdb719644bcc4f9f44477b);
    } else if i == 4 {
        assert(ATANS_SIGNIFS_0@[8] == 0x7fd56edcb3f7a71b6593c96e071706a8);
    } else if i == 5 {
        assert(ATANS_SIGNIFS_0@[10] == 0x7ff556eea5d892a13bcebbb6ed463109);
    } else if i == 6 {
        assert(ATANS_SIGNIFS_0@[12] == 0x7ffd556eedca6addf3c62b200afbb024);
    } else if i == 7 {
        assert(ATANS_SIGNIFS_0@[14] == 0x7fff5556eeea5cb40311a8fddf3057a3);
    } else if i == 8 {
        assert(ATANS_SIGNIFS_0@[16] == 0x7fffd5556eeedca5d8957db5b6a7bf0b);
    } else if i == 9 {
        assert(ATANS_SIGNIFS_0@[18] == 0x7ffff55556eeeea5ca6adeab02251ce8);
    } else if i == 10 {
        assert(ATANS_SIGNIFS_0@[20] == 0x7ffffd55556eeeedca5cb4033f79d4be);
    } else if i == 11 {
        assert(ATANS_SIGNIFS_0@[22] == 0x7fffff555556eeeeea5ca5d895892a09);
    } else if i == 12 {
        assert(ATANS_SIGNIFS_0@[24] == 0x7fffffd555556eeeeedca5ca6adeaddf);
    } else if i == 13 {
        assert(ATANS_SIGNIFS_0@[26] == 0x7ffffff5555556eeeeeea5ca5cb40340);
    } else if i == 14 {
        assert(ATANS_SIGNIFS_0@[28] == 0x7ffffffd5555556eeeeeedca5ca5d895);
    } else if i == 15 {
        assert(ATANS_SIGNIFS_0@[30] == 0x7fffffff55555556eeeeeeea5ca5ca6a);
    } else if i == 16 {
        assert(ATANS_SIGNIFS_0@[32] == 0x7fffffffd55555556eeeeeeedca5ca5c);
    } else if i == 17 {
        assert(ATANS_SIGNIFS_0@[34] == 0x7ffffffff555555556eeeeeeeea5ca5c);
    } else if i == 18 {
        assert(ATANS_SIGNIFS_0@[36] == 0x7ffffffffd555555556eeeeeeeedca5c);
    } else if i == 19 {
        assert(ATANS_SIGNIFS_0@[38] == 0x7fffffffff5555555556eeeeeeeeea5c);
    } else if i == 20 {
        assert(ATANS_SIGNIFS_0@[40] == 0x7fffffffffd5555555556eeeeeeeeedc);
    } else if i == 21 {
        assert(ATANS_SIGNIFS_0@[42] == 0x7ffffffffff55555555556eeeeeeeeee);
    } else if i == 22 {
        assert(ATANS_SIGNIFS_0@[44] == 0x7ffffffffffd55555555556eeeeeeeee);
    } else if i == 23 {
        assert(ATANS_SIGNIFS_0@[46] == 0x7fffffffffff555555555556eeeeeeee);
    } else if i == 24 {
        assert(ATANS_SIGNIFS_0@[48] == 0x7fffffffffffd555555555556eeeeeee);
    } else if i == 25 {
        assert(ATANS_SIGNIFS_0@[50] == 0x7ffffffffffff5555555555556eeeeee);
    } else if i == 26 {
        assert(ATANS_SIGNIFS_0@[52] == 0x7ffffffffffffd5555555555556eeeee);
    } else if i == 27 {
        assert(ATANS_SIGNIFS_0@[54] == 0x7fffffffffffff55555555555556eeee);
    } else if i == 28 {
        assert(ATANS_SIGNIFS_0@[56] == 0x7fffffffffffffd55555555555556eee);
    } else if i == 29 {
        assert(ATANS_SIGNIFS_0@[58] == 0x7ffffffffffffff555555555555556ee);
    } else if i == 30 {
        assert(ATANS_SIGNIFS_0@[60] == 0x7ffffffffffffffd555555555555556e);
    } else if i == 31 {
        assert(ATANS_SIGNIFS_0@[62] == 0x7fffffffffffffff5555555555555556);
    } else if i == 32 {
        assert(ATANS_SIGNIFS_0@[64] == 0x7fffffffffffffffd555555555555555);
    } else if i == 33 {
        assert(ATANS_SIGNIFS_0@[66] == 0x7ffffffffffffffff555555555555555);
    } else if i == 34 {
        assert(ATANS_SIGNIFS_0@[68] == 0x7ffffffffffffffffd55555555555555);
    } else if i == 35 {
        assert(ATANS_SIGNIFS_0@[70] == 0x7fffffffffffffffff55555555555555);
    } else if i == 36 {
        assert(ATANS_SIGNIFS_0@[72] == 0x7fffffffffffffffffd5555555555555);
    } else if i == 37 {
        assert(ATANS_SIGNIFS_0@[74] == 0x7ffffffffffffffffff5555555555555);
    } else if i == 38 {
        assert(ATANS_SIGNIFS_0@[76] == 0x7ffffffffffffffffffd555555555555);
    } else if i == 39 {
        assert(ATANS_SIGNIFS_0@[78] == 0x7fffffffffffffffffff555555555555);
    } else if i == 40 {
        assert(ATANS_SIGNIFS_0@[80] == 0x7fffffffffffffffffffd55555555555);
    } else if i == 41 {
        assert(ATANS_SIGNIFS_0@[82] == 0x7ffffffffffffffffffff55555555555);
    } else if i == 42 {
        assert(ATANS_SIGNIFS_0@[84] == 0x7ffffffffffffffffffffd5555555555);
    } else if i == 43 {
        assert(ATANS_SIGNIFS_0@[86] == 0x7fffffffffffffffffffff5555555555);
    } else if i == 44 {
        assert(ATANS_SIGNIFS_0@[88] == 0x7fffffffffffffffffffffd555555555);
    } else if i == 45 {
        assert(ATANS_SIGNIFS_0@[90] == 0x7ffffffffffffffffffffff555555555);
    } else if i == 46 {
        assert(ATANS_SIGNIFS_0@[92] == 0x7ffffffffffffffffffffffd55555555);
    } else if i == 47 {
        assert(ATANS_SIGNIFS_0@[94] == 0x7fffffffffffffffffffffff55555555);
    } else if i == 48 {
        assert(ATANS_SIGNIFS_0@[96] == 0x7fffffffffffffffffffffffd5555555);
    } else if i == 49 {
        assert(ATANS_SIGNIFS_0@[98] == 0x7ffffffffffffffffffffffff5555555);
    } else if i == 50 {
        assert(ATANS_SIGNIFS_0@[100] == 0x7ffffffffffffffffffffffffd555555);
    } else if i == 51 {
        assert(ATANS_SIGNIFS_0@[102] == 0x7fffffffffffffffffffffffff555555);
    } else if i == 52 {
        assert(ATANS_SIGNIFS_0@[104] == 0x7fffffffffffffffffffffffffd55555);
    } else if i == 53 {
        assert(ATANS_SIGNIFS_0@[106] == 0x7ffffffffffffffffffffffffff55555);
    } else if i == 54 {
        assert(ATANS_SIGNIFS_0@[108] == 0x7ffffffffffffffffffffffffffd5555);
    } else if i == 55 {
        assert(ATANS_SIGNIFS_0@[110] == 0x7fffffffffffffffffffffffffff5555);
    } else if i == 56 {
        assert(ATANS_SIGNIFS_0@[112] == 0x7fffffffffffffffffffffffffffd555);
    } else if i == 57 {
        assert(ATANS_SIGNIFS_0@[114] == 0x7ffffffffffffffffffffffffffff555);
    } else if i == 58 {
        assert(ATANS_SIGNIFS_0@[116] == 0x7ffffffffffffffffffffffffffffd55);
    } else if i == 59 {
        assert(ATANS_SIGNIFS_0@[118] == 0x7fffffffffffffffffffffffffffff55);
    } else if i == 60 {
        assert(ATANS_SIGNIFS_0@[120] == 0x7fffffffffffffffffffffffffffffd5);
    } else if i == 61 {
        assert(ATANS_SIGNIFS_0@[122] == 0x7ffffffffffffffffffffffffffffff5);
    } else if i == 62 {
        assert(ATANS_SIGNIFS_0@[124] == 0x7ffffffffffffffffffffffffffffffd);
    } else if i == 63 {
        assert(ATANS_SIGNIFS_0@[126] == 0x7fffffffffffffffffffffffffffffff);
    }
}

/// The significands of entries 64 to 127 are normalized.
proof fn lemma_atans_signifs_1(i: int)
    requires
        64 <= i < 128,
    ensures
        0x40000000000000000000000000000000 <= atans_hi(i) < 0x80000000000000000000000000000000,
{
    if i == 64 {
        assert(ATANS_SIGNIFS_1@[0] == 0x7fffffffffffffffffffffffffffffff);
    } else if i == 65 {
        assert(ATANS_SIGNIFS_1@[2] == 0x7fffffffffffffffffffffffffffffff);
    } else if i == 66 {
        assert(ATANS_SIGNIFS_1@[4] == 0x7fffffffffffffffffffffffffffffff);
    } else if i == 67 {
        assert(ATANS_SIGNIFS_1@[6] == 0x7fffffffffffffffffffffffffffffff);
    } else if i == 68 {
        assert(ATANS_SIGNIFS_1@[8] == 0x7fffffffffffffffffffffffffffffff);
    } else if i == 69 {
        assert(ATANS_SIGNIFS_1@[10] == 0x7fffffffffffffffffffffffffffffff);
    } else if i == 70 {
        assert(ATANS_SIGNIFS_1@[12] == 0x7fffffffffffffffffffffffffffffff);
    } else if i == 71 {
        assert(ATANS_SIGNIFS_1@[14] == 0x7fffffffffffffffffffffffffffffff);
    } else if i == 72 {
        assert(ATANS_SIGNIFS_1@[16] == 0x7fffffffffffffffffffffffffffffff);
    } else if i == 73 {
        assert(ATANS_SIGNIFS_1@[18] == 0x7fffffffffffffffffffffffffffffff);
    } else if i == 74 {
        assert(ATANS_SIGNIFS_1@[20] == 0x7fffffffffffffffffffffffffffffff);
    } else if i == 75 {
        assert(ATANS_SIGNIFS_1@[22] == 0x7fffffffffffffffffffffffffffffff);
    } else if i == 76 {
        assert(ATANS_SIGNIFS_1@[24] == 0x7fffffffffffffffffffffffffffffff);
    } else if i == 77 {
        assert(ATANS_SIGNIFS_1@[26] == 0x7fffffffffffffffffffffffffffffff);
    } else if i == 78 {
        assert(ATANS_SIGNIFS_1@[28] == 0x7fffffffffffffffffffffffffffffff);
    } else if i == 79 {
        assert(ATANS_SIGNIFS_1@[30] == 0x7fffffffffffffffffffffffffffffff);
    } else if i == 80 {
        assert(ATANS_SIGNIFS_1@[32] == 0x7fffffffffffffffffffffffffffffff);
    } else if i == 81 {
        assert(ATANS_SIGNIFS_1@[34] == 0x7fffffffffffffffffffffffffffffff);
    } else if i == 82 {
        assert(ATANS_SIGNIFS_1@[36] == 0x7fffffffffffffffffffffffffffffff);
    } else if i == 83 {
        assert(ATANS_SIGNIFS_1@[38] == 0x7fffffffffffffffffffffffffffffff);
    } else if i == 84 {
        assert(ATANS_SIGNIFS_1@[40] == 0x7fffffffffffffffffffffffffffffff);
    } else if i == 85 {
        assert(ATANS_SIGNIFS_1@[42] == 0x7fffffffffffffffffffffffffffffff);
    } else if i == 86 {
        assert(ATANS_SIGNIFS_1@[44] == 0x7fffffffffffffffffffffffffffffff);
    } else if i == 87 {
        assert(ATANS_SIGNIFS_1@[46] == 0x7fffffffffffffffffffffffffffffff);
    } else if i == 88 {
        assert(ATANS_SIGNIFS_1@[48] == 0x7fffffffffffffffffffffffffffffff);
    } else if i == 89 {
        assert(ATANS_SIGNIFS_1@[50] == 0x7fffffffffffffffffffffffffffffff);
    } else if i == 90 {
        assert(ATANS_SIGNIFS_1@[52] == 0x7fffffffffffffffffffffffffffffff);
    } else if i == 91 {
        assert(ATANS_SIGNIFS_1@[54] == 0x7fffffffffffffffffffffffffffffff);
    } else if i == 92 {
        assert(ATANS_SIGNIFS_1@[56] == 0x7fffffffffffffffffffffffffffffff);
    } else if i == 93 {
        assert(ATANS_SIGNIFS_1@[58] == 0x7fffffffffffffffffffffffffffffff);
    } else if i == 94 {
        assert(ATANS_SIGNIFS_1@[60] == 0x7fffffffffffffffffffffffffffffff);
    } else if i == 95 {
        assert(ATANS_SIGNIFS_1@[62] == 0x7fffffffffffffffffffffffffffffff);
    } else if i == 96 {
        assert(ATANS_SIGNIFS_1@[64] == 0x7fffffffffffffffffffffffffffffff);
    } else if i == 97 {
        assert(ATANS_SIGNIFS_1@[66] == 0x7fffffffffffffffffffffffffffffff);
    } else if i == 98 {
        assert(ATANS_SIGNIFS_1@[68] == 0x7fffffffffffffffffffffffffffffff);
    } else if i == 99 {
        assert(ATANS_SIGNIFS_1@[70] == 0x7fffffffffffffffffffffffffffffff);
    } else if i == 100 {
        assert(ATANS_SIGNIFS_1@[72] == 0x7fffffffffffffffffffffffffffffff);
    } else if i == 101 {
        assert(ATANS_SIGNIFS_1@[74] == 0x7fffffffffffffffffffffffffffffff);
    } else if i == 102 {
        assert(ATANS_SIGNIFS_1@[76] == 0x7fffffffffffffffffffffffffffffff);
    } else if i == 103 {
        assert(ATANS_SIGNIFS_1@[78] == 0x7fffffffffffffffffffffffffffffff);
    } else if i == 104 {
        assert(ATANS_SIGNIFS_1@[80] == 0x7fffffffffffffffffffffffffffffff);
    } else if i == 105 {
        assert(ATANS_SIGNIFS_1@[82] == 0x7fffffffffffffffffffffffffffffff);
    } else if i == 106 {
        assert(ATANS_SIGNIFS_1@[84] == 0x7fffffffffffffffffffffffffffffff);
    } else if i == 107 {
        assert(ATANS_SIGNIFS_1@[86] == 0x7fffffffffffffffffffffffffffffff);
    } else if i == 108 {
        assert(ATANS_SIGNIFS_1@[88] == 0x7fffffffffffffffffffffffffffffff);
    } else if i == 109 {
        assert(ATANS_SIGNIFS_1@[90] == 0x7fffffffffffffffffffffffffffffff);
    } else if i == 110 {
        assert(ATANS_SIGNIFS_1@[92] == 0x7fffffffffffffffffffffffffffffff);
    } else if i == 111 {
        assert(ATANS_SIGNIFS_1@[94] == 0x7fffffffffffffffffffffffffffffff);
    } else if i == 112 {
        assert(ATANS_SIGNIFS_1@[96] == 0x7fffffffffffffffffffffffffffffff);
    } else if i == 113 {
        assert(ATANS_SIGNIFS_1@[98] == 0x7fffffffffffffffffffffffffffffff);
    } else if i == 114 {
        assert(ATANS_SIGNIFS_1@[100] == 0x7fffffffffffffffffffffffffffffff);
    } else if i == 115 {
        assert(ATANS_SIGNIFS_1@[102] == 0x7fffffffffffffffffffffffffffffff);
    } else if i == 116 {
        assert(ATANS_SIGNIFS_1@[104] == 0x7fffffffffffffffffffffffffffffff);
    } else if i == 117 {
        assert(ATANS_SIGNIFS_1@[106] == 0x7fffffffffffffffffffffffffffffff);
    } else if i == 118 {
        assert(ATANS_SIGNIFS_1@[108] == 0x7fffffffffffffffffffffffffffffff);
    } else if i == 119 {
        assert(ATANS_SIGNIFS_1@[110] == 0x7fffffffffffffffffffffffffffffff);
    } else if i == 120 {
        assert(ATANS_SIGNIFS_1@[112] == 0x7fffffffffffffffffffffffffffffff);
    } else if i == 121 {
        assert(ATANS_SIGNIFS_1@[114] == 0x7fffffffffffffffffffffffffffffff);
    } else if i == 122 {
        assert(ATANS_SIGNIFS_1@[116] == 0x7fffffffffffffffffffffffffffffff);
    } else if i == 123 {
        assert(ATANS_SIGNIFS_1@[118] == 0x7fffffffffffffffffffffffffffffff);
    } else if i == 124 {
        assert(ATANS_SIGNIFS_1@[120] == 0x7fffffffffffffffffffffffffffffff);
    } else if i == 125 {
        assert(ATANS_SIGNIFS_1@[122] == 0x7fffffffffffffffffffffffffffffff);
    } else if i == 126 {
        assert(ATANS_SIGNIFS_1@[124] == 0x7fffffffffffffffffffffffffffffff);
    } else if i == 127 {
        assert(ATANS_SIGNIFS_1@[126] == 0x7fffffffffffffffffffffffffffffff);
    }
}

/// The significands of entries 128 to 191 are normalized.
proof fn lemma_atans_signifs_2(i: int)
    requires
        128 <= i < 192,
    ensures
        0x40000000000000000000000000000000 <= atans_hi(i) < 0x80000000000000000000000000000000,
{
    if i == 128 {
        assert(ATANS_SIGNIFS_2@[0] == 0x40000000000000000000000000000000);
    } else if i == 129 {
        assert(ATANS_SIGNIFS_2@[2] == 0x40000000000000000000000000000000);
    } else if i == 130 {
        assert(ATANS_SIGNIFS_2@[4] == 0x40000000000000000000000000000000);
    } else if i == 131 {
        assert(ATANS_SIGNIFS_2@[6] == 0x40000000000000000000000000000000);
    } else if i == 132 {
        assert(ATANS_SIGNIFS_2@[8] == 0x40000000000000000000000000000000);
    } else if i == 133 {
        assert(ATANS_SIGNIFS_2@[10] == 0x40000000000000000000000000000000);
    } else if i == 134 {
        assert(ATANS_SIGNIFS_2@[12] == 0x40000000000000000000000000000000);
    } else if i == 135 {
        assert(ATANS_SIGNIFS_2@[14] == 0x40000000000000000000000000000000);
    } else if i == 136 {
        assert(ATANS_SIGNIFS_2@[16] == 0x40000000000000000000000000000000);
    } else if i == 137 {
        assert(ATANS_SIGNIFS_2@[18] == 0x40000000000000000000000000000000);
    } else if i == 138 {
        assert(ATANS_SIGNIFS_2@[20] == 0x40000000000000000000000000000000);
    } else if i == 139 {
        assert(ATANS_SIGNIFS_2@[22] == 0x40000000000000000000000000000000);
    } else if i == 140 {
        assert(ATANS_SIGNIFS_2@[24] == 0x40000000000000000000000000000000);
    } else if i == 141 {
        assert(ATANS_SIGNIFS_2@[26] == 0x40000000000000000000000000000000);
    } else if i == 142 {
        assert(ATANS_SIGNIFS_2@[28] == 0x40000000000000000000000000000000);
    } else if i == 143 {
        assert(ATANS_SIGNIFS_2@[30] == 0x40000000000000000000000000000000);
    } else if i == 144 {
        assert(ATANS_SIGNIFS_2@[32] == 0x40000000000000000000000000000000);
    } else if i == 145 {
        assert(ATANS_SIGNIFS_2@[34] == 0x40000000000000000000000000000000);
    } else if i == 146 {
        assert(ATANS_SIGNIFS_2@[36] == 0x40000000000000000000000000000000);
    } else if i == 147 {
        assert(ATANS_SIGNIFS_2@[38] == 0x40000000000000000000000000000000);
    } else if i == 148 {
        assert(ATANS_SIGNIFS_2@[40] == 0x40000000000000000000000000000000);
    } else if i == 149 {
        assert(ATANS_SIGNIFS_2@[42] == 0x40000000000000000000000000000000);
    } else if i == 150 {
        assert(ATANS_SIGNIFS_2@[44] == 0x40000000000000000000000000000000);
    } else if i == 151 {
        assert(ATANS_SIGNIFS_2@[46] == 0x40000000000000000000000000000000);
    } else if i == 152 {
        assert(ATANS_SIGNIFS_2@[48] == 0x40000000000000000000000000000000);
    } else if i == 153 {
        assert(ATANS_SIGNIFS_2@[50] == 0x40000000000000000000000000000000);
    } else if i == 154 {
        assert(ATANS_SIGNIFS_2@[52] == 0x40000000000000000000000000000000);
    } else if i == 155 {
        assert(ATANS_SIGNIFS_2@[54] == 0x40000000000000000000000000000000);
    } else if i == 156 {
        assert(ATANS_SIGNIFS_2@[56] == 0x40000000000000000000000000000000);
    } else if i == 157 {
        assert(ATANS_SIGNIFS_2@[58] == 0x40000000000000000000000000000000);
    } else if i == 158 {
        assert(ATANS_SIGNIFS_2@[60] == 0x40000000000000000000000000000000);
    } else if i == 159 {
        assert(ATANS_SIGNIFS_2@[62] == 0x40000000000000000000000000000000);
    } else if i == 160 {
        assert(ATANS_SIGNIFS_2@[64] == 0x40000000000000000000000000000000);
    } else if i == 161 {
        assert(ATANS_SIGNIFS_2@[66] == 0x40000000000000000000000000000000);
    } else if i == 162 {
        assert(ATANS_SIGNIFS_2@[68] == 0x40000000000000000000000000000000);
    } else if i == 163 {
        assert(ATANS_SIGNIFS_2@[70] == 0x40000000000000000000000000000000);
    } else if i == 164 {
        assert(ATANS_SIGNIFS_2@[72] == 0x40000000000000000000000000000000);
    } else if i == 165 {
        assert(ATANS_SIGNIFS_2@[74] == 0x40000000000000000000000000000000);
    } else if i == 166 {
        assert(ATANS_SIGNIFS_2@[76] == 0x40000000000000000000000000000000);
    } else if i == 167 {
        assert(ATANS_SIGNIFS_2@[78] == 0x40000000000000000000000000000000);
    } else if i == 168 {
        assert(ATANS_SIGNIFS_2@[80] == 0x40000000000000000000000000000000);
    } else if i == 169 {
        assert(ATANS_SIGNIFS_2@[82] == 0x40000000000000000000000000000000);
    } else if i == 170 {
        assert(ATANS_SIGNIFS_2@[84] == 0x40000000000000000000000000000000);
    } else if i == 171 {
        assert(ATANS_SIGNIFS_2@[86] == 0x40000000000000000000000000000000);
    } else if i == 172 {
        assert(ATANS_SIGNIFS_2@[88] == 0x40000000000000000000000000000000);
    } else if i == 173 {
        assert(ATANS_SIGNIFS_2@[90] == 0x40000000000000000000000000000000);
    } else if i == 174 {
        assert(ATANS_SIGNIFS_2@[92] == 0x40000000000000000000000000000000);
    } else if i == 175 {
        assert(ATANS_SIGNIFS_2@[94] == 0x40000000000000000000000000000000);
    } else if i == 176 {
        assert(ATANS_SIGNIFS_2@[96] == 0x40000000000000000000000000000000);
    } else if i == 177 {
        assert(ATANS_SIGNIFS_2@[98] == 0x40000000000000000000000000000000);
    } else if i == 178 {
        assert(ATANS_SIGNIFS_2@[100] == 0x40000000000000000000000000000000);
    } else if i == 179 {
        assert(ATANS_SIGNIFS_2@[102] == 0x40000000000000000000000000000000);
    } else if i == 180 {
        assert(ATANS_SIGNIFS_2@[104] == 0x40000000000000000000000000000000);
    } else if i == 181 {
        assert(ATANS_SIGNIFS_2@[106] == 0x40000000000000000000000000000000);
    } else if i == 182 {
        assert(ATANS_SIGNIFS_2@[108] == 0x40000000000000000000000000000000);
    } else if i == 183 {
        assert(ATANS_SIGNIFS_2@[110] == 0x40000000000000000000000000000000);
    } else if i == 184 {
        assert(ATANS_SIGNIFS_2@[112] == 0x40000000000000000000000000000000);
    } else if i == 185 {
        assert(ATANS_SIGNIFS_2@[114] == 0x40000000000000000000000000000000);
    } else if i == 186 {
        assert(ATANS_SIGNIFS_2@[116] == 0x40000000000000000000000000000000);
    } else if i == 187 {
        assert(ATANS_SIGNIFS_2@[118] == 0x40000000000000000000000000000000);
    } else if i == 188 {
        assert(ATANS_SIGNIFS_2@[120] == 0x40000000000000000000000000000000);
    } else if i == 189 {
        assert(ATANS_SIGNIFS_2@[122] == 0x40000000000000000000000000000000);
    } else if i == 190 {
        assert(ATANS_SIGNIFS_2@[124] == 0x40000000000000000000000000000000);
    } else if i == 191 {
        assert(ATANS_SIGNIFS_2@[126] == 0x40000000000000000000000000000000);
    }
}

/// The significands of entries 192 to 254 are normalized.
proof fn lemma_atans_signifs_3(i: int)
    requires
        192 <= i < 255,
    ensures
        0x40000000000000000000000000000000 <= atans_hi(i) < 0x80000000000000000000000000000000,
{
    if i == 192 {
        assert(ATANS_SIGNIFS_3@[0] == 0x40000000000000000000000000000000);
    } else if i == 193 {
        assert(ATANS_SIGNIFS_3@[2] == 0x40000000000000000000000000000000);
    } else if i == 194 {
        assert(ATANS_SIGNIFS_3@[4] == 0x40000000000000000000000000000000);
    } else if i == 195 {
        assert(ATANS_SIGNIFS_3@[6] == 0x40000000000000000000000000000000);
    } else if i == 196 {
        assert(ATANS_SIGNIFS_3@[8] == 0x40000000000000000000000000000000);
    } else if i == 197 {
        assert(ATANS_SIGNIFS_3@[10] == 0x40000000000000000000000000000000);
    } else if i == 198 {
        assert(ATANS_SIGNIFS_3@[12] == 0x40000000000000000000000000000000);
    } else if i == 199 {
        assert(ATANS_SIGNIFS_3@[14] == 0x40000000000000000000000000000000);
    } else if i == 200 {
        assert(ATANS_SIGNIFS_3@[16] == 0x40000000000000000000000000000000);
    } else if i == 201 {
        assert(ATANS_SIGNIFS_3@[18] == 0x40000000000000000000000000000000);
    } else if i == 202 {
        assert(ATANS_SIGNIFS_3@[20] == 0x40000000000000000000000000000000);
    } else if i == 203 {
        assert(ATANS_SIGNIFS_3@[22] == 0x40000000000000000000000000000000);
    } else if i == 204 {
        assert(ATANS_SIGNIFS_3@[24] == 0x40000000000000000000000000000000);
    } else if i == 205 {
        assert(ATANS_SIGNIFS_3@[26] == 0x40000000000000000000000000000000);
    } else if i == 206 {
        assert(ATANS_SIGNIFS_3@[28] == 0x40000000000000000000000000000000);
    } else if i == 207 {
        assert(ATANS_SIGNIFS_3@[30] == 0x40000000000000000000000000000000);
    } else if i == 208 {
        assert(ATANS_SIGNIFS_3@[32] == 0x40000000000000000000000000000000);
    } else if i == 209 {
        assert(ATANS_SIGNIFS_3@[34] == 0x40000000000000000000000000000000);
    } else if i == 210 {
        assert(ATANS_SIGNIFS_3@[36] == 0x40000000000000000000000000000000);
    } else if i == 211 {
        assert(ATANS_SIGNIFS_3@[38] == 0x40000000000000000000000000000000);
    } else if i == 212 {
        assert(ATANS_SIGNIFS_3@[40] == 0x40000000000000000000000000000000);
    } else if i == 213 {
        assert(ATANS_SIGNIFS_3@[42] == 0x40000000000000000000000000000000);
    } else if i == 214 {
        assert(ATANS_SIGNIFS_3@[44] == 0x40000000000000000000000000000000);
    } else if i == 215 {
        assert(ATANS_SIGNIFS_3@[46] == 0x40000000000000000000000000000000);
    } else if i == 216 {
        assert(ATANS_SIGNIFS_3@[48] == 0x40000000000000000000000000000000);
    } else if i == 217 {
        assert(ATANS_SIGNIFS_3@[50] == 0x40000000000000000000000000000000);
    } else if i == 218 {
        assert(ATANS_SIGNIFS_3@[52] == 0x40000000000000000000000000000000);
    } else if i == 219 {
        assert(ATANS_SIGNIFS_3@[54] == 0x40000000000000000000000000000000);
    } else if i == 220 {
        assert(ATANS_SIGNIFS_3@[56] == 0x40000000000000000000000000000000);
    } else if i == 221 {
        assert(ATANS_SIGNIFS_3@[58] == 0x40000000000000000000000000000000);
    } else if i == 222 {
        assert(ATANS_SIGNIFS_3@[60] == 0x40000000000000000000000000000000);
    } else if i == 223 {
        assert(ATANS_SIGNIFS_3@[62] == 0x40000000000000000000000000000000);
    } else if i == 224 {
        assert(ATANS_SIGNIFS_3@[64] == 0x40000000000000000000000000000000);
    } else if i == 225 {
        assert(ATANS_SIGNIFS_3@[66] == 0x40000000000000000000000000000000);
    } else if i == 226 {
        assert(ATANS_SIGNIFS_3@[68] == 0x40000000000000000000000000000000);
    } else if i == 227 {
        assert(ATANS_SIGNIFS_3@[70] == 0x40000000000000000000000000000000);
    } else if i == 228 {
        assert(ATANS_SIGNIFS_3@[72] == 0x40000000000000000000000000000000);
    } else if i == 229 {
        assert(ATANS_SIGNIFS_3@[74] == 0x40000000000000000000000000000000);
    } else if i == 230 {
        assert(ATANS_SIGNIFS_3@[76] == 0x40000000000000000000000000000000);
    } else if i == 231 {
        assert(ATANS_SIGNIFS_3@[78] == 0x40000000000000000000000000000000);
    } else if i == 232 {
        assert(ATANS_SIGNIFS_3@[80] == 0x40000000000000000000000000000000);
    } else if i == 233 {
        assert(ATANS_SIGNIFS_3@[82] == 0x40000000000000000000000000000000);
    } else if i == 234 {
        assert(ATANS_SIGNIFS_3@[84] == 0x40000000000000000000000000000000);
    } else if i == 235 {
        assert(ATANS_SIGNIFS_3@[86] == 0x40000000000000000000000000000000);
    } else if i == 236 {
        assert(ATANS_SIGNIFS_3@[88] == 0x40000000000000000000000000000000);
    } else if i == 237 {
        assert(ATANS_SIGNIFS_3@[90] == 0x40000000000000000000000000000000);
    } else if i == 238 {
        assert(ATANS_SIGNIFS_3@[92] == 0x40000000000000000000000000000000);
    } else if i == 239 {
        assert(ATANS_SIGNIFS_3@[94] == 0x40000000000000000000000000000000);
    } else if i == 240 {
        assert(ATANS_SIGNIFS_3@[96] == 0x40000000000000000000000000000000);
    } else if i == 241 {
        assert(ATANS_SIGNIFS_3@[98] == 0x40000000000000000000000000000000);
    } else if i == 242 {
        assert(ATANS_SIGNIFS_3@[100] == 0x40000000000000000000000000000000);
    } else if i == 243 {
        assert(ATANS_SIGNIFS_3@[102] == 0x40000000000000000000000000000000);
    } else if i == 244 {
        assert(ATANS_SIGNIFS_3@[104] == 0x40000000000000000000000000000000);
    } else if i == 245 {
        assert(ATANS_SIGNIFS_3@[106] == 0x40000000000000000000000000000000);
    } else if i == 246 {
        assert(ATANS_SIGNIFS_3@[108] == 0x40000000000000000000000000000000);
    } else if i == 247 {
        assert(ATANS_SIGNIFS_3@[110] == 0x40000000000000000000000000000000);
    } else if i == 248 {
        assert(ATANS_SIGNIFS_3@[112] == 0x40000000000000000000000000000000);
    } else if i == 249 {
        assert(ATANS_SIGNIFS_3@[114] == 0x40000000000000000000000000000000);
    } else if i == 250 {
        assert(ATANS_SIGNIFS_3@[116] == 0x40000000000000000000000000000000);
    } else if i == 251 {
        assert(ATANS_SIGNIFS_3@[118] == 0x40000000000000000000000000000000);
    } else if i == 252 {
        assert(ATANS_SIGNIFS_3@[120] == 0x40000000000000000000000000000000);
    } else if i == 253 {
        assert(ATANS_SIGNIFS_3@[122] == 0x40000000000000000000000000000000);
    } else if i == 254 {
        assert(ATANS_SIGNIFS_3@[124] == 0x40000000000000000000000000000000);
    }
}

/// The exponents of entries 0 to 127 lie in `[-255, -1]`.
proof fn lemma_atans_exps_0(i: int)
    requires
        0 <= i < 128,
    ensures
        -255 <= atans_exp(i) <= -1,
{
    if i == 0 {
        assert(ATANS_EXPS_0@[0] == -1);
    } else if i == 1 {
        assert(ATANS_EXPS_0@[1] == -2);
    } else if i == 2 {
        assert(ATANS_EXPS_0@[2] == -3);
    } else if i == 3 {
        assert(ATANS_EXPS_0@[3] == -4);
    } else if i == 4 {
        assert(ATANS_EXPS_0@[4] == -5);
    } else if i == 5 {
        assert(ATANS_EXPS_0@[5] == -6);
    } else if i == 6 {
        assert(ATANS_EXPS_0@[6] == -7);
    } else if i == 7 {
        assert(ATANS_EXPS_0@[7] == -8);
    } else if i == 8 {
        assert(ATANS_EXPS_0@[8] == -9);
    } else if i == 9 {
        assert(ATANS_EXPS_0@[9] == -10);
    } else if i == 10 {
        assert(ATANS_EXPS_0@[10] == -11);
    } else if i == 11 {
        assert(ATANS_EXPS_0@[11] == -12);
    } else if i == 12 {
        assert(ATANS_EXPS_0@[12] == -13);
    } else if i == 13 {
        assert(ATANS_EXPS_0@[13] == -14);
    } else if i == 14 {
        assert(ATANS_EXPS_0@[14] == -15);
    } else if i == 15 {
        assert(ATANS_EXPS_0@[15] == -16);
    } else if i == 16 {
        assert(ATANS_EXPS_0@[16] == -17);
    } else if i == 17 {
        assert(ATANS_EXPS_0@[17] == -18);
    } else if i == 18 {
        assert(ATANS_EXPS_0@[18] == -19);
    } else if i == 19 {
        assert(ATANS_EXPS_0@[19] == -20);
    } else if i == 20 {
        assert(ATANS_EXPS_0@[20] == -21);
    } else if i == 21 {
        assert(ATANS_EXPS_0@[21] == -22);
    } else if i == 22 {
        assert(ATANS_EXPS_0@[22] == -23);
    } else if i == 23 {
        assert(ATANS_EXPS_0@[23] == -24);
    } else if i == 24 {
        assert(ATANS_EXPS_0@[24] == -25);
    } else if i == 25 {
        assert(ATANS_EXPS_0@[25] == -26);
    } else if i == 26 {
        assert(ATANS_EXPS_0@[26] == -27);
    } else if i == 27 {
        assert(ATANS_EXPS_0@[27] == -28);
    } else if i == 28 {
        assert(ATANS_EXPS_0@[28] == -29);
    } else if i == 29 {
        assert(ATANS_EXPS_0@[29] == -30);
    } else if i == 30 {
        assert(ATANS_EXPS_0@[30] == -31);
    } else if i == 31 {
        assert(ATANS_EXPS_0@[31] == -32);
    } else if i == 32 {
        assert(ATANS_EXPS_0@[32] == -33);
    } else if i == 33 {
        assert(ATANS_EXPS_0@[33] == -34);
    } else if i == 34 {
        assert(ATANS_EXPS_0@[34] == -35);
    } else if i == 35 {
        assert(ATANS_EXPS_0@[35] == -36);
    } else if i == 36 {
        assert(ATANS_EXPS_0@[36] == -37);
    } else if i == 37 {
        assert(ATANS_EXPS_0@[37] == -38);
    } else if i == 38 {
        assert(ATANS_EXPS_0@[38] == -39);
    } else if i == 39 {
        assert(ATANS_EXPS_0@[39] == -40);
    } else if i == 40 {
        assert(ATANS_EXPS_0@[40] == -41);
    } else if i == 41 {
        assert(ATANS_EXPS_0@[41] == -42);
    } else if i == 42 {
        assert(ATANS_EXPS_0@[42] == -43);
    } else if i == 43 {
        assert(ATANS_EXPS_0@[43] == -44);
    } else if i == 44 {
        assert(ATANS_EXPS_0@[44] == -45);
    } else if i == 45 {
        assert(ATANS_EXPS_0@[45] == -46);
    } else if i == 46 {
        assert(ATANS_EXPS_0@[46] == -47);
    } else if i == 47 {
        assert(ATANS_EXPS_0@[47] == -48);
    } else if i == 48 {
        assert(ATANS_EXPS_0@[48] == -49);
    } else if i == 49 {
        assert(ATANS_EXPS_0@[49] == -50);
    } else if i == 50 {
        assert(ATANS_EXPS_0@[50] == -51);
    } else if i == 51 {
        assert(ATANS_EXPS_0@[51] == -52);
    } else if i == 52 {
        assert(ATANS_EXPS_0@[52] == -53);
    } else if i == 53 {
        assert(ATANS_EXPS_0@[53] == -54);
    } else if i == 54 {
        assert(ATANS_EXPS_0@[54] == -55);
    } else if i == 55 {
        assert(ATANS_EXPS_0@[55] == -56);
    } else if i == 56 {
        assert(ATANS_EXPS_0@[56] == -57);
    } else if i == 57 {
        assert(ATANS_EXPS_0@[57] == -58);
    } else if i == 58 {
        assert(ATANS_EXPS_0@[58] == -59);
    } else if i == 59 {
        assert(ATANS_EXPS_0@[59] == -60);
    } else if i == 60 {
        assert(ATANS_EXPS_0@[60] == -61);
    } else if i == 61 {
        assert(ATANS_EXPS_0@[61] == -62);
    } else if i == 62 {
        assert(ATANS_EXPS_0@[62] == -63);
    } else if i == 63 {
        assert(ATANS_EXPS_0@[63] == -64);
    } else if i == 64 {
        assert(ATANS_EXPS_0@[64] == -65);
    } else if i == 65 {
        assert(ATANS_EXPS_0@[65] == -66);
    } else if i == 66 {
        assert(ATANS_EXPS_0@[66] == -67);
    } else if i == 67 {
        assert(ATANS_EXPS_0@[67] == -68);
    } else if i == 68 {
        assert(ATANS_EXPS_0@[68] == -69);
    } else if i == 69 {
        assert(ATANS_EXPS_0@[69] == -70);
    } else if i == 70 {
        assert(ATANS_EXPS_0@[70] == -71);
    } else if i == 71 {
        assert(ATANS_EXPS_0@[71] == -72);
    } else if i == 72 {
        assert(ATANS_EXPS_0@[72] == -73);
    } else if i == 73 {
        assert(ATANS_EXPS_0@[73] == -74);
    } else if i == 74 {
        assert(ATANS_EXPS_0@[74] == -75);
    } else if i == 75 {
        assert(ATANS_EXPS_0@[75] == -76);
    } else if i == 76 {
        assert(ATANS_EXPS_0@[76] == -77);
    } else if i == 77 {
        assert(ATANS_EXPS_0@[77] == -78);
    } else if i == 78 {
        assert(ATANS_EXPS_0@[78] == -79);
    } else if i == 79 {
        assert(ATANS_EXPS_0@[79] == -80);
    } else if i == 80 {
        assert(ATANS_EXPS_0@[80] == -81);
    } else if i == 81 {
        assert(ATANS_EXPS_0@[81] == -82);
    } else if i == 82 {
        assert(ATANS_EXPS_0@[82] == -83);
    } else if i == 83 {
        assert(ATANS_EXPS_0@[83] == -84);
    } else if i == 84 {
        assert(ATANS_EXPS_0@[84] == -85);
    } else if i == 85 {
        assert(ATANS_EXPS_0@[85] == -86);
    } else if i == 86 {
        assert(ATANS_EXPS_0@[86] == -87);
    } else if i == 87 {
        assert(ATANS_EXPS_0@[87] == -88);
    } else if i == 88 {
        assert(ATANS_EXPS_0@[88] == -89);
    } else if i == 89 {
        assert(ATANS_EXPS_0@[89] == -90);
    } else if i == 90 {
        assert(ATANS_EXPS_0@[90] == -91);
    } else if i == 91 {
        assert(ATANS_EXPS_0@[91] == -92);
    } else if i == 92 {
        assert(ATANS_EXPS_0@[92] == -93);
    } else if i == 93 {
        assert(ATANS_EXPS_0@[93] == -94);
    } else if i == 94 {
        assert(ATANS_EXPS_0@[94] == -95);
    } else if i == 95 {
        assert(ATANS_EXPS_0@[95] == -96);
    } else if i == 96 {
        assert(ATANS_EXPS_0@[96] == -97);
    } else if i == 97 {
        assert(ATANS_EXPS_0@[97] == -98);
    } else if i == 98 {
        assert(ATANS_EXPS_0@[98] == -99);
    } else if i == 99 {
        assert(ATANS_EXPS_0@[99] == -100);
    } else if i == 100 {
        assert(ATANS_EXPS_0@[100] == -101);
    } else if i == 101 {
        assert(ATANS_EXPS_0@[101] == -102);
    } else if i == 102 {
        assert(ATANS_EXPS_0@[102] == -103);
    } else if i == 103 {
        assert(ATANS_EXPS_0@[103] == -104);
    } else if i == 104 {
        assert(ATANS_EXPS_0@[104] == -105);
    } else if i == 105 {
        assert(ATANS_EXPS_0@[105] == -106);
    } else if i == 106 {
        assert(ATANS_EXPS_0@[106] == -107);
    } else if i == 107 {
        assert(ATANS_EXPS_0@[107] == -108);
    } else if i == 108 {
        assert(ATANS_EXPS_0@[108] == -109);
    } else if i == 109 {
        assert(ATANS_EXPS_0@[109] == -110);
    } else if i == 110 {
        assert(ATANS_EXPS_0@[110] == -111);
    } else if i == 111 {
        assert(ATANS_EXPS_0@[111] == -112);
    } else if i == 112 {
        assert(ATANS_EXPS_0@[112] == -113);
    } else if i == 113 {
        assert(ATANS_EXPS_0@[113] == -114);
    } else if i == 114 {
        assert(ATANS_EXPS_0@[114] == -115);
    } else if i == 115 {
        assert(ATANS_EXPS_0@[115] == -116);
    } else if i == 116 {
        assert(ATANS_EXPS_0@[116] == -117);
    } else if i == 117 {
        assert(ATANS_EXPS_0@[117] == -118);
    } else if i == 118 {
        assert(ATANS_EXPS_0@[118] == -119);
    } else if i == 119 {
        assert(ATANS_EXPS_0@[119] == -120);
    } else if i == 120 {
        assert(ATANS_EXPS_0@[120] == -121);
    } else if i == 121 {
        assert(ATANS_EXPS_0@[121] == -122);
    } else if i == 122 {
        assert(ATANS_EXPS_0@[122] == -123);
    } else if i == 123 {
        assert(ATANS_EXPS_0@[123] == -124);
    } else if i == 124 {
        assert(ATANS_EXPS_0@[124] == -125);
    } else if i == 125 {
        assert(ATANS_EXPS_0@[125] == -126);
    } else if i == 126 {
        assert(ATANS_EXPS_0@[126] == -127);
    } else if i == 127 {
        assert(ATANS_EXPS_0@[127] == -128);
    }
}

/// The exponents of entries 128 to 254 lie in `[-255, -1]`.
proof fn lemma_atans_exps_1(i: int)
    requires
        128 <= i < 255,
    ensures
        -255 <= atans_exp(i) <= -1,
{
    if i == 128 {
        assert(ATANS_EXPS_1@[0] == -128);
    } else if i == 129 {
        assert(ATANS_EXPS_1@[1] == -129);
    } else if i == 130 {
        assert(ATANS_EXPS_1@[2] == -130);
    } else if i == 131 {
        assert(ATANS_EXPS_1@[3] == -131);
    } else if i == 132 {
        assert(ATANS_EXPS_1@[4] == -132);
    } else if i == 133 {
        assert(ATANS_EXPS_1@[5] == -133);
    } else if i == 134 {
        assert(ATANS_EXPS_1@[6] == -134);
    } else if i == 135 {
        assert(ATANS_EXPS_1@[7] == -135);
    } else if i == 136 {
        assert(ATANS_EXPS_1@[8] == -136);
    } else if i == 137 {
        assert(ATANS_EXPS_1@[9] == -137);
    } else if i == 138 {
        assert(ATANS_EXPS_1@[10] == -138);
    } else if i == 139 {
        assert(ATANS_EXPS_1@[11] == -139);
    } else if i == 140 {
        assert(ATANS_EXPS_1@[12] == -140);
    } else if i == 141 {
        assert(ATANS_EXPS_1@[13] == -141);
    } else if i == 142 {
        assert(ATANS_EXPS_1@[14] == -142);
    } else if i == 143 {
        assert(ATANS_EXPS_1@[15] == -143);
    } else if i == 144 {
        assert(ATANS_EXPS_1@[16] == -144);
    } else if i == 145 {
        assert(ATANS_EXPS_1@[17] == -145);
    } else if i == 146 {
        assert(ATANS_EXPS_1@[18] == -146);
    } else if i == 147 {
        assert(ATANS_EXPS_1@[19] == -147);
    } else if i == 148 {
        assert(ATANS_EXPS_1@[20] == -148);
    } else if i == 149 {
        assert(ATANS_EXPS_1@[21] == -149);
    } else if i == 150 {
        assert(ATANS_EXPS_1@[22] == -150);
    } else if i == 151 {
        assert(ATANS_EXPS_1@[23] == -151);
    } else if i == 152 {
        assert(ATANS_EXPS_1@[24] == -152);
    } else if i == 153 {
        assert(ATANS_EXPS_1@[25] == -153);
    } else if i == 154 {
        assert(ATANS_EXPS_1@[26] == -154);
    } else if i == 155 {
        assert(ATANS_EXPS_1@[27] == -155);
    } else if i == 156 {
        assert(ATANS_EXPS_1@[28] == -156);
    } else if i == 157 {
        assert(ATANS_EXPS_1@[29] == -157);
    } else if i == 158 {
        assert(ATANS_EXPS_1@[30] == -158);
    } else if i == 159 {
        assert(ATANS_EXPS_1@[31] == -159);
    } else if i == 160 {
        assert(ATANS_EXPS_1@[32] == -160);
    } else if i == 161 {
        assert(ATANS_EXPS_1@[33] == -161);
    } else if i == 162 {
        assert(ATANS_EXPS_1@[34] == -162);
    } else if i == 163 {
        assert(ATANS_EXPS_1@[35] == -163);
    } else if i == 164 {
        assert(ATANS_EXPS_1@[36] == -164);
    } else if i == 165 {
        assert(ATANS_EXPS_1@[37] == -165);
    } else if i == 166 {
        assert(ATANS_EXPS_1@[38] == -166);
    } else if i == 167 {
        assert(ATANS_EXPS_1@[39] == -167);
    } else if i == 168 {
        assert(ATANS_EXPS_1@[40] == -168);
    } else if i == 169 {
        assert(ATANS_EXPS_1@[41] == -169);
    } else if i == 170 {
        assert(ATANS_EXPS_1@[42] == -170);
    } else if i == 171 {
        assert(ATANS_EXPS_1@[43] == -171);
    } else if i == 172 {
        assert(ATANS_EXPS_1@[44] == -172);
    } else if i == 173 {
        assert(ATANS_EXPS_1@[45] == -173);
    } else if i == 174 {
        assert(ATANS_EXPS_1@[46] == -174);
    } else if i == 175 {
        assert(ATANS_EXPS_1@[47] == -175);
    } else if i == 176 {
        assert(ATANS_EXPS_1@[48] == -176);
    } else if i == 177 {
        assert(ATANS_EXPS_1@[49] == -177);
    } else if i == 178 {
        assert(ATANS_EXPS_1@[50] == -178);
    } else if i == 179 {
        assert(ATANS_EXPS_1@[51] == -179);
    } else if i == 180 {
        assert(ATANS_EXPS_1@[52] == -180);
    } else if i == 181 {
        assert(ATANS_EXPS_1@[53] == -181);
    } else if i == 182 {
        assert(ATANS_EXPS_1@[54] == -182);
    } else if i == 183 {
        assert(ATANS_EXPS_1@[55] == -183);
    } else if i == 184 {
        assert(ATANS_EXPS_1@[56] == -184);
    } else if i == 185 {
        assert(ATANS_EXPS_1@[57] == -185);
    } else if i == 186 {
        assert(ATANS_EXPS_1@[58] == -186);
    } else if i == 187 {
        assert(ATANS_EXPS_1@[59] == -187);
    } else if i == 188 {
        assert(ATANS_EXPS_1@[60] == -188);
    } else if i == 189 {
        assert(ATANS_EXPS_1@[61] == -189);
    } else if i == 190 {
        assert(ATANS_EXPS_1@[62] == -190);
    } else if i == 191 {
        assert(ATANS_EXPS_1@[63] == -191);
    } else if i == 192 {
        assert(ATANS_EXPS_1@[64] == -192);
    } else if i == 193 {
        assert(ATANS_EXPS_1@[65] == -193);
    } else if i == 194 {
        assert(ATANS_EXPS_1@[66] == -194);
    } else if i == 195 {
        assert(ATANS_EXPS_1@[67] == -195);
    } else if i == 196 {
        assert(ATANS_EXPS_1@[68] == -196);
    } else if i == 197 {
        assert(ATANS_EXPS_1@[69] == -197);
    } else if i == 198 {
        assert(ATANS_EXPS_1@[70] == -198);
    } else if i == 199 {
        assert(ATANS_EXPS_1@[71] == -199);
    } else if i == 200 {
        assert(ATANS_EXPS_1@[72] == -200);
    } else if i == 201 {
        assert(ATANS_EXPS_1@[73] == -201);
    } else if i == 202 {
        assert(ATANS_EXPS_1@[74] == -202);
    } else if i == 203 {
        assert(ATANS_EXPS_1@[75] == -203);
    } else if i == 204 {
        assert(ATANS_EXPS_1@[76] == -204);
    } else if i == 205 {
        assert(ATANS_EXPS_1@[77] == -205);
    } else if i == 206 {
        assert(ATANS_EXPS_1@[78] == -206);
    } else if i == 207 {
        assert(ATANS_EXPS_1@[79] == -207);
    } else if i == 208 {
        assert(ATANS_EXPS_1@[80] == -208);
    } else if i == 209 {
        assert(ATANS_EXPS_1@[81] == -209);
    } else if i == 210 {
        assert(ATANS_EXPS_1@[82] == -210);
    } else if i == 211 {
        assert(ATANS_EXPS_1@[83] == -211);
    } else if i == 212 {
        assert(ATANS_EXPS_1@[84] == -212);
    } else if i == 213 {
        assert(ATANS_EXPS_1@[85] == -213);
    } else if i == 214 {
        assert(ATANS_EXPS_1@[86] == -214);
    } else if i == 215 {
        assert(ATANS_EXPS_1@[87] == -215);
    } else if i == 216 {
        assert(ATANS_EXPS_1@[88] == -216);
    } else if i == 217 {
        assert(ATANS_EXPS_1@[89] == -217);
    } else if i == 218 {
        assert(ATANS_EXPS_1@[90] == -218);
    } else if i == 219 {
        assert(ATANS_EXPS_1@[91] == -219);
    } else if i == 220 {
        assert(ATANS_EXPS_1@[92] == -220);
    } else if i == 221 {
        assert(ATANS_EXPS_1@[93] == -221);
    } else if i == 222 {
        assert(ATANS_EXPS_1@[94] == -222);
    } else if i == 223 {
        assert(ATANS_EXPS_1@[95] == -223);
    } else if i == 224 {
        assert(ATANS_EXPS_1@[96] == -224);
    } else if i == 225 {
        assert(ATANS_EXPS_1@[97] == -225);
    } else if i == 226 {
        assert(ATANS_EXPS_1@[98] == -226);
    } else if i == 227 {
        assert(ATANS_EXPS_1@[99] == -227);
    } else if i == 228 {
        assert(ATANS_EXPS_1@[100] == -228);
    } else if i == 229 {
        assert(ATANS_EXPS_1@[101] == -229);
    } else if i == 230 {
        assert(ATANS_EXPS_1@[102] == -230);
    } else if i == 231 {
        assert(ATANS_EXPS_1@[103] == -231);
    } else if i == 232 {
        assert(ATANS_EXPS_1@[104] == -232);
    } else if i == 233 {
        assert(ATANS_EXPS_1@[105] == -233);
    } else if i == 234 {
        assert(ATANS_EXPS_1@[106] == -234);
    } else if i == 235 {
        assert(ATANS_EXPS_1@[107] == -235);
    } else if i == 236 {
        assert(ATANS_EXPS_1@[108] == -236);
    } else if i == 237 {
        assert(ATANS_EXPS_1@[109] == -237);
    } else if i == 238 {
        assert(ATANS_EXPS_1@[110] == -238);
    } else if i == 239 {
        assert(ATANS_EXPS_1@[111] == -239);
    } else if i == 240 {
        assert(ATANS_EXPS_1@[112] == -240);
    } else if i == 241 {
        assert(ATANS_EXPS_1@[113] == -241);
    } else if i == 242 {
        assert(ATANS_EXPS_1@[114] == -242);
    } else if i == 243 {
        assert(ATANS_EXPS_1@[115] == -243);
    } else if i == 244 {
        assert(ATANS_EXPS_1@[116] == -244);
    } else if i == 245 {
        assert(ATANS_EXPS_1@[117] == -245);
    } else if i == 246 {
        assert(ATANS_EXPS_1@[118] == -246);
    } else if i == 247 {
        assert(ATANS_EXPS_1@[119] == -247);
    } else if i == 248 {
        assert(ATANS_EXPS_1@[120] == -248);
    } else if i == 249 {
        assert(ATANS_EXPS_1@[121] == -249);
    } else if i == 250 {
        assert(ATANS_EXPS_1@[122] == -250);
    } else if i == 251 {
        assert(ATANS_EXPS_1@[123] == -251);
    } else if i == 252 {
        assert(ATANS_EXPS_1@[124] == -252);
    } else if i == 253 {
        assert(ATANS_EXPS_1@[125] == -253);
    } else if i == 254 {
        assert(ATANS_EXPS_1@[126] == -254);
    }
}

/// Entry `i` of the table is normalized, with an exponent in `[-255, -1]`.
proof fn lemma_atans_entry(i: int)
    requires
        0 <= i < 255,
    ensures
        0x40000000000000000000000000000000 <= atans_hi(i) < 0x80000000000000000000000000000000,
        -255 <= atans_exp(i) <= -1,
{
    if i < 64 {
        lemma_atans_signifs_0(i);
    } else if i < 128 {
        lemma_atans_signifs_1(i);
    } else if i < 192 {
        lemma_atans_signifs_2(i);
    } else {
        lemma_atans_signifs_3(i);
    }
    if i < 128 {
        lemma_atans_exps_0(i);
    } else {
        lemma_atans_exps_1(i);
    }
}

/// `atan(2⁻ⁱ)` for `i < 255`, rounded to [`Float`].
pub fn atans_entry(i: usize) -> (r: Float)
    requires
        i < 255,
    ensures
        r.wf(),
        r == atans_value(i as int),
        -255 <= r.exp <= -1,
{
    proof {
        lemma_atans_entry(i as int);
    }
    if i < 64 {
        Float::from_parts(1, ATANS_EXPS_0[i], ATANS_SIGNIFS_0[2 * i], ATANS_SIGNIFS_0[2 * i + 1])
    } else if i < 128 {
        Float::from_parts(1, ATANS_EXPS_0[i], ATANS_SIGNIFS_1[2 * (i - 64)], ATANS_SIGNIFS_1[2 * (i - 64) + 1])
    } else if i < 192 {
        Float::from_parts(1, ATANS_EXPS_1[i - 128], ATANS_SIGNIFS_2[2 * (i - 128)], ATANS_SIGNIFS_2[2 * (i - 128) + 1])
    } else {
        Float::from_parts(1, ATANS_EXPS_1[i - 128], ATANS_SIGNIFS_3[2 * (i - 192)], ATANS_SIGNIFS_3[2 * (i - 192) + 1])
    }
}

} // verus!
