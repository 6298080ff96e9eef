//! Octuple-precision binary floating-point arithmetic (IEEE 754 binary256),
//! built on verified 256-bit unsigned integer arithmetic.
#![allow(non_camel_case_types)]

pub mod bits;
pub mod uint256;
pub mod uint512;
pub mod binary256;
pub mod unops;
pub mod sqrt;
pub mod big_float;
pub mod float_mul;
pub mod float_sqrt;
pub mod float_add;
pub mod float_conv;
pub mod float_fma;
pub mod float_div;
pub mod float_consts;
pub mod unops_laws;
pub mod uint_laws;
pub mod fp492;
pub mod fp492_conv;
pub mod fp509;
pub mod fp492_div;
pub mod fixed_series;
pub mod approx_atan;
pub mod f256_consts;
pub mod atan;
pub mod atan2;
pub mod approx_sin_cos;
pub mod float_exact;
pub mod two_over_pi;
pub mod reduce;
pub mod circular;
pub mod asin;
pub mod float_cos;
pub mod cordic_atans;
pub mod cordic;
pub mod circular_laws;
pub mod float_reduce;
pub mod atan_table_laws;
pub mod atan_laws;
pub mod reduce_laws;
pub mod atan2_laws;
pub mod series_laws;
pub mod quadrant_laws;
