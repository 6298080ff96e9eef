# f256 — verified parts of a 256-bit binary floating point library

A Verus library for the IEEE 754 binary256 format (`f256`, 237-bit
significand, 19-bit exponent) and the arithmetic it is built on:

- `uint256`, `uint512`: 256- and 512-bit unsigned integers.
- `binary256`: the `f256` encoding, its fields, constants and
  classification; `unops`: `abs`, `trunc`, `floor`, `ceil`, `round`,
  `fract`; `sqrt`: the correctly rounded square root.
- `big_float` and the `float_*` modules: `Float`, a 255-bit significand
  with a 32-bit exponent, with addition, multiplication, fused
  multiply-add, division, square root, exact sums and products, and the
  conversions from and to `f256`.
- `fp492`, `fp509` and their conversions: fixed-point numbers with 492 and
  509 fractional bits.
- The circular functions: `reduce` (argument reduction modulo ½π, with the
  bits of 2/π in `two_over_pi`), `approx_sin_cos`, `approx_atan`,
  `circular` (`sin`, `cos`, `sin_cos`), `atan`, `atan2`, `asin` (`asin`,
  `acos`), the older `Float`-based `float_cos`, `float_reduce` and
  `cordic`.
- Laws: `unops_laws`, `uint_laws`, `circular_laws`, and lemmas beside the
  operations they relate.

Each public function states in its contract the exact result it computes,
over spec functions of the encodings. `tests/` holds the scenarios.
