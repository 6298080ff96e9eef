//! Bisections for the cut-offs below which a circular function is the
//! identity.
use lib::big_float::Float;
use lib::binary256::f256;
use lib::uint256::u256;

fn bits(hi: u128, lo: u128) -> f256 {
    f256 { bits: u256::new(hi, lo) }
}

/// 1e-36 as `f64`, converted exactly.
fn from_f64_1e_36() -> f256 {
    bits(0x3ff8754484932d2e7200000000000000, 0)
}

/// 1e-35 as `f64`, converted exactly.
fn from_f64_1e_35() -> f256 {
    bits(0x3ff8aa95a5b7f87a0f00000000000000, 0)
}

/// `(a + b) / 2` for positive finite values whose sum is exact in
/// [`Float`].
fn midpoint(a: &f256, b: &f256) -> f256 {
    f256::from_float(&Float::from_f256(a).add(&Float::from_f256(b)).mul_pow2(-1))
}

/// `a < b` for positive finite values.
fn lt(a: &f256, b: &f256) -> bool {
    a.bits.lt(&b.bits)
}

/// `f + f.ulp()` for positive normal values.
fn next_up(f: &f256) -> f256 {
    let mut b = f.bits;
    b.incr();
    f256 { bits: b }
}

/// The largest value in `[1e-36, 1e-35]` that `func` maps onto itself,
/// found by bisection; with `keep_lower`, a midpoint that rounds up to the
/// upper bound is replaced by the lower one.
fn bisect(func: fn(&f256) -> f256, keep_lower: bool) -> f256 {
    let mut lf = from_f64_1e_36();
    let mut uf = from_f64_1e_35();
    assert_eq!(lf, func(&lf));
    assert_ne!(uf, func(&uf));
    let mut f = midpoint(&lf, &uf);
    while lt(&lf, &f) && lt(&f, &uf) {
        if f == func(&f) {
            lf = f;
        } else {
            uf = f;
        }
        f = midpoint(&lf, &uf);
        if keep_lower && f == uf {
            f = lf;
        }
    }
    f
}

fn sin(f: &f256) -> f256 {
    f.sin()
}

fn atan(f: &f256) -> f256 {
    f.atan()
}

fn asin(f: &f256) -> f256 {
    f.asin()
}

#[test]
fn approx_sin_calc_small_cutoff() {
    let f = bisect(sin, false);
    assert_eq!(f, f.sin());
    let g = next_up(&f);
    assert_ne!(g, g.sin());
}

#[test]
fn atan_calc_small_cutoff() {
    let f = bisect(atan, false);
    assert_eq!(f, f.atan());
    assert_eq!(f.bits, u256::new(0x3ff89250bfe1b082f4f9b8d4ce85ca7f, 0xcf68624f8a91d242f267bb52b5b4432a));
    let g = next_up(&f);
    assert_ne!(g, g.atan());
}

fn check_asin_cutoff() {
    let f = bisect(asin, true);
    assert_eq!(f, f.asin());
    assert_eq!(f.bits, u256::new(0x3ff89713765fce269de05bbe5d2df6f0, 0xb6f406126cab80a1f5eca809c5595b15));
    let g = next_up(&f);
    assert_ne!(g, g.asin());
}

#[test]
fn asin_calc_small_cutoff() {
    check_asin_cutoff();
}

#[test]
fn asin_acos_calc_small_cutoff() {
    check_asin_cutoff();
}
