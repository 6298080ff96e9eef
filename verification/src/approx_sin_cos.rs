//! Polynomial approximations of sine and cosine on `[-¼π, ¼π]` in
//! fixed-point arithmetic with 492 fractional bits.
use vstd::prelude::*;
use vstd::arithmetic::power2::pow2;
use crate::bits::{p128, p256};
use crate::fp492::{FP492, signed512, rounded_product, magnitude};
use crate::fixed_series::{wrap492, horner492, eval_horner};

verus! {

/// Coefficients of the sine series in `x²` (highest degree first), as FP492
/// patterns of four `u128` words each (most significant word first).
pub const SIN_COEFFS: [u128; 124] = [
    // 1 / 61! ≈
    0x00000000000000000000000000000000, 0x00000000000000000000000000000000,
    0x00000000003d3cadac93eed0b7e79d49, 0x738b50dba9c371c58446cb0fbc380ff1,
    // -1 / 59! ≈
    0xffffffffffffffffffffffffffffffff, 0xffffffffffffffffffffffffffffffff,
    0xfffffffc94807d00ad05affabca349e0, 0x1437fb80e9c16c20dbe0db090e7c14a2,
    // 1 / 57! ≈
    0x00000000000000000000000000000000, 0x00000000000000000000000000000000,
    0x00002db6f27910f72df9a65a714a7eb1, 0xbbac1acb587ca0c4d8501cf0616436ed,
    // -1 / 55! ≈
    0xffffffffffffffffffffffffffffffff, 0xffffffffffffffffffffffffffffffff,
    0xfdc5fee0aa7475fabf2dc84b672447e3, 0xf611e888ae0b6996d9172ac1a67326cd,
    // 1 / 53! ≈
    0x00000000000000000000000000000000, 0x00000000000000000000000000000019,
    0xd4f1058674df40f206da45356515f54b, 0x343c3e4ccf98ffed6939f55aec0fd65d,
    // -1 / 51! ≈
    0xffffffffffffffffffffffffffffffff, 0xfffffffffffffffffffffffffffee9e7,
    0x8d40847dcc88d26e3a2eed2bbf9b4261, 0xa7714d1514dcc81f2c0a992aa5803c36,
    // 1 / 49! ≈
    0x00000000000000000000000000000000, 0x0000000000000000000000000ad21786,
    0xff5842eca51fea0870918e396b78c746, 0x1d6a300230ce997f4e6e513374a83c91,
    // -1 / 47! ≈
    0xffffffffffffffffffffffffffffffff, 0xffffffffffffffffffffff9c95c7d7b6,
    0x051921d2eac9d275c6b550749a592bd1, 0xc066ebdf95ddbe5f6a75f74036538f18,
    // 1 / 45! ≈
    0x00000000000000000000000000000000, 0x0000000000000000000347970e4440c8,
    0xf1c058bd238c9957d8be87407aebee95, 0x1acbf9c0554e3e2ee7bde3b532518708,
    // -1 / 43! ≈
    0xffffffffffffffffffffffffffffffff, 0xffffffffffffffffe6a24bada81aedd2,
    0x3451a9210c8dfc8f9e61e9494736b6c4, 0xbe60546c36d70d379f52d28ed16fa053,
    // 1 / 41! ≈
    0x00000000000000000000000000000000, 0x00000000000000b2f30e1ce812063f12,
    0xe7e8d8d96e5442d0a9443d0b9c02a008, 0xf46c6c951ee0c19a05b694767e82f68d,
    // -1 / 39! ≈
    0xffffffffffffffffffffffffffffffff, 0xfffffffffffb859aed96d14c87fbeee2,
    0x5452cf153433f743a2d8eda08f2ec6a2, 0x296864b23027bd4b6658e8e589048ab1,
    // 1 / 37! ≈
    0x00000000000000000000000000000000, 0x0000000019ec8d1c94e85af4c78b15c3,
    0xd89d2f3fcb2a927344305c831b36193c, 0x49a9107539f22981814bbf34cbb51add,
    // -1 / 35! ≈
    0xffffffffffffffffffffffffffffffff, 0xffffff791d31c7493706be61c052c0fc,
    0xee262812e67e0041345ea5d66a84b250, 0xbc565e0e80000a2b41e1214c15b03937,
    // 1 / 33! ≈
    0x00000000000000000000000000000000, 0x000273024a9ba1aa36a7059bff52e844,
    0xfaa1b824924ad0e690091d4cdb2b1cb4, 0x8686c898ffd0baebc37f38532ed60a32,
    // -1 / 31! ≈
    0xffffffffffffffffffffffffffffffff, 0xf5e5968c3e0521de8f08dc82ca01e376,
    0x24e869248b6248edda6722f7ee299755, 0x140488e0c2fcf3799337a8decd15f05f,
    // 1 / 29! ≈
    0x00000000000000000000000000000024, 0xb3f31686b15af57c61ceecde2523accd,
    0xebb2093da4f30fec9552f750cce83ced, 0x4786bf7ba51380572fcc869af64cc695,
    // -1 / 27! ≈
    0xffffffffffffffffffffffffffff8b95, 0x38f48cc5737d5979c3a8af6232d7e2d8,
    0x674ab078cd097d965cd78bb60f5ebf61, 0x2098a3d06624eb7463450c7ac47a1f82,
    // 1 / 25! ≈
    0x000000000000000000000000013f3ccd, 0xd165fa8d4e44a419776f10b893fff294,
    0xc13014bdbff99dad68eee2c1da2f33a8, 0x9d6eca87e6c256d7c8a7c759391d9876,
    // -1 / 23! ≈
    0xfffffffffffffffffffffffd13c97d9d, 0x38fcc4d08f1f645013b0cf65201f735b,
    0x374f63460ef67192101c89a8a15eeccf, 0x0455517b28847641b6c4c6e222a2ac38,
    // 1 / 21! ≈
    0x0000000000000000000005c6e3bdb73d, 0x5c62fbc51bf3b9b91486121e81d5fdb4,
    0xad15c7866ce3854c2797e8b10a5feed1, 0x6f5cf291ea2e421cbf0ee5078a7799a4,
    // -1 / 19! ≈
    0xfffffffffffffffffff685b25cbf5f54, 0x6d9af09e24234c5a540a45f2fcebc394,
    0x0844a7755ab94f0f0ac63d8afa9c3065, 0x4b82089bcc1b88d68b903fa0d3c7ef66,
    // 1 / 17! ≈
    0x00000000000000000ca963b81856a535, 0x93028cbbb8d7ff53ba468d621d08b83c,
    0xf4484938cc7061e79b29c855335758ad, 0x20487fdd533731618d4aff2512e62d15,
    // -1 / 15! ≈
    0xfffffffffffffff28c060c6623f07713, 0xcd4a788b9a80b70a1509c7c126bc3f3c,
    0x733233a6c897f9eb239b25797331c80d, 0xb2f824d7955b8859e050e89beb7019fb,
    // 1 / 13! ≈
    0x0000000000000b092309d43684be51c1, 0x98e91d7b4269d9babdfa238e39942069,
    0x80d1a12f7354fd1ccabb425f8129e4c3, 0x3071c7277aea2645fda13018de0ab03a,
    // -1 / 11! ≈
    0xfffffffffff9466ea602aec71c062e06, 0xd1f208e3877f52343b925554e9bc3fb5,
    0x8041c715b835c27475e38dcd4a78990e, 0x7aaaa3f11950ad5971c6b0d8b17c9cb4,
    // 1 / 9! ≈
    0x0000000002e3bc74aad8e671f5583911, 0xca002e3bc74aad8e671f5583911ca002,
    0xe3bc74aad8e671f5583911ca002e3bc7, 0x4aad8e671f5583911ca002e3bc74aad9,
    // -1 / 7! ≈
    0xffffffff2ff2ff2ff2ff2ff2ff2ff2ff, 0x2ff2ff2ff2ff2ff2ff2ff2ff2ff2ff2f,
    0xf2ff2ff2ff2ff2ff2ff2ff2ff2ff2ff2, 0xff2ff2ff2ff2ff2ff2ff2ff2ff2ff2ff,
    // 1 / 5! ≈
    0x00000022222222222222222222222222, 0x22222222222222222222222222222222,
    0x22222222222222222222222222222222, 0x22222222222222222222222222222222,
    // -1 / 3! ≈
    0xfffffd55555555555555555555555555, 0x55555555555555555555555555555555,
    0x55555555555555555555555555555555, 0x55555555555555555555555555555555,
    // 1 / 1! ≈
    0x00001000000000000000000000000000, 0x00000000000000000000000000000000,
    0x00000000000000000000000000000000, 0x00000000000000000000000000000000,
];

/// Coefficients of the cosine series in `x²` (highest degree first), as
/// FP492 patterns of four `u128` words each (most significant word first).
pub const COS_COEFFS: [u128; 132] = [
    // 1 / 64! ≈
    0x00000000000000000000000000000000, 0x00000000000000000000000000000000,
    0x00000000000000100dcf6a320e1bb718, 0x2616aa05d9aff3e0eb5c48f404790c83,
    // -1 / 62! ≈
    0xffffffffffffffffffffffffffffffff, 0xffffffffffffffffffffffffffffffff,
    0xffffffffffff03267d376ba1cb7c43a8, 0x1b0a23db6cbee9851282fcb98d7af77c,
    // 1 / 60! ≈
    0x00000000000000000000000000000000, 0x00000000000000000000000000000000,
    0x000000000e9775621f3fe7bbd2307a80, 0x8832445773921c1084de62bfd95bcc75,
    // -1 / 58! ≈
    0xffffffffffffffffffffffffffffffff, 0xffffffffffffffffffffffffffffffff,
    0xffffff36399ccf27e04f8ec979a206a4, 0xa8e6f6b5df93eb92acd27b165698c143,
    // 1 / 56! ≈
    0x00000000000000000000000000000000, 0x00000000000000000000000000000000,
    0x000a2dbbfcf4c7093c960a2339963592, 0xc951f746b3bfcbd429d67185af503abc,
    // -1 / 54! ≈
    0xffffffffffffffffffffffffffffffff, 0xffffffffffffffffffffffffffffffff,
    0x8589c2449f0558df12d6083328cb71f9, 0xddd8f55d6473af68a3fa2f9ac2bd561b,
    // 1 / 52! ≈
    0x00000000000000000000000000000000, 0x00000000000000000000000000000559,
    0x15e624d63238721b6b30540ded8bc891, 0xd078e5e6faacfc26c8ffcbd2df47614e,
    // -1 / 50! ≈
    0xffffffffffffffffffffffffffffffff, 0xffffffffffffffffffffffffffc89921,
    0x23da650fbf41ebf597593fb72bee3974, 0x5b925b3327fbde35c61c837ef88bfeca,
    // 1 / 48! ≈
    0x00000000000000000000000000000000, 0x000000000000000000000002123680d6,
    0xdfe4cf4b9b1bcb9d8bdc38fd921e246b, 0xa153306b578b615e031d8ad9543397af,
    // -1 / 46! ≈
    0xffffffffffffffffffffffffffffffff, 0xffffffffffffffffffffedbf7fb09a6a,
    0xef9d35b91b0da39f7b49c568565f0b82, 0x52e54e0c83b5f3848ba864c9f957456a,
    // 1 / 44! ≈
    0x00000000000000000000000000000000, 0x00000000000000000093958d81ff6352,
    0x7ecf993f3fb6f471197dc6559b78f035, 0xb5dae6cefec0ee3ebc6106d9d854bc5b,
    // -1 / 42! ≈
    0xffffffffffffffffffffffffffffffff, 0xfffffffffffffffbbd42b62b3c85f24e,
    0xc9b7688d1bd96c1f9a722f4ef630b30b, 0xfa2e2e2d361f3857c2e95dfd2dbfedf0,
    // 1 / 40! ≈
    0x00000000000000000000000000000000, 0x0000000000001ca8ed42a12ae3001a07,
    0x244abad2ab7eb36b1bedc6dbfc6ba16f, 0x255d63e1f1ff01aaea3dc6fa42f97c88,
    // -1 / 38! ≈
    0xffffffffffffffffffffffffffffffff, 0xffffffffff515a9a31f9e2a8b761647a,
    0xd89d8c3af3eaab4dcf0c3375d02042b4, 0x4ee75725560dd67c978b7af7dfb120fa,
    // 1 / 36! ≈
    0x00000000000000000000000000000000, 0x00000003bf30652185952560d71a254e,
    0x4eb7d4385d272aa8dafd5ef2eed1a5b6, 0xa56f60f15fffffb7aff2a2a1712ce1f7,
    // -1 / 34! ≈
    0xffffffffffffffffffffffffffffffff, 0xffffed8efdce3f0285ec075d4b506294,
    0x8f377a95833a08ea28f0ac5090246109, 0xbfcedbfb800163ea01c78d66f717d286,
    // 1 / 32! ≈
    0x00000000000000000000000000000000, 0x0050d34b9e0fd6f10b87b91be9aff0e4,
    0x4ed8bcb6dba4edb8912cc6e8408eb345, 0x575fdbb8f9e81864336642b90997507d,
    // -1 / 30! ≈
    0xfffffffffffffffffffffffffffffffe, 0xc6cd3afb829f19f35212b3d6763a8b4e,
    0x7824bb6ce0e6d4cd727d3c05d709534d, 0x6c8c93379ca17bb8d3bd72fad5a81b84,
    // 1 / 28! ≈
    0x00000000000000000000000000000428, 0x62898d42174dcf171470d52a350a9353,
    0xb32b0bfbaf88cdccea660427364ee6e1, 0x1a43b101b33589e06a2b3f8de6b27ee0,
    // -1 / 26! ≈
    0xfffffffffffffffffffffffffff3b8bd, 0x01cad8d32e386fd7a2ca7f5b5cc4ecd2,
    0xe4e09cbda0003edbcabbbc339efe2f3e, 0x701946fac5e4d546784850f2b8e152c0,
    // 1 / 24! ≈
    0x0000000000000000000000001f2cf019, 0x72f577cca4b4067ca9d8a20673feb086,
    0xddb20687bf6065ef3f5424ee4e9c0b77, 0x5fd1c74588fa7b12986277b693e3e37e,
    // -1 / 22! ≈
    0xffffffffffffffffffffffbcc71a4920, 0x1eb5aebcdbd20331c4e2a215e2d35d31,
    0xf821eb4b5824341f72905e267f874699, 0x63aa5210a3e69fe76badde511c9d7904,
    // 1 / 20! ≈
    0x000000000000000000007950ae900808, 0x941ea72b4afe3c2eaeff7c80a68dcfd2,
    0x32c95e06eea9ef3f3f761685d9de972e, 0x229fe5f835cb6c5bac38c99e5bcf9a6e,
    // -1 / 18! ≈
    0xffffffffffffffffff4bec3ce2341344, 0x227fdbbcae9eaab43cc33108c57f83fc,
    0x9d186db5bbc0de1dccb6915099979784, 0x9aa6a390260b27ec5bb4b8efb7d6c49b,
    // 1 / 16! ≈
    0x0000000000000000d73f9f399dc0f88e, 0xc32b58774657f48f5eaf6383ed943c0c,
    0x38ccdcc5937680614dc64da868cce37f, 0x24d07db286aa477a61faf1764148fe60,
    // -1 / 14! ≈
    0xffffffffffffff36345ab9fc1b16fa29, 0x075d102e0d8ab9973b92b4514507b48a,
    0xbff106c5c0e7a4c71617321dbfeab8cd, 0x7c8a28a1c05cfd4424bda122cb9185b3,
    // 1 / 12! ≈
    0x0000000000008f76c77fc6c4bdaa26d4, 0xc3d67f425f600e7ba5b3ce38ec85a55b,
    0x8aa52f68db50da764b825ed98f209de9, 0x75c71d013de3f18de12f7143468af2f1,
    // -1 / 10! ≈
    0xffffffffffb606c1221d828e3443fa4b, 0x056661c6d278883e8f49aaa60b16bccc,
    0x82d38deeea4f5b0110c717d2332e939f, 0x45550b5c167772d7e389994fa05abbb7,
    // 1 / 8! ≈
    0x000000001a01a01a01a01a01a01a01a0, 0x1a01a01a01a01a01a01a01a01a01a01a,
    0x01a01a01a01a01a01a01a01a01a01a01, 0xa01a01a01a01a01a01a01a01a01a01a0,
    // -1 / 6! ≈
    0xfffffffa4fa4fa4fa4fa4fa4fa4fa4fa, 0x4fa4fa4fa4fa4fa4fa4fa4fa4fa4fa4f,
    0xa4fa4fa4fa4fa4fa4fa4fa4fa4fa4fa4, 0xfa4fa4fa4fa4fa4fa4fa4fa4fa4fa4fa,
    // 1 / 4! ≈
    0x000000aaaaaaaaaaaaaaaaaaaaaaaaaa, 0xaaaaaaaaaaaaaaaaaaaaaaaaaaaaaaaa,
    0xaaaaaaaaaaaaaaaaaaaaaaaaaaaaaaaa, 0xaaaaaaaaaaaaaaaaaaaaaaaaaaaaaaab,
    // -1 / 2! ≈
    0xfffff800000000000000000000000000, 0x00000000000000000000000000000000,
    0x00000000000000000000000000000000, 0x00000000000000000000000000000000,
    // 1 / 0! ≈
    0x00001000000000000000000000000000, 0x00000000000000000000000000000000,
    0x00000000000000000000000000000000, 0x00000000000000000000000000000000,
];

/// The largest magnitude (≈ 4.3401119292729091e-36) with `sin x = x`, in
/// units of 2⁻⁴⁹².
pub open spec fn sin_cut_off() -> int {
    signed512(((0x00000000000000000000000000000000nat * p128() + 0x005c4dd12448fbd973779fc5b15b8c99nat) * p256()
        + 0xf02871b5584367dcb9d6fe24cc9ce800nat * p128() + 0x00000000000000000000000000000000nat) as nat)
}

/// The largest magnitude (≈ 2.1278720683850700e-36) with `cos x = 1`, in
/// units of 2⁻⁴⁹².
pub open spec fn cos_cut_off() -> int {
    signed512(((0x00000000000000000000000000000000nat * p128() + 0x002d413cccfe779921165f626cdd52afnat) * p256()
        + 0xa7c75bd82ea24eea133b45eb2160cc00nat * p128() + 0x00000000000000000000000000000000nat) as nat)
}

/// The sine approximation of the FP492 value `x`: `x` itself for tiny
/// `|x|`, else `x` times the series in `x²`, evaluated in FP492.
pub open spec fn approx_sin_spec(x: int) -> int {
    let a = wrap492(magnitude(x) as int);
    if a <= sin_cut_off() {
        x
    } else {
        let x2 = wrap492(rounded_product(a, a, 492));
        wrap492(rounded_product(horner492(SIN_COEFFS@, x2, 30), x, 492))
    }
}

/// The cosine approximation of the FP492 value `x`: 1 for tiny `|x|`, else
/// the series in `x²`, evaluated in FP492.
pub open spec fn approx_cos_spec(x: int) -> int {
    let a = wrap492(magnitude(x) as int);
    if a <= cos_cut_off() {
        pow2(492) as int
    } else {
        let x2 = wrap492(rounded_product(a, a, 492));
        horner492(COS_COEFFS@, x2, 32)
    }
}

/// Computes the sine of `x` (`|x| <= ¼π`).
pub fn approx_sin(x: &FP492) -> (r: FP492)
    ensures
        r.value() == approx_sin_spec(x.value()),
{
    let mut x_abs = *x;
    x_abs.iabs();
    // If x is zero or very small, sine x == x.
    let cut_off = FP492::new(0x00000000000000000000000000000000u128, 0x005c4dd12448fbd973779fc5b15b8c99u128, 0xf02871b5584367dcb9d6fe24cc9ce800u128, 0x00000000000000000000000000000000u128);
    if x_abs.le(&cut_off) {
        return *x;
    }
    let mut x2 = x_abs;
    x2.imul_round(&x_abs);
    let mut sin = eval_horner(&SIN_COEFFS, 31, &x2);
    sin.imul_round(x);
    sin
}

/// Computes the cosine of `x` (`|x| <= ¼π`).
pub fn approx_cos(x: &FP492) -> (r: FP492)
    ensures
        r.value() == approx_cos_spec(x.value()),
{
    let mut x_abs = *x;
    x_abs.iabs();
    // If x is zero or very small, cosine x == 1.
    let cut_off = FP492::new(0x00000000000000000000000000000000u128, 0x002d413cccfe779921165f626cdd52afu128, 0xa7c75bd82ea24eea133b45eb2160cc00u128, 0x00000000000000000000000000000000u128);
    if x_abs.le(&cut_off) {
        return FP492::one();
    }
    let mut x2 = x_abs;
    x2.imul_round(&x_abs);
    eval_horner(&COS_COEFFS, 33, &x2)
}

/// Computes sine and cosine of `x` (`|x| <= ¼π`) together.
pub fn approx_sin_cos(x: &FP492) -> (r: (FP492, FP492))
    ensures
        r.0.value() == approx_sin_spec(x.value()),
        r.1.value() == approx_cos_spec(x.value()),
{
    let mut x_abs = *x;
    x_abs.iabs();
    // If x is zero or very small, cosine x == 1 and sine x == x.
    let cut_off = FP492::new(0x00000000000000000000000000000000u128, 0x002d413cccfe779921165f626cdd52afu128, 0xa7c75bd82ea24eea133b45eb2160cc00u128, 0x00000000000000000000000000000000u128);
    if x_abs.le(&cut_off) {
        assert(cos_cut_off() <= sin_cut_off()) by {
            crate::fp492::lemma_p512();
            crate::bits::lemma_pow2_64_128();
        }
        return (*x, FP492::one());
    }
    (approx_sin(x), approx_cos(x))
}

} // verus!
