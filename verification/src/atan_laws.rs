//! Bounds of the fixed-point arctangent, and the laws of `atan`, `asin`
//! and `acos` that follow from them.
use vstd::prelude::*;
use vstd::arithmetic::power2::{pow2, lemma_pow2_pos, lemma_pow2_adds, lemma_pow2_strictly_increases};
use vstd::arithmetic::div_mod::{lemma_fundamental_div_mod, lemma_mod_bound};
use crate::fp492::{magnitude, sign_of_value, rounded_product, fixed_round, lemma_p512,
    lemma_pattern_signed_pub};
use crate::fixed_series::{table_value, wrap492, horner492};
use crate::approx_atan::{ATAN_COEFFS, approx_atan_spec, atan_table_value, lemma_atan_denominator};
use crate::fp492_div::fixed_quotient;
use crate::bits::{p256, lemma_pow2_64_128};
use crate::big_float::{Float, signif_one};
use crate::float_div::is_reciprocal;
use crate::fp492_conv::fp492_of_float;
use crate::reduce::{REDUCTION_CONSTS, fp_frac_pi_2, fp_frac_pi_4};
use crate::atan::lemma_fixed_of_float_below_one;
use crate::asin::{is_fixed_atan, is_asin_quotient, asin_via_atan, acos_via_atan, lemma_below_one_finite,
    lemma_exact_below_one, lemma_square_below_one, lemma_one_minus_square};
use crate::asin::is_float_one;
use crate::atan::{is_f256_of_fp492, abs_bits_value, one_bits};
use crate::binary256::{f256, sign_of, bexp, abs_of, is_finite_spec, signif};
use crate::fp492_conv::fixed_of_f256;
use crate::atan::atan_small_cut_off;
use crate::float_mul::{parts, product};
use crate::float_add::is_difference;
use crate::float_div::is_quotient;
use crate::float_sqrt::is_float_sqrt;
use crate::float_conv::is_exact_float_of;
use crate::atan_table_laws::lemma_atan_table;

verus! {

/// A value within the range of FP492 is its own wrapped value.
pub(crate) proof fn lemma_wrap_id(v: int)
    requires
        -pow2(511) <= v < pow2(511),
    ensures
        wrap492(v) == v,
{
    lemma_p512();
    lemma_pattern_signed_pub(v);
}

/// A rounded product is at most one unit beyond the exact product.
pub(crate) proof fn lemma_product_bound(a: int, b: int)
    ensures
        magnitude(rounded_product(a, b, 492)) * pow2(492) <= magnitude(a) * magnitude(b) + pow2(492),
        a >= 0 && b >= 0 ==> rounded_product(a, b, 492) >= 0,
{
    let p = magnitude(a) * magnitude(b);
    let f = fixed_round(p, 492);
    let q = p / pow2(492);
    lemma_pow2_pos(492);
    lemma_fundamental_div_mod(p as int, pow2(492) as int);
    lemma_mod_bound(p as int, pow2(492) as int);
    assert(f <= q + 1);
    assert(q * pow2(492) <= p) by (nonlinear_arith)
        requires
            p == pow2(492) * q + p % pow2(492),
            p % pow2(492) >= 0,
    ;
    assert(f * pow2(492) <= p + pow2(492)) by (nonlinear_arith)
        requires
            f <= q + 1,
            q * pow2(492) <= p,
    ;
    let s = sign_of_value(a) * sign_of_value(b);
    assert(s == 1 || s == -1 || s == 0) by (nonlinear_arith)
        requires
            sign_of_value(a) == 1 || sign_of_value(a) == -1 || sign_of_value(a) == 0,
            sign_of_value(b) == 1 || sign_of_value(b) == -1 || sign_of_value(b) == 0,
            s == sign_of_value(a) * sign_of_value(b),
    ;
    assert(rounded_product(a, b, 492) == s * f);
    if s == 0 {
        assert(magnitude(rounded_product(a, b, 492)) == 0);
    } else if s == 1 {
        assert(rounded_product(a, b, 492) == f);
    } else {
        assert(rounded_product(a, b, 492) == -f);
    }
    let m = magnitude(rounded_product(a, b, 492));
    assert(m == f || m == 0);
    assert(m * pow2(492) <= p + pow2(492)) by (nonlinear_arith)
        requires
            m == f || m == 0,
            f * pow2(492) <= p + pow2(492),
            p >= 0,
            pow2(492) > 0,
    ;
}

/// The coefficients of the arctangent series lie in `[-1, 1]`, the last one
/// being 1.
proof fn lemma_atan_coeff(k: int)
    requires
        0 <= k <= 32,
    ensures
        -pow2(492) <= table_value(ATAN_COEFFS@, k) <= pow2(492),
        k == 32 ==> table_value(ATAN_COEFFS@, k) == pow2(492),
{
    crate::atan_table_laws::lemma_word_literals();
    crate::atan_table_laws::lemma_pow2_literals();
    lemma_p512();
    if k == 0 {
        assert(ATAN_COEFFS@[0] == 0x0000003f03f03f03f03f03f03f03f03f);
        assert(ATAN_COEFFS@[1] == 0x03f03f03f03f03f03f03f03f03f03f03);
        assert(ATAN_COEFFS@[2] == 0xf03f03f03f03f03f03f03f03f03f03f0);
        assert(ATAN_COEFFS@[3] == 0x3f03f03f03f03f03f03f03f03f03f03f);
        assert(table_value(ATAN_COEFFS@, 0) == 196718185570681602765215726972812449051480892190088028214140106255777271418550153538658058433047124828779247844204331190457767821267151024839454783int);
    } else if k == 1 {
        assert(ATAN_COEFFS@[4] == 0xffffffbefbefbefbefbefbefbefbefbe);
        assert(ATAN_COEFFS@[5] == 0xfbefbefbefbefbefbefbefbefbefbefb);
        assert(ATAN_COEFFS@[6] == 0xefbefbefbefbefbefbefbefbefbefbef);
        assert(ATAN_COEFFS@[7] == 0xbefbefbefbefbefbefbefbefbefbefbf);
        assert(table_value(ATAN_COEFFS@, 1) == -202963207334830225075222575448139828386448539561201933871731855660722581622313650476393234891239097045565890632909230593329442990196266930389913665int);
    } else if k == 2 {
        assert(ATAN_COEFFS@[8] == 0x0000004325c53ef368eb04325c53ef36);
        assert(ATAN_COEFFS@[9] == 0x8eb04325c53ef368eb04325c53ef368e);
        assert(ATAN_COEFFS@[10] == 0xb04325c53ef368eb04325c53ef368eb0);
        assert(ATAN_COEFFS@[11] == 0x4325c53ef368eb04325c53ef368eb043);
        assert(table_value(ATAN_COEFFS@, 2) == 209617738722857445569492168085783757186004229382880685801952572239762666265668196393652029477837100227387723112676746350487785383317456010074828867int);
    } else if k == 3 {
        assert(ATAN_COEFFS@[12] == 0xffffffba9386822b63cbeea4e1a08ad8);
        assert(ATAN_COEFFS@[13] == 0xf2fba9386822b63cbeea4e1a08ad8f2f);
        assert(ATAN_COEFFS@[14] == 0xba9386822b63cbeea4e1a08ad8f2fba9);
        assert(ATAN_COEFFS@[15] == 0x386822b63cbeea4e1a08ad8f2fba9387);
        assert(table_value(ATAN_COEFFS@, 3) == -216723424781259392876932580563267952344851830378910539557950964519076654952639999661233454205899374811366967963953924192877201836989234179907873913int);
    } else if k == 4 {
        assert(ATAN_COEFFS@[16] == 0x00000047dc11f7047dc11f7047dc11f7);
        assert(ATAN_COEFFS@[17] == 0x047dc11f7047dc11f7047dc11f7047dc);
        assert(ATAN_COEFFS@[18] == 0x11f7047dc11f7047dc11f7047dc11f70);
        assert(ATAN_COEFFS@[19] == 0x47dc11f7047dc11f7047dc11f7047dc1);
        assert(table_value(ATAN_COEFFS@, 4) == 224327755475338669819982846547944020848179964778170558489808893098693379687820350526539891195580054629309668594268096971574647515480084502009904577int);
    } else if k == 5 {
        assert(ATAN_COEFFS@[20] == 0xffffffb586fb586fb586fb586fb586fb);
        assert(ATAN_COEFFS@[21] == 0x586fb586fb586fb586fb586fb586fb58);
        assert(ATAN_COEFFS@[22] == 0x6fb586fb586fb586fb586fb586fb586f);
        assert(ATAN_COEFFS@[23] == 0xb586fb586fb586fb586fb586fb586fb6);
        assert(table_value(ATAN_COEFFS@, 5) == -232485128401714621449800404604232894333568327133740396980347398302282229858286545091141341784510238434011838361332391406904634697861178483901173834int);
    } else if k == 6 {
        assert(ATAN_COEFFS@[24] == 0x0000004d4873ecade304d4873ecade30);
        assert(ATAN_COEFFS@[25] == 0x4d4873ecade304d4873ecade304d4873);
        assert(ATAN_COEFFS@[26] == 0xecade304d4873ecade304d4873ecade3);
        assert(ATAN_COEFFS@[27] == 0x04d4873ecade304d4873ecade304d487);
        assert(table_value(ATAN_COEFFS@, 6) == 241258152114986871315830608551562437515967131931240034602247300125009861173693584528542901851850247431521719054212859007165186950610656917255935111int);
    } else if k == 7 {
        assert(ATAN_COEFFS@[28] == 0xffffffafafafafafafafafafafafafaf);
        assert(ATAN_COEFFS@[29] == 0xafafafafafafafafafafafafafafafaf);
        assert(ATAN_COEFFS@[30] == 0xafafafafafafafafafafafafafafafaf);
        assert(ATAN_COEFFS@[31] == 0xafafafafafafafafafafafafafafafb0);
        assert(table_value(ATAN_COEFFS@, 7) == -250719256119496160387039652024172729183259960634425918312139351110304365533446274117897525453883590468051982546534931909406958987889506208128716880int);
    } else if k == 8 {
        assert(ATAN_COEFFS@[32] == 0x0000005397829cbc14e5e0a72f053978);
        assert(ATAN_COEFFS@[33] == 0x29cbc14e5e0a72f05397829cbc14e5e0);
        assert(ATAN_COEFFS@[34] == 0xa72f05397829cbc14e5e0a72f0539782);
        assert(ATAN_COEFFS@[35] == 0x9cbc14e5e0a72f05397829cbc14e5e0a);
        assert(table_value(ATAN_COEFFS@, 8) == 260952695144781717953857597004751207925433836578688200692226671563786176371546122041077016288735981915727573670883296477137855273109486053358460426int);
    } else if k == 9 {
        assert(ATAN_COEFFS@[36] == 0xffffffa8d9df51b3bea3677d46cefa8d);
        assert(ATAN_COEFFS@[37] == 0x9df51b3bea3677d46cefa8d9df51b3be);
        assert(ATAN_COEFFS@[38] == 0xa3677d46cefa8d9df51b3bea3677d46c);
        assert(ATAN_COEFFS@[39] == 0xefa8d9df51b3bea3677d46cefa8d9df5);
        assert(table_value(ATAN_COEFFS@, 9) == -272057065150942642122106856451761897624388467922462166679129934183521758344803403830059016981873683273843640635601734625101168263454570566267331083int);
    } else if k == 10 {
        assert(ATAN_COEFFS@[40] == 0x0000005b05b05b05b05b05b05b05b05b);
        assert(ATAN_COEFFS@[41] == 0x05b05b05b05b05b05b05b05b05b05b05);
        assert(ATAN_COEFFS@[42] == 0xb05b05b05b05b05b05b05b05b05b05b0);
        assert(ATAN_COEFFS@[43] == 0x5b05b05b05b05b05b05b05b05b05b05b);
        assert(table_value(ATAN_COEFFS@, 10) == 284148490268762315105311605627395759741027955385682707420424597925011614271239110666950528847734735863792246886072922830661220186274773702545879131int);
    } else if k == 11 {
        assert(ATAN_COEFFS@[44] == 0xffffffa0be82fa0be82fa0be82fa0be8);
        assert(ATAN_COEFFS@[45] == 0x2fa0be82fa0be82fa0be82fa0be82fa0);
        assert(ATAN_COEFFS@[46] == 0xbe82fa0be82fa0be82fa0be82fa0be82);
        assert(ATAN_COEFFS@[47] == 0xfa0be82fa0be82fa0be82fa0be82fa0c);
        assert(table_value(ATAN_COEFFS@, 11) == -297364699118472190226488889610065329961540883543156321719048997828500526562924650697971483677861932880712816508680965753017556008892205037548013044int);
    } else if k == 12 {
        assert(ATAN_COEFFS@[48] == 0x00000063e7063e7063e7063e7063e706);
        assert(ATAN_COEFFS@[49] == 0x3e7063e7063e7063e7063e7063e7063e);
        assert(ATAN_COEFFS@[50] == 0x7063e7063e7063e7063e7063e7063e70);
        assert(ATAN_COEFFS@[51] == 0x63e7063e7063e7063e7063e7063e7064);
        assert(table_value(ATAN_COEFFS@, 12) == 311870294197422053164366396420312419227957512008676142290709924551842015663555121463726190198733246679771978289592232375115973375179629673525964900int);
    } else if k == 13 {
        assert(ATAN_COEFFS@[52] == 0xffffff96f96f96f96f96f96f96f96f96);
        assert(ATAN_COEFFS@[53] == 0xf96f96f96f96f96f96f96f96f96f96f9);
        assert(ATAN_COEFFS@[54] == 0x6f96f96f96f96f96f96f96f96f96f96f);
        assert(ATAN_COEFFS@[55] == 0x96f96f96f96f96f96f96f96f96f96f97);
        assert(table_value(ATAN_COEFFS@, 13) == -327863642617802671275359544954687415085801486983480047023566843759628785697583589231096764055078541381298746407007218650762946368778585041399091305int);
    } else if k == 14 {
        assert(ATAN_COEFFS@[56] == 0x0000006eb3e45306eb3e45306eb3e453);
        assert(ATAN_COEFFS@[57] == 0x06eb3e45306eb3e45306eb3e45306eb3);
        assert(ATAN_COEFFS@[58] == 0xe45306eb3e45306eb3e45306eb3e4530);
        assert(ATAN_COEFFS@[59] == 0x6eb3e45306eb3e45306eb3e45306eb3e);
        assert(table_value(ATAN_COEFFS@, 14) == 345586001678224437290243844681967815901250216009614103619435321800689801140696215676020913463461165239747327293872473712966348875199049097690934078int);
    } else if k == 15 {
        assert(ATAN_COEFFS@[60] == 0xffffff8af8af8af8af8af8af8af8af8a);
        assert(ATAN_COEFFS@[61] == 0xf8af8af8af8af8af8af8af8af8af8af8);
        assert(ATAN_COEFFS@[62] == 0xaf8af8af8af8af8af8af8af8af8af8af);
        assert(ATAN_COEFFS@[63] == 0x8af8af8af8af8af8af8af8af8af8af8b);
        assert(table_value(ATAN_COEFFS@, 15) == -365333773202694405135400635806651691095607371210163480969117340189300646920164570857507822804230374682018603139236615067992997382353280474701844597int);
    } else if k == 16 {
        assert(ATAN_COEFFS@[64] == 0x0000007c1f07c1f07c1f07c1f07c1f07);
        assert(ATAN_COEFFS@[65] == 0xc1f07c1f07c1f07c1f07c1f07c1f07c1);
        assert(ATAN_COEFFS@[66] == 0xf07c1f07c1f07c1f07c1f07c1f07c1f0);
        assert(ATAN_COEFFS@[67] == 0x7c1f07c1f07c1f07c1f07c1f07c1f07c);
        assert(table_value(ATAN_COEFFS@, 16) == 387475214002857702416334007673721490555947211889567328300578997170470383097144241818568902974183730723353063935553985678174391163101964139835289724int);
    } else if k == 17 {
        assert(ATAN_COEFFS@[68] == 0xffffff7bdef7bdef7bdef7bdef7bdef7);
        assert(ATAN_COEFFS@[69] == 0xbdef7bdef7bdef7bdef7bdef7bdef7bd);
        assert(ATAN_COEFFS@[70] == 0xef7bdef7bdef7bdef7bdef7bdef7bdef);
        assert(ATAN_COEFFS@[71] == 0x7bdef7bdef7bdef7bdef7bdef7bdef7c);
        assert(table_value(ATAN_COEFFS@, 17) == -412473614906267876765774911394606748011169612656636188190938932471791052974379354193960445101550423028085519673331662173540480915560155374663372932int);
    } else if k == 18 {
        assert(ATAN_COEFFS@[72] == 0x0000008d3dcb08d3dcb08d3dcb08d3dc);
        assert(ATAN_COEFFS@[73] == 0xb08d3dcb08d3dcb08d3dcb08d3dcb08d);
        assert(ATAN_COEFFS@[74] == 0x3dcb08d3dcb08d3dcb08d3dcb08d3dcb);
        assert(ATAN_COEFFS@[75] == 0x08d3dcb08d3dcb08d3dcb08d3dcb08d4);
        assert(table_value(ATAN_COEFFS@, 18) == 440920071106700144128931801835614109942974413529507649445486445056052504903646895862509441315450452202436245168044190599301893392495338503950502100int);
    } else if k == 19 {
        assert(ATAN_COEFFS@[76] == 0xffffff684bda12f684bda12f684bda12);
        assert(ATAN_COEFFS@[77] == 0xf684bda12f684bda12f684bda12f684b);
        assert(ATAN_COEFFS@[78] == 0xda12f684bda12f684bda12f684bda12f);
        assert(ATAN_COEFFS@[79] == 0x684bda12f684bda12f684bda12f684be);
        assert(table_value(ATAN_COEFFS@, 19) == -473580817114603858508852676045659599568379925642804512367374329875019357118731851111584214746224559772987078143454871384435366977124622837576465218int);
    } else if k == 20 {
        assert(ATAN_COEFFS@[80] == 0x000000a3d70a3d70a3d70a3d70a3d70a);
        assert(ATAN_COEFFS@[81] == 0x3d70a3d70a3d70a3d70a3d70a3d70a3d);
        assert(ATAN_COEFFS@[82] == 0x70a3d70a3d70a3d70a3d70a3d70a3d70);
        assert(ATAN_COEFFS@[83] == 0xa3d70a3d70a3d70a3d70a3d70a3d70a4);
        assert(table_value(ATAN_COEFFS@, 20) == 511467282483772167189560890129312367533850319694228873356764276265020905688230399200510951925922524554826044394931261095190196335294592664582582436int);
    } else if k == 21 {
        assert(ATAN_COEFFS@[84] == 0xffffff4de9bd37a6f4de9bd37a6f4de9);
        assert(ATAN_COEFFS@[85] == 0xbd37a6f4de9bd37a6f4de9bd37a6f4de);
        assert(ATAN_COEFFS@[86] == 0x9bd37a6f4de9bd37a6f4de9bd37a6f4d);
        assert(ATAN_COEFFS@[87] == 0xe9bd37a6f4de9bd37a6f4de9bd37a6f5);
        assert(table_value(ATAN_COEFFS@, 21) == -555942698351926268684305315357948225580272086624161818866048126375022723574163477391859730354263613646550048255360066407815430799233252896285415691int);
    } else if k == 22 {
        assert(ATAN_COEFFS@[88] == 0x000000c30c30c30c30c30c30c30c30c3);
        assert(ATAN_COEFFS@[89] == 0x0c30c30c30c30c30c30c30c30c30c30c);
        assert(ATAN_COEFFS@[90] == 0x30c30c30c30c30c30c30c30c30c30c30);
        assert(ATAN_COEFFS@[91] == 0xc30c30c30c30c30c30c30c30c30c30c3);
        assert(table_value(ATAN_COEFFS@, 22) == 608889622004490675225667726344419485159345618683605801615195566982167744866940951429179704673717291136697671898727691779988328970588800791169740995int);
    } else if k == 23 {
        assert(ATAN_COEFFS@[92] == 0xffffff286bca1af286bca1af286bca1a);
        assert(ATAN_COEFFS@[93] == 0xf286bca1af286bca1af286bca1af286b);
        assert(ATAN_COEFFS@[94] == 0xca1af286bca1af286bca1af286bca1af);
        assert(ATAN_COEFFS@[95] == 0x286bca1af286bca1af286bca1af286bd);
        assert(table_value(ATAN_COEFFS@, 23) == -672983266426016009459948539643832062544539894334511675469426679296080139063461051579619673586740163887929005782804290914723942546440253506029713731int);
    } else if k == 24 {
        assert(ATAN_COEFFS@[96] == 0x000000f0f0f0f0f0f0f0f0f0f0f0f0f0);
        assert(ATAN_COEFFS@[97] == 0xf0f0f0f0f0f0f0f0f0f0f0f0f0f0f0f0);
        assert(ATAN_COEFFS@[98] == 0xf0f0f0f0f0f0f0f0f0f0f0f0f0f0f0f0);
        assert(ATAN_COEFFS@[99] == 0xf0f0f0f0f0f0f0f0f0f0f0f0f0f0f0f1);
        assert(table_value(ATAN_COEFFS@, 24) == 752157768358488481161118956072518187549779881903277754936418053330913096600338822353692576361650771404155947639604795728220876963668518624386150641int);
    } else if k == 25 {
        assert(ATAN_COEFFS@[100] == 0xfffffeeeeeeeeeeeeeeeeeeeeeeeeeee);
        assert(ATAN_COEFFS@[101] == 0xeeeeeeeeeeeeeeeeeeeeeeeeeeeeeeee);
        assert(ATAN_COEFFS@[102] == 0xeeeeeeeeeeeeeeeeeeeeeeeeeeeeeeee);
        assert(ATAN_COEFFS@[103] == 0xeeeeeeeeeeeeeeeeeeeeeeeeeeeeeeef);
        assert(table_value(ATAN_COEFFS@, 25) == -852445470806286945315934816882187279223083866157048122261273793775034842813717332000851586543204207591376740658218768491983660558824321107637637393int);
    } else if k == 26 {
        assert(ATAN_COEFFS@[104] == 0x0000013b13b13b13b13b13b13b13b13b);
        assert(ATAN_COEFFS@[105] == 0x13b13b13b13b13b13b13b13b13b13b13);
        assert(ATAN_COEFFS@[106] == 0xb13b13b13b13b13b13b13b13b13b13b1);
        assert(ATAN_COEFFS@[107] == 0x3b13b13b13b13b13b13b13b13b13b13b);
        assert(table_value(ATAN_COEFFS@, 26) == 983590927853408013826078634864062245257404460950440141070700531278886357092750767693290292165235624143896239221021655952288839106335755124197273915int);
    } else if k == 27 {
        assert(ATAN_COEFFS@[108] == 0xfffffe8ba2e8ba2e8ba2e8ba2e8ba2e8);
        assert(ATAN_COEFFS@[109] == 0xba2e8ba2e8ba2e8ba2e8ba2e8ba2e8ba);
        assert(ATAN_COEFFS@[110] == 0x2e8ba2e8ba2e8ba2e8ba2e8ba2e8ba2e);
        assert(ATAN_COEFFS@[111] == 0x8ba2e8ba2e8ba2e8ba2e8ba2e8ba2e8c);
        assert(table_value(ATAN_COEFFS@, 27) == -1162425642008573107249002023021164471667841635668701984901736991511411149291432725455706708922551192170059191806661957034523173489305892419505869172int);
    } else if k == 28 {
        assert(ATAN_COEFFS@[112] == 0x000001c71c71c71c71c71c71c71c71c7);
        assert(ATAN_COEFFS@[113] == 0x1c71c71c71c71c71c71c71c71c71c71c);
        assert(ATAN_COEFFS@[114] == 0x71c71c71c71c71c71c71c71c71c71c71);
        assert(ATAN_COEFFS@[115] == 0xc71c71c71c71c71c71c71c71c71c71c7);
        assert(table_value(ATAN_COEFFS@, 28) == 1420742451343811575526558028136978798705139776928413537102122989625058071356195553334752644238673679318961234430364614153306100931373868512729395655int);
    } else if k == 29 {
        assert(ATAN_COEFFS@[116] == 0xfffffdb6db6db6db6db6db6db6db6db6);
        assert(ATAN_COEFFS@[117] == 0xdb6db6db6db6db6db6db6db6db6db6db);
        assert(ATAN_COEFFS@[118] == 0x6db6db6db6db6db6db6db6db6db6db6d);
        assert(ATAN_COEFFS@[119] == 0xb6db6db6db6db6db6db6db6db6db6db7);
        assert(table_value(ATAN_COEFFS@, 29) == -1826668866013472025677003179033258455478036856050817404845586700946503234600822854287539114021151873410093015696183075339964986911766402373509222985int);
    } else if k == 30 {
        assert(ATAN_COEFFS@[120] == 0x00000333333333333333333333333333);
        assert(ATAN_COEFFS@[121] == 0x33333333333333333333333333333333);
        assert(ATAN_COEFFS@[122] == 0x33333333333333333333333333333333);
        assert(ATAN_COEFFS@[123] == 0x33333333333333333333333333333333);
        assert(table_value(ATAN_COEFFS@, 30) == 2557336412418860835947804450646561837669251598471144366783821381325104528441151996002554759629612622774130221974656305475950981676472963322912912179int);
    } else if k == 31 {
        assert(ATAN_COEFFS@[124] == 0xfffffaaaaaaaaaaaaaaaaaaaaaaaaaaa);
        assert(ATAN_COEFFS@[125] == 0xaaaaaaaaaaaaaaaaaaaaaaaaaaaaaaaa);
        assert(ATAN_COEFFS@[126] == 0xaaaaaaaaaaaaaaaaaaaaaaaaaaaaaaaa);
        assert(ATAN_COEFFS@[127] == 0xaaaaaaaaaaaaaaaaaaaaaaaaaaaaaaab);
        assert(table_value(ATAN_COEFFS@, 31) == -4262227354031434726579674084410936396115419330785240611306368968875174214068586660004257932716021037956883703291093842459918302794121605538188186965int);
    } else if k == 32 {
        assert(ATAN_COEFFS@[128] == 0x00001000000000000000000000000000);
        assert(ATAN_COEFFS@[129] == 0x00000000000000000000000000000000);
        assert(ATAN_COEFFS@[130] == 0x00000000000000000000000000000000);
        assert(ATAN_COEFFS@[131] == 0x00000000000000000000000000000000);
        assert(table_value(ATAN_COEFFS@, 32) == 12786682062094304179739022253232809188346257992355721833919106906625522642205759980012773798148063113870651109873281527379754908382364816614564560896int);
    }
}


/// Horner's scheme for the arctangent series at `0 <= x <= 2⁻¹⁵` stays
/// within `[-2, 2]`; with all 33 coefficients it is 1 up to 2⁻¹³.
proof fn lemma_horner_bound(x: int, k: nat)
    requires
        0 <= x <= pow2(477),
        k <= 32,
    ensures
        -pow2(493) <= horner492(ATAN_COEFFS@, x, k) <= pow2(493),
        k == 32 ==> pow2(492) - pow2(479) <= horner492(ATAN_COEFFS@, x, k) <= pow2(492) + pow2(479),
    decreases k,
{
    lemma_atan_coeff(k as int);
    lemma_pow2_strictly_increases(492, 493);
    lemma_pow2_strictly_increases(493, 511);
    lemma_pow2_strictly_increases(478, 479);
    lemma_pow2_strictly_increases(479, 492);
    lemma_pow2_pos(478);
    if k > 0 {
        lemma_horner_bound(x, (k - 1) as nat);
        let h = horner492(ATAN_COEFFS@, x, (k - 1) as nat);
        let c = table_value(ATAN_COEFFS@, k as int);
        lemma_product_bound(h, x);
        let r = rounded_product(h, x, 492);
        lemma_pow2_adds(493, 477);
        lemma_pow2_adds(478, 492);
        let mh = magnitude(h);
        let mr = magnitude(r);
        assert(mh * x <= pow2(493) * pow2(477)) by (nonlinear_arith)
            requires
                0 <= mh <= pow2(493),
                0 <= x <= pow2(477),
        ;
        assert(mr <= pow2(478) + 1) by (nonlinear_arith)
            requires
                mr * pow2(492) <= mh * x + pow2(492),
                mh * x <= pow2(478) * pow2(492),
                pow2(492) > 0,
        ;
        assert(-mr <= r <= mr);
        vstd::arithmetic::power2::lemma_pow2_unfold(493);
        lemma_pow2_strictly_increases(478, 492);
        lemma_wrap_id(r);
        lemma_wrap_id(r + c);
        assert(horner492(ATAN_COEFFS@, x, k) == r + c);
    }
}


/// The fixed-point arctangent of `0 <= z < 1` (in units of 2⁻⁴⁹²) is the
/// tabulated `atan(q/256)` for `q = ⌊256⋅z⌋` plus a correction in
/// `[0, 2⁻⁷]`; and it is odd.
pub proof fn lemma_approx_atan_bounds(z: int)
    requires
        0 <= z < pow2(492),
    ensures
        atan_table_value(z / pow2(484) as int) <= approx_atan_spec(z)
            <= atan_table_value(z / pow2(484) as int) + pow2(485) + 1,
        0 <= approx_atan_spec(z) <= z + pow2(485) + 1,
        approx_atan_spec(-z) == -approx_atan_spec(z),
{
    let a = z;
    lemma_pow2_pos(484);
    lemma_pow2_adds(484, 8);
    vstd::arithmetic::power2::lemma2_to64();
    let q = a / pow2(484) as int;
    lemma_fundamental_div_mod(a, pow2(484) as int);
    lemma_mod_bound(a, pow2(484) as int);
    crate::bits::lemma_div_strictly_bounded(a, pow2(484) as int, pow2(8) as int);
    let c = q * pow2(484);
    let y0 = a % pow2(484) as int;
    assert(c <= a) by (nonlinear_arith)
        requires
            c == q * pow2(484),
            a == pow2(484) * q + y0,
            y0 >= 0,
    ;
    assert(0 <= c);
    lemma_atan_denominator(a, c);
    let t = wrap492(wrap492(rounded_product(a, c, 492)) + pow2(492));
    // y = y0 / t <= y0
    let n = (y0 * pow2(492)) as nat;
    let qq = n / t as nat;
    lemma_fundamental_div_mod(n as int, t);
    lemma_mod_bound(n as int, t);
    assert(qq <= y0) by (nonlinear_arith)
        requires
            n == t * qq + n % (t as nat),
            n % (t as nat) >= 0,
            n == y0 * pow2(492),
            t >= pow2(492),
            pow2(492) > 0,
            qq >= 0,
    ;
    let y = fixed_quotient(y0 as nat, t as nat) as int;
    assert(0 <= y <= pow2(484));
    // y² <= 2⁻¹⁶ (plus rounding)
    lemma_product_bound(y, y);
    let yy = rounded_product(y, y, 492);
    lemma_pow2_adds(484, 484);
    lemma_pow2_adds(476, 492);
    assert(yy <= pow2(476) + 1) by (nonlinear_arith)
        requires
            yy * pow2(492) <= y * y + pow2(492),
            0 <= y <= pow2(484),
            pow2(484) * pow2(484) == pow2(968),
            pow2(476) * pow2(492) == pow2(968),
            pow2(492) > 0,
            yy >= 0,
    ;
    lemma_pow2_strictly_increases(476, 477);
    lemma_pow2_strictly_increases(477, 511);
    lemma_wrap_id(yy);
    let y2 = wrap492(yy);
    lemma_horner_bound(y2, 32);
    let h = horner492(ATAN_COEFFS@, y2, 32);
    lemma_pow2_strictly_increases(479, 492);
    vstd::arithmetic::power2::lemma_pow2_unfold(493);
    assert(0 <= h <= pow2(493));
    lemma_product_bound(h, y);
    let sp = rounded_product(h, y, 492);
    lemma_pow2_adds(493, 484);
    lemma_pow2_adds(485, 492);
    assert(sp <= pow2(485) + 1) by (nonlinear_arith)
        requires
            sp * pow2(492) <= h * y + pow2(492),
            0 <= h <= pow2(493),
            0 <= y <= pow2(484),
            pow2(493) * pow2(484) == pow2(977),
            pow2(485) * pow2(492) == pow2(977),
            pow2(492) > 0,
            sp >= 0,
    ;
    lemma_pow2_strictly_increases(485, 492);
    lemma_pow2_strictly_increases(492, 511);
    lemma_pow2_strictly_increases(493, 511);
    lemma_wrap_id(sp);
    lemma_atan_table(q);
    let tab = atan_table_value(q);
    assert(tab <= c);
    lemma_pow2_strictly_increases(492, 511);
    lemma_pow2_strictly_increases(485, 492);
    lemma_wrap_id(sp + tab);
    lemma_wrap_id(-(sp + tab));
    assert(approx_atan_spec(z) == sp + tab);
    assert(magnitude(-z) == a);
    if z > 0 {
        assert(approx_atan_spec(-z) == wrap492(-(sp + tab)));
    } else {
        assert(q == 0 && y0 == 0);
        vstd::arithmetic::mul::lemma_mul_basics(pow2(492) as int);
        assert(n == 0);
        vstd::arithmetic::div_mod::lemma_small_mod(0, t as nat);
        assert(y == 0);
        assert(sign_of_value(y) == 0);
        vstd::arithmetic::mul::lemma_mul_basics(sign_of_value(h));
        vstd::arithmetic::mul::lemma_mul_basics(fixed_round(magnitude(h) * magnitude(y), 492) as int);
        assert(sp == 0);
        assert(tab == 0);
    }
}


/// ½π and ¼π in FP492, as literals.
proof fn lemma_fixed_pi_literals()
    ensures
        fp_frac_pi_2() == 20085273215031927213405047170905775120380400330299975683972685379077818766725587329766218839763510869237790726144949667609831293404388027926613700010,
        fp_frac_pi_4() == 10042636607515963606702523585452887560190200165149987841986342689538909383362793664883109419881755434618895363072474833804915646702194013963306850005,
{
    crate::atan_table_laws::lemma_word_literals();
    assert(REDUCTION_CONSTS@[0] == 0x00000c90fdaa22168c234c4c6628b80d);
    assert(REDUCTION_CONSTS@[1] == 0xc1cd129024e088a67cc74020bbea63b1);
    assert(REDUCTION_CONSTS@[2] == 0x39b22514a08798e3404ddef9519b3cd3);
    assert(REDUCTION_CONSTS@[3] == 0xa431b302b0a6df25f14374fe1356d6d5);
    assert(REDUCTION_CONSTS@[4] == 0x00001921fb54442d18469898cc51701b);
    assert(REDUCTION_CONSTS@[5] == 0x839a252049c1114cf98e804177d4c762);
    assert(REDUCTION_CONSTS@[6] == 0x73644a29410f31c6809bbdf2a33679a7);
    assert(REDUCTION_CONSTS@[7] == 0x48636605614dbe4be286e9fc26adadaa);
}

/// The magnitude of the FP492 value of a [`Float`], without its sign.
pub(crate) open spec fn fixed_magnitude(f: Float) -> int {
    if 18 - f.exp < 0 || 18 - f.exp >= 512 {
        0
    } else {
        ((f.signif@ * p256()) / pow2((18 - f.exp) as nat)) as int
    }
}

/// The FP492 value of a [`Float`] below 1 is its signum times a magnitude
/// below 1; below 2⁻¹ where the [`Float`] is at most ½.
pub(crate) proof fn lemma_fixed_magnitude(f: Float)
    requires
        f.wf(),
        f.exp <= -1,
    ensures
        fp492_of_float(f) == f.signum * fixed_magnitude(f),
        0 <= fixed_magnitude(f) < pow2(492),
        f.exp <= -2 || (f.exp == -1 && f.signif@ == pow2(254)) ==> fixed_magnitude(f) <= pow2(491),
{
    lemma_fixed_of_float_below_one(f);
    lemma_pow2_pos(492);
    lemma_pow2_64_128();
    let k = (18 - f.exp) as nat;
    if k < 512 {
        let n = f.signif@ * p256();
        lemma_pow2_pos(k);
        vstd::arithmetic::div_mod::lemma_div_pos_is_pos(n as int, pow2(k) as int);
        if f.signum == 1 {
            assert(fixed_magnitude(f) == fp492_of_float(f));
        } else if f.signum == -1 {
            assert(fixed_magnitude(f) == -fp492_of_float(f));
        } else {
            vstd::arithmetic::mul::lemma_mul_basics(p256() as int);
            assert(n == 0);
            vstd::arithmetic::div_mod::lemma_basic_div(0, pow2(k) as int);
        }
        lemma_pow2_adds(255, 256);
        lemma_pow2_adds(254, 256);
        if f.exp <= -2 {
            lemma_pow2_pos(20);
            lemma_pow2_adds(20, 491);
            if k > 20 {
                lemma_pow2_strictly_increases(20, k);
            }
            assert(n < pow2(511)) by {
                if f.signum != 0 {
                    vstd::arithmetic::mul::lemma_mul_strict_inequality(f.signif@ as int, pow2(255) as int, p256() as int);
                } else {
                    vstd::arithmetic::mul::lemma_mul_basics(p256() as int);
                    lemma_pow2_pos(511);
                }
            }
            vstd::arithmetic::div_mod::lemma_div_is_ordered_by_denominator(n as int, pow2(20) as int, pow2(k) as int);
            crate::bits::lemma_div_strictly_bounded(n as int, pow2(20) as int, pow2(491) as int);
        } else if f.exp == -1 && f.signif@ == pow2(254) {
            lemma_pow2_adds(19, 491);
            assert(n == pow2(510));
            assert(n == pow2(19) * pow2(491));
            lemma_pow2_pos(19);
            vstd::arithmetic::div_mod::lemma_div_multiples_vanish(pow2(491) as int, pow2(19) as int);
        }
    }
}

/// The fixed-point arctangent of a [`Float`] `x`: in `[0, ½π]` with the
/// sign of `x`; for `|x| >= 2` at least `½π - ½ - 2⁻⁶` (arctangents of
/// large values lie near ±½π); for `|x| <= ½` at most `½ + 2⁻⁶`.
pub proof fn lemma_fixed_atan_range(x: Float, v: int)
    requires
        x.wf(),
        is_fixed_atan(x, v),
    ensures
        x.signum == 0 ==> v == 0,
        x.signum >= 0 ==> 0 <= v <= fp_frac_pi_2(),
        x.signum < 0 ==> -fp_frac_pi_2() <= v <= 0,
        x.signum > 0 && x.exp >= 1 ==> fp_frac_pi_2() - pow2(491) - pow2(486) <= v,
        x.signum < 0 && x.exp >= 1 ==> v <= -(fp_frac_pi_2() - pow2(491) - pow2(486)),
        x.exp <= -2 ==> -(pow2(491) + pow2(486)) <= v <= pow2(491) + pow2(486),
{
    if x.signum == 0 || x.exp < 0 {
        lemma_fixed_atan_direct(x, v);
    } else if x.exp > 0 || x.signif@ > signif_one() {
        lemma_fixed_atan_reciprocal(x, v);
    } else {
        lemma_fixed_pi_bounds();
        if x.signum == 1 {
            assert(x.signum * fp_frac_pi_4() == fp_frac_pi_4()) by (nonlinear_arith) requires x.signum == 1;
            lemma_wrap_id(fp_frac_pi_4());
        } else {
            assert(x.signum * fp_frac_pi_4() == -fp_frac_pi_4()) by (nonlinear_arith) requires x.signum == -1;
            lemma_wrap_id(-fp_frac_pi_4());
        }
    }
}

/// The range of the fixed-point arctangent where it is taken directly.
#[verifier::rlimit(60)]
proof fn lemma_fixed_atan_direct(x: Float, v: int)
    requires
        x.wf(),
        is_fixed_atan(x, v),
        x.signum == 0 || x.exp < 0,
    ensures
        x.signum == 0 ==> v == 0,
        x.signum >= 0 ==> 0 <= v <= fp_frac_pi_2(),
        x.signum < 0 ==> -fp_frac_pi_2() <= v <= 0,
        x.signum > 0 && x.exp >= 1 ==> fp_frac_pi_2() - pow2(491) - pow2(486) <= v,
        x.signum < 0 && x.exp >= 1 ==> v <= -(fp_frac_pi_2() - pow2(491) - pow2(486)),
        x.exp <= -2 ==> -(pow2(491) + pow2(486)) <= v <= pow2(491) + pow2(486),
{
    lemma_fixed_pi_bounds();
    if x.signum == 0 {
        assert(fp492_of_float(x) == 0) by {
            vstd::arithmetic::mul::lemma_mul_basics(fixed_magnitude(x));
            if 18 - x.exp >= 0 && 18 - x.exp < 512 {
                vstd::arithmetic::mul::lemma_mul_basics(p256() as int);
                lemma_pow2_pos((18 - x.exp) as nat);
                vstd::arithmetic::div_mod::lemma_basic_div(0, pow2((18 - x.exp) as nat) as int);
            }
        }
        lemma_approx_atan_bounds(0);
    } else {
        lemma_fixed_magnitude(x);
        let m = fixed_magnitude(x);
        lemma_approx_atan_bounds(m);
        if x.signum == -1 {
            assert(x.signum * m == -m) by (nonlinear_arith) requires x.signum == -1;
            assert(fp492_of_float(x) == -m);
        } else {
            assert(x.signum * m == m) by (nonlinear_arith) requires x.signum == 1;
            assert(fp492_of_float(x) == m);
        }
    }
}

/// The range of the fixed-point arctangent where it goes through the
/// reciprocal.
#[verifier::rlimit(60)]
proof fn lemma_fixed_atan_reciprocal(x: Float, v: int)
    requires
        x.wf(),
        is_fixed_atan(x, v),
        !(x.signum == 0 || x.exp < 0),
        x.exp > 0 || x.signif@ > signif_one(),
    ensures
        x.signum == 0 ==> v == 0,
        x.signum >= 0 ==> 0 <= v <= fp_frac_pi_2(),
        x.signum < 0 ==> -fp_frac_pi_2() <= v <= 0,
        x.signum > 0 && x.exp >= 1 ==> fp_frac_pi_2() - pow2(491) - pow2(486) <= v,
        x.signum < 0 && x.exp >= 1 ==> v <= -(fp_frac_pi_2() - pow2(491) - pow2(486)),
        x.exp <= -2 ==> -(pow2(491) + pow2(486)) <= v <= pow2(491) + pow2(486),
{
    lemma_fixed_pi_bounds();
    let xr = choose|xr: Float| #[trigger] is_reciprocal(x, xr)
        && v == wrap492(x.signum * fp_frac_pi_2() - approx_atan_spec(fp492_of_float(xr)));
    assert(xr.exp <= -1);
    if x.exp >= 1 && xr.exp == -1 {
        // x = 2: 1/x = ½ exactly
        assert(x.exp == 1 && x.signif@ == pow2(254));
        let n = pow2(254) * pow2(254);
        lemma_pow2_pos(254);
        vstd::arithmetic::div_mod::lemma_div_multiples_vanish(pow2(254) as int, pow2(254) as int);
        vstd::arithmetic::div_mod::lemma_mod_multiples_basic(pow2(254) as int, pow2(254) as int);
        vstd::arithmetic::power2::lemma2_to64();
        assert(xr.signif@ == pow2(254));
    }
    lemma_fixed_magnitude(xr);
    let m = fixed_magnitude(xr);
    lemma_approx_atan_bounds(m);
    let a = approx_atan_spec(m);
    if x.signum == -1 {
        assert(xr.signum * m == -m) by (nonlinear_arith) requires xr.signum == -1;
        assert(fp492_of_float(xr) == -m);
        assert(x.signum * fp_frac_pi_2() == -fp_frac_pi_2()) by (nonlinear_arith) requires x.signum == -1;
        lemma_wrap_id(-fp_frac_pi_2() + a);
        assert(v == -fp_frac_pi_2() + a);
    } else {
        assert(xr.signum * m == m) by (nonlinear_arith) requires xr.signum == 1;
        assert(fp492_of_float(xr) == m);
        assert(x.signum * fp_frac_pi_2() == fp_frac_pi_2()) by (nonlinear_arith) requires x.signum == 1;
        lemma_wrap_id(fp_frac_pi_2() - a);
        assert(v == fp_frac_pi_2() - a);
    }
}

/// Bounds on ½π and ¼π in FP492.
proof fn lemma_fixed_pi_bounds()
    ensures
        pow2(492) + 2 * pow2(486) <= fp_frac_pi_2() < pow2(493),
        0 < fp_frac_pi_4() < pow2(492),
        fp_frac_pi_4() <= fp_frac_pi_2(),
        2 * fp_frac_pi_2() < pow2(511),
        pow2(485) < pow2(486),
        2 * pow2(491) == pow2(492),
        pow2(493) < pow2(511),
        pow2(492) < pow2(511),
{
    lemma_fixed_pi_literals();
    lemma_pow2_literals_low();
    crate::atan_table_laws::lemma_pow2_literals();
    vstd::arithmetic::power2::lemma2_to64();
    lemma_pow2_adds(492, 1);
    lemma_pow2_adds(492, 19);
    assert(pow2(493) == pow2(492) * 2);
    assert(pow2(511) == pow2(492) * 0x80000);
}

/// The quotient `x/√(1-x²)` for `|x| < 1` has the sign of `x`.
proof fn lemma_asin_quotient_sign(x: f256, q: Float)
    requires
        abs_bits_value(x) < one_bits(),
        is_asin_quotient(x, q),
    ensures
        q.wf(),
        sign_of(x) == 0 ==> q.signum >= 0,
        sign_of(x) == 1 ==> q.signum <= 0,
{
    lemma_below_one_finite(x);
    let (fx, sq, o, d, s) = choose|fx: Float, sq: Float, o: Float, d: Float, s: Float|
        #![trigger is_exact_float_of(x, fx), is_difference(o, sq, d), is_quotient(fx, s, q)]
        is_exact_float_of(x, fx) && sq.wf() && parts(sq) == product(fx, fx) && is_float_one(o)
            && is_difference(o, sq, d) && is_float_sqrt(d, s) && is_quotient(fx, s, q);
    lemma_exact_below_one(x, fx);
    if fx.signum != 0 {
        lemma_square_below_one(fx, sq);
        lemma_one_minus_square(o, sq, d);
        assert(s.signum == 1);
        assert(q.signum == fx.signum * s.signum);
        assert(q.signum == fx.signum) by (nonlinear_arith)
            requires q.signum == fx.signum * s.signum, s.signum == 1;
    } else {
        assert(q == fx);
    }
}

/// Arcsine keeps the sign of its argument and stays within `[-½π, ½π]`:
/// for `|x| < 1` the result is the rounding of a fixed-point value in
/// `[0, ½π]` for `x >= 0` and in `[-½π, 0]` for `x < 0`.
pub proof fn lemma_asin_range(x: f256, r: f256)
    requires
        abs_bits_value(x) < one_bits(),
        asin_via_atan(x, r),
    ensures
        exists|v: int| #[trigger] is_f256_of_fp492(r, v)
            && (sign_of(x) == 0 ==> 0 <= v <= fp_frac_pi_2())
            && (sign_of(x) == 1 ==> -fp_frac_pi_2() <= v <= 0),
{
    let (q, v) = choose|q: Float, v: int| #![trigger is_asin_quotient(x, q), is_fixed_atan(q, v)]
        is_asin_quotient(x, q) && is_fixed_atan(q, v) && is_f256_of_fp492(r, v);
    lemma_asin_quotient_sign(x, q);
    lemma_fixed_atan_range(q, v);
    assert(is_f256_of_fp492(r, v));
}

/// Arccosine lies in `[0, π]` and on the side of `½π` that the sign of its
/// argument gives: for `|x| < 1` the result is the rounding of a
/// fixed-point value in `[0, ½π]` for `x >= 0` and in `[½π, π]` for
/// `x < 0` (`π` taken as twice the FP492 `½π`).
#[verifier::rlimit(50)]
pub proof fn lemma_acos_range(x: f256, r: f256)
    requires
        abs_bits_value(x) < one_bits(),
        acos_via_atan(x, r),
    ensures
        exists|d: int| #[trigger] is_f256_of_fp492(r, d)
            && (sign_of(x) == 0 ==> 0 <= d <= fp_frac_pi_2())
            && (sign_of(x) == 1 ==> fp_frac_pi_2() <= d <= 2 * fp_frac_pi_2()),
{
    let (q, v) = choose|q: Float, v: int| #![trigger is_asin_quotient(x, q), is_fixed_atan(q, v)]
        is_asin_quotient(x, q) && is_fixed_atan(q, v) && is_f256_of_fp492(r, wrap492(fp_frac_pi_2() - v));
    lemma_asin_quotient_sign(x, q);
    lemma_fixed_atan_range(q, v);
    lemma_fixed_pi_bounds();
    lemma_wrap_id(fp_frac_pi_2() - v);
    assert(is_f256_of_fp492(r, fp_frac_pi_2() - v));
}

/// The arctangent of `x` with `|x| < 1` (above the cut-off where it is `x`
/// itself) keeps the sign of `x` and exceeds `|x|` by at most `2⁻⁷ + 2⁻⁴⁹²`:
/// it is rounded from an FP492 value between 0 and the FP492 value of `x`
/// plus that much.
pub proof fn lemma_atan_below_one_range(x: f256, r: f256)
    requires
        atan_small_cut_off() < abs_bits_value(x) < one_bits(),
        is_f256_of_fp492(r, approx_atan_spec(fixed_of_f256(x, 0, 19, 492))),
    ensures
        exists|v: int| #[trigger] is_f256_of_fp492(r, v)
            && (sign_of(x) == 0 ==> 0 <= v <= fixed_of_f256(x, 0, 19, 492) + pow2(485) + 1)
            && (sign_of(x) == 1 ==> fixed_of_f256(x, 0, 19, 492) - pow2(485) - 1 <= v <= 0),
{
    lemma_below_one_finite(x);
    crate::binary256::lemma_hi_fields(x.bits.hi);
    crate::circular_laws::lemma_abs_of_fields(x);
    let y = abs_of(x);
    assert(is_finite_spec(y));
    if bexp(x) >= 262143 {
        lemma_pow2_pos(236);
        vstd::arithmetic::mul::lemma_mul_inequality(262143, bexp(x) as int, pow2(236) as int);
        assert(false);
    }
    crate::reduce_laws::lemma_small_fixed_range(y);
    lemma_pow2_adds(491, 1);
    vstd::arithmetic::power2::lemma2_to64();
    let m = fixed_of_f256(y, 0, 19, 492);
    assert(signif(y) == signif(x));
    assert(0 <= m < pow2(492));
    lemma_approx_atan_bounds(m);
    if sign_of(x) == 1 {
        assert(fixed_of_f256(x, 0, 19, 492) == -m);
    } else {
        assert(fixed_of_f256(x, 0, 19, 492) == m);
    }
    let v = approx_atan_spec(fixed_of_f256(x, 0, 19, 492));
    assert(is_f256_of_fp492(r, v));
}

/// Small powers of two as literals.
proof fn lemma_pow2_literals_low()
    ensures
        pow2(485) == 0x20000000000000000000000000000000000000000000000000000000000000000000000000000000000000000000000000000000000000000000000000nat,
        pow2(486) == 0x40000000000000000000000000000000000000000000000000000000000000000000000000000000000000000000000000000000000000000000000000nat,
        pow2(491) == 0x800000000000000000000000000000000000000000000000000000000000000000000000000000000000000000000000000000000000000000000000000nat,
        pow2(511) == 0x80000000000000000000000000000000000000000000000000000000000000000000000000000000000000000000000000000000000000000000000000000000nat,
{
    crate::atan_table_laws::lemma_pow2_literals();
    vstd::arithmetic::power2::lemma2_to64();
    lemma_pow2_adds(484, 1);
    lemma_pow2_adds(484, 2);
    lemma_pow2_adds(484, 7);
    lemma_pow2_adds(492, 19);
    lemma_pow2_adds(484, 8);
}

} // verus!