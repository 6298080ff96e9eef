//! The coefficients of the sine, cosine and arctangent series.
use vstd::prelude::*;
use vstd::arithmetic::power2::pow2;
use crate::fp492::lemma_p512;
use crate::fixed_series::table_value;
use crate::approx_sin_cos::{SIN_COEFFS, COS_COEFFS};
use crate::approx_atan::ATAN_COEFFS;
use crate::approx_sin_cos::{approx_sin_spec, approx_cos_spec, sin_cut_off, cos_cut_off};
use crate::fp492::{magnitude, rounded_product, sign_of_value, fixed_round};
use crate::fixed_series::{wrap492, horner492};
use crate::reduce::fp_frac_pi_4;
use crate::atan_laws::{lemma_wrap_id, lemma_product_bound};
use vstd::arithmetic::power2::{lemma_pow2_pos, lemma_pow2_adds, lemma2_to64};

verus! {

/// `n!`
pub open spec fn factorial(n: nat) -> nat
    decreases n,
{
    if n == 0 {
        1
    } else {
        n * factorial((n - 1) as nat)
    }
}

/// `(-1)ᵏ`
pub open spec fn alternating_sign(k: nat) -> int {
    if k % 2 == 0 {
        1
    } else {
        -1
    }
}

/// The factorials up to 64 as literals.
proof fn lemma_factorials()
    ensures
        factorial(1) == 1nat,
        factorial(2) == 2nat,
        factorial(3) == 6nat,
        factorial(4) == 24nat,
        factorial(5) == 120nat,
        factorial(6) == 720nat,
        factorial(7) == 5040nat,
        factorial(8) == 40320nat,
        factorial(9) == 362880nat,
        factorial(10) == 3628800nat,
        factorial(11) == 39916800nat,
        factorial(12) == 479001600nat,
        factorial(13) == 6227020800nat,
        factorial(14) == 87178291200nat,
        factorial(15) == 1307674368000nat,
        factorial(16) == 20922789888000nat,
        factorial(17) == 355687428096000nat,
        factorial(18) == 6402373705728000nat,
        factorial(19) == 121645100408832000nat,
        factorial(20) == 2432902008176640000nat,
        factorial(21) == 51090942171709440000nat,
        factorial(22) == 1124000727777607680000nat,
        factorial(23) == 25852016738884976640000nat,
        factorial(24) == 620448401733239439360000nat,
        factorial(25) == 15511210043330985984000000nat,
        factorial(26) == 403291461126605635584000000nat,
        factorial(27) == 10888869450418352160768000000nat,
        factorial(28) == 304888344611713860501504000000nat,
        factorial(29) == 8841761993739701954543616000000nat,
        factorial(30) == 265252859812191058636308480000000nat,
        factorial(31) == 8222838654177922817725562880000000nat,
        factorial(32) == 263130836933693530167218012160000000nat,
        factorial(33) == 8683317618811886495518194401280000000nat,
        factorial(34) == 295232799039604140847618609643520000000nat,
        factorial(35) == 10333147966386144929666651337523200000000nat,
        factorial(36) == 371993326789901217467999448150835200000000nat,
        factorial(37) == 13763753091226345046315979581580902400000000nat,
        factorial(38) == 523022617466601111760007224100074291200000000nat,
        factorial(39) == 20397882081197443358640281739902897356800000000nat,
        factorial(40) == 815915283247897734345611269596115894272000000000nat,
        factorial(41) == 33452526613163807108170062053440751665152000000000nat,
        factorial(42) == 1405006117752879898543142606244511569936384000000000nat,
        factorial(43) == 60415263063373835637355132068513997507264512000000000nat,
        factorial(44) == 2658271574788448768043625811014615890319638528000000000nat,
        factorial(45) == 119622220865480194561963161495657715064383733760000000000nat,
        factorial(46) == 5502622159812088949850305428800254892961651752960000000000nat,
        factorial(47) == 258623241511168180642964355153611979969197632389120000000000nat,
        factorial(48) == 12413915592536072670862289047373375038521486354677760000000000nat,
        factorial(49) == 608281864034267560872252163321295376887552831379210240000000000nat,
        factorial(50) == 30414093201713378043612608166064768844377641568960512000000000000nat,
        factorial(51) == 1551118753287382280224243016469303211063259720016986112000000000000nat,
        factorial(52) == 80658175170943878571660636856403766975289505440883277824000000000000nat,
        factorial(53) == 4274883284060025564298013753389399649690343788366813724672000000000000nat,
        factorial(54) == 230843697339241380472092742683027581083278564571807941132288000000000000nat,
        factorial(55) == 12696403353658275925965100847566516959580321051449436762275840000000000000nat,
        factorial(56) == 710998587804863451854045647463724949736497978881168458687447040000000000000nat,
        factorial(57) == 40526919504877216755680601905432322134980384796226602145184481280000000000000nat,
        factorial(58) == 2350561331282878571829474910515074683828862318181142924420699914240000000000000nat,
        factorial(59) == 138683118545689835737939019720389406345902876772687432540821294940160000000000000nat,
        factorial(60) == 8320987112741390144276341183223364380754172606361245952449277696409600000000000000nat,
        factorial(61) == 507580213877224798800856812176625227226004528988036003099405939480985600000000000000nat,
        factorial(62) == 31469973260387937525653122354950764088012280797258232192163168247821107200000000000000nat,
        factorial(63) == 1982608315404440064116146708361898137544773690227268628106279599612729753600000000000000nat,
        factorial(64) == 126886932185884164103433389335161480802865516174545192198801894375214704230400000000000000nat,
{
    assert(factorial(0) == 1);
    assert(factorial(1) == 1 * factorial(0));
    assert(factorial(2) == 2 * factorial(1));
    assert(factorial(3) == 3 * factorial(2));
    assert(factorial(4) == 4 * factorial(3));
    assert(factorial(5) == 5 * factorial(4));
    assert(factorial(6) == 6 * factorial(5));
    assert(factorial(7) == 7 * factorial(6));
    assert(factorial(8) == 8 * factorial(7));
    assert(factorial(9) == 9 * factorial(8));
    assert(factorial(10) == 10 * factorial(9));
    assert(factorial(11) == 11 * factorial(10));
    assert(factorial(12) == 12 * factorial(11));
    assert(factorial(13) == 13 * factorial(12));
    assert(factorial(14) == 14 * factorial(13));
    assert(factorial(15) == 15 * factorial(14));
    assert(factorial(16) == 16 * factorial(15));
    assert(factorial(17) == 17 * factorial(16));
    assert(factorial(18) == 18 * factorial(17));
    assert(factorial(19) == 19 * factorial(18));
    assert(factorial(20) == 20 * factorial(19));
    assert(factorial(21) == 21 * factorial(20));
    assert(factorial(22) == 22 * factorial(21));
    assert(factorial(23) == 23 * factorial(22));
    assert(factorial(24) == 24 * factorial(23));
    assert(factorial(25) == 25 * factorial(24));
    assert(factorial(26) == 26 * factorial(25));
    assert(factorial(27) == 27 * factorial(26));
    assert(factorial(28) == 28 * factorial(27));
    assert(factorial(29) == 29 * factorial(28));
    assert(factorial(30) == 30 * factorial(29));
    assert(factorial(31) == 31 * factorial(30));
    assert(factorial(32) == 32 * factorial(31));
    assert(factorial(33) == 33 * factorial(32));
    assert(factorial(34) == 34 * factorial(33));
    assert(factorial(35) == 35 * factorial(34));
    assert(factorial(36) == 36 * factorial(35));
    assert(factorial(37) == 37 * factorial(36));
    assert(factorial(38) == 38 * factorial(37));
    assert(factorial(39) == 39 * factorial(38));
    assert(factorial(40) == 40 * factorial(39));
    assert(factorial(41) == 41 * factorial(40));
    assert(factorial(42) == 42 * factorial(41));
    assert(factorial(43) == 43 * factorial(42));
    assert(factorial(44) == 44 * factorial(43));
    assert(factorial(45) == 45 * factorial(44));
    assert(factorial(46) == 46 * factorial(45));
    assert(factorial(47) == 47 * factorial(46));
    assert(factorial(48) == 48 * factorial(47));
    assert(factorial(49) == 49 * factorial(48));
    assert(factorial(50) == 50 * factorial(49));
    assert(factorial(51) == 51 * factorial(50));
    assert(factorial(52) == 52 * factorial(51));
    assert(factorial(53) == 53 * factorial(52));
    assert(factorial(54) == 54 * factorial(53));
    assert(factorial(55) == 55 * factorial(54));
    assert(factorial(56) == 56 * factorial(55));
    assert(factorial(57) == 57 * factorial(56));
    assert(factorial(58) == 58 * factorial(57));
    assert(factorial(59) == 59 * factorial(58));
    assert(factorial(60) == 60 * factorial(59));
    assert(factorial(61) == 61 * factorial(60));
    assert(factorial(62) == 62 * factorial(61));
    assert(factorial(63) == 63 * factorial(62));
    assert(factorial(64) == 64 * factorial(63));
}

/// The sine coefficient of degree `2k+1` in the table (highest degree
/// first) is `(-1)ᵏ/(2k+1)!` rounded to the nearest FP492 value.
pub proof fn lemma_sin_coeffs(k: nat)
    requires
        k <= 30,
    ensures
        -factorial((2 * k + 1) as nat) <= 2 * (table_value(SIN_COEFFS@, 30 - k) * factorial((2 * k + 1) as nat)
            - alternating_sign(k) * pow2(492)) <= factorial((2 * k + 1) as nat),
{
    lemma_factorials();
    crate::atan_table_laws::lemma_word_literals();
    crate::atan_table_laws::lemma_pow2_literals();
    lemma_p512();
    if k == 30 {
        assert(SIN_COEFFS@[0] == 0x00000000000000000000000000000000);
        assert(SIN_COEFFS@[1] == 0x00000000000000000000000000000000);
        assert(SIN_COEFFS@[2] == 0x00000000003d3cadac93eed0b7e79d49);
        assert(SIN_COEFFS@[3] == 0x738b50dba9c371c58446cb0fbc380ff1);
        assert(table_value(SIN_COEFFS@, 0) == 25191450952001036113809780344967779631423548443980563989818511345int);
        assert(factorial((2 * k + 1) as nat) == factorial(61));
        assert(alternating_sign(k) == 1);
        assert(table_value(SIN_COEFFS@, 0) * factorial(61) == 12786682062094304179739022253232809188346257992355721833919106906560850560232731486013481749572121837849295968338507553813128525381632000000000000000int);
    } else if k == 29 {
        assert(SIN_COEFFS@[4] == 0xffffffffffffffffffffffffffffffff);
        assert(SIN_COEFFS@[5] == 0xffffffffffffffffffffffffffffffff);
        assert(SIN_COEFFS@[6] == 0xfffffffc94807d00ad05affabca349e0);
        assert(SIN_COEFFS@[7] == 0x1437fb80e9c16c20dbe0db090e7c14a2);
        assert(table_value(SIN_COEFFS@, 1) == -92200710484323792176543796062582073451010187304968864202735751523166int);
        assert(factorial((2 * k + 1) as nat) == factorial(59));
        assert(alternating_sign(k) == -1);
        assert(table_value(SIN_COEFFS@, 1) * factorial(59) == -12786682062094304179739022253232809188346257992355721833919106906625476893475022949467361332761823301206486708914579897377151248823746560000000000000int);
    } else if k == 28 {
        assert(SIN_COEFFS@[8] == 0x00000000000000000000000000000000);
        assert(SIN_COEFFS@[9] == 0x00000000000000000000000000000000);
        assert(SIN_COEFFS@[10] == 0x00002db6f27910f72df9a65a714a7eb1);
        assert(SIN_COEFFS@[11] == 0xbbac1acb587ca0c4d8501cf0616436ed);
        assert(table_value(SIN_COEFFS@, 2) == 315510831277356016828132870126155855349356860957603453301761741712275181int);
        assert(factorial((2 * k + 1) as nat) == factorial(57));
        assert(alternating_sign(k) == 1);
        assert(table_value(SIN_COEFFS@, 2) * factorial(57) == 12786682062094304179739022253232809188346257992355721833919106906625522648367143955845078496161374534298177101769014837210973162103111680000000000000int);
    } else if k == 27 {
        assert(SIN_COEFFS@[12] == 0xffffffffffffffffffffffffffffffff);
        assert(SIN_COEFFS@[13] == 0xffffffffffffffffffffffffffffffff);
        assert(SIN_COEFFS@[14] == 0xfdc5fee0aa7475fabf2dc84b672447e3);
        assert(SIN_COEFFS@[15] == 0xf611e888ae0b6996d9172ac1a67326cd);
        assert(table_value(SIN_COEFFS@, 3) == -1007110573437320405715400121442689490275147100176670222939223479545582377267int);
        assert(factorial((2 * k + 1) as nat) == factorial(55));
        assert(alternating_sign(k) == -1);
        assert(table_value(SIN_COEFFS@, 3) * factorial(55) == -12786682062094304179739022253232809188346257992355721833919106906625522642209388329320814672068300623228416376372559127257996332399329280000000000000int);
    } else if k == 26 {
        assert(SIN_COEFFS@[16] == 0x00000000000000000000000000000000);
        assert(SIN_COEFFS@[17] == 0x00000000000000000000000000000019);
        assert(SIN_COEFFS@[18] == 0xd4f1058674df40f206da45356515f54b);
        assert(SIN_COEFFS@[19] == 0x343c3e4ccf98ffed6939f55aec0fd65d);
        assert(table_value(SIN_COEFFS@, 4) == 2991118403108841604974738360684787786117186887524710562129493734250379660482141int);
        assert(factorial((2 * k + 1) as nat) == factorial(53));
        assert(alternating_sign(k) == 1);
        assert(table_value(SIN_COEFFS@, 4) * factorial(53) == 12786682062094304179739022253232809188346257992355721833919106906625522642205758953412647710364211609551788776069972025381672907547082752000000000000int);
    } else if k == 25 {
        assert(SIN_COEFFS@[20] == 0xffffffffffffffffffffffffffffffff);
        assert(SIN_COEFFS@[21] == 0xfffffffffffffffffffffffffffee9e7);
        assert(SIN_COEFFS@[22] == 0x8d40847dcc88d26e3a2eed2bbf9b4261);
        assert(SIN_COEFFS@[23] == 0xa7714d1514dcc81f2c0a992aa5803c36);
        assert(table_value(SIN_COEFFS@, 5) == -8243522318967967463310378922047275138538967062018102309228884731594046344288781258int);
        assert(factorial((2 * k + 1) as nat) == factorial(51));
        assert(alternating_sign(k) == -1);
        assert(table_value(SIN_COEFFS@, 5) * factorial(51) == -12786682062094304179739022253232809188346257992355721833919106906625522642205759980253262386611281118000665678748697749259607558791888896000000000000int);
    } else if k == 24 {
        assert(SIN_COEFFS@[24] == 0x00000000000000000000000000000000);
        assert(SIN_COEFFS@[25] == 0x0000000000000000000000000ad21786);
        assert(SIN_COEFFS@[26] == 0xff5842eca51fea0870918e396b78c746);
        assert(SIN_COEFFS@[27] == 0x1d6a300230ce997f4e6e513374a83c91);
        assert(table_value(SIN_COEFFS@, 6) == 21020981913368317031441466251220551603274366008146160888533656065564818177936392207505int);
        assert(factorial((2 * k + 1) as nat) == factorial(49));
        assert(alternating_sign(k) == 1);
        assert(table_value(SIN_COEFFS@, 6) * factorial(49) == 12786682062094304179739022253232809188346257992355721833919106906625522642205759980012991050317745431456126074236786075389024190397100851200000000000int);
    } else if k == 23 {
        assert(SIN_COEFFS@[28] == 0xffffffffffffffffffffffffffffffff);
        assert(SIN_COEFFS@[29] == 0xffffffffffffffffffffff9c95c7d7b6);
        assert(SIN_COEFFS@[30] == 0x051921d2eac9d275c6b550749a592bd1);
        assert(SIN_COEFFS@[31] == 0xc066ebdf95ddbe5f6a75f74036538f18);
        assert(table_value(SIN_COEFFS@, 7) == -49441349460242281657950328622870737370901308851159770409831159066208452354506394472050920int);
        assert(factorial((2 * k + 1) as nat) == factorial(47));
        assert(alternating_sign(k) == -1);
        assert(table_value(SIN_COEFFS@, 7) * factorial(47) == -12786682062094304179739022253232809188346257992355721833919106906625522642205759980012773806794876050184385984178457041325850064385893990400000000000int);
    } else if k == 22 {
        assert(SIN_COEFFS@[32] == 0x00000000000000000000000000000000);
        assert(SIN_COEFFS@[33] == 0x0000000000000000000347970e4440c8);
        assert(SIN_COEFFS@[34] == 0xf1c058bd238c9957d8be87407aebee95);
        assert(SIN_COEFFS@[35] == 0x1acbf9c0554e3e2ee7bde3b532518708);
        assert(table_value(SIN_COEFFS@, 8) == 106892197533043812944488610482646534195888629736207423626054965901142673990442824848574088968int);
        assert(factorial((2 * k + 1) as nat) == factorial(45));
        assert(alternating_sign(k) == 1);
        assert(table_value(SIN_COEFFS@, 8) * factorial(45) == 12786682062094304179739022253232809188346257992355721833919106906625522642205759980012773798182076147869811975717109413638494579750265159680000000000int);
    } else if k == 21 {
        assert(SIN_COEFFS@[36] == 0xffffffffffffffffffffffffffffffff);
        assert(SIN_COEFFS@[37] == 0xffffffffffffffffe6a24bada81aedd2);
        assert(SIN_COEFFS@[38] == 0x3451a9210c8dfc8f9e61e9494736b6c4);
        assert(SIN_COEFFS@[39] == 0xbe60546c36d70d379f52d28ed16fa053);
        assert(table_value(SIN_COEFFS@, 9) == -211646551115426749630087448755640137707859486877690698779588832484262494501076793200176696156077int);
        assert(factorial((2 * k + 1) as nat) == factorial(43));
        assert(alternating_sign(k) == -1);
        assert(table_value(SIN_COEFFS@, 9) * factorial(43) == -12786682062094304179739022253232809188346257992355721833919106906625522642205759980012773798148062354765132506253278474283921199153675239424000000000int);
    } else if k == 20 {
        assert(SIN_COEFFS@[40] == 0x00000000000000000000000000000000);
        assert(SIN_COEFFS@[41] == 0x00000000000000b2f30e1ce812063f12);
        assert(SIN_COEFFS@[42] == 0xe7e8d8d96e5442d0a9443d0b9c02a008);
        assert(SIN_COEFFS@[43] == 0xf46c6c951ee0c19a05b694767e82f68d);
        assert(table_value(SIN_COEFFS@, 10) == 382233671314460709831937932452686088700394233301109401995937431466578065068944688519519113257875085int);
        assert(factorial((2 * k + 1) as nat) == factorial(41));
        assert(alternating_sign(k) == 1);
        assert(table_value(SIN_COEFFS@, 10) * factorial(41) == 12786682062094304179739022253232809188346257992355721833919106906625522642205759980012773798148063124173244609020841962195348428290963537920000000000int);
    } else if k == 19 {
        assert(SIN_COEFFS@[44] == 0xffffffffffffffffffffffffffffffff);
        assert(SIN_COEFFS@[45] == 0xfffffffffffb859aed96d14c87fbeee2);
        assert(SIN_COEFFS@[46] == 0x5452cf153433f743a2d8eda08f2ec6a2);
        assert(SIN_COEFFS@[47] == 0x296864b23027bd4b6658e8e589048ab1);
        assert(table_value(SIN_COEFFS@, 11) == -626863220955715564124378209222405185468646542613819419273337387605188026713069289172011345742915138895int);
        assert(factorial((2 * k + 1) as nat) == factorial(39));
        assert(alternating_sign(k) == -1);
        assert(table_value(SIN_COEFFS@, 11) * factorial(39) == -12786682062094304179739022253232809188346257992355721833919106906625522642205759980012773798148063113872314158016133066082006149640000372736000000000int);
    } else if k == 18 {
        assert(SIN_COEFFS@[48] == 0x00000000000000000000000000000000);
        assert(SIN_COEFFS@[49] == 0x0000000019ec8d1c94e85af4c78b15c3);
        assert(SIN_COEFFS@[50] == 0xd89d2f3fcb2a927344305c831b36193c);
        assert(SIN_COEFFS@[51] == 0x49a9107539f22981814bbf34cbb51add);
        assert(table_value(SIN_COEFFS@, 12) == 929011293456370466032328506067604484864534176153680379363086008430888655588768686552920814391000235842269int);
        assert(factorial((2 * k + 1) as nat) == factorial(37));
        assert(alternating_sign(k) == 1);
        assert(table_value(SIN_COEFFS@, 12) * factorial(37) == 12786682062094304179739022253232809188346257992355721833919106906625522642205759980012773798148063113870648743892094678331401916110629083545600000000int);
    } else if k == 17 {
        assert(SIN_COEFFS@[52] == 0xffffffffffffffffffffffffffffffff);
        assert(SIN_COEFFS@[53] == 0xffffff791d31c7493706be61c052c0fc);
        assert(SIN_COEFFS@[54] == 0xee262812e67e0041345ea5d66a84b250);
        assert(SIN_COEFFS@[55] == 0xbc565e0e80000a2b41e1214c15b03937);
        assert(table_value(SIN_COEFFS@, 13) == -1237443042883885460755061570082049173839559522636702265311630563229943689244239890488490524768812314141902537int);
        assert(factorial((2 * k + 1) as nat) == factorial(35));
        assert(alternating_sign(k) == -1);
        assert(table_value(SIN_COEFFS@, 13) * factorial(35) == -12786682062094304179739022253232809188346257992355721833919106906625522642205759980012773798148063113870651110182978980758590809773785376358400000000int);
    } else if k == 16 {
        assert(SIN_COEFFS@[56] == 0x00000000000000000000000000000000);
        assert(SIN_COEFFS@[57] == 0x000273024a9ba1aa36a7059bff52e844);
        assert(SIN_COEFFS@[58] == 0xfaa1b824924ad0e690091d4cdb2b1cb4);
        assert(SIN_COEFFS@[59] == 0x8686c898ffd0baebc37f38532ed60a32);
        assert(table_value(SIN_COEFFS@, 14) == 1472557221031823698298523268397638516869075831937675695720840370243632990200645469681303724474886653828864018994int);
        assert(factorial((2 * k + 1) as nat) == factorial(33));
        assert(alternating_sign(k) == 1);
        assert(table_value(SIN_COEFFS@, 14) * factorial(33) == 12786682062094304179739022253232809188346257992355721833919106906625522642205759980012773798148063113870651109870379546481362895935130377912320000000int);
    } else if k == 15 {
        assert(SIN_COEFFS@[60] == 0xffffffffffffffffffffffffffffffff);
        assert(SIN_COEFFS@[61] == 0xf5e5968c3e0521de8f08dc82ca01e376);
        assert(SIN_COEFFS@[62] == 0x24e869248b6248edda6722f7ee299755);
        assert(SIN_COEFFS@[63] == 0x140488e0c2fcf3799337a8decd15f05f);
        assert(table_value(SIN_COEFFS@, 15) == -1555020425409605825403240571427906273813744078526185534681207430977276437651881615983456733045480306443280404058017int);
        assert(factorial((2 * k + 1) as nat) == factorial(31));
        assert(alternating_sign(k) == -1);
        assert(table_value(SIN_COEFFS@, 15) * factorial(31) == -12786682062094304179739022253232809188346257992355721833919106906625522642205759980012773798148063113870651109873282208526287702689787501608960000000int);
    } else if k == 14 {
        assert(SIN_COEFFS@[64] == 0x00000000000000000000000000000024);
        assert(SIN_COEFFS@[65] == 0xb3f31686b15af57c61ceecde2523accd);
        assert(SIN_COEFFS@[66] == 0xebb2093da4f30fec9552f750cce83ced);
        assert(SIN_COEFFS@[67] == 0x4786bf7ba51380572fcc869af64cc695);
        assert(table_value(SIN_COEFFS@, 16) == 1446168995630933417625013731427952834646781993029352547253522910808867087016249902864614761732296684992250775773955733int);
        assert(factorial((2 * k + 1) as nat) == factorial(29));
        assert(alternating_sign(k) == 1);
        assert(table_value(SIN_COEFFS@, 16) * factorial(29) == 12786682062094304179739022253232809188346257992355721833919106906625522642205759980012773798148063113870651109873281527710614184732737001750528000000int);
    } else if k == 13 {
        assert(SIN_COEFFS@[68] == 0xffffffffffffffffffffffffffff8b95);
        assert(SIN_COEFFS@[69] == 0x38f48cc5737d5979c3a8af6232d7e2d8);
        assert(SIN_COEFFS@[70] == 0x674ab078cd097d965cd78bb60f5ebf61);
        assert(SIN_COEFFS@[71] == 0x2098a3d06624eb7463450c7ac47a1f82);
        assert(table_value(SIN_COEFFS@, 17) == -1174289224452317935111511149919497701733186978339834268369860603576800074657194921126067186526624908213707629928452055166int);
        assert(factorial((2 * k + 1) as nat) == factorial(27));
        assert(alternating_sign(k) == -1);
        assert(table_value(SIN_COEFFS@, 17) * factorial(27) == -12786682062094304179739022253232809188346257992355721833919106906625522642205759980012773798148063113870651109873281527383948101220186436927488000000int);
    } else if k == 12 {
        assert(SIN_COEFFS@[72] == 0x000000000000000000000000013f3ccd);
        assert(SIN_COEFFS@[73] == 0xd165fa8d4e44a419776f10b893fff294);
        assert(SIN_COEFFS@[74] == 0xc13014bdbff99dad68eee2c1da2f33a8);
        assert(SIN_COEFFS@[75] == 0x9d6eca87e6c256d7c8a7c759391d9876);
        assert(table_value(SIN_COEFFS@, 18) == 824351035565527190448280827243487386616697258794563656395642143710913652409350834630499164941690685566022756209773342726262int);
        assert(factorial((2 * k + 1) as nat) == factorial(25));
        assert(alternating_sign(k) == 1);
        assert(table_value(SIN_COEFFS@, 18) * factorial(25) == 12786682062094304179739022253232809188346257992355721833919106906625522642205759980012773798148063113870651109873281527379760074508487070711808000000int);
    } else if k == 11 {
        assert(SIN_COEFFS@[76] == 0xfffffffffffffffffffffffd13c97d9d);
        assert(SIN_COEFFS@[77] == 0x38fcc4d08f1f645013b0cf65201f735b);
        assert(SIN_COEFFS@[78] == 0x374f63460ef67192101c89a8a15eeccf);
        assert(SIN_COEFFS@[79] == 0x0455517b28847641b6c4c6e222a2ac38);
        assert(table_value(SIN_COEFFS@, 19) == -494610621339316314268968496346092431970018355276738193837385286226548191445610500778299498965014411339613653725864005635757000int);
        assert(factorial((2 * k + 1) as nat) == factorial(23));
        assert(alternating_sign(k) == -1);
        assert(table_value(SIN_COEFFS@, 19) * factorial(23) == -12786682062094304179739022253232809188346257992355721833919106906625522642205759980012773798148063113870651109873281527379754904105139293716480000000int);
    } else if k == 10 {
        assert(SIN_COEFFS@[80] == 0x0000000000000000000005c6e3bdb73d);
        assert(SIN_COEFFS@[81] == 0x5c62fbc51bf3b9b91486121e81d5fdb4);
        assert(SIN_COEFFS@[82] == 0xad15c7866ce3854c2797e8b10a5feed1);
        assert(SIN_COEFFS@[83] == 0x6f5cf291ea2e421cbf0ee5078a7799a4);
        assert(table_value(SIN_COEFFS@, 20) == 250272974397694055020098059151122770576829287770029526081716954830633384871478913393819546476297292137844508785287186851693042084int);
        assert(factorial((2 * k + 1) as nat) == factorial(21));
        assert(alternating_sign(k) == 1);
        assert(table_value(SIN_COEFFS@, 20) * factorial(21) == 12786682062094304179739022253232809188346257992355721833919106906625522642205759980012773798148063113870651109873281527379754908396778436140072960000int);
    } else if k == 9 {
        assert(SIN_COEFFS@[84] == 0xfffffffffffffffffff685b25cbf5f54);
        assert(SIN_COEFFS@[85] == 0x6d9af09e24234c5a540a45f2fcebc394);
        assert(SIN_COEFFS@[86] == 0x0844a7755ab94f0f0ac63d8afa9c3065);
        assert(SIN_COEFFS@[87] == 0x4b82089bcc1b88d68b903fa0d3c7ef66);
        assert(table_value(SIN_COEFFS@, 21) == -105114649247031503108441184843471563642268300863412400954321121028866021646021143625404209520044862697894693689820618477711077675162int);
        assert(factorial((2 * k + 1) as nat) == factorial(19));
        assert(alternating_sign(k) == -1);
        assert(table_value(SIN_COEFFS@, 21) * factorial(19) == -12786682062094304179739022253232809188346257992355721833919106906625522642205759980012773798148063113870651109873281527379754908382424314291830784000int);
    } else if k == 8 {
        assert(SIN_COEFFS@[88] == 0x00000000000000000ca963b81856a535);
        assert(SIN_COEFFS@[89] == 0x93028cbbb8d7ff53ba468d621d08b83c);
        assert(SIN_COEFFS@[90] == 0xf4484938cc7061e79b29c855335758ad);
        assert(SIN_COEFFS@[91] == 0x20487fdd533731618d4aff2512e62d15);
        assert(table_value(SIN_COEFFS@, 22) == 35949210042484774063086885216467274765655758895287041126377823391872179402939231119888239655855343042679985241918651519377188564905237int);
        assert(factorial((2 * k + 1) as nat) == factorial(17));
        assert(alternating_sign(k) == 1);
        assert(table_value(SIN_COEFFS@, 22) * factorial(17) == 12786682062094304179739022253232809188346257992355721833919106906625522642205759980012773798148063113870651109873281527379754908382364914491338752000int);
    } else if k == 7 {
        assert(SIN_COEFFS@[92] == 0xfffffffffffffff28c060c6623f07713);
        assert(SIN_COEFFS@[93] == 0xcd4a788b9a80b70a1509c7c126bc3f3c);
        assert(SIN_COEFFS@[94] == 0x733233a6c897f9eb239b25797331c80d);
        assert(SIN_COEFFS@[95] == 0xb2f824d7955b8859e050e89beb7019fb);
        assert(table_value(SIN_COEFFS@, 23) == -9778185131555858545159632778879098736258366419518075186374767962589232797599470864609601186392653307608955985801873213270595289654224389int);
        assert(factorial((2 * k + 1) as nat) == factorial(15));
        assert(alternating_sign(k) == -1);
        assert(table_value(SIN_COEFFS@, 23) * factorial(15) == -12786682062094304179739022253232809188346257992355721833919106906625522642205759980012773798148063113870651109873281527379754908382364816415761152000int);
    } else if k == 6 {
        assert(SIN_COEFFS@[96] == 0x0000000000000b092309d43684be51c1);
        assert(SIN_COEFFS@[97] == 0x98e91d7b4269d9babdfa238e39942069);
        assert(SIN_COEFFS@[98] == 0x80d1a12f7354fd1ccabb425f8129e4c3);
        assert(SIN_COEFFS@[99] == 0x3071c7277aea2645fda13018de0ab03a);
        assert(table_value(SIN_COEFFS@, 24) == 2053418877626730294483522883564610734614256948098795789138701272143738887495888881568016249142457194597880757018393374786825010827387121722int);
        assert(factorial((2 * k + 1) as nat) == factorial(13));
        assert(alternating_sign(k) == 1);
        assert(table_value(SIN_COEFFS@, 24) * factorial(13) == 12786682062094304179739022253232809188346257992355721833919106906625522642205759980012773798148063113870651109873281527379754908382364816615025817600int);
    } else if k == 5 {
        assert(SIN_COEFFS@[100] == 0xfffffffffff9466ea602aec71c062e06);
        assert(SIN_COEFFS@[101] == 0xd1f208e3877f52343b925554e9bc3fb5);
        assert(SIN_COEFFS@[102] == 0x8041c715b835c27475e38dcd4a78990e);
        assert(SIN_COEFFS@[103] == 0x7aaaa3f11950ad5971c6b0d8b17c9cb4);
        assert(table_value(SIN_COEFFS@, 25) == -320333344909769925939429569836079274599824083903412143105637398454423266449358665524610534866223322357269398094869366466744701689072390988620int);
        assert(factorial((2 * k + 1) as nat) == factorial(11));
        assert(alternating_sign(k) == -1);
        assert(table_value(SIN_COEFFS@, 25) * factorial(11) == -12786682062094304179739022253232809188346257992355721833919106906625522642205759980012773798148063113870651109873281527379754908382364816614546816000int);
    } else if k == 4 {
        assert(SIN_COEFFS@[104] == 0x0000000002e3bc74aad8e671f5583911);
        assert(SIN_COEFFS@[105] == 0xca002e3bc74aad8e671f5583911ca002);
        assert(SIN_COEFFS@[106] == 0xe3bc74aad8e671f5583911ca002e3bc7);
        assert(SIN_COEFFS@[107] == 0x4aad8e671f5583911ca002e3bc74aad9);
        assert(table_value(SIN_COEFFS@, 26) == 35236667940074691853337252681968720205980649229375335741620113829986559309429453207707158835284565459299633790435630311341917185797963008748249int);
        assert(factorial((2 * k + 1) as nat) == factorial(9));
        assert(alternating_sign(k) == 1);
        assert(table_value(SIN_COEFFS@, 26) * factorial(9) == 12786682062094304179739022253232809188346257992355721833919106906625522642205759980012773798148063113870651109873281527379754908382364816614564597120int);
    } else if k == 3 {
        assert(SIN_COEFFS@[108] == 0xffffffff2ff2ff2ff2ff2ff2ff2ff2ff);
        assert(SIN_COEFFS@[109] == 0x2ff2ff2ff2ff2ff2ff2ff2ff2ff2ff2f);
        assert(SIN_COEFFS@[110] == 0xf2ff2ff2ff2ff2ff2ff2ff2ff2ff2ff2);
        assert(SIN_COEFFS@[111] == 0xff2ff2ff2ff2ff2ff2ff2ff2ff2ff2ff);
        assert(table_value(SIN_COEFFS@, 27) == -2537040091685377813440282193101747854830606744515024173396648195759032270278920630954915436140488713069573632911365382416618037377453336629873921int);
        assert(factorial((2 * k + 1) as nat) == factorial(7));
        assert(alternating_sign(k) == -1);
        assert(table_value(SIN_COEFFS@, 27) * factorial(7) == -12786682062094304179739022253232809188346257992355721833919106906625522642205759980012773798148063113870651109873281527379754908382364816614564561840int);
    } else if k == 2 {
        assert(SIN_COEFFS@[112] == 0x00000022222222222222222222222222);
        assert(SIN_COEFFS@[113] == 0x22222222222222222222222222222222);
        assert(SIN_COEFFS@[114] == 0x22222222222222222222222222222222);
        assert(SIN_COEFFS@[115] == 0x22222222222222222222222222222222);
        assert(table_value(SIN_COEFFS@, 28) == 106555683850785868164491852110273409902885483269631015282659224221879355351714666500106448317900525948922092582277346061497957569853040138454704674int);
        assert(factorial((2 * k + 1) as nat) == factorial(5));
        assert(alternating_sign(k) == 1);
        assert(table_value(SIN_COEFFS@, 28) * factorial(5) == 12786682062094304179739022253232809188346257992355721833919106906625522642205759980012773798148063113870651109873281527379754908382364816614564560880int);
    } else if k == 1 {
        assert(SIN_COEFFS@[116] == 0xfffffd55555555555555555555555555);
        assert(SIN_COEFFS@[117] == 0x55555555555555555555555555555555);
        assert(SIN_COEFFS@[118] == 0x55555555555555555555555555555555);
        assert(SIN_COEFFS@[119] == 0x55555555555555555555555555555555);
        assert(table_value(SIN_COEFFS@, 29) == -2131113677015717363289837042205468198057709665392620305653184484437587107034293330002128966358010518978441851645546921229959151397060802769094093483int);
        assert(factorial((2 * k + 1) as nat) == factorial(3));
        assert(alternating_sign(k) == -1);
        assert(table_value(SIN_COEFFS@, 29) * factorial(3) == -12786682062094304179739022253232809188346257992355721833919106906625522642205759980012773798148063113870651109873281527379754908382364816614564560898int);
    } else if k == 0 {
        assert(SIN_COEFFS@[120] == 0x00001000000000000000000000000000);
        assert(SIN_COEFFS@[121] == 0x00000000000000000000000000000000);
        assert(SIN_COEFFS@[122] == 0x00000000000000000000000000000000);
        assert(SIN_COEFFS@[123] == 0x00000000000000000000000000000000);
        assert(table_value(SIN_COEFFS@, 30) == 12786682062094304179739022253232809188346257992355721833919106906625522642205759980012773798148063113870651109873281527379754908382364816614564560896int);
        assert(factorial((2 * k + 1) as nat) == factorial(1));
        assert(alternating_sign(k) == 1);
        assert(table_value(SIN_COEFFS@, 30) * factorial(1) == 12786682062094304179739022253232809188346257992355721833919106906625522642205759980012773798148063113870651109873281527379754908382364816614564560896int);
    }
}

/// The cosine coefficient of degree `2k` in the table (highest degree
/// first) is `(-1)ᵏ/(2k)!` rounded to the nearest FP492 value.
pub proof fn lemma_cos_coeffs(k: nat)
    requires
        k <= 32,
    ensures
        -factorial((2 * k) as nat) <= 2 * (table_value(COS_COEFFS@, 32 - k) * factorial((2 * k) as nat)
            - alternating_sign(k) * pow2(492)) <= factorial((2 * k) as nat),
{
    lemma_factorials();
    crate::atan_table_laws::lemma_word_literals();
    crate::atan_table_laws::lemma_pow2_literals();
    lemma_p512();
    if k == 32 {
        assert(COS_COEFFS@[0] == 0x00000000000000000000000000000000);
        assert(COS_COEFFS@[1] == 0x00000000000000000000000000000000);
        assert(COS_COEFFS@[2] == 0x00000000000000100dcf6a320e1bb718);
        assert(COS_COEFFS@[3] == 0x2616aa05d9aff3e0eb5c48f404790c83);
        assert(table_value(COS_COEFFS@, 0) == 100772253232211005959620537094245150215307973486225374383235int);
        assert(factorial((2 * k) as nat) == factorial(64));
        assert(alternating_sign(k) == 1);
        assert(table_value(COS_COEFFS@, 0) * factorial(64) == 12786682062094304179739022253232809188346257992355721833919161164347812966177599303602419369925786161603422144447058864811029345337344000000000000000int);
    } else if k == 31 {
        assert(COS_COEFFS@[4] == 0xffffffffffffffffffffffffffffffff);
        assert(COS_COEFFS@[5] == 0xffffffffffffffffffffffffffffffff);
        assert(COS_COEFFS@[6] == 0xffffffffffff03267d376ba1cb7c43a8);
        assert(COS_COEFFS@[7] == 0x1b0a23db6cbee9851282fcb98d7af77c);
        assert(table_value(COS_COEFFS@, 1) == -406313725032274776029190005563996445668121749096460709513201796int);
        assert(factorial((2 * k) as nat) == factorial(62));
        assert(alternating_sign(k) == -1);
        assert(table_value(COS_COEFFS@, 1) * factorial(62) == -12786682062094304179739022253232809188346257992355721833919106910113912057373305077619479434808498428431327671254759575508970101748531200000000000000int);
    } else if k == 30 {
        assert(COS_COEFFS@[8] == 0x00000000000000000000000000000000);
        assert(COS_COEFFS@[9] == 0x00000000000000000000000000000000);
        assert(COS_COEFFS@[10] == 0x000000000e9775621f3fe7bbd2307a80);
        assert(COS_COEFFS@[11] == 0x8832445773921c1084de62bfd95bcc75);
        assert(table_value(COS_COEFFS@, 2) == 1536678508072063202942396601043034557516836455082814403378929192053int);
        assert(factorial((2 * k) as nat) == factorial(60));
        assert(alternating_sign(k) == 1);
        assert(table_value(COS_COEFFS@, 2) * factorial(60) == 12786682062094304179739022253232809188346257992355721833919106906627418457134662607167692479037908752895329349189397521432722746952908800000000000000int);
    } else if k == 29 {
        assert(COS_COEFFS@[12] == 0xffffffffffffffffffffffffffffffff);
        assert(COS_COEFFS@[13] == 0xffffffffffffffffffffffffffffffff);
        assert(COS_COEFFS@[14] == 0xffffff36399ccf27e04f8ec979a206a4);
        assert(COS_COEFFS@[15] == 0xa8e6f6b5df93eb92acd27b165698c143);
        assert(table_value(COS_COEFFS@, 3) == -5439841918575103738416083967692342333609601050993162987961409339866813int);
        assert(factorial((2 * k) as nat) == factorial(58));
        assert(alternating_sign(k) == -1);
        assert(table_value(COS_COEFFS@, 3) * factorial(58) == -12786682062094304179739022253232809188346257992355721833919106906625521554140317324160226092785123087625479457298625339092715242122117120000000000000int);
    } else if k == 28 {
        assert(COS_COEFFS@[16] == 0x00000000000000000000000000000000);
        assert(COS_COEFFS@[17] == 0x00000000000000000000000000000000);
        assert(COS_COEFFS@[18] == 0x000a2dbbfcf4c7093c960a2339963592);
        assert(COS_COEFFS@[19] == 0xc951f746b3bfcbd429d67185af503abc);
        assert(table_value(COS_COEFFS@, 4) == 17984117382809292959203573597190883754913341074583396838200419277599685308int);
        assert(factorial((2 * k) as nat) == factorial(56));
        assert(alternating_sign(k) == 1);
        assert(table_value(COS_COEFFS@, 4) * factorial(56) == 12786682062094304179739022253232809188346257992355721833919106906625522641968156665601307429474963707124652554140533027280457033916088320000000000000int);
    } else if k == 27 {
        assert(COS_COEFFS@[20] == 0xffffffffffffffffffffffffffffffff);
        assert(COS_COEFFS@[21] == 0xffffffffffffffffffffffffffffffff);
        assert(COS_COEFFS@[22] == 0x8589c2449f0558df12d6083328cb71f9);
        assert(COS_COEFFS@[23] == 0xddd8f55d6473af68a3fa2f9ac2bd561b);
        assert(table_value(COS_COEFFS@, 5) == -55391081539052622314347006679347921965133090509716862261657291375007030749669int);
        assert(factorial((2 * k) as nat) == factorial(54));
        assert(alternating_sign(k) == -1);
        assert(table_value(COS_COEFFS@, 5) * factorial(54) == -12786682062094304179739022253232809188346257992355721833919106906625522642205694830163386809980747139345487935075226670224847405341212672000000000000int);
    } else if k == 26 {
        assert(COS_COEFFS@[24] == 0x00000000000000000000000000000000);
        assert(COS_COEFFS@[25] == 0x00000000000000000000000000000559);
        assert(COS_COEFFS@[26] == 0x15e624d63238721b6b30540ded8bc891);
        assert(COS_COEFFS@[27] == 0xd078e5e6faacfc26c8ffcbd2df47614e);
        assert(table_value(COS_COEFFS@, 6) == 158529275364768605063661133116293752664210905038809659792863167915270122005553486int);
        assert(factorial((2 * k) as nat) == factorial(52));
        assert(alternating_sign(k) == 1);
        assert(table_value(COS_COEFFS@, 6) * factorial(52) == 12786682062094304179739022253232809188346257992355721833919106906625522642205760001968924932634633041140067909318942704145243639029694464000000000000int);
    } else if k == 25 {
        assert(COS_COEFFS@[28] == 0xffffffffffffffffffffffffffffffff);
        assert(COS_COEFFS@[29] == 0xffffffffffffffffffffffffffc89921);
        assert(COS_COEFFS@[30] == 0x23da650fbf41ebf597593fb72bee3974);
        assert(COS_COEFFS@[31] == 0x5b925b3327fbde35c61c837ef88bfeca);
        assert(table_value(COS_COEFFS@, 7) == -420419638267366340628829325024411032065487320162923217770673121311296363558727844150int);
        assert(factorial((2 * k) as nat) == factorial(50));
        assert(alternating_sign(k) == -1);
        assert(table_value(COS_COEFFS@, 7) * factorial(50) == -12786682062094304179739022253232809188346257992355721833919106906625522642205759980009949640997574093651764813420179598504586426240204800000000000000int);
    } else if k == 24 {
        assert(COS_COEFFS@[32] == 0x00000000000000000000000000000000);
        assert(COS_COEFFS@[33] == 0x000000000000000000000002123680d6);
        assert(COS_COEFFS@[34] == 0xdfe4cf4b9b1bcb9d8bdc38fd921e246b);
        assert(COS_COEFFS@[35] == 0xa153306b578b615e031d8ad9543397af);
        assert(table_value(COS_COEFFS@, 8) == 1030028113755047534540631846309807028560443934399161883538149147212676090718883218167727int);
        assert(factorial((2 * k) as nat) == factorial(48));
        assert(alternating_sign(k) == 1);
        assert(table_value(COS_COEFFS@, 8) * factorial(48) == 12786682062094304179739022253232809188346257992355721833919106906625522642205759980012767599837079782148050553033933354638330803642716651520000000000int);
    } else if k == 23 {
        assert(COS_COEFFS@[36] == 0xffffffffffffffffffffffffffffffff);
        assert(COS_COEFFS@[37] == 0xffffffffffffffffffffedbf7fb09a6a);
        assert(COS_COEFFS@[38] == 0xef9d35b91b0da39f7b49c568565f0b82);
        assert(COS_COEFFS@[39] == 0x52e54e0c83b5f3848ba864c9f957456a);
        assert(table_value(COS_COEFFS@, 9) == -2323743424631387237923665445274924656432361516004509209262064476111797260661800540186393238int);
        assert(factorial((2 * k) as nat) == factorial(46));
        assert(alternating_sign(k) == -1);
        assert(table_value(COS_COEFFS@, 9) * factorial(46) == -12786682062094304179739022253232809188346257992355721833919106906625522642205759980012773795789631730560208084477846183725340278462590484480000000000int);
    } else if k == 22 {
        assert(COS_COEFFS@[40] == 0x00000000000000000000000000000000);
        assert(COS_COEFFS@[41] == 0x00000000000000000093958d81ff6352);
        assert(COS_COEFFS@[42] == 0x7ecf993f3fb6f471197dc6559b78f035);
        assert(COS_COEFFS@[43] == 0xb5dae6cefec0ee3ebc6106d9d854bc5b);
        assert(table_value(COS_COEFFS@, 10) == 4810148888986971582501987471719094038814988338129334063172473465551420329569927118185834003547int);
        assert(factorial((2 * k) as nat) == factorial(44));
        assert(alternating_sign(k) == 1);
        assert(table_value(COS_COEFFS@, 10) * factorial(44) == 12786682062094304179739022253232809188346257992355721833919106906625522642205759980012773798147518617397562141732542278095304573176109858816000000000int);
    } else if k == 21 {
        assert(COS_COEFFS@[44] == 0xffffffffffffffffffffffffffffffff);
        assert(COS_COEFFS@[45] == 0xfffffffffffffffbbd42b62b3c85f24e);
        assert(COS_COEFFS@[46] == 0xc9b7688d1bd96c1f9a722f4ef630b30b);
        assert(COS_COEFFS@[47] == 0xfa2e2e2d361f3857c2e95dfd2dbfedf0);
        assert(table_value(COS_COEFFS@, 11) == -9100801697963350234093760296492525921437957935740700047522319796823287263546302107607597934711312int);
        assert(factorial((2 * k) as nat) == factorial(42));
        assert(alternating_sign(k) == -1);
        assert(table_value(COS_COEFFS@, 11) * factorial(42) == -12786682062094304179739022253232809188346257992355721833919106906625522642205759980012773798148063759771250259133177017426527443665245175808000000000int);
    } else if k == 20 {
        assert(COS_COEFFS@[48] == 0x00000000000000000000000000000000);
        assert(COS_COEFFS@[49] == 0x0000000000001ca8ed42a12ae3001a07);
        assert(COS_COEFFS@[50] == 0x244abad2ab7eb36b1bedc6dbfc6ba16f);
        assert(COS_COEFFS@[51] == 0x255d63e1f1ff01aaea3dc6fa42f97c88);
        assert(table_value(COS_COEFFS@, 12) == 15671580523892889103109455230560129636716163565345485481833434690129700667826732229300283643572878472int);
        assert(factorial((2 * k) as nat) == factorial(40));
        assert(alternating_sign(k) == 1);
        assert(table_value(COS_COEFFS@, 12) * factorial(40) == 12786682062094304179739022253232809188346257992355721833919106906625522642205759980012773798148063113566345926798171415702401923541456912384000000000int);
    } else if k == 19 {
        assert(COS_COEFFS@[52] == 0xffffffffffffffffffffffffffffffff);
        assert(COS_COEFFS@[53] == 0xffffffffff515a9a31f9e2a8b761647a);
        assert(COS_COEFFS@[54] == 0xd89d8c3af3eaab4dcf0c3375d02042b4);
        assert(COS_COEFFS@[55] == 0x4ee75725560dd67c978b7af7dfb120fa);
        assert(table_value(COS_COEFFS@, 13) == -24447665617272907000850750159673802233277215161938957351660158116602333041809702277708442483973690416902int);
        assert(factorial((2 * k) as nat) == factorial(38));
        assert(alternating_sign(k) == -1);
        assert(table_value(COS_COEFFS@, 13) * factorial(38) == -12786682062094304179739022253232809188346257992355721833919106906625522642205759980012773798148063113870745090163733262746726127967700149862400000000int);
    } else if k == 18 {
        assert(COS_COEFFS@[56] == 0x00000000000000000000000000000000);
        assert(COS_COEFFS@[57] == 0x00000003bf30652185952560d71a254e);
        assert(COS_COEFFS@[58] == 0x4eb7d4385d272aa8dafd5ef2eed1a5b6);
        assert(COS_COEFFS@[59] == 0xa56f60f15fffffb7aff2a2a1712ce1f7);
        assert(table_value(COS_COEFFS@, 14) == 34373417857885707243196154724501365939987764517686174036434182311942880256784441402458070132467008726163959int);
        assert(factorial((2 * k) as nat) == factorial(36));
        assert(alternating_sign(k) == 1);
        assert(table_value(COS_COEFFS@, 14) * factorial(36) == 12786682062094304179739022253232809188346257992355721833919106906625522642205759980012773798148063113870650975852055417738706724107317988556800000000int);
    } else if k == 17 {
        assert(COS_COEFFS@[60] == 0xffffffffffffffffffffffffffffffff);
        assert(COS_COEFFS@[61] == 0xffffed8efdce3f0285ec075d4b506294);
        assert(COS_COEFFS@[62] == 0x8f377a95833a08ea28f0ac5090246109);
        assert(COS_COEFFS@[63] == 0xbfcedbfb800163ea01c78d66f717d286);
        assert(table_value(COS_COEFFS@, 15) == -43310506500935991126427154952871721084384583292284579285907069713048029123548396167097168366908430994966588794int);
        assert(factorial((2 * k) as nat) == factorial(34));
        assert(alternating_sign(k) == -1);
        assert(table_value(COS_COEFFS@, 15) * factorial(34) == -12786682062094304179739022253232809188346257992355721833919106906625522642205759980012773798148063113870651109887746181718986668926166766714880000000int);
    } else if k == 16 {
        assert(COS_COEFFS@[64] == 0x00000000000000000000000000000000);
        assert(COS_COEFFS@[65] == 0x0050d34b9e0fd6f10b87b91be9aff0e4);
        assert(COS_COEFFS@[66] == 0x4ed8bcb6dba4edb8912cc6e8408eb345);
        assert(COS_COEFFS@[67] == 0x575fdbb8f9e81864336642b90997507d);
        assert(table_value(COS_COEFFS@, 16) == 48594388294050182043851267857122071056679502453943297958787732218039888676621300499483022907671259576352512626813int);
        assert(factorial((2 * k) as nat) == factorial(32));
        assert(alternating_sign(k) == 1);
        assert(table_value(COS_COEFFS@, 16) * factorial(32) == 12786682062094304179739022253232809188346257992355721833919106906625522642205759980012773798148063113870651109873273985687633524766969776046080000000int);
    } else if k == 15 {
        assert(COS_COEFFS@[68] == 0xfffffffffffffffffffffffffffffffe);
        assert(COS_COEFFS@[69] == 0xc6cd3afb829f19f35212b3d6763a8b4e);
        assert(COS_COEFFS@[70] == 0x7824bb6ce0e6d4cd727d3c05d709534d);
        assert(COS_COEFFS@[71] == 0x6c8c93379ca17bb8d3bd72fad5a81b84);
        assert(table_value(COS_COEFFS@, 17) == -48205633187697780587500457714265094488226066434311751575117430360295569567208330095487158724409889499741692525798524int);
        assert(factorial((2 * k) as nat) == factorial(30));
        assert(alternating_sign(k) == -1);
        assert(table_value(COS_COEFFS@, 17) * factorial(30) == -12786682062094304179739022253232809188346257992355721833919106906625522642205759980012773798148063113870651109873281412767708266116611592683520000000int);
    } else if k == 14 {
        assert(COS_COEFFS@[72] == 0x00000000000000000000000000000428);
        assert(COS_COEFFS@[73] == 0x62898d42174dcf171470d52a350a9353);
        assert(COS_COEFFS@[74] == 0xb32b0bfbaf88cdccea660427364ee6e1);
        assert(COS_COEFFS@[75] == 0x1a43b101b33589e06a2b3f8de6b27ee0);
        assert(table_value(COS_COEFFS@, 18) == 41938900873297069111125398211410632204756677797851223870352164413457145523471247183073828090236603864775272497444716256int);
        assert(factorial((2 * k) as nat) == factorial(28));
        assert(alternating_sign(k) == 1);
        assert(table_value(COS_COEFFS@, 18) * factorial(28) == 12786682062094304179739022253232809188346257992355721833919106906625522642205759980012773798148063113870651109873281527405725840121023141249024000000int);
    } else if k == 13 {
        assert(COS_COEFFS@[76] == 0xfffffffffffffffffffffffffff3b8bd);
        assert(COS_COEFFS@[77] == 0x01cad8d32e386fd7a2ca7f5b5cc4ecd2);
        assert(COS_COEFFS@[78] == 0xe4e09cbda0003edbcabbbc339efe2f3e);
        assert(COS_COEFFS@[79] == 0x701946fac5e4d546784850f2b8e152c0);
        assert(table_value(COS_COEFFS@, 19) == -31705809060212584248010801047826437946796048415175525245986236296573602015744262870403814036218872521770106008068205489472int);
        assert(factorial((2 * k) as nat) == factorial(26));
        assert(alternating_sign(k) == -1);
        assert(table_value(COS_COEFFS@, 19) * factorial(26) == -12786682062094304179739022253232809188346257992355721833919106906625522642205759980012773798148063113870651109873281527379915186608920380571648000000int);
    } else if k == 12 {
        assert(COS_COEFFS@[80] == 0x0000000000000000000000001f2cf019);
        assert(COS_COEFFS@[81] == 0x72f577cca4b4067ca9d8a20673feb086);
        assert(COS_COEFFS@[82] == 0xddb20687bf6065ef3f5424ee4e9c0b77);
        assert(COS_COEFFS@[83] == 0x5fd1c74588fa7b12986277b693e3e37e);
        assert(table_value(COS_COEFFS@, 20) == 20608775889138179761207020681087184665417431469864091409891053592772841310233770865762479123542267139150568905244333568156542int);
        assert(factorial((2 * k) as nat) == factorial(24));
        assert(alternating_sign(k) == 1);
        assert(table_value(COS_COEFFS@, 20) * factorial(24) == 12786682062094304179739022253232809188346257992355721833919106906625522642205759980012773798148063113870651109873281527379755110921273204796293120000int);
    } else if k == 11 {
        assert(COS_COEFFS@[84] == 0xffffffffffffffffffffffbcc71a4920);
        assert(COS_COEFFS@[85] == 0x1eb5aebcdbd20331c4e2a215e2d35d31);
        assert(COS_COEFFS@[86] == 0xf821eb4b5824341f72905e267f874699);
        assert(COS_COEFFS@[87] == 0x63aa5210a3e69fe76badde511c9d7904);
        assert(table_value(COS_COEFFS@, 21) == -11376044290804275228186275415960125935310422171364978458259861583210608403249041517900888476195331460811114035694872129622411004int);
        assert(factorial((2 * k) as nat) == factorial(22));
        assert(alternating_sign(k) == -1);
        assert(table_value(COS_COEFFS@, 21) * factorial(22) == -12786682062094304179739022253232809188346257992355721833919106906625522642205759980012773798148063113870651109873281527379754908601142204826910720000int);
    } else if k == 10 {
        assert(COS_COEFFS@[88] == 0x000000000000000000007950ae900808);
        assert(COS_COEFFS@[89] == 0x941ea72b4afe3c2eaeff7c80a68dcfd2);
        assert(COS_COEFFS@[90] == 0x32c95e06eea9ef3f3f761685d9de972e);
        assert(COS_COEFFS@[91] == 0x229fe5f835cb6c5bac38c99e5bcf9a6e);
        assert(table_value(COS_COEFFS@, 22) == 5255732462351575155422059242173578182113415043170620047716056051443301082301057181270210476002243134894734684491030923885553883758int);
        assert(factorial((2 * k) as nat) == factorial(20));
        assert(alternating_sign(k) == 1);
        assert(table_value(COS_COEFFS@, 22) * factorial(20) == 12786682062094304179739022253232809188346257992355721833919106906625522642205759980012773798148063113870651109873281527379754908382181024091013120000int);
    } else if k == 9 {
        assert(COS_COEFFS@[92] == 0xffffffffffffffffff4bec3ce2341344);
        assert(COS_COEFFS@[93] == 0x227fdbbcae9eaab43cc33108c57f83fc);
        assert(COS_COEFFS@[94] == 0x9d186db5bbc0de1dccb6915099979784);
        assert(COS_COEFFS@[95] == 0x9aa6a390260b27ec5bb4b8efb7d6c49b);
        assert(table_value(COS_COEFFS@, 23) == -1997178335693598559060382512025959709203097716404835618132101299548454411274401728882679980880852391259999180106591751076510475828069int);
        assert(factorial((2 * k) as nat) == factorial(18));
        assert(alternating_sign(k) == -1);
        assert(table_value(COS_COEFFS@, 23) * factorial(18) == -12786682062094304179739022253232809188346257992355721833919106906625522642205759980012773798148063113870651109873281527379754908382366692928479232000int);
    } else if k == 8 {
        assert(COS_COEFFS@[96] == 0x0000000000000000d73f9f399dc0f88e);
        assert(COS_COEFFS@[97] == 0xc32b58774657f48f5eaf6383ed943c0c);
        assert(COS_COEFFS@[98] == 0x38ccdcc5937680614dc64da868cce37f);
        assert(COS_COEFFS@[99] == 0x24d07db286aa477a61faf1764148fe60);
        assert(table_value(COS_COEFFS@, 24) == 611136570722241159072477048679943671016147901219879699148422997661827049849966929038100074149540831725559749112617075829412205603389024int);
        assert(factorial((2 * k) as nat) == factorial(16));
        assert(alternating_sign(k) == 1);
        assert(table_value(COS_COEFFS@, 24) * factorial(16) == 12786682062094304179739022253232809188346257992355721833919106906625522642205759980012773798148063113870651109873281527379754908382364809877389312000int);
    } else if k == 7 {
        assert(COS_COEFFS@[100] == 0xffffffffffffff36345ab9fc1b16fa29);
        assert(COS_COEFFS@[101] == 0x075d102e0d8ab9973b92b4514507b48a);
        assert(COS_COEFFS@[102] == 0xbff106c5c0e7a4c71617321dbfeab8cd);
        assert(COS_COEFFS@[103] == 0x7c8a28a1c05cfd4424bda122cb9185b3);
        assert(table_value(COS_COEFFS@, 25) == -146672776973337878177394491683186481043875496292771127795621519438838491963992062969144017795889799614134339787028098199058929344813365837int);
        assert(factorial((2 * k) as nat) == factorial(14));
        assert(alternating_sign(k) == -1);
        assert(table_value(COS_COEFFS@, 25) * factorial(14) == -12786682062094304179739022253232809188346257992355721833919106906625522642205759980012773798148063113870651109873281527379754908382364816590117734400int);
    } else if k == 6 {
        assert(COS_COEFFS@[104] == 0x0000000000008f76c77fc6c4bdaa26d4);
        assert(COS_COEFFS@[105] == 0xc3d67f425f600e7ba5b3ce38ec85a55b);
        assert(COS_COEFFS@[106] == 0x8aa52f68db50da764b825ed98f209de9);
        assert(COS_COEFFS@[107] == 0x75c71d013de3f18de12f7143468af2f1);
        assert(table_value(COS_COEFFS@, 26) == 26694445409147493828285797486339939549985340325284345258803116537868605537446555460384211238851943529772449841239113872228725140756032582385int);
        assert(factorial((2 * k) as nat) == factorial(12));
        assert(alternating_sign(k) == 1);
        assert(table_value(COS_COEFFS@, 26) * factorial(12) == 12786682062094304179739022253232809188346257992355721833919106906625522642205759980012773798148063113870651109873281527379754908382364816614546816000int);
    } else if k == 5 {
        assert(COS_COEFFS@[108] == 0xffffffffffb606c1221d828e3443fa4b);
        assert(COS_COEFFS@[109] == 0x056661c6d278883e8f49aaa60b16bccc);
        assert(COS_COEFFS@[110] == 0x82d38deeea4f5b0110c717d2332e939f);
        assert(COS_COEFFS@[111] == 0x45550b5c167772d7e389994fa05abbb7);
        assert(table_value(COS_COEFFS@, 27) == -3523666794007469185333725268196872020598064922937533574162011382998655930942945320770715883528456545929963379043563031134191718579796300874825int);
        assert(factorial((2 * k) as nat) == factorial(10));
        assert(alternating_sign(k) == -1);
        assert(table_value(COS_COEFFS@, 27) * factorial(10) == -12786682062094304179739022253232809188346257992355721833919106906625522642205759980012773798148063113870651109873281527379754908382364816614564960000int);
    } else if k == 4 {
        assert(COS_COEFFS@[112] == 0x000000001a01a01a01a01a01a01a01a0);
        assert(COS_COEFFS@[113] == 0x1a01a01a01a01a01a01a01a01a01a01a);
        assert(COS_COEFFS@[114] == 0x01a01a01a01a01a01a01a01a01a01a01);
        assert(COS_COEFFS@[115] == 0xa01a01a01a01a01a01a01a01a01a01a0);
        assert(table_value(COS_COEFFS@, 28) == 317130011460672226680035274137718481853825843064378021674581024469879033784865078869364429517561089133696704113920672802077254672181667078734240int);
        assert(factorial((2 * k) as nat) == factorial(8));
        assert(alternating_sign(k) == 1);
        assert(table_value(COS_COEFFS@, 28) * factorial(8) == 12786682062094304179739022253232809188346257992355721833919106906625522642205759980012773798148063113870651109873281527379754908382364816614564556800int);
    } else if k == 3 {
        assert(COS_COEFFS@[116] == 0xfffffffa4fa4fa4fa4fa4fa4fa4fa4fa);
        assert(COS_COEFFS@[117] == 0x4fa4fa4fa4fa4fa4fa4fa4fa4fa4fa4f);
        assert(COS_COEFFS@[118] == 0xa4fa4fa4fa4fa4fa4fa4fa4fa4fa4fa4);
        assert(COS_COEFFS@[119] == 0xfa4fa4fa4fa4fa4fa4fa4fa4fa4fa4fa);
        assert(table_value(COS_COEFFS@, 29) == -17759280641797644694081975351712234983814247211605169213776537370313225891952444416684408052983420991487015430379557676916326261642173356409117446int);
        assert(factorial((2 * k) as nat) == factorial(6));
        assert(alternating_sign(k) == -1);
        assert(table_value(COS_COEFFS@, 29) * factorial(6) == -12786682062094304179739022253232809188346257992355721833919106906625522642205759980012773798148063113870651109873281527379754908382364816614564561120int);
    } else if k == 2 {
        assert(COS_COEFFS@[120] == 0x000000aaaaaaaaaaaaaaaaaaaaaaaaaa);
        assert(COS_COEFFS@[121] == 0xaaaaaaaaaaaaaaaaaaaaaaaaaaaaaaaa);
        assert(COS_COEFFS@[122] == 0xaaaaaaaaaaaaaaaaaaaaaaaaaaaaaaaa);
        assert(COS_COEFFS@[123] == 0xaaaaaaaaaaaaaaaaaaaaaaaaaaaaaaab);
        assert(table_value(COS_COEFFS@, 30) == 532778419253929340822459260551367049514427416348155076413296121109396776758573332500532241589502629744610462911386730307489787849265200692273523371int);
        assert(factorial((2 * k) as nat) == factorial(4));
        assert(alternating_sign(k) == 1);
        assert(table_value(COS_COEFFS@, 30) * factorial(4) == 12786682062094304179739022253232809188346257992355721833919106906625522642205759980012773798148063113870651109873281527379754908382364816614564560904int);
    } else if k == 1 {
        assert(COS_COEFFS@[124] == 0xfffff800000000000000000000000000);
        assert(COS_COEFFS@[125] == 0x00000000000000000000000000000000);
        assert(COS_COEFFS@[126] == 0x00000000000000000000000000000000);
        assert(COS_COEFFS@[127] == 0x00000000000000000000000000000000);
        assert(table_value(COS_COEFFS@, 31) == -6393341031047152089869511126616404594173128996177860916959553453312761321102879990006386899074031556935325554936640763689877454191182408307282280448int);
        assert(factorial((2 * k) as nat) == factorial(2));
        assert(alternating_sign(k) == -1);
        assert(table_value(COS_COEFFS@, 31) * factorial(2) == -12786682062094304179739022253232809188346257992355721833919106906625522642205759980012773798148063113870651109873281527379754908382364816614564560896int);
    } else if k == 0 {
        assert(COS_COEFFS@[128] == 0x00001000000000000000000000000000);
        assert(COS_COEFFS@[129] == 0x00000000000000000000000000000000);
        assert(COS_COEFFS@[130] == 0x00000000000000000000000000000000);
        assert(COS_COEFFS@[131] == 0x00000000000000000000000000000000);
        assert(table_value(COS_COEFFS@, 32) == 12786682062094304179739022253232809188346257992355721833919106906625522642205759980012773798148063113870651109873281527379754908382364816614564560896int);
        assert(factorial((2 * k) as nat) == factorial(0));
        assert(alternating_sign(k) == 1);
        assert(table_value(COS_COEFFS@, 32) * factorial(0) == 12786682062094304179739022253232809188346257992355721833919106906625522642205759980012773798148063113870651109873281527379754908382364816614564560896int);
    }
}

/// The arctangent coefficient of degree `2k+1` in the table (highest
/// degree first) is `(-1)ᵏ/(2k+1)` rounded to the nearest FP492 value.
pub proof fn lemma_atan_coeffs(k: nat)
    requires
        k <= 32,
    ensures
        -(2 * k + 1) <= 2 * (table_value(ATAN_COEFFS@, 32 - k) * (2 * k + 1) - alternating_sign(k) * pow2(492))
            <= 2 * k + 1,
{
    crate::atan_table_laws::lemma_word_literals();
    crate::atan_table_laws::lemma_pow2_literals();
    lemma_p512();
    if k == 32 {
        assert(ATAN_COEFFS@[0] == 0x0000003f03f03f03f03f03f03f03f03f);
        assert(ATAN_COEFFS@[1] == 0x03f03f03f03f03f03f03f03f03f03f03);
        assert(ATAN_COEFFS@[2] == 0xf03f03f03f03f03f03f03f03f03f03f0);
        assert(ATAN_COEFFS@[3] == 0x3f03f03f03f03f03f03f03f03f03f03f);
        assert(table_value(ATAN_COEFFS@, 0) == 196718185570681602765215726972812449051480892190088028214140106255777271418550153538658058433047124828779247844204331190457767821267151024839454783int);
        assert(table_value(ATAN_COEFFS@, 0) * (2 * k + 1) == 12786682062094304179739022253232809188346257992355721833919106906625522642205759980012773798148063113870651109873281527379754908382364816614564560895int);
        assert(alternating_sign(k) == 1);
    } else if k == 31 {
        assert(ATAN_COEFFS@[4] == 0xffffffbefbefbefbefbefbefbefbefbe);
        assert(ATAN_COEFFS@[5] == 0xfbefbefbefbefbefbefbefbefbefbefb);
        assert(ATAN_COEFFS@[6] == 0xefbefbefbefbefbefbefbefbefbefbef);
        assert(ATAN_COEFFS@[7] == 0xbefbefbefbefbefbefbefbefbefbefbf);
        assert(table_value(ATAN_COEFFS@, 1) == -202963207334830225075222575448139828386448539561201933871731855660722581622313650476393234891239097045565890632909230593329442990196266930389913665int);
        assert(table_value(ATAN_COEFFS@, 1) * (2 * k + 1) == -12786682062094304179739022253232809188346257992355721833919106906625522642205759980012773798148063113870651109873281527379754908382364816614564560895int);
        assert(alternating_sign(k) == -1);
    } else if k == 30 {
        assert(ATAN_COEFFS@[8] == 0x0000004325c53ef368eb04325c53ef36);
        assert(ATAN_COEFFS@[9] == 0x8eb04325c53ef368eb04325c53ef368e);
        assert(ATAN_COEFFS@[10] == 0xb04325c53ef368eb04325c53ef368eb0);
        assert(ATAN_COEFFS@[11] == 0x4325c53ef368eb04325c53ef368eb043);
        assert(table_value(ATAN_COEFFS@, 2) == 209617738722857445569492168085783757186004229382880685801952572239762666265668196393652029477837100227387723112676746350487785383317456010074828867int);
        assert(table_value(ATAN_COEFFS@, 2) * (2 * k + 1) == 12786682062094304179739022253232809188346257992355721833919106906625522642205759980012773798148063113870651109873281527379754908382364816614564560887int);
        assert(alternating_sign(k) == 1);
    } else if k == 29 {
        assert(ATAN_COEFFS@[12] == 0xffffffba9386822b63cbeea4e1a08ad8);
        assert(ATAN_COEFFS@[13] == 0xf2fba9386822b63cbeea4e1a08ad8f2f);
        assert(ATAN_COEFFS@[14] == 0xba9386822b63cbeea4e1a08ad8f2fba9);
        assert(ATAN_COEFFS@[15] == 0x386822b63cbeea4e1a08ad8f2fba9387);
        assert(table_value(ATAN_COEFFS@, 3) == -216723424781259392876932580563267952344851830378910539557950964519076654952639999661233454205899374811366967963953924192877201836989234179907873913int);
        assert(table_value(ATAN_COEFFS@, 3) * (2 * k + 1) == -12786682062094304179739022253232809188346257992355721833919106906625522642205759980012773798148063113870651109873281527379754908382364816614564560867int);
        assert(alternating_sign(k) == -1);
    } else if k == 28 {
        assert(ATAN_COEFFS@[16] == 0x00000047dc11f7047dc11f7047dc11f7);
        assert(ATAN_COEFFS@[17] == 0x047dc11f7047dc11f7047dc11f7047dc);
        assert(ATAN_COEFFS@[18] == 0x11f7047dc11f7047dc11f7047dc11f70);
        assert(ATAN_COEFFS@[19] == 0x47dc11f7047dc11f7047dc11f7047dc1);
        assert(table_value(ATAN_COEFFS@, 4) == 224327755475338669819982846547944020848179964778170558489808893098693379687820350526539891195580054629309668594268096971574647515480084502009904577int);
        assert(table_value(ATAN_COEFFS@, 4) * (2 * k + 1) == 12786682062094304179739022253232809188346257992355721833919106906625522642205759980012773798148063113870651109873281527379754908382364816614564560889int);
        assert(alternating_sign(k) == 1);
    } else if k == 27 {
        assert(ATAN_COEFFS@[20] == 0xffffffb586fb586fb586fb586fb586fb);
        assert(ATAN_COEFFS@[21] == 0x586fb586fb586fb586fb586fb586fb58);
        assert(ATAN_COEFFS@[22] == 0x6fb586fb586fb586fb586fb586fb586f);
        assert(ATAN_COEFFS@[23] == 0xb586fb586fb586fb586fb586fb586fb6);
        assert(table_value(ATAN_COEFFS@, 5) == -232485128401714621449800404604232894333568327133740396980347398302282229858286545091141341784510238434011838361332391406904634697861178483901173834int);
        assert(table_value(ATAN_COEFFS@, 5) * (2 * k + 1) == -12786682062094304179739022253232809188346257992355721833919106906625522642205759980012773798148063113870651109873281527379754908382364816614564560870int);
        assert(alternating_sign(k) == -1);
    } else if k == 26 {
        assert(ATAN_COEFFS@[24] == 0x0000004d4873ecade304d4873ecade30);
        assert(ATAN_COEFFS@[25] == 0x4d4873ecade304d4873ecade304d4873);
        assert(ATAN_COEFFS@[26] == 0xecade304d4873ecade304d4873ecade3);
        assert(ATAN_COEFFS@[27] == 0x04d4873ecade304d4873ecade304d487);
        assert(table_value(ATAN_COEFFS@, 6) == 241258152114986871315830608551562437515967131931240034602247300125009861173693584528542901851850247431521719054212859007165186950610656917255935111int);
        assert(table_value(ATAN_COEFFS@, 6) * (2 * k + 1) == 12786682062094304179739022253232809188346257992355721833919106906625522642205759980012773798148063113870651109873281527379754908382364816614564560883int);
        assert(alternating_sign(k) == 1);
    } else if k == 25 {
        assert(ATAN_COEFFS@[28] == 0xffffffafafafafafafafafafafafafaf);
        assert(ATAN_COEFFS@[29] == 0xafafafafafafafafafafafafafafafaf);
        assert(ATAN_COEFFS@[30] == 0xafafafafafafafafafafafafafafafaf);
        assert(ATAN_COEFFS@[31] == 0xafafafafafafafafafafafafafafafb0);
        assert(table_value(ATAN_COEFFS@, 7) == -250719256119496160387039652024172729183259960634425918312139351110304365533446274117897525453883590468051982546534931909406958987889506208128716880int);
        assert(table_value(ATAN_COEFFS@, 7) * (2 * k + 1) == -12786682062094304179739022253232809188346257992355721833919106906625522642205759980012773798148063113870651109873281527379754908382364816614564560880int);
        assert(alternating_sign(k) == -1);
    } else if k == 24 {
        assert(ATAN_COEFFS@[32] == 0x0000005397829cbc14e5e0a72f053978);
        assert(ATAN_COEFFS@[33] == 0x29cbc14e5e0a72f05397829cbc14e5e0);
        assert(ATAN_COEFFS@[34] == 0xa72f05397829cbc14e5e0a72f0539782);
        assert(ATAN_COEFFS@[35] == 0x9cbc14e5e0a72f05397829cbc14e5e0a);
        assert(table_value(ATAN_COEFFS@, 8) == 260952695144781717953857597004751207925433836578688200692226671563786176371546122041077016288735981915727573670883296477137855273109486053358460426int);
        assert(table_value(ATAN_COEFFS@, 8) * (2 * k + 1) == 12786682062094304179739022253232809188346257992355721833919106906625522642205759980012773798148063113870651109873281527379754908382364816614564560874int);
        assert(alternating_sign(k) == 1);
    } else if k == 23 {
        assert(ATAN_COEFFS@[36] == 0xffffffa8d9df51b3bea3677d46cefa8d);
        assert(ATAN_COEFFS@[37] == 0x9df51b3bea3677d46cefa8d9df51b3be);
        assert(ATAN_COEFFS@[38] == 0xa3677d46cefa8d9df51b3bea3677d46c);
        assert(ATAN_COEFFS@[39] == 0xefa8d9df51b3bea3677d46cefa8d9df5);
        assert(table_value(ATAN_COEFFS@, 9) == -272057065150942642122106856451761897624388467922462166679129934183521758344803403830059016981873683273843640635601734625101168263454570566267331083int);
        assert(table_value(ATAN_COEFFS@, 9) * (2 * k + 1) == -12786682062094304179739022253232809188346257992355721833919106906625522642205759980012773798148063113870651109873281527379754908382364816614564560901int);
        assert(alternating_sign(k) == -1);
    } else if k == 22 {
        assert(ATAN_COEFFS@[40] == 0x0000005b05b05b05b05b05b05b05b05b);
        assert(ATAN_COEFFS@[41] == 0x05b05b05b05b05b05b05b05b05b05b05);
        assert(ATAN_COEFFS@[42] == 0xb05b05b05b05b05b05b05b05b05b05b0);
        assert(ATAN_COEFFS@[43] == 0x5b05b05b05b05b05b05b05b05b05b05b);
        assert(table_value(ATAN_COEFFS@, 10) == 284148490268762315105311605627395759741027955385682707420424597925011614271239110666950528847734735863792246886072922830661220186274773702545879131int);
        assert(table_value(ATAN_COEFFS@, 10) * (2 * k + 1) == 12786682062094304179739022253232809188346257992355721833919106906625522642205759980012773798148063113870651109873281527379754908382364816614564560895int);
        assert(alternating_sign(k) == 1);
    } else if k == 21 {
        assert(ATAN_COEFFS@[44] == 0xffffffa0be82fa0be82fa0be82fa0be8);
        assert(ATAN_COEFFS@[45] == 0x2fa0be82fa0be82fa0be82fa0be82fa0);
        assert(ATAN_COEFFS@[46] == 0xbe82fa0be82fa0be82fa0be82fa0be82);
        assert(ATAN_COEFFS@[47] == 0xfa0be82fa0be82fa0be82fa0be82fa0c);
        assert(table_value(ATAN_COEFFS@, 11) == -297364699118472190226488889610065329961540883543156321719048997828500526562924650697971483677861932880712816508680965753017556008892205037548013044int);
        assert(table_value(ATAN_COEFFS@, 11) * (2 * k + 1) == -12786682062094304179739022253232809188346257992355721833919106906625522642205759980012773798148063113870651109873281527379754908382364816614564560892int);
        assert(alternating_sign(k) == -1);
    } else if k == 20 {
        assert(ATAN_COEFFS@[48] == 0x00000063e7063e7063e7063e7063e706);
        assert(ATAN_COEFFS@[49] == 0x3e7063e7063e7063e7063e7063e7063e);
        assert(ATAN_COEFFS@[50] == 0x7063e7063e7063e7063e7063e7063e70);
        assert(ATAN_COEFFS@[51] == 0x63e7063e7063e7063e7063e7063e7064);
        assert(table_value(ATAN_COEFFS@, 12) == 311870294197422053164366396420312419227957512008676142290709924551842015663555121463726190198733246679771978289592232375115973375179629673525964900int);
        assert(table_value(ATAN_COEFFS@, 12) * (2 * k + 1) == 12786682062094304179739022253232809188346257992355721833919106906625522642205759980012773798148063113870651109873281527379754908382364816614564560900int);
        assert(alternating_sign(k) == 1);
    } else if k == 19 {
        assert(ATAN_COEFFS@[52] == 0xffffff96f96f96f96f96f96f96f96f96);
        assert(ATAN_COEFFS@[53] == 0xf96f96f96f96f96f96f96f96f96f96f9);
        assert(ATAN_COEFFS@[54] == 0x6f96f96f96f96f96f96f96f96f96f96f);
        assert(ATAN_COEFFS@[55] == 0x96f96f96f96f96f96f96f96f96f96f97);
        assert(table_value(ATAN_COEFFS@, 13) == -327863642617802671275359544954687415085801486983480047023566843759628785697583589231096764055078541381298746407007218650762946368778585041399091305int);
        assert(table_value(ATAN_COEFFS@, 13) * (2 * k + 1) == -12786682062094304179739022253232809188346257992355721833919106906625522642205759980012773798148063113870651109873281527379754908382364816614564560895int);
        assert(alternating_sign(k) == -1);
    } else if k == 18 {
        assert(ATAN_COEFFS@[56] == 0x0000006eb3e45306eb3e45306eb3e453);
        assert(ATAN_COEFFS@[57] == 0x06eb3e45306eb3e45306eb3e45306eb3);
        assert(ATAN_COEFFS@[58] == 0xe45306eb3e45306eb3e45306eb3e4530);
        assert(ATAN_COEFFS@[59] == 0x6eb3e45306eb3e45306eb3e45306eb3e);
        assert(table_value(ATAN_COEFFS@, 14) == 345586001678224437290243844681967815901250216009614103619435321800689801140696215676020913463461165239747327293872473712966348875199049097690934078int);
        assert(table_value(ATAN_COEFFS@, 14) * (2 * k + 1) == 12786682062094304179739022253232809188346257992355721833919106906625522642205759980012773798148063113870651109873281527379754908382364816614564560886int);
        assert(alternating_sign(k) == 1);
    } else if k == 17 {
        assert(ATAN_COEFFS@[60] == 0xffffff8af8af8af8af8af8af8af8af8a);
        assert(ATAN_COEFFS@[61] == 0xf8af8af8af8af8af8af8af8af8af8af8);
        assert(ATAN_COEFFS@[62] == 0xaf8af8af8af8af8af8af8af8af8af8af);
        assert(ATAN_COEFFS@[63] == 0x8af8af8af8af8af8af8af8af8af8af8b);
        assert(table_value(ATAN_COEFFS@, 15) == -365333773202694405135400635806651691095607371210163480969117340189300646920164570857507822804230374682018603139236615067992997382353280474701844597int);
        assert(table_value(ATAN_COEFFS@, 15) * (2 * k + 1) == -12786682062094304179739022253232809188346257992355721833919106906625522642205759980012773798148063113870651109873281527379754908382364816614564560895int);
        assert(alternating_sign(k) == -1);
    } else if k == 16 {
        assert(ATAN_COEFFS@[64] == 0x0000007c1f07c1f07c1f07c1f07c1f07);
        assert(ATAN_COEFFS@[65] == 0xc1f07c1f07c1f07c1f07c1f07c1f07c1);
        assert(ATAN_COEFFS@[66] == 0xf07c1f07c1f07c1f07c1f07c1f07c1f0);
        assert(ATAN_COEFFS@[67] == 0x7c1f07c1f07c1f07c1f07c1f07c1f07c);
        assert(table_value(ATAN_COEFFS@, 16) == 387475214002857702416334007673721490555947211889567328300578997170470383097144241818568902974183730723353063935553985678174391163101964139835289724int);
        assert(table_value(ATAN_COEFFS@, 16) * (2 * k + 1) == 12786682062094304179739022253232809188346257992355721833919106906625522642205759980012773798148063113870651109873281527379754908382364816614564560892int);
        assert(alternating_sign(k) == 1);
    } else if k == 15 {
        assert(ATAN_COEFFS@[68] == 0xffffff7bdef7bdef7bdef7bdef7bdef7);
        assert(ATAN_COEFFS@[69] == 0xbdef7bdef7bdef7bdef7bdef7bdef7bd);
        assert(ATAN_COEFFS@[70] == 0xef7bdef7bdef7bdef7bdef7bdef7bdef);
        assert(ATAN_COEFFS@[71] == 0x7bdef7bdef7bdef7bdef7bdef7bdef7c);
        assert(table_value(ATAN_COEFFS@, 17) == -412473614906267876765774911394606748011169612656636188190938932471791052974379354193960445101550423028085519673331662173540480915560155374663372932int);
        assert(table_value(ATAN_COEFFS@, 17) * (2 * k + 1) == -12786682062094304179739022253232809188346257992355721833919106906625522642205759980012773798148063113870651109873281527379754908382364816614564560892int);
        assert(alternating_sign(k) == -1);
    } else if k == 14 {
        assert(ATAN_COEFFS@[72] == 0x0000008d3dcb08d3dcb08d3dcb08d3dc);
        assert(ATAN_COEFFS@[73] == 0xb08d3dcb08d3dcb08d3dcb08d3dcb08d);
        assert(ATAN_COEFFS@[74] == 0x3dcb08d3dcb08d3dcb08d3dcb08d3dcb);
        assert(ATAN_COEFFS@[75] == 0x08d3dcb08d3dcb08d3dcb08d3dcb08d4);
        assert(table_value(ATAN_COEFFS@, 18) == 440920071106700144128931801835614109942974413529507649445486445056052504903646895862509441315450452202436245168044190599301893392495338503950502100int);
        assert(table_value(ATAN_COEFFS@, 18) * (2 * k + 1) == 12786682062094304179739022253232809188346257992355721833919106906625522642205759980012773798148063113870651109873281527379754908382364816614564560900int);
        assert(alternating_sign(k) == 1);
    } else if k == 13 {
        assert(ATAN_COEFFS@[76] == 0xffffff684bda12f684bda12f684bda12);
        assert(ATAN_COEFFS@[77] == 0xf684bda12f684bda12f684bda12f684b);
        assert(ATAN_COEFFS@[78] == 0xda12f684bda12f684bda12f684bda12f);
        assert(ATAN_COEFFS@[79] == 0x684bda12f684bda12f684bda12f684be);
        assert(table_value(ATAN_COEFFS@, 19) == -473580817114603858508852676045659599568379925642804512367374329875019357118731851111584214746224559772987078143454871384435366977124622837576465218int);
        assert(table_value(ATAN_COEFFS@, 19) * (2 * k + 1) == -12786682062094304179739022253232809188346257992355721833919106906625522642205759980012773798148063113870651109873281527379754908382364816614564560886int);
        assert(alternating_sign(k) == -1);
    } else if k == 12 {
        assert(ATAN_COEFFS@[80] == 0x000000a3d70a3d70a3d70a3d70a3d70a);
        assert(ATAN_COEFFS@[81] == 0x3d70a3d70a3d70a3d70a3d70a3d70a3d);
        assert(ATAN_COEFFS@[82] == 0x70a3d70a3d70a3d70a3d70a3d70a3d70);
        assert(ATAN_COEFFS@[83] == 0xa3d70a3d70a3d70a3d70a3d70a3d70a4);
        assert(table_value(ATAN_COEFFS@, 20) == 511467282483772167189560890129312367533850319694228873356764276265020905688230399200510951925922524554826044394931261095190196335294592664582582436int);
        assert(table_value(ATAN_COEFFS@, 20) * (2 * k + 1) == 12786682062094304179739022253232809188346257992355721833919106906625522642205759980012773798148063113870651109873281527379754908382364816614564560900int);
        assert(alternating_sign(k) == 1);
    } else if k == 11 {
        assert(ATAN_COEFFS@[84] == 0xffffff4de9bd37a6f4de9bd37a6f4de9);
        assert(ATAN_COEFFS@[85] == 0xbd37a6f4de9bd37a6f4de9bd37a6f4de);
        assert(ATAN_COEFFS@[86] == 0x9bd37a6f4de9bd37a6f4de9bd37a6f4d);
        assert(ATAN_COEFFS@[87] == 0xe9bd37a6f4de9bd37a6f4de9bd37a6f5);
        assert(table_value(ATAN_COEFFS@, 21) == -555942698351926268684305315357948225580272086624161818866048126375022723574163477391859730354263613646550048255360066407815430799233252896285415691int);
        assert(table_value(ATAN_COEFFS@, 21) * (2 * k + 1) == -12786682062094304179739022253232809188346257992355721833919106906625522642205759980012773798148063113870651109873281527379754908382364816614564560893int);
        assert(alternating_sign(k) == -1);
    } else if k == 10 {
        assert(ATAN_COEFFS@[88] == 0x000000c30c30c30c30c30c30c30c30c3);
        assert(ATAN_COEFFS@[89] == 0x0c30c30c30c30c30c30c30c30c30c30c);
        assert(ATAN_COEFFS@[90] == 0x30c30c30c30c30c30c30c30c30c30c30);
        assert(ATAN_COEFFS@[91] == 0xc30c30c30c30c30c30c30c30c30c30c3);
        assert(table_value(ATAN_COEFFS@, 22) == 608889622004490675225667726344419485159345618683605801615195566982167744866940951429179704673717291136697671898727691779988328970588800791169740995int);
        assert(table_value(ATAN_COEFFS@, 22) * (2 * k + 1) == 12786682062094304179739022253232809188346257992355721833919106906625522642205759980012773798148063113870651109873281527379754908382364816614564560895int);
        assert(alternating_sign(k) == 1);
    } else if k == 9 {
        assert(ATAN_COEFFS@[92] == 0xffffff286bca1af286bca1af286bca1a);
        assert(ATAN_COEFFS@[93] == 0xf286bca1af286bca1af286bca1af286b);
        assert(ATAN_COEFFS@[94] == 0xca1af286bca1af286bca1af286bca1af);
        assert(ATAN_COEFFS@[95] == 0x286bca1af286bca1af286bca1af286bd);
        assert(table_value(ATAN_COEFFS@, 23) == -672983266426016009459948539643832062544539894334511675469426679296080139063461051579619673586740163887929005782804290914723942546440253506029713731int);
        assert(table_value(ATAN_COEFFS@, 23) * (2 * k + 1) == -12786682062094304179739022253232809188346257992355721833919106906625522642205759980012773798148063113870651109873281527379754908382364816614564560889int);
        assert(alternating_sign(k) == -1);
    } else if k == 8 {
        assert(ATAN_COEFFS@[96] == 0x000000f0f0f0f0f0f0f0f0f0f0f0f0f0);
        assert(ATAN_COEFFS@[97] == 0xf0f0f0f0f0f0f0f0f0f0f0f0f0f0f0f0);
        assert(ATAN_COEFFS@[98] == 0xf0f0f0f0f0f0f0f0f0f0f0f0f0f0f0f0);
        assert(ATAN_COEFFS@[99] == 0xf0f0f0f0f0f0f0f0f0f0f0f0f0f0f0f1);
        assert(table_value(ATAN_COEFFS@, 24) == 752157768358488481161118956072518187549779881903277754936418053330913096600338822353692576361650771404155947639604795728220876963668518624386150641int);
        assert(table_value(ATAN_COEFFS@, 24) * (2 * k + 1) == 12786682062094304179739022253232809188346257992355721833919106906625522642205759980012773798148063113870651109873281527379754908382364816614564560897int);
        assert(alternating_sign(k) == 1);
    } else if k == 7 {
        assert(ATAN_COEFFS@[100] == 0xfffffeeeeeeeeeeeeeeeeeeeeeeeeeee);
        assert(ATAN_COEFFS@[101] == 0xeeeeeeeeeeeeeeeeeeeeeeeeeeeeeeee);
        assert(ATAN_COEFFS@[102] == 0xeeeeeeeeeeeeeeeeeeeeeeeeeeeeeeee);
        assert(ATAN_COEFFS@[103] == 0xeeeeeeeeeeeeeeeeeeeeeeeeeeeeeeef);
        assert(table_value(ATAN_COEFFS@, 25) == -852445470806286945315934816882187279223083866157048122261273793775034842813717332000851586543204207591376740658218768491983660558824321107637637393int);
        assert(table_value(ATAN_COEFFS@, 25) * (2 * k + 1) == -12786682062094304179739022253232809188346257992355721833919106906625522642205759980012773798148063113870651109873281527379754908382364816614564560895int);
        assert(alternating_sign(k) == -1);
    } else if k == 6 {
        assert(ATAN_COEFFS@[104] == 0x0000013b13b13b13b13b13b13b13b13b);
        assert(ATAN_COEFFS@[105] == 0x13b13b13b13b13b13b13b13b13b13b13);
        assert(ATAN_COEFFS@[106] == 0xb13b13b13b13b13b13b13b13b13b13b1);
        assert(ATAN_COEFFS@[107] == 0x3b13b13b13b13b13b13b13b13b13b13b);
        assert(table_value(ATAN_COEFFS@, 26) == 983590927853408013826078634864062245257404460950440141070700531278886357092750767693290292165235624143896239221021655952288839106335755124197273915int);
        assert(table_value(ATAN_COEFFS@, 26) * (2 * k + 1) == 12786682062094304179739022253232809188346257992355721833919106906625522642205759980012773798148063113870651109873281527379754908382364816614564560895int);
        assert(alternating_sign(k) == 1);
    } else if k == 5 {
        assert(ATAN_COEFFS@[108] == 0xfffffe8ba2e8ba2e8ba2e8ba2e8ba2e8);
        assert(ATAN_COEFFS@[109] == 0xba2e8ba2e8ba2e8ba2e8ba2e8ba2e8ba);
        assert(ATAN_COEFFS@[110] == 0x2e8ba2e8ba2e8ba2e8ba2e8ba2e8ba2e);
        assert(ATAN_COEFFS@[111] == 0x8ba2e8ba2e8ba2e8ba2e8ba2e8ba2e8c);
        assert(table_value(ATAN_COEFFS@, 27) == -1162425642008573107249002023021164471667841635668701984901736991511411149291432725455706708922551192170059191806661957034523173489305892419505869172int);
        assert(table_value(ATAN_COEFFS@, 27) * (2 * k + 1) == -12786682062094304179739022253232809188346257992355721833919106906625522642205759980012773798148063113870651109873281527379754908382364816614564560892int);
        assert(alternating_sign(k) == -1);
    } else if k == 4 {
        assert(ATAN_COEFFS@[112] == 0x000001c71c71c71c71c71c71c71c71c7);
        assert(ATAN_COEFFS@[113] == 0x1c71c71c71c71c71c71c71c71c71c71c);
        assert(ATAN_COEFFS@[114] == 0x71c71c71c71c71c71c71c71c71c71c71);
        assert(ATAN_COEFFS@[115] == 0xc71c71c71c71c71c71c71c71c71c71c7);
        assert(table_value(ATAN_COEFFS@, 28) == 1420742451343811575526558028136978798705139776928413537102122989625058071356195553334752644238673679318961234430364614153306100931373868512729395655int);
        assert(table_value(ATAN_COEFFS@, 28) * (2 * k + 1) == 12786682062094304179739022253232809188346257992355721833919106906625522642205759980012773798148063113870651109873281527379754908382364816614564560895int);
        assert(alternating_sign(k) == 1);
    } else if k == 3 {
        assert(ATAN_COEFFS@[116] == 0xfffffdb6db6db6db6db6db6db6db6db6);
        assert(ATAN_COEFFS@[117] == 0xdb6db6db6db6db6db6db6db6db6db6db);
        assert(ATAN_COEFFS@[118] == 0x6db6db6db6db6db6db6db6db6db6db6d);
        assert(ATAN_COEFFS@[119] == 0xb6db6db6db6db6db6db6db6db6db6db7);
        assert(table_value(ATAN_COEFFS@, 29) == -1826668866013472025677003179033258455478036856050817404845586700946503234600822854287539114021151873410093015696183075339964986911766402373509222985int);
        assert(table_value(ATAN_COEFFS@, 29) * (2 * k + 1) == -12786682062094304179739022253232809188346257992355721833919106906625522642205759980012773798148063113870651109873281527379754908382364816614564560895int);
        assert(alternating_sign(k) == -1);
    } else if k == 2 {
        assert(ATAN_COEFFS@[120] == 0x00000333333333333333333333333333);
        assert(ATAN_COEFFS@[121] == 0x33333333333333333333333333333333);
        assert(ATAN_COEFFS@[122] == 0x33333333333333333333333333333333);
        assert(ATAN_COEFFS@[123] == 0x33333333333333333333333333333333);
        assert(table_value(ATAN_COEFFS@, 30) == 2557336412418860835947804450646561837669251598471144366783821381325104528441151996002554759629612622774130221974656305475950981676472963322912912179int);
        assert(table_value(ATAN_COEFFS@, 30) * (2 * k + 1) == 12786682062094304179739022253232809188346257992355721833919106906625522642205759980012773798148063113870651109873281527379754908382364816614564560895int);
        assert(alternating_sign(k) == 1);
    } else if k == 1 {
        assert(ATAN_COEFFS@[124] == 0xfffffaaaaaaaaaaaaaaaaaaaaaaaaaaa);
        assert(ATAN_COEFFS@[125] == 0xaaaaaaaaaaaaaaaaaaaaaaaaaaaaaaaa);
        assert(ATAN_COEFFS@[126] == 0xaaaaaaaaaaaaaaaaaaaaaaaaaaaaaaaa);
        assert(ATAN_COEFFS@[127] == 0xaaaaaaaaaaaaaaaaaaaaaaaaaaaaaaab);
        assert(table_value(ATAN_COEFFS@, 31) == -4262227354031434726579674084410936396115419330785240611306368968875174214068586660004257932716021037956883703291093842459918302794121605538188186965int);
        assert(table_value(ATAN_COEFFS@, 31) * (2 * k + 1) == -12786682062094304179739022253232809188346257992355721833919106906625522642205759980012773798148063113870651109873281527379754908382364816614564560895int);
        assert(alternating_sign(k) == -1);
    } else if k == 0 {
        assert(ATAN_COEFFS@[128] == 0x00001000000000000000000000000000);
        assert(ATAN_COEFFS@[129] == 0x00000000000000000000000000000000);
        assert(ATAN_COEFFS@[130] == 0x00000000000000000000000000000000);
        assert(ATAN_COEFFS@[131] == 0x00000000000000000000000000000000);
        assert(table_value(ATAN_COEFFS@, 32) == 12786682062094304179739022253232809188346257992355721833919106906625522642205759980012773798148063113870651109873281527379754908382364816614564560896int);
        assert(table_value(ATAN_COEFFS@, 32) * (2 * k + 1) == 12786682062094304179739022253232809188346257992355721833919106906625522642205759980012773798148063113870651109873281527379754908382364816614564560896int);
        assert(alternating_sign(k) == 1);
    }
}

/// `n! >= n` for `n >= 1`.
proof fn lemma_factorial_ge(n: nat)
    requires
        n >= 1,
    ensures
        factorial(n) >= n,
    decreases n,
{
    if n > 1 {
        lemma_factorial_ge((n - 1) as nat);
        assert(factorial(n) == n * factorial((n - 1) as nat));
        let g = factorial((n - 1) as nat);
        assert(n * g >= n) by (nonlinear_arith)
            requires
                g >= 1,
                n >= 1,
        ;
    } else {
        assert(factorial(0) == 1);
        assert(factorial(1) == 1 * factorial(0));
    }
}

/// A coefficient `c` that is `±1/f` rounded to nearest lies within
/// `[-½, ½]` for `f >= 2`, and is `±1` for `f = 1`.
proof fn lemma_rounded_reciprocal(c: int, f: int, s: int)
    requires
        f >= 1,
        s == 1 || s == -1,
        -f <= 2 * (c * f - s * pow2(492)) <= f,
    ensures
        f >= 2 ==> -pow2(491) <= c <= pow2(491),
        f == 1 ==> c == s * pow2(492),
{
    lemma2_to64();
    lemma_pow2_adds(491, 1);
    lemma_pow2_pos(491);
    let u = pow2(491) as int;
    if f >= 2 {
        assert(-u <= c <= u) by (nonlinear_arith)
            requires
                f >= 2,
                s == 1 || s == -1,
                -f <= 2 * (c * f - s * (2 * u)) <= f,
                u >= 1,
        ;
    }
}

/// Horner's scheme for a series with coefficients in `[-½, ½]` and a last
/// coefficient of 1, at `0 <= x <= 5/8`, stays within `[-3/2, 3/2]` and ends
/// in `[2⁻⁵, 2]`.
proof fn lemma_series_horner(t: Seq<u128>, n: nat, x: int, k: nat)
    requires
        0 <= x <= 5 * pow2(489),
        k <= n,
        forall|i: int| 0 <= i < n ==> -pow2(491) <= #[trigger] table_value(t, i) <= pow2(491),
        table_value(t, n as int) == pow2(492),
    ensures
        k < n ==> -3 * pow2(491) <= horner492(t, x, k) <= 3 * pow2(491),
        k == n ==> pow2(487) <= horner492(t, x, k) <= pow2(493),
    decreases k,
{
    lemma_series_pow2();
    let b = pow2(488) as int;
    if k > 0 {
        lemma_series_horner(t, n, x, (k - 1) as nat);
        let h = horner492(t, x, (k - 1) as nat);
        lemma_product_bound(h, x);
        let r = rounded_product(h, x, 492);
        let mh = magnitude(h);
        let mr = magnitude(r);
        assert(mr <= 15 * b + 1) by (nonlinear_arith)
            requires
                mr * (16 * b) <= mh * x + 16 * b,
                0 <= mh <= 24 * b,
                0 <= x <= 10 * b,
                b > 0,
        ;
        lemma_wrap_id(r);
        let c = table_value(t, k as int);
        lemma_wrap_id(r + c);
        assert(horner492(t, x, k) == r + c);
    }
}

/// Powers of two around 2⁴⁹² in units of 2⁴⁸⁸.
proof fn lemma_series_pow2()
    ensures
        pow2(487) * 2 == pow2(488),
        pow2(489) == 2 * pow2(488),
        pow2(491) == 8 * pow2(488),
        pow2(492) == 16 * pow2(488),
        pow2(493) == 32 * pow2(488),
        pow2(488) > 0,
        64 * pow2(488) < pow2(511),
{
    lemma2_to64();
    lemma_pow2_pos(488);
    lemma_pow2_adds(487, 1);
    lemma_pow2_adds(488, 1);
    lemma_pow2_adds(488, 3);
    lemma_pow2_adds(488, 4);
    lemma_pow2_adds(488, 5);
    lemma_pow2_adds(488, 23);
    vstd::arithmetic::power2::lemma_pow2_strictly_increases(6, 23);
    vstd::arithmetic::mul::lemma_mul_strict_inequality(pow2(6) as int, pow2(23) as int, pow2(488) as int);
}

/// The square of `¼π` plus one unit (in units of 2⁻⁴⁹²) is below `5/8`.
proof fn lemma_quarter_pi_square()
    ensures
        0 < fp_frac_pi_4(),
        fp_frac_pi_4() + 1 <= pow2(492),
        (fp_frac_pi_4() + 1) * (fp_frac_pi_4() + 1) + pow2(492) <= 10 * pow2(488) * pow2(492),
{
    crate::reduce_laws::lemma_reduction_literals();
    crate::atan_table_laws::lemma_pow2_literals();
    lemma_series_pow2();
    assert(pow2(488) == 799167628880894011233688890827050574271641124522232614619944181664095165137859998750798362384253944616915694367080095461234681773897801038410285056nat);
    assert((10042636607515963606702523585452887560190200165149987841986342689538909383362793664883109419881755434618895363072474833804915646702194013963306850005int + 1) * (10042636607515963606702523585452887560190200165149987841986342689538909383362793664883109419881755434618895363072474833804915646702194013963306850005int + 1) == 100854550030619742458367246280541599013036221527839563151197672437587993022488689299963453394884846568659255076274772652316754122154141573013536346483336900527201540084903950056962485012614588710180010667938480660485144268713908527191374364468810534891721746174538179509963192164515424482182200036int);
    assert(10 * 799167628880894011233688890827050574271641124522232614619944181664095165137859998750798362384253944616915694367080095461234681773897801038410285056int * (16 * 799167628880894011233688890827050574271641124522232614619944181664095165137859998750798362384253944616915694367080095461234681773897801038410285056int) == 102187023848177654356806282907486134582653504534295426124930418812785248863690960168189847833222947895774333278422655756491388825005751995429845596072183368720384290455095586637697931337951384943751851865320648908458537495302188563911109389744539860864364590432038709332088754955793613308307701760int);
}

/// The sine and cosine approximations on `[-¼π - 1, ¼π + 1]` (in units of
/// 2⁻⁴⁹²): the sine has the sign of its argument, and the cosine is
/// positive.
pub proof fn lemma_approx_sin_cos_signs(v: int)
    requires
        -fp_frac_pi_4() - 1 <= v <= fp_frac_pi_4() + 1,
    ensures
        v >= 0 ==> approx_sin_spec(v) >= 0,
        v <= 0 ==> approx_sin_spec(v) <= 0,
        approx_cos_spec(v) > 0,
{
    lemma_series_pow2();
    lemma_quarter_pi_square();
    let u = pow2(492) as int;
    let b = pow2(488) as int;
    assert forall|i: int| 0 <= i < 30 implies -pow2(491) <= #[trigger] table_value(SIN_COEFFS@, i) <= pow2(491) by {
        let k = (30 - i) as nat;
        lemma_sin_coeffs(k);
        lemma_factorial_ge((2 * k + 1) as nat);
        lemma_rounded_reciprocal(table_value(SIN_COEFFS@, 30 - k), factorial((2 * k + 1) as nat) as int,
            alternating_sign(k));
    }
    assert forall|i: int| 0 <= i < 32 implies -pow2(491) <= #[trigger] table_value(COS_COEFFS@, i) <= pow2(491) by {
        let k = (32 - i) as nat;
        lemma_cos_coeffs(k);
        lemma_factorial_ge((2 * k) as nat);
        lemma_rounded_reciprocal(table_value(COS_COEFFS@, 32 - k), factorial((2 * k) as nat) as int,
            alternating_sign(k));
    }
    assert(factorial(0) == 1);
    assert(factorial(1) == 1 * factorial(0));
    lemma_sin_coeffs(0);
    lemma_rounded_reciprocal(table_value(SIN_COEFFS@, 30), 1, 1);
    lemma_cos_coeffs(0);
    lemma_rounded_reciprocal(table_value(COS_COEFFS@, 32), 1, 1);
    let a = magnitude(v) as int;
    lemma_wrap_id(a);
    lemma_product_bound(a, a);
    let sq = rounded_product(a, a, 492);
    assert(sq <= 10 * b) by (nonlinear_arith)
        requires
            sq * (16 * b) <= a * a + 16 * b,
            0 <= a <= fp_frac_pi_4() + 1,
            (fp_frac_pi_4() + 1) * (fp_frac_pi_4() + 1) + 16 * b <= 10 * b * (16 * b),
            b > 0,
            sq >= 0,
    ;
    lemma_wrap_id(sq);
    let x2 = wrap492(sq);
    lemma_series_horner(SIN_COEFFS@, 30, x2, 30);
    lemma_series_horner(COS_COEFFS@, 32, x2, 32);
    let h = horner492(SIN_COEFFS@, x2, 30);
    lemma_product_bound(h, v);
    let sp = rounded_product(h, v, 492);
    let msp = magnitude(sp);
    assert(msp <= 3 * b * 16) by (nonlinear_arith)
        requires
            msp * (16 * b) <= h * magnitude(v) + 16 * b,
            0 <= h <= 32 * b,
            0 <= magnitude(v) <= 16 * b,
            b > 0,
    ;
    lemma_wrap_id(sp);
    assert(sign_of_value(h) == 1);
    if v > 0 {
        assert(sp == 1 * 1 * fixed_round(magnitude(h) * magnitude(v), 492));
    } else if v < 0 {
        assert(sp == 1 * -1 * fixed_round(magnitude(h) * magnitude(v), 492));
        assert(sp <= 0);
        assert(wrap492(a) == a);
        assert(x2 == wrap492(rounded_product(wrap492(a), wrap492(a), 492)));
        if wrap492(magnitude(v) as int) > sin_cut_off() {
            assert(approx_sin_spec(v) == wrap492(sp));
        }
    } else {
        assert(sp == 1 * 0 * fixed_round(magnitude(h) * magnitude(v), 492));
    }
}

} // verus!
