//! The table of `atan(j/256)` against the series of the arctangent.
use vstd::prelude::*;
use vstd::arithmetic::power2::{pow2, lemma_pow2_adds, lemma2_to64, lemma2_to64_rest};
use crate::bits::lemma_pow2_64_128;
use crate::fixed_series::table_value;
use crate::approx_atan::{atan_table_value, ATANS_0, ATANS_1, ATANS_2, ATANS_3, ATANS_4, ATANS_5, ATANS_6, ATANS_7};

verus! {

/// The powers of two the bounds below are written with.
pub(crate) proof fn lemma_pow2_literals()
    ensures
        pow2(452) == 0x100000000000000000000000000000000000000000000000000000000000000000000000000000000000000000000000000000000000000000nat,
        pow2(468) == 0x1000000000000000000000000000000000000000000000000000000000000000000000000000000000000000000000000000000000000000000000nat,
        pow2(484) == 0x10000000000000000000000000000000000000000000000000000000000000000000000000000000000000000000000000000000000000000000000000nat,
        pow2(492) == 0x1000000000000000000000000000000000000000000000000000000000000000000000000000000000000000000000000000000000000000000000000000nat,
{
    lemma2_to64();
    lemma2_to64_rest();
    lemma_pow2_64_128();
    let p128 = 0x1_0000_0000_0000_0000_0000_0000_0000_0000nat;
    assert(pow2(128) == p128);
    lemma_pow2_adds(128, 128);
    assert(pow2(256) == p128 * p128);
    lemma_pow2_adds(64, 4);
    assert(pow2(68) == 0x1_0000_0000_0000_0000 * 16);
    lemma_pow2_adds(64, 20);
    assert(pow2(84) == 0x1_0000_0000_0000_0000 * 0x100000);
    lemma_pow2_adds(64, 36);
    assert(pow2(100) == 0x1_0000_0000_0000_0000 * 0x10_0000_0000);
    lemma_pow2_adds(128, 68);
    lemma_pow2_adds(128, 84);
    lemma_pow2_adds(128, 100);
    lemma_pow2_adds(256, 196);
    lemma_pow2_adds(256, 212);
    lemma_pow2_adds(256, 228);
    lemma_pow2_adds(484, 8);
}

/// The word powers as literals.
pub(crate) proof fn lemma_word_literals()
    ensures
        crate::bits::p256() == 0x10000000000000000000000000000000000000000000000000000000000000000nat,
        crate::fp492::p511() == 0x80000000000000000000000000000000000000000000000000000000000000000000000000000000000000000000000000000000000000000000000000000000nat,
{
    crate::fp492::lemma_p512();
    assert(crate::bits::p256() == 0x10000000000000000000000000000000000000000000000000000000000000000nat) by (nonlinear_arith)
        requires
            crate::bits::p256() == crate::bits::p128() * crate::bits::p128(),
            crate::bits::p128() == 0x1_0000_0000_0000_0000_0000_0000_0000_0000nat,
    ;
    assert(crate::fp492::p511() == 0x80000000000000000000000000000000000000000000000000000000000000000000000000000000000000000000000000000000000000000000000000000000nat) by (nonlinear_arith)
        requires
            crate::uint512::p512() == 2 * crate::fp492::p511(),
            crate::uint512::p512() == crate::bits::p256() * crate::bits::p256(),
            crate::bits::p256() == 0x10000000000000000000000000000000000000000000000000000000000000000nat,
    ;
}

/// The bounds `x - x³/3 <= atan(x) <= x - x³/3 + x⁵/5` (for `x = q/256`,
/// in units of 2⁻⁴⁹², up to one unit of rounding) hold of `t`.
pub open spec fn within_atan_series(q: int, t: int) -> bool {
    let x = q * pow2(484);
    &&& 0 <= t <= x
    &&& 3 * t >= 3 * x - q * q * q * pow2(468) - 3
    &&& 15 * t <= 15 * x - 5 * q * q * q * pow2(468) + 3 * q * q * q * q * q * pow2(452) + 15
}

/// Entries 0 to 31 of the table.
proof fn lemma_atans_0(j: int)
    requires
        0 <= j < 32,
        pow2(452) == 0x100000000000000000000000000000000000000000000000000000000000000000000000000000000000000000000000000000000000000000nat,
        pow2(468) == 0x1000000000000000000000000000000000000000000000000000000000000000000000000000000000000000000000000000000000000000000000nat,
        pow2(484) == 0x10000000000000000000000000000000000000000000000000000000000000000000000000000000000000000000000000000000000000000000000000nat,
    ensures
        within_atan_series(0 + j, table_value(ATANS_0@, j)),
{
    lemma_word_literals();
    if j == 0 {
        assert(ATANS_0@[0] == 0x00000000000000000000000000000000);
        assert(ATANS_0@[1] == 0x00000000000000000000000000000000);
        assert(ATANS_0@[2] == 0x00000000000000000000000000000000);
        assert(ATANS_0@[3] == 0x00000000000000000000000000000000);
        assert(table_value(ATANS_0@, 0) == 0);
        assert(within_atan_series(0int, 0int));
    } else if j == 1 {
        assert(ATANS_0@[4] == 0x0000000ffffaaaaddddb94bb12afb6b6);
        assert(ATANS_0@[5] == 0xd4f7e167c18baeb9bc957892248ad268);
        assert(ATANS_0@[6] == 0x2bef66d688680f625cdfbd62450d6612);
        assert(ATANS_0@[7] == 0x6f5a9d89ebbe467be3ae1471a535c801);
        assert(table_value(ATANS_0@, 1) == 49947722758834345273265808661684630624170842116271458711941652266616865742327383857687359437637952535279218807041167895157165876430983972770924545);
        assert(within_atan_series(1int, 49947722758834345273265808661684630624170842116271458711941652266616865742327383857687359437637952535279218807041167895157165876430983972770924545int));
    } else if j == 2 {
        assert(ATANS_0@[8] == 0x0000001fffd555bbba972d00c46a3f77);
        assert(ATANS_0@[9] == 0xcc15e8ed0ad402e345e003507a2aecfd);
        assert(ATANS_0@[10] == 0xd9ca12111d08128bc8f596f9cb7c5ac4);
        assert(ATANS_0@[11] == 0xa4e52cc7790ed9717e1e5570f29f8d7a);
        assert(table_value(ATANS_0@, 2) == 99893921296157680136268335359386411166012317218268234142572177225578455626915832138312033461513583008543086546751009591048415492871073292303175034);
        assert(within_atan_series(2int, 99893921296157680136268335359386411166012317218268234142572177225578455626915832138312033461513583008543086546751009591048415492871073292303175034int));
    } else if j == 3 {
        assert(ATANS_0@[12] == 0x0000002fff700309861346d7f457bee5);
        assert(ATANS_0@[13] == 0xa5b716f3b42e41beddd8e14db0e87ac4);
        assert(ATANS_0@[14] == 0xd1faddc4ab848ebea3e479e608b5c912);
        assert(ATANS_0@[15] == 0x94bed46af6bbfe41863021b37431d61f);
        assert(table_value(ATANS_0@, 3) == 149837071669522481408184196775290097778628243223092869535072075783937011857320700801361048151613444312340076567228694838855948955395757527882913311);
        assert(within_atan_series(3int, 149837071669522481408184196775290097778628243223092869535072075783937011857320700801361048151613444312340076567228694838855948955395757527882913311int));
    } else if j == 4 {
        assert(ATANS_0@[16] == 0x0000003ffeaab776e5356ef9e3159005);
        assert(ATANS_0@[17] == 0x7dd812083bd970437bbd181a57e00c9d);
        assert(ATANS_0@[18] == 0x5872ea36a1de9858d1e5768d09936286);
        assert(ATANS_0@[19] == 0xe9ba4bcabe016797ad49485a1b8fb4e0);
        assert(table_value(ATANS_0@, 4) == 199775650494480481224810424444082221837676047115586888449420600218001622596859592276359920918274281211284329809362490030014674951931419727456351456);
        assert(within_atan_series(4int, 199775650494480481224810424444082221837676047115586888449420600218001622596859592276359920918274281211284329809362490030014674951931419727456351456int));
    } else if j == 5 {
        assert(ATANS_0@[20] == 0x0000004ffd657c629bfedec153c9304d);
        assert(ATANS_0@[21] == 0x3fd27fd306b025200eb1056335a58a31);
        assert(ATANS_0@[22] == 0x3278438d13644c5de3191734d22a1165);
        assert(ATANS_0@[23] == 0xa6a5a3293c311206a07856b52a899a5a);
        assert(table_value(ATANS_0@, 5) == 249708135223263105940166891686303285510692728408134027166050579345314675333287252787553668828202381744056123943817347350794081827962034821412788826);
        assert(within_atan_series(5int, 249708135223263105940166891686303285510692728408134027166050579345314675333287252787553668828202381744056123943817347350794081827962034821412788826int));
    } else if j == 6 {
        assert(ATANS_0@[24] == 0x0000005ffb80612970d6bce7603f5cab);
        assert(ATANS_0@[25] == 0x5251b8dd4fb816aaedaa2c49cd2154ac);
        assert(ATANS_0@[26] == 0x309136e211e5389a224cf36a7ad69c0b);
        assert(ATANS_0@[27] == 0xef870a9c8faabcba0219c83a73639a09);
        assert(table_value(ATANS_0@, 6) == 299633004423079193847331820726571646822896412000733760777710537292076592684196029340235967458519299044419210159130399453221502949811054976019175945);
        assert(within_atan_series(6int, 299633004423079193847331820726571646822896412000733760777710537292076592684196029340235967458519299044419210159130399453221502949811054976019175945int));
    } else if j == 7 {
        assert(ATANS_0@[28] == 0x0000006ff8db7ca45c470f209c454f7f);
        assert(ATANS_0@[29] == 0x8cafccb479a5c6171a4ba9aaafeff02f);
        assert(ATANS_0@[30] == 0xfdb3c63253408549887dac64cbc9c175);
        assert(ATANS_0@[31] == 0xe84fc8750f3a2a501ca08d7aa9735c47);
        assert(table_value(ATANS_0@, 7) == 349548738053902926421439086139330534055258736207354859427777833489393910383955238519008733286970988819125658489410731179828236738805200424774360135);
        assert(within_atan_series(7int, 349548738053902926421439086139330534055258736207354859427777833489393910383955238519008733286970988819125658489410731179828236738805200424774360135int));
    } else if j == 8 {
        assert(ATANS_0@[32] == 0x0000007ff556eea5d892a13bcebbb6ed);
        assert(ATANS_0@[33] == 0x463109c036814a606dc40b2380beda26);
        assert(ATANS_0@[34] == 0xb08303b2a91f5897e5f9d0f282ff5f7a);
        assert(ATANS_0@[35] == 0x43e2d13c86927c276afc41358c95c6f3);
        assert(table_value(ATANS_0@, 8) == 399453817745625342687821664969640476499427606649202242534669777359789164900985510220611316218216699029448588808113515778192090426894827875326084851);
        assert(within_atan_series(8int, 399453817745625342687821664969640476499427606649202242534669777359789164900985510220611316218216699029448588808113515778192090426894827875326084851int));
    } else if j == 9 {
        assert(ATANS_0@[36] == 0x0000008ff0d2e17624bb10c123d1f899);
        assert(ATANS_0@[37] == 0x68a2aa4ff745e1bc682b8381d3599379);
        assert(ATANS_0@[38] == 0xee4bed1bc015675f9682474fc920da9d);
        assert(ATANS_0@[39] == 0xcd26e237c9daf29974e6bfc7e1c8c87a);
        assert(table_value(ATANS_0@, 9) == 449346727074443348824282586572513047008493370885954199379038932757630835633213353125923517102878704764491045854453122830789635254806135170803484794);
        assert(within_atan_series(9int, 449346727074443348824282586572513047008493370885954199379038932757630835633213353125923517102878704764491045854453122830789635254806135170803484794int));
    } else if j == 10 {
        assert(ATANS_0@[40] == 0x0000009feb2f8b4e4ec8b918538b230d);
        assert(ATANS_0@[41] == 0xa72f6184ecc9b220db88c0729939d7fd);
        assert(ATANS_0@[42] == 0x2da020a0e82e97d6fac1932971e8ba2c);
        assert(ATANS_0@[43] == 0x015f4aef449a6eee6b8d2993c1e8659d);
        assert(table_value(ATANS_0@, 10) == 499225951838360784475666584540236470460041658175100157792735195929387755962432691495067972109397563812501578583228719363331838625494253993577702813);
        assert(within_atan_series(10int, 499225951838360784475666584540236470460041658175100157792735195929387755962432691495067972109397563812501578583228719363331838625494253993577702813int));
    } else if j == 11 {
        assert(ATANS_0@[44] == 0x000000afe44d2fd1d96a576e77e9cff3);
        assert(ATANS_0@[45] == 0x171483c64d55b525a72aab6bd82767c2);
        assert(ATANS_0@[46] == 0x8c6a29b0205875f2e123cec4b00d9fca);
        assert(ATANS_0@[47] == 0xf53f60adf3417c991b20589362e3fb03);
        assert(table_value(ATANS_0@, 11) == 549089980331676862603286459780722801069127267028843666664526262603357596330136219241523436010592848444814264830046432039279893620166238489884752643);
        assert(within_atan_series(11int, 549089980331676862603286459780722801069127267028843666664526262603357596330136219241523436010592848444814264830046432039279893620166238489884752643int));
    } else if j == 12 {
        assert(ATANS_0@[48] == 0x000000bfdc0c2186d14fcf220e10d61d);
        assert(ATANS_0@[49] == 0xf56ec71dddd64f807f208a773120217d);
        assert(ATANS_0@[50] == 0xe7976a5989626439bbf1eed0894b8671);
        assert(ATANS_0@[51] == 0x7017d9b14ed68d755b36e257b0e0e163);
        assert(table_value(ATANS_0@, 12) == 598937303618338159979842088014151170956877518484585612227915366842354640353404455547625873893205570359783258456239629757334569988932853885143408995);
        assert(within_atan_series(12int, 598937303618338159979842088014151170956877518484585612227915366842354640353404455547625873893205570359783258456239629757334569988932853885143408995int));
    } else if j == 13 {
        assert(ATANS_0@[52] == 0x000000cfd24cc34c26fa64520f5e1578);
        assert(ATANS_0@[53] == 0x395ba5847020d6fddb3edb29c65b4e6d);
        assert(ATANS_0@[54] == 0x80f3a8fe006591e707ffe02748cfd1f0);
        assert(ATANS_0@[55] == 0xd18782d70dacadfbb2b41068a96f1e37);
        assert(table_value(ATANS_0@, 13) == 648766415804031299499354742736485094566450068075769497284952784438647197007294501425487648762506785921603749423116073591956245667144603029331713591);
        assert(within_atan_series(13int, 648766415804031299499354742736485094566450068075769497284952784438647197007294501425487648762506785921603749423116073591956245667144603029331713591int));
    } else if j == 14 {
        assert(ATANS_0@[56] == 0x000000dfc6ef89ce221cec03969ab00b);
        assert(ATANS_0@[57] == 0x0ebac9a51f29e95a4be500d1b3e5ca89);
        assert(ATANS_0@[58] == 0x94635b5ffc5d057af8bc6be000539d44);
        assert(ATANS_0@[59] == 0xf2ce72ef90dd074a3fd6eef5ac7c0861);
        assert(table_value(ATANS_0@, 14) == 698575814306894531989348059539755462250623918041105006848717641563981903496989593294018095358686039799512289568190417242615780247903141383013927009);
        assert(within_atan_series(14int, 698575814306894531989348059539755462250623918041105006848717641563981903496989593294018095358686039799512289568190417242615780247903141383013927009int));
    } else if j == 15 {
        assert(ATANS_0@[60] == 0x000000efb9d4fcf8c40fb6b928efbd0d);
        assert(ATANS_0@[61] == 0x2fcff6f59d19ec0fda8e7a582d3aea07);
        assert(ATANS_0@[62] == 0xbc5f600c865034a1a6eb684887d3c544);
        assert(ATANS_0@[63] == 0xce10ad19de2a998dcfd4f3c9d4d00d17);
        assert(table_value(ATANS_0@, 15) == 748364000126727592740601869766565455287238238605235081574693957136539873112266925484731132751444862136539255046817029152240926455234500524715805975);
        assert(within_atan_series(15int, 748364000126727592740601869766565455287238238605235081574693957136539873112266925484731132751444862136539255046817029152240926455234500524715805975int));
    } else if j == 16 {
        assert(ATANS_0@[64] == 0x000000ffaaddb967ef4e36cb2792dc0e);
        assert(ATANS_0@[65] == 0x2e0d51319c12cf59d4b2dc387a9f803c);
        assert(ATANS_0@[66] == 0x4b8aed0249009473e9b7d493fe2926ac);
        assert(ATANS_0@[67] == 0x74803b1404b3e625a4c0a42521de94ef);
        assert(table_value(ATANS_0@, 16) == 798129478112580474926266438448607998325705031767008143371904032940745225829511868278872901044627549422528097226788015262269032478648471949489902831);
        assert(within_atan_series(16int, 798129478112580474926266438448607998325705031767008143371904032940745225829511868278872901044627549422528097226788015262269032478648471949489902831int));
    } else if j == 17 {
        assert(ATANS_0@[68] == 0x0000010f99ea71d52a6f6fcb0089e4ed);
        assert(ATANS_0@[69] == 0x8919d8cfb4ced48fa3ec06901c519477);
        assert(ATANS_0@[70] == 0xb4061c6b9bf91665127c474fdbeb38f1);
        assert(ATANS_0@[71] == 0xc77375db92215563610b904dfff70311);
        assert(table_value(ATANS_0@, 17) == 847870757228603126754485851016236269006870149383750026405082511818733462886424207434286968452870733812284988618687139629119643595983293245090628369);
        assert(within_atan_series(17int, 847870757228603126754485851016236269006870149383750026405082511818733462886424207434286968452870733812284988618687139629119643595983293245090628369int));
    } else if j == 18 {
        assert(ATANS_0@[72] == 0x0000011f86dbf082d58ded447119a20f);
        assert(ATANS_0@[73] == 0xdb0fe529d558c1e15a474e438050ace6);
        assert(ATANS_0@[74] == 0x50b85f3fbc7687fdd85df947dfc5204d);
        assert(ATANS_0@[75] == 0x7c086655ccfe7eff0326b050b6c319ce);
        assert(table_value(ATANS_0@, 18) == 897586350818039539747411122910207934635330491202166911335800489470711529681455782125505293758411136321395966848856843869571338838481384214255311310);
        assert(within_atan_series(18int, 897586350818039539747411122910207934635330491202166911335800489470711529681455782125505293758411136321395966848856843869571338838481384214255311310int));
    } else if j == 19 {
        assert(ATANS_0@[76] == 0x0000012f719318a4a9a027fa2ef37300);
        assert(ATANS_0@[77] == 0x3e5caa22519ec518b299a00e6fba3c07);
        assert(ATANS_0@[78] == 0x12f54e392fa225cf7d5a0e60a1616b08);
        assert(ATANS_0@[79] == 0x2f40af832c092f279888242f420b7aa0);
        assert(table_value(ATANS_0@, 19) == 947274776865251250001617051452569386589641563254763197959891648809939778123453510640362323988623495457739002808900321028072541819757969670975224480);
        assert(within_atan_series(19int, 947274776865251250001617051452569386589641563254763197959891648809939778123453510640362323988623495457739002808900321028072541819757969670975224480int));
    } else if j == 20 {
        assert(ATANS_0@[80] == 0x0000013f59f0e7c559d6b1338a177e11);
        assert(ATANS_0@[81] == 0xcd9bec9eb30fb4bf3790cdc6b617d498);
        assert(ATANS_0@[82] == 0x18882078cb0906d3c33b436af16c3ee1);
        assert(ATANS_0@[83] == 0x7ef028ed6a6f3c97d6dbfa5a33de56f6);
        assert(table_value(ATANS_0@, 20) == 996934558255656920577915599314446786632441648770111641238219906467027866091301599717190394019690216892286112168441543037280175508339472331632957174);
        assert(within_atan_series(20int, 996934558255656920577915599314446786632441648770111641238219906467027866091301599717190394019690216892286112168441543037280175508339472331632957174int));
    } else if j == 21 {
        assert(ATANS_0@[84] == 0x0000014f3fd677292fb2011a6c4c92f3);
        assert(ATANS_0@[85] == 0xb2f1be4d45ea9ea17484d3eef315fe1e);
        assert(ATANS_0@[86] == 0x69218ab6386654f11ad49b76dfb4a663);
        assert(ATANS_0@[87] == 0xe28290b1311aeee2f955731bfc67969d);
        assert(table_value(ATANS_0@, 21) == 1046564223033476409094310552669467797408901348464298620793838258313311218625409516275941337903930841036692777697832055004026271640349171397018752669);
        assert(within_atan_series(21int, 1046564223033476409094310552669467797408901348464298620793838258313311218625409516275941337903930841036692777697832055004026271640349171397018752669int));
    } else if j == 22 {
        assert(ATANS_0@[88] == 0x0000015f2324fd2d7b262a3691004c63);
        assert(ATANS_0@[89] == 0x7eace735fa0c51c0afac18510be0ead1);
        assert(ATANS_0@[90] == 0x08b54360e10c3e97341e8c0a38987f17);
        assert(ATANS_0@[91] == 0xa2f213bbfe2d2d997e93c3756c2f945a);
        assert(table_value(ATANS_0@, 22) == 1096162304657169547845054862636842512275230927040178826621723121458094327372570367232150212807182340407086228675414343680669958371120506083537294426);
        assert(within_atan_series(22int, 1096162304657169547845054862636842512275230927040178826621723121458094327372570367232150212807182340407086228675414343680669958371120506083537294426int));
    } else if j == 23 {
        assert(ATANS_0@[92] == 0x0000016f03bdcea4b0cec0ff1aed05e8);
        assert(ATANS_0@[93] == 0x35fd94922f357b1dd745cb14cd4e02d0);
        assert(ATANS_0@[94] == 0x8e8b8f6feaa8e2ea402ba262264e2e13);
        assert(ATANS_0@[95] == 0xab974bbf07cdd0abf39789314ca64fe4);
        assert(table_value(ATANS_0@, 23) == 1145727342252461771925384835939299804916754776878288600202039623588769472249854465909989616453382956501751903721537864085552259344334884690104569828);
        assert(within_atan_series(23int, 1145727342252461771925384835939299804916754776878288600202039623588769472249854465909989616453382956501751903721537864085552259344334884690104569828int));
    } else if j == 24 {
        assert(ATANS_0@[96] == 0x0000017ee182602f10e8c126acfcf099);
        assert(ATANS_0@[97] == 0xf06cecfc1508f3055c1b865667e058c3);
        assert(ATANS_0@[98] == 0x3e00b45474c82a4933246c7006c6bcfc);
        assert(ATANS_0@[99] == 0x4eed0b05362dd147ccad0f61cb520e9f);
        assert(table_value(ATANS_0@, 24) == 1195257880862850721387346388105145981747691206141641941846498494186922937766235365277160585053603034104346602268547949209465310716440829902500007583);
        assert(within_atan_series(24int, 1195257880862850721387346388105145981747691206141641941846498494186922937766235365277160585053603034104346602268547949209465310716440829902500007583int));
    } else if j == 25 {
        assert(ATANS_0@[100] == 0x0000018ebc54478fb282e6510195a499);
        assert(ATANS_0@[101] == 0x750dec78b762383909b1ebd86f3b623c);
        assert(ATANS_0@[102] == 0x4c8d01b94fe5bd5dfcebb38d9db2e6f8);
        assert(ATANS_0@[103] == 0x69e7a2566ac69d47cc58234f12b4b4a9);
        assert(table_value(ATANS_0@, 25) == 1244752471697490013771764374573944608406606393826901225814997377308034313238024355235358391509113320621708686389580167759401431159562738862275212457);
        assert(within_atan_series(25int, 1244752471697490013771764374573944608406606393826901225814997377308034313238024355235358391509113320621708686389580167759401431159562738862275212457int));
    } else if j == 26 {
        assert(ATANS_0@[104] == 0x0000019e94153cfdcf168ccb875a711f);
        assert(ATANS_0@[105] == 0x8151e9fa90ca2727fec4a8c91e6e324f);
        assert(ATANS_0@[106] == 0x4e839c1d8bf6a7eb2f5a907755f5edc3);
        assert(ATANS_0@[107] == 0xae08dbb9fe797db955cd92b5d2c7776b);
        assert(table_value(ATANS_0@, 26) == 1294209672376348530747130553120199403825852882415444552823117050690868485677087131520614241423211478352729872274819397981766797540841955335172749163);
        assert(within_atan_series(26int, 1294209672376348530747130553120199403825852882415444552823117050690868485677087131520614241423211478352729872274819397981766797540841955335172749163int));
    } else if j == 27 {
        assert(ATANS_0@[108] == 0x000001ae68a71c722b838029cd22173b);
        assert(ATANS_0@[109] == 0x6e5bfbbfe48a9d88eba112c70ba3e798);
        assert(ATANS_0@[110] == 0x1aea1ee88271500b991bca9a50ad8597);
        assert(ATANS_0@[111] == 0xb7d78fa19f142d2cb14846d2b4b246c0);
        assert(table_value(ATANS_0@, 27) == 1343628047172545784243160542648222387178220518519932944859246772875529570612640651687592902735012879574542953987645978761417640891495935214210926272);
        assert(within_atan_series(27int, 1343628047172545784243160542648222387178220518519932944859246772875529570612640651687592902735012879574542953987645978761417640891495935214210926272int));
    } else if j == 28 {
        assert(ATANS_0@[112] == 0x000001be39ebe6f07c37dee3ca681661);
        assert(ATANS_0@[113] == 0xcbb3dd21afca1d234427db1b0e0bd686);
        assert(ATANS_0@[114] == 0x64f7491b36f11e10e85eebf2c072e9a9);
        assert(ATANS_0@[115] == 0x7042bce55540a0f7d48067b563833099);
        assert(table_value(ATANS_0@, 28) == 1393006167251766220518297846228206964398943640195072725690891933232009041635275621853677058187981368067826220555468560870656287142262258730197528729);
        assert(within_atan_series(28int, 1393006167251766220518297846228206964398943640195072725690891933232009041635275621853677058187981368067826220555468560870656287142262258730197528729int));
    } else if j == 29 {
        assert(ATANS_0@[116] == 0x000001ce07c5c3cca322271cc84b2314);
        assert(ATANS_0@[117] == 0xd28c1967b9dd827c7e505b6d450fa5cb);
        assert(ATANS_0@[118] == 0x44d3e14cb3da88d2ed6acfc546c0e770);
        assert(ATANS_0@[119] == 0x7b8254c94c1a1c0aca8c59e3f5b6d42c);
        assert(table_value(ATANS_0@, 29) == 1442342610908657682093360756719745305150314154861202420838338610715506065402416596945605865641019401242400491513179508459360610851773750997037798444);
        assert(within_atan_series(29int, 1442342610908657682093360756719745305150314154861202420838338610715506065402416596945605865641019401242400491513179508459360610851773750997037798444int));
    } else if j == 30 {
        assert(ATANS_0@[120] == 0x000001ddd21701eba6e653bff35dbf95);
        assert(ATANS_0@[121] == 0xfab59910b169af3435b28b68ef4979bc);
        assert(ATANS_0@[122] == 0x0c871028bfa2c67d74e9e46e04ecc4d6);
        assert(ATANS_0@[123] == 0x5e896ad29bec88d550940859d7037358);
        assert(table_value(ATANS_0@, 30) == 1491635963800121674393707100917605550365647056183204054986759417911889338412944778595168074175181630558867974083451824973033221974299292658192053080);
        assert(within_atan_series(30int, 1491635963800121674393707100917605550365647056183204054986759417911889338412944778595168074175181630558867974083451824973033221974299292658192053080int));
    } else if j == 31 {
        assert(ATANS_0@[124] == 0x000001ed98c2190043af62d33d369c27);
        assert(ATANS_0@[125] == 0x6a948e9e36d8465679841fd75ea0e76c);
        assert(ATANS_0@[126] == 0x0b90a6fb3e1cab8999195830963f5bb6);
        assert(ATANS_0@[127] == 0x750b52e37a5feca2d57097953bff97e2);
        assert(table_value(ATANS_0@, 31) == 1540884819175405573180229750212658065423661588366042171946800721772343549154959189075779173734471009519545478164513751575021024487859438202539448290);
        assert(within_atan_series(31int, 1540884819175405573180229750212658065423661588366042171946800721772343549154959189075779173734471009519545478164513751575021024487859438202539448290int));
    }
}

/// Entries 32 to 63 of the table.
proof fn lemma_atans_1(j: int)
    requires
        0 <= j < 32,
        pow2(452) == 0x100000000000000000000000000000000000000000000000000000000000000000000000000000000000000000000000000000000000000000nat,
        pow2(468) == 0x1000000000000000000000000000000000000000000000000000000000000000000000000000000000000000000000000000000000000000000000nat,
        pow2(484) == 0x10000000000000000000000000000000000000000000000000000000000000000000000000000000000000000000000000000000000000000000000000nat,
    ensures
        within_atan_series(32 + j, table_value(ATANS_1@, j)),
{
    lemma_word_literals();
    if j == 0 {
        assert(ATANS_1@[0] == 0x000001fd5ba9aac2f6dc65912f313e7d);
        assert(ATANS_1@[1] == 0x111def1672afb2bb35b245d926aefbf6);
        assert(ATANS_1@[2] == 0xd82ed1a9a0100403b384ca7ff4baa3c4);
        assert(ATANS_1@[3] == 0x69ae3abae79313e535f7fa54d9b1157f);
        assert(table_value(ATANS_1@, 0) == 1590087778102909457265986379870580434403686107846711768942326788500120357926084672625289451687547122526140330186269943560790493543537147340330702207);
        assert(within_atan_series(32int, 1590087778102909457265986379870580434403686107846711768942326788500120357926084672625289451687547122526140330186269943560790493543537147340330702207int));
    } else if j == 1 {
        assert(ATANS_1@[4] == 0x0000020d1ab0842567b30e96be7f3201);
        assert(ATANS_1@[5] == 0x76b74fcb8fbed65afedb4b1bc39a3fac);
        assert(ATANS_1@[6] == 0x4ccb1fce00e462c350133793e76e9bee);
        assert(ATANS_1@[7] == 0x963be7df6d8e914efc8755547ed246a8);
        assert(table_value(ATANS_1@, 1) == 1639243449693622855407134525591501982752227087512557988721287112930621718168680244353916221597550659778029427943285378280516346514970072878744225448);
        assert(within_atan_series(33int, 1639243449693622855407134525591501982752227087512557988721287112930621718168680244353916221597550659778029427943285378280516346514970072878744225448int));
    } else if j == 2 {
        assert(ATANS_1@[8] == 0x0000021cd5b99e811031472e72233979);
        assert(ATANS_1@[9] == 0x639684d87af78f809142886f8758604a);
        assert(ATANS_1@[10] == 0x83365ea493561e62ac41e217f8cbaa57);
        assert(ATANS_1@[11] == 0x870c3db4372f929474992812176288e7);
        assert(table_value(ATANS_1@, 2) == 1688350451321109353372727155421111575601167867140427616052828371023516659515914146685404801022202210613639676178779920986073675691851512033312934119);
        assert(within_atan_series(34int, 1688350451321109353372727155421111575601167867140427616052828371023516659515914146685404801022202210613639676178779920986073675691851512033312934119int));
    } else if j == 3 {
        assert(ATANS_1@[12] == 0x0000022c8ca820c10a0b5e774573f548);
        assert(ATANS_1@[13] == 0xd5e3062929db777f89387f93b0c5bc68);
        assert(ATANS_1@[14] == 0xfa69be22637537dbf048484d054d029e);
        assert(ATANS_1@[15] == 0x9f297b2df3ca8b4114288362f005263c);
        assert(table_value(ATANS_1@, 3) == 1737407408837959713744099999835551185830140196648981975534801907377236371765221110495631351087643232296369309674351687417194355599616356947845260860);
        assert(within_atan_series(35int, 1737407408837959713744099999835551185830140196648981975534801907377236371765221110495631351087643232296369309674351687417194355599616356947845260860int));
    } else if j == 4 {
        assert(ATANS_1@[16] == 0x0000023c3f5f6086e4dc96f4dd64a60e);
        assert(ATANS_1@[17] == 0x82be678a856b0a7f003239802c41c0be);
        assert(ATANS_1@[18] == 0x90468d86815e7981f40daf6876258ccf);
        assert(ATANS_1@[19] == 0x5586e7c24f7db6a7027102c25d670d26);
        assert(table_value(ATANS_1@, 4) == 1786412956788636913640803204808069534396769166720485170852362967440210595193383763503274632719151693577399297792554232340161407014102594424505044262);
        assert(within_atan_series(36int, 1786412956788636913640803204808069534396769166720485170852362967440210595193383763503274632719151693577399297792554232340161407014102594424505044262int));
    } else if j == 5 {
        assert(ATANS_1@[20] == 0x0000024bedc2e34a6b8be36bdef0d188);
        assert(ATANS_1@[21] == 0x3ce1cad71a122103b7390029970c1999);
        assert(ATANS_1@[22] == 0xe00895df2d3e0b5839fc73dc8067c41d);
        assert(ATANS_1@[23] == 0xe86b10cff80117d81bd767ada35c522a);
        assert(table_value(ATANS_1@, 5) == 1835365738618639300955378788882081536145850411212206440611363114160936168425820802015357447885996545844091384534539563516030983662934552017184248362);
        assert(within_atan_series(37int, 1835365738618639300955378788882081536145850411212206440611363114160936168425820802015357447885996545844091384534539563516030983662934552017184248362int));
    } else if j == 6 {
        assert(ATANS_1@[24] == 0x0000025b97b65f743fe63ca1c155854d);
        assert(ATANS_1@[25] == 0x14fcab40fd271ac3c6138e21eff2c091);
        assert(ATANS_1@[26] == 0xff2129135bb99093a0e35f23f2d2f412);
        assert(ATANS_1@[27] == 0xef49882d4695f78ebc7f75352cf1c80f);
        assert(table_value(ATANS_1@, 6) == 1884264406879910904418018120231477685958061535256460530491602687109333767383374677290862061637343962921142461859344902469489702083055484527963129871);
        assert(within_atan_series(38int, 1884264406879910904418018120231477685958061535256460530491602687109333767383374677290862061637343962921142461859344902469489702083055484527963129871int));
    } else if j == 7 {
        assert(ATANS_1@[28] == 0x0000026b3d1dbd733472d01458dcfd9c);
        assert(ATANS_1@[29] == 0xe2bd30b5bd245b577ec203c856851fdc);
        assert(ATANS_1@[30] == 0x4387dcd667d187ec429b6e13ad104b30);
        assert(ATANS_1@[31] == 0x7df04c616945c1c096d9ac31a5854944);
        assert(table_value(ATANS_1@, 7) == 1933107623432430803499506278655074728860210239400626039494502362166342641993840580463252380312424134310921890474916244259889704873800685154057144644);
        assert(within_atan_series(39int, 1933107623432430803499506278655074728860210239400626039494502362166342641993840580463252380312424134310921890474916244259889704873800685154057144644int));
    } else if j == 8 {
        assert(ATANS_1@[32] == 0x0000027adddd18cc4d8b0d1d8674940d);
        assert(ATANS_1@[33] == 0x83fa15dd4bd3e2eb74a37132f0292d0a);
        assert(ATANS_1@[34] == 0x3c05b6d60ea3bbc6aa4fcde49b5b0a8a);
        assert(ATANS_1@[35] == 0xdca3fbb480a41c6fdac72a4d22e76be3);
        assert(table_value(ATANS_1@, 8) == 1981894059641916367378922210174607440231148034283645646907422475495731163725955831400991040140729091648383986032123522942260701019728947877033503715);
        assert(within_atan_series(40int, 1981894059641916367378922210174607440231148034283645646907422475495731163725955831400991040140729091648383986032123522942260701019728947877033503715int));
    } else if j == 9 {
        assert(ATANS_1@[36] == 0x0000028a79d8c12553c8fb29d9d2d3c5);
        assert(ATANS_1@[37] == 0xb858fd95008299165ca72790d4bc43bd);
        assert(ATANS_1@[38] == 0x019c4133b2b30d56d6f43f242275b65e);
        assert(ATANS_1@[39] == 0xc851b62f2a8a9653615f42fe9defee47);
        assert(table_value(ATANS_1@, 9) == 2030622396573578104525905939968051531476707684146684766281514873618241924354349627008881171500382428469235341394664629477699292342970901035094109767);
        assert(within_atan_series(41int, 2030622396573578104525905939968051531476707684146684766281514873618241924354349627008881171500382428469235341394664629477699292342970901035094109767int));
    } else if j == 10 {
        assert(ATANS_1@[40] == 0x0000029a10f53b49e2e8f991f8d6f8ab);
        assert(ATANS_1@[41] == 0xcc1f785f820a0a602974f71e7b47d3fc);
        assert(ATANS_1@[42] == 0xb54d0168365a5201dcfa4ce0f5b5d7c2);
        assert(ATANS_1@[43] == 0x7bdc8630e9967d2c966a8a494772ab25);
        assert(table_value(ATANS_1@, 10) == 2079291325181866822448749030469641059998439698306220133702201580028609429711677143728897474411001895180786767323113135697202041533296797318351334181);
        assert(within_atan_series(42int, 2079291325181866822448749030469641059998439698306220133702201580028609429711677143728897474411001895180786767323113135697202041533296797318351334181int));
    } else if j == 11 {
        assert(ATANS_1@[44] == 0x000002a9a317422ae148c14179442039);
        assert(ATANS_1@[45] == 0xbaca952f68c3d18607febf998a3efc4f);
        assert(ATANS_1@[46] == 0x7960778b884a9feffa81560b49f616e8);
        assert(ATANS_1@[47] == 0x306a92bb9592d9871c02b51f79d6672a);
        assert(table_value(ATANS_1@, 11) == 2127899546496156777415784868788256677777324228502477521621936314811248385047675315690573102912537218364888692249594182428519416613868264004850706218);
        assert(within_atan_series(43int, 2127899546496156777415784868788256677777324228502477521621936314811248385047675315690573102912537218364888692249594182428519416613868264004850706218int));
    } else if j == 12 {
        assert(ATANS_1@[48] == 0x000002b93023c7d84d3bead534ffbc30);
        assert(ATANS_1@[49] == 0xb7a650b4f9b7546c1ad3307d8d94cf49);
        assert(ATANS_1@[50] == 0xef5302514c715eb67c8dca4fd6da4c39);
        assert(ATANS_1@[51] == 0xcd9f1bf80dddb0101678b0d4661db702);
        assert(table_value(ATANS_1@, 12) == 2176445771802311493054611620366940953650671652691791240387288341313509674089775412586491008023934905403558877904498139743354940278400680919750784770);
        assert(within_atan_series(44int, 2176445771802311493054611620366940953650671652691791240387288341313509674089775412586491008023934905403558877904498139743354940278400680919750784770int));
    } else if j == 13 {
        assert(ATANS_1@[52] == 0x000002c8b7fff6754e7e0ac949883d34);
        assert(ATANS_1@[53] == 0xc6f1118fddf54c6d28096444ea8d2b76);
        assert(ATANS_1@[54] == 0x6dc2cdb25929a3b04b204bb0f3ba3118);
        assert(ATANS_1@[55] == 0xac689953f1ebcd62dba77eb2e71d3748);
        assert(table_value(ATANS_1@, 13) == 2224928722820081941272463316150338374618621413105497037048994684357171975982918431242567564532363137418915114039966456829352883327131576712017295176);
        assert(within_atan_series(45int, 2224928722820081941272463316150338374618621413105497037048994684357171975982918431242567564532363137418915114039966456829352883327131576712017295176int));
    } else if j == 14 {
        assert(ATANS_1@[56] == 0x000002d83a9131267b1b5aad627f0ef6);
        assert(ATANS_1@[57] == 0x549a0b4ffb8c879083c3e1c29127f218);
        assert(ATANS_1@[58] == 0xab4d978ef838178eca1e3ba26831a1e9);
        assert(ATANS_1@[59] == 0x85042b94ffed467d27ea11ff62734bb8);
        assert(table_value(ATANS_1@, 14) == 2273347131876289805542611619779703476827100540703153166766215373539988465164082616848918873496555870161889532504818755948355727601597497639781485496);
        assert(within_atan_series(46int, 2273347131876289805542611619779703476827100540703153166766215373539988465164082616848918873496555870161889532504818755948355727601597497639781485496int));
    } else if j == 15 {
        assert(ATANS_1@[60] == 0x000002e7b7bd14fa403a94bc24ad6668);
        assert(ATANS_1@[61] == 0xd5f078b62242977f6c0a1a4c21996009);
        assert(ATANS_1@[62] == 0x2d34d2cab1d2417eb0d22fff7147c644);
        assert(ATANS_1@[63] == 0x347071b5a9ab0700b6577da82afeb0a5);
        assert(table_value(ATANS_1@, 15) == 2321699742073751581912479424131712791875633260273750975013681179023801860927786299995658583767934618930105679077256192349281317074833791377538461861);
        assert(within_atan_series(47int, 2321699742073751581912479424131712791875633260273750975013681179023801860927786299995658583767934618930105679077256192349281317074833791377538461861int));
    } else if j == 16 {
        assert(ATANS_1@[64] == 0x000002f72f6979cb6044d1ec2d3e2072);
        assert(ATANS_1@[65] == 0x71d21e4eb4035a0e28acabc169a93c79);
        assert(ATANS_1@[66] == 0xf5cb465c41183a1314740a2e0e37d3f5);
        assert(ATANS_1@[67] == 0xc02f3e354604108d5df802a81b45b550);
        assert(table_value(ATANS_1@, 16) == 2369985307455902313786108940882414386482384495922250887468768964594020766315654636205172256921159049693279343031458188085040729735953257538966107472);
        assert(within_atan_series(48int, 2369985307455902313786108940882414386482384495922250887468768964594020766315654636205172256921159049693279343031458188085040729735953257538966107472int));
    } else if j == 17 {
        assert(ATANS_1@[68] == 0x00000306a17c731d78fa95bb33518dbc);
        assert(ATANS_1@[69] == 0xc20fb83aa95920ade66d4edc5992388b);
        assert(ATANS_1@[70] == 0xa6f5ff9217c225eb3d2df8a3881658ac);
        assert(ATANS_1@[71] == 0xc7f9648f26c41bf0955fb2bffbcceff0);
        assert(table_value(ATANS_1@, 17) == 2418202593167080799329126561064976907749042620760855512188626479947961833834526121274577729437850964905400341802877544668851557598157941598386450416);
        assert(within_atan_series(49int, 2418202593167080799329126561064976907749042620760855512188626479947961833834526121274577729437850964905400341802877544668851557598157941598386450416int));
    } else if j == 18 {
        assert(ATANS_1@[72] == 0x000003160ddc50f38517739967e7b9d8);
        assert(ATANS_1@[73] == 0x5f2c5a797d90c339400bdeeb9d3f7a36);
        assert(ATANS_1@[74] == 0xd0e0c9ba2a914f8da54e8537477a50a7);
        assert(ATANS_1@[75] == 0xa037a0645863e1d8a38a4d021c10d43c);
        assert(table_value(ATANS_1@, 18) == 2466350375608441151991017985111630482762637586064080009603449821737493588403304173514742474354884481007057619321016082127684129224987152262641013820);
        assert(within_atan_series(50int, 2466350375608441151991017985111630482762637586064080009603449821737493588403304173514742474354884481007057619321016082127684129224987152262641013820int));
    } else if j == 19 {
        assert(ATANS_1@[76] == 0x00000325746fa0a04e37961097805c4e);
        assert(ATANS_1@[77] == 0x1ec71bfd3e8e910efb2cb784176a4d62);
        assert(ATANS_1@[78] == 0x1348edf66b6f541ef746b37122f0d734);
        assert(ATANS_1@[79] == 0xadac3222f6b01d8dce9c5e5f60493c8a);
        assert(table_value(ATANS_1@, 19) == 2514427442589458631934922725168190976985176253355751086616938876656760596862596001468242951013286120147621522322250267439283509953364180043882380426);
        assert(within_atan_series(51int, 2514427442589458631934922725168190976985176253355751086616938876656760596862596001468242951013286120147621522322250267439283509953364180043882380426int));
    } else if j == 20 {
        assert(ATANS_1@[80] == 0x00000334d51d2d90c4c39ec03cf68691);
        assert(ATANS_1@[81] == 0xbbaceaafc499306f09d86fc1796da222);
        assert(ATANS_1@[82] == 0x4cf0a3e50601a64c501b484f6edfe1b8);
        assert(ATANS_1@[83] == 0x356baa58182f3b1cd2237bf646ff85dd);
        assert(table_value(ATANS_1@, 20) == 2562432593475000695956248480090771052596883256561457931010776325539284091514600694073184139918018051555231677831409902414682472634565446814008313309);
        assert(within_atan_series(52int, 2562432593475000695956248480090771052596883256561457931010776325539284091514600694073184139918018051555231677831409902414682472634565446814008313309int));
    } else if j == 21 {
        assert(ATANS_1@[84] == 0x000003442fcc021034b79083acfa8646);
        assert(ATANS_1@[85] == 0x3cf3b8d8a7ad78664d9d84e0f9b08929);
        assert(ATANS_1@[86] == 0x270714d93ee4b993cb59188d7a6c934b);
        assert(ATANS_1@[87] == 0xd93bd1ec022ddcfd71a5b466afaf5908);
        assert(table_value(ATANS_1@, 21) == 2610364639327937232658913436563311026665266864418298995487969747896158448506647271639278562849509768621311103110848285347330776928458798936982771976);
        assert(within_atan_series(53int, 2610364639327937232658913436563311026665266864418298995487969747896158448506647271639278562849509768621311103110848285347330776928458798936982771976int));
    } else if j == 22 {
        assert(ATANS_1@[88] == 0x00000353846368064f28745df44e6542);
        assert(ATANS_1@[89] == 0xa87586909c14513c78e6582ec8d0975b);
        assert(ATANS_1@[90] == 0xd3ea29f24f2e8b140d9ee24acd3294af);
        assert(ATANS_1@[91] == 0x9b37aee7436586ee3bc74482c2e08b89);
        assert(table_value(ATANS_1@, 22) == 2658222403047266955200571996923585136560200505289972787986258631850357605815706529944754572021524022246145012457715251532626839681664758465028983689);
        assert(within_atan_series(54int, 2658222403047266955200571996923585136560200505289972787986258631850357605815706529944754572021524022246145012457715251532626839681664758465028983689int));
    } else if j == 23 {
        assert(ATANS_1@[92] == 0x00000362d2cae9af0179e951c0fa9663);
        assert(ATANS_1@[93] == 0x3f48ac9f4e6ac180edaf83b878193a1b);
        assert(ATANS_1@[94] == 0x814a0992be0f07d8052da91d9eaa5da1);
        assert(ATANS_1@[95] == 0xd01024e1e1f8cda7b7f4da9e22f003cb);
        assert(table_value(ATANS_1@, 23) == 2706004719501739912836266162730289047590596712747741808620905563180470667682430254518058825325492021196309018680429698073790610523568022521096700875);
        assert(within_atan_series(55int, 2706004719501739912836266162730289047590596712747741808620905563180470667682430254518058825325492021196309018680429698073790610523568022521096700875int));
    } else if j == 24 {
        assert(ATANS_1@[96] == 0x000003721aea524c14408bd88697072d);
        assert(ATANS_1@[97] == 0x54bc0a19144a34e92c49555881bc65fe);
        assert(ATANS_1@[98] == 0x10a3b10c6abd0137701d52a7d62b5bba);
        assert(ATANS_1@[99] == 0xce5d81bf788c79be36135d5f2f22e2d9);
        assert(table_value(ATANS_1@, 24) == 2753710435658959051869730319190627381128644096771481378060378898278648092473218111047185305096874297327370460617450536797687454669389473469517980377);
        assert(within_atan_series(56int, 2753710435658959051869730319190627381128644096771481378060378898278648092473218111047185305096874297327370460617450536797687454669389473469517980377int));
    } else if j == 25 {
        assert(ATANS_1@[100] == 0x000003815ca9aed08cd7d99205506c92);
        assert(ATANS_1@[101] == 0x13bed92f30bc530228d390be927c77ff);
        assert(ATANS_1@[102] == 0x03accf78257e74023a354f2b6db3c08b);
        assert(ATANS_1@[103] == 0xf886cf32ad755a2a3c8ee71bcfb8f0b6);
        assert(table_value(ATANS_1@, 25) == 2801338410709946703618472726726160820773632334393879849514252527772110754239038184238795728563294182175449401294171515980009857996828484686220685494);
        assert(within_atan_series(57int, 2801338410709946703618472726726160820773632334393879849514252527772110754239038184238795728563294182175449401294171515980009857996828484686220685494int));
    } else if j == 26 {
        assert(ATANS_1@[104] == 0x0000039097f14e85cdb9a908be5f4576);
        assert(ATANS_1@[105] == 0x6d521969f79c2c23af573630280dd546);
        assert(ATANS_1@[106] == 0xb7e08077a90b894f88a2935845ab6efb);
        assert(ATANS_1@[107] == 0xed4bf05c7d4324b3757b888ba384834a);
        assert(table_value(ATANS_1@, 26) == 2848887516189164798840820009419888941576642413932932881671841502696630832606180463619934184269702554166479334092480593095248694292985937895765607242);
        assert(within_atan_series(58int, 2848887516189164798840820009419888941576642413932932881671841502696630832606180463619934184269702554166479334092480593095248694292985937895765607242int));
    } else if j == 27 {
        assert(ATANS_1@[108] == 0x0000039fcca9c3aa72aa3dcd1fb8f57d);
        assert(ATANS_1@[109] == 0xac766cc23f3b11f847c4c5c89eeb2345);
        assert(ATANS_1@[110] == 0x9a44be497e262fb49c05960822f91e0d);
        assert(ATANS_1@[111] == 0xdcd03097865dd63714ab4ad8c32cf091);
        assert(table_value(ATANS_1@, 27) == 2896356636089980502064238127162185453517592726682110613861673057671935767923383486544728317973172992322899919505636747851528231405238091619555405969);
        assert(within_atan_series(59int, 2896356636089980502064238127162185453517592726682110613861673057671935767923383486544728317973172992322899919505636747851528231405238091619555405969int));
    } else if j == 28 {
        assert(ATANS_1@[112] == 0x000003aefabbe40ae6ce32468a9a2cbe);
        assert(ATANS_1@[113] == 0xf5e39ec4b3b0a80cbfc0179b6867e8a2);
        assert(ATANS_1@[114] == 0x76c061e4e4bd1560f6205b8c3e75fd7c);
        assert(ATANS_1@[115] == 0xa6cbcc4a7522b843bc77ef96efef59ca);
        assert(table_value(ATANS_1@, 28) == 2943744666975571822777159953770319365924646864642093530757344663904488154630782105102015875478471708996967510870206303514066015381398584388385462730);
        assert(within_atan_series(60int, 2943744666975571822777159953770319365924646864642093530757344663904488154630782105102015875478471708996967510870206303514066015381398584388385462730int));
    } else if j == 29 {
        assert(ATANS_1@[116] == 0x000003be2210c993b3bea7e74ac40b87);
        assert(ATANS_1@[117] == 0xf65091c68abe98b7a73c31d0cbb9f711);
        assert(ATANS_1@[118] == 0x0586aec406449bfd09321218a01d8aea);
        assert(ATANS_1@[119] == 0x9c1fd673a4f94c9d1ce7dadc8eb8bb99);
        assert(table_value(ATANS_1@, 29) == 2991050518085270590965591466134108659207009134756265744057800435180627655612478184028320399780424409235384015495589317483836922967106153641743530905);
        assert(within_atan_series(61int, 2991050518085270590965591466134108659207009134756265744057800435180627655612478184028320399780424409235384015495589317483836922967106153641743530905int));
    } else if j == 30 {
        assert(ATANS_1@[120] == 0x000003cd4291d2dd89ac33591014fbb2);
        assert(ATANS_1@[121] == 0x81a0733bf6daf4bff91cf139179b4011);
        assert(ATANS_1@[122] == 0x1d1fbaa6431498e027783dbdd37edc43);
        assert(ATANS_1@[123] == 0xb6c29de5c3e82a1963ac0590f749d4c4);
        assert(table_value(ATANS_1@, 30) == 3038273111436342979539455361008373349463859760612905560616241955656323303276112169364600230052008390117645263741081107199711448724119140884074321092);
        assert(within_atan_series(62int, 3038273111436342979539455361008373349463859760612905560616241955656323303276112169364600230052008390117645263741081107199711448724119140884074321092int));
    } else if j == 31 {
        assert(ATANS_1@[124] == 0x000003dc5c28a3b301999623dcee515b);
        assert(ATANS_1@[125] == 0xd423c91d7dacdb3d6cac62497af5329b);
        assert(ATANS_1@[126] == 0x1e0f30999f94eb28a09adaa5d2e4c7eb);
        assert(ATANS_1@[127] == 0x36fcc70131b7b262ecbdff74f7152232);
        assert(table_value(ATANS_1@, 31) == 3085411381921210513437029234848414794913050705434361609230833748010977043994194031585694282962776130474686377867665618543601230911756456469581865522);
        assert(within_atan_series(63int, 3085411381921210513437029234848414794913050705434361609230833748010977043994194031585694282962776130474686377867665618543601230911756456469581865522int));
    }
}

/// Entries 64 to 95 of the table.
proof fn lemma_atans_2(j: int)
    requires
        0 <= j < 32,
        pow2(452) == 0x100000000000000000000000000000000000000000000000000000000000000000000000000000000000000000000000000000000000000000nat,
        pow2(468) == 0x1000000000000000000000000000000000000000000000000000000000000000000000000000000000000000000000000000000000000000000000nat,
        pow2(484) == 0x10000000000000000000000000000000000000000000000000000000000000000000000000000000000000000000000000000000000000000000000000nat,
    ensures
        within_atan_series(64 + j, table_value(ATANS_2@, j)),
{
    lemma_word_literals();
    if j == 0 {
        assert(ATANS_2@[0] == 0x000003eb6ebf25901bac55b71e7bd7de);
        assert(ATANS_2@[1] == 0x885f96a9fea40e22ce0dade8e9d9f251);
        assert(ATANS_2@[2] == 0x269d964ae49459a395d94c16fa316e96);
        assert(ATANS_2@[3] == 0x0c68f8f0af089c1c793e683d070eac0e);
        assert(table_value(ATANS_2@, 0) == 3132464277400117222342710704210376562427210805494660384248292320963990172583066063617008174583047240020501348030104595516096622858067173667962268686);
        assert(within_atan_series(64int, 3132464277400117222342710704210376562427210805494660384248292320963990172583066063617008174583047240020501348030104595516096622858067173667962268686int));
    } else if j == 1 {
        assert(ATANS_2@[4] == 0x000003fa7a3f881b7c826e28de7438bd);
        assert(ATANS_2@[5] == 0x4f2b7344f7ea1b5d98d16df4f7199ac3);
        assert(ATANS_2@[6] == 0x47d38ed31c80ed48b6bf7c85b09e5233);
        assert(ATANS_2@[7] == 0x84f63b833470b033a32f8378f9610df5);
        assert(table_value(ATANS_2@, 1) == 3179430758789251268818098871160198803109907077095925640047410329534136940579607645389324227314023101884356831366884122252864562509030227104399166965);
        assert(within_atan_series(65int, 3179430758789251268818098871160198803109907077095925640047410329534136940579607645389324227314023101884356831366884122252864562509030227104399166965int));
    } else if j == 2 {
        assert(ATANS_2@[8] == 0x000004097e9441996d698d2097cd05b8);
        assert(ATANS_2@[9] == 0x5a52f129d011dace22cef3eab212e3ba);
        assert(ATANS_2@[10] == 0x76182da5fd8b74bd301ee5522dc95dd2);
        assert(ATANS_2@[11] == 0x6f16781d25d9236fa9167701977b622e);
        assert(table_value(ATANS_2@, 2) == 3226309800144332014135794238089533694289775148682460420770759364950528603409107727158894858242922326075182829710358218446901977603162726506933477934);
        assert(within_atan_series(66int, 3226309800144332014135794238089533694289775148682460420770759364950528603409107727158894858242922326075182829710358218446901977603162726506933477934int));
    } else if j == 3 {
        assert(ATANS_2@[12] == 0x000004187ba80f58a43d4113e49d579f);
        assert(ATANS_2@[13] == 0xe16a0ff1fddaf1fd4d38c065fd18f3fe);
        assert(ATANS_2@[14] == 0x7098a7154472a623ab47ed8d8727b0a7);
        assert(ATANS_2@[15] == 0xd5cc4721704448a92b443aba26ad228c);
        assert(table_value(ATANS_2@, 3) == 3273100388739676068220049868521185171286285888513181812923005909939153501795626689810534937015194858950409230608093042721356952399658509430577504908);
        assert(within_atan_series(67int, 3273100388739676068220049868521185171286285888513181812923005909939153501795626689810534937015194858950409230608093042721356952399658509430577504908int));
    } else if j == 4 {
        assert(ATANS_2@[16] == 0x000004277165f618d8962e47390cb865);
        assert(ATANS_2@[17] == 0x5e9d1571285505b7e82d8742430ca025);
        assert(ATANS_2@[18] == 0x982282e0b453329fdcf5eb8e6b642233);
        assert(ATANS_2@[19] == 0x656ac3eee457303fd1ec2fa0c0020fb3);
        assert(table_value(ATANS_2@, 4) == 3319801525142758405934316625896831342293400985327215092958911881130334585328643722495915650992418363843823821924474629681784595448232310597392404403);
        assert(within_atan_series(68int, 3319801525142758405934316625896831342293400985327215092958911881130334585328643722495915650992418363843823821924474629681784595448232310597392404403int));
    } else if j == 5 {
        assert(ATANS_2@[20] == 0x000004365fb9426b2cd47c317bd5a3ea);
        assert(ATANS_2@[21] == 0xe0bb79af3fd40a05e2e0d7e0be08177c);
        assert(ATANS_2@[22] == 0xa6b77ec1f1489b1b16b22743bdd771ad);
        assert(ATANS_2@[23] == 0xc2f8450642b58cf06beb49ad2f74b596);
        assert(table_value(ATANS_2@, 5) == 3366412223284287117704978762687622747310637805418962725137676082777827510457574952507695872193613322791547836580354822949570063684167331213506557334);
        assert(within_atan_series(69int, 3366412223284287117704978762687622747310637805418962725137676082777827510457574952507695872193613322791547836580354822949570063684167331213506557334int));
    } else if j == 6 {
        assert(ATANS_2@[24] == 0x00000445468d890c726b237236f88461);
        assert(ATANS_2@[25] == 0x3c81a979d9a18ba0a243d876d4fea0d5);
        assert(ATANS_2@[26] == 0xe882f54b319bfc0ec8aff65b54ac58a9);
        assert(ATANS_2@[27] == 0x7f939267acb9c46d3bb97a33d4e80363);
        assert(table_value(ATANS_2@, 6) == 3412931510523812796422538876670615442075094144921468917110337464898537865026927635868262488938465322790458532500783226900824658751593021550124073827);
        assert(within_atan_series(70int, 3412931510523812796422538876670615442075094144921468917110337464898537865026927635868262488938465322790458532500783226900824658751593021550124073827int));
    } else if j == 7 {
        assert(ATANS_2@[28] == 0x0000045425cea73951a8694580635cd8);
        assert(ATANS_2@[29] == 0x6108b4bf1726d002dbee33f9c4f9548b);
        assert(ATANS_2@[30] == 0x7628b3cd7e9b373a6679d930186b419c);
        assert(ATANS_2@[31] == 0x44f0db9e119e0df3eebe6f9c7fc1f253);
        assert(table_value(ATANS_2@, 7) == 3459358427710895943103448449299611133886664444320828636857149858941245215352886113279107516127551833411149277796572684187434142997402386469493011027);
        assert(within_atan_series(71int, 3459358427710895943103448449299611133886664444320828636857149858941245215352886113279107516127551833411149277796572684187434142997402386469493011027int));
    } else if j == 8 {
        assert(ATANS_2@[32] == 0x00000462fd68c2fc5e0986523a458dfc);
        assert(ATANS_2@[33] == 0x414c687e9714de0d27de7e5275dd6a84);
        assert(ATANS_2@[34] == 0x5027428af6d95b8c8226dedf331adae2);
        assert(ATANS_2@[35] == 0x8c34056bac311e76734f49fcc00a83bb);
        assert(table_value(ATANS_2@, 8) == 3505692029241858099413355216156069116531632850804379688696581740679533232355767715040903298859503831405444511387265875918279065057888668907813372859);
        assert(within_atan_series(72int, 3505692029241858099413355216156069116531632850804379688696581740679533232355767715040903298859503831405444511387265875918279065057888668907813372859int));
    } else if j == 9 {
        assert(ATANS_2@[36] == 0x00000471cd484b7620f41329c39a6869);
        assert(ATANS_2@[37] == 0x26c0d1131740ef5b9dede8d89bef42de);
        assert(ATANS_2@[38] == 0x95dad74b2522edaf9f7e5229ef96972d);
        assert(ATANS_2@[39] == 0xdb26907ee32832b5c819760a7911650c);
        assert(table_value(ATANS_2@, 9) == 3551931383112144684430117373779001516133692240661579680026761558874011730187091282356581397584932779144449263897965631949760298405919770724315260172);
        assert(within_atan_series(73int, 3551931383112144684430117373779001516133692240661579680026761558874011730187091282356581397584932779144449263897965631949760298405919770724315260172int));
    } else if j == 10 {
        assert(ATANS_2@[40] == 0x000004809559f91f25773e6e6b85eb78);
        assert(ATANS_2@[41] == 0xccc11f2adf0aea06064a115f20819451);
        assert(ATANS_2@[42] == 0x46f9cb4e812beb2094c62e0ced958a50);
        assert(ATANS_2@[43] == 0x8fabee6ad44fae00913e9b4a3d2094dd);
        assert(table_value(ATANS_2@, 10) == 3598075570964329724645699140375702502007968949765727447839372735587313193472446180368963581385647571834594886606273911814248953399499832132729083101);
        assert(within_atan_series(74int, 3598075570964329724645699140375702502007968949765727447839372735587313193472446180368963581385647571834594886606273911814248953399499832132729083101int));
    } else if j == 11 {
        assert(ATANS_2@[44] == 0x0000048f558ace041078eb3a3a77ffdd);
        assert(ATANS_2@[45] == 0xebe99a0d090cf4564b2aca985fa7c924);
        assert(ATANS_2@[46] == 0x4ac7da7e8b5a61427cc25e7d92cc9398);
        assert(ATANS_2@[47] == 0x4042a8871efaee216bae902a7a010f2c);
        assert(table_value(ATANS_2@, 11) == 3644123688131794818951938199943196695309985203444694162921436209303194394611122234382553571685406760282572078639786628971968711814716489644801855276);
        assert(within_atan_series(75int, 3644123688131794818951938199943196695309985203444694162921436209303194394611122234382553571685406760282572078639786628971968711814716489644801855276int));
    } else if j == 12 {
        assert(ATANS_2@[48] == 0x0000049e0dc815fbd16f88322c92037f);
        assert(ATANS_2@[49] == 0x0a23d223e10cf906b19163d78b33a398);
        assert(ATANS_2@[50] == 0x4379f77550ff3d4e2af6c5111774994c);
        assert(ATANS_2@[51] == 0xe672f39a8dac312f70f054c887024f2e);
        assert(table_value(ATANS_2@, 12) == 3690074843678116773106578783436315097486899696794749047197185695247171141998478985783256655496723758136524331201664112589324897124997238444217487150);
        assert(within_atan_series(76int, 3690074843678116773106578783436315097486899696794749047197185695247171141998478985783256655496723758136524331201664112589324897124997238444217487150int));
    } else if j == 13 {
        assert(ATANS_2@[52] == 0x000004acbdff66d7f880a11e7e0e16a2);
        assert(ATANS_2@[53] == 0x148aaf4cf1a52adec4ef0bc11d84cfb7);
        assert(ATANS_2@[54] == 0x4bd3d3db4bbcc84402d2d1e2ac1d5f12);
        assert(ATANS_2@[55] == 0x6d3e2b3c577713058331b29a0dfe203d);
        assert(table_value(ATANS_2@, 13) == 3735928160432200369911370442055452835870799157803049698624861986792523050529788300154335009219794780116483481428589479889916264085645279805319290941);
        assert(within_atan_series(77int, 3735928160432200369911370442055452835870799157803049698624861986792523050529788300154335009219794780116483481428589479889916264085645279805319290941int));
    } else if j == 14 {
        assert(ATANS_2@[56] == 0x000004bb661ea08f3f8dc892c7500964);
        assert(ATANS_2@[57] == 0xd0de34f9e3ef24c2b9c5ead4a61cce91);
        assert(ATANS_2@[58] == 0xef2eb62a6a1b6d7bf2f67f1156669300);
        assert(ATANS_2@[59] == 0x17bc1fdc857780490a8a70ca9b21f57e);
        assert(table_value(ATANS_2@, 14) == 3781682775019194711129377528866565568775357016217888041187451377333104603296829639935396046817986449900587605760967308493305861159544469041115690366);
        assert(within_atan_series(78int, 3781682775019194711129377528866565568775357016217888041187451377333104603296829639935396046817986449900587605760967308493305861159544469041115690366int));
    } else if j == 15 {
        assert(ATANS_2@[60] == 0x000004ca0613ed6254656a0f566c60d0);
        assert(ATANS_2@[61] == 0xdd218a1f7c145d9a44682c7508825609);
        assert(ATANS_2@[62] == 0x9f013c3d2211b6c80d44bde9d1bbcbf5);
        assert(ATANS_2@[63] == 0x3f41a93ea8da998d14a857a1f9e42770);
        assert(table_value(ATANS_2@, 15) == 3827337837887233474196558037663914458619778963068392061637702531824786333145959101968596444061425505756733447403804368946013288006823481274211247984);
        assert(within_atan_series(79int, 3827337837887233474196558037663914458619778963068392061637702531824786333145959101968596444061425505756733447403804368946013288006823481274211247984int));
    } else if j == 16 {
        assert(ATANS_2@[64] == 0x000004d89dcdc1faf2f34e2d5da4c693);
        assert(ATANS_2@[65] == 0xd7994045247c28597aafffad2c806098);
        assert(ATANS_2@[66] == 0x263d7699c699254eefbf322033f7a346);
        assert(ATANS_2@[67] == 0x43a2c82674492cea6a96ddd8e02c697b);
        assert(table_value(ATANS_2@, 16) == 3872892513330041270311553068805456439784169217078866275026714749015134494163311978816395488221290093339470816316135159927134069312908158249397414267);
        assert(within_atan_series(80int, 3872892513330041270311553068805456439784169217078866275026714749015134494163311978816395488221290093339470816316135159927134069312908158249397414267int));
    } else if j == 17 {
        assert(ATANS_2@[68] == 0x000004e72d3add855eed0b25a5deb8ec);
        assert(ATANS_2@[69] == 0x8b08a1aa6b1c0e8ac86ab782a220bca7);
        assert(ATANS_2@[70] == 0x0edb948467703d985053bc63d814d89c);
        assert(ATANS_2@[71] == 0x0247f240818a3877048de2f11f89f76a);
        assert(table_value(ATANS_2@, 17) == 3918345979505450069880573705148853840438464126582802925568302749675452898991359259712444866756985590908930245269269334312210946445210258355144750954);
        assert(within_atan_series(81int, 3918345979505450069880573705148853840438464126582802925568302749675452898991359259712444866756985590908930245269269334312210946445210258355144750954int));
    } else if j == 18 {
        assert(ATANS_2@[72] == 0x000004f5b44a49c44d1137ca41cc9589);
        assert(ATANS_2@[73] == 0xe8ce198e65edf2b34e36a83aa88d9456);
        assert(ATANS_2@[74] == 0x15e281124fb442c8e4f118f40a28f58a);
        assert(ATANS_2@[75] == 0x2ceee588deb893501bc058790271e02d);
        assert(table_value(ATANS_2@, 18) == 3963697428449871376007845120082998230288695489168447187262499399330543700918942469052548407033496982915818286845438098915595406457605182595351568429);
        assert(within_atan_series(82int, 3963697428449871376007845120082998230288695489168447187262499399330543700918942469052548407033496982915818286845438098915595406457605182595351568429int));
    } else if j == 19 {
        assert(ATANS_2@[76] == 0x0000050432eb5b1f4ca4f37451ec4aed);
        assert(ATANS_2@[77] == 0xbd671cd697057e2d0c07d55cb0d8f17c);
        assert(ATANS_2@[78] == 0x27be77f10d8bbc80edeaf4c11bf3c492);
        assert(ATANS_2@[79] == 0xe65af27bbd86deeff1be6577638a09e7);
        assert(table_value(ATANS_2@, 19) == 4008946066088771476304941291786024439378996305069869109885871645073201668532113333369462089320994351027516577999392652118783517990191276944433744359);
        assert(within_atan_series(83int, 4008946066088771476304941291786024439378996305069869109885871645073201668532113333369462089320994351027516577999392652118783517990191276944433744359int));
    } else if j == 20 {
        assert(ATANS_2@[80] == 0x00000512a90db0abc26a2a1bc3aa4c45);
        assert(ATANS_2@[81] == 0xc6cf1a7413c521a2ec305ed22099be75);
        assert(ATANS_2@[82] == 0x81db1ed9ec1da26cf7aa8cf10222f4f3);
        assert(ATANS_2@[83] == 0xb5bde6c3e76333a4907e5452f7370a29);
        assert(table_value(ATANS_2@, 20) == 4054091112243198687383804001329390292235128229448363832236818010182870595444512471191953201828380412401048031619046002522708666209390736399119354409);
        assert(within_atan_series(84int, 4054091112243198687383804001329390292235128229448363832236818010182870595444512471191953201828380412401048031619046002522708666209390736399119354409int));
    } else if j == 21 {
        assert(ATANS_2@[84] == 0x0000052116a1343086d1e28a7563c6a5);
        assert(ATANS_2@[85] == 0x94645cb14d6ea620f7a38c7d9a717142);
        assert(ATANS_2@[86] == 0x7073e105eec8ed3011a20cf591d12cdd);
        assert(ATANS_2@[87] == 0x18d9f79601507d29130503defec716f1);
        assert(table_value(ATANS_2@, 21) == 4099131800632413024726565412544789001577230291091599833065631981698333338070701530066678110629602125270136013986889487458873015234030939454466103025);
        assert(within_atan_series(85int, 4099131800632413024726565412544789001577230291091599833065631981698333338070701530066678110629602125270136013986889487458873015234030939454466103025int));
    } else if j == 22 {
        assert(ATANS_2@[88] == 0x0000052f7b961a2439b0d91c41eeac54);
        assert(ATANS_2@[89] == 0x9d5fa0148a6da0866191f1792cda3bf1);
        assert(ATANS_2@[90] == 0x4c37621be8441df3f25c1e67e2aaca4f);
        assert(ATANS_2@[91] == 0xf9e4a1ef1c3c36afb91223557bb3f5e0);
        assert(table_value(ATANS_2@, 22) == 4144067378872670183006015638898156737233627915269063925747761241256233457544371249930744643883972943051296836893681269872457429796732735340781237728);
        assert(within_atan_series(86int, 4144067378872670183006015638898156737233627915269063925747761241256233457544371249930744643883972943051296836893681269872457429796732735340781237728int));
    } else if j == 23 {
        assert(ATANS_2@[92] == 0x0000053dd7dce1a65e39a978c2003bbd);
        assert(ATANS_2@[93] == 0xe5d5d587c4cf43089501de5399f1e5b9);
        assert(ATANS_2@[94] == 0x69c3b221a4e2c8a9d28d804c9f360ea7);
        assert(ATANS_2@[95] == 0x1b5a4be7904d762a07664528f518d3d0);
        assert(table_value(ATANS_2@, 23) == 4188897108472213098264607650390530734726793069004066307613173818113315771580995629438406951726414801450371833816643608336595899872545563540494799824);
        assert(within_atan_series(87int, 4188897108472213098264607650390530734726793069004066307613173818113315771580995629438406951726414801450371833816643608336595899872545563540494799824int));
    } else if j == 24 {
        assert(ATANS_2@[96] == 0x0000054c2b6654735276d4cdbfbbdfbe);
        assert(ATANS_2@[97] == 0xcf46090961ce98f7a6be9d12e94ea64f);
        assert(ATANS_2@[98] == 0x8f15b707dd4bff930a1bb921dd49b5e6);
        assert(ATANS_2@[99] == 0x1c948daab7c7b619772925ff2e2090e7);
        assert(table_value(ATANS_2@, 24) == 4233620264822525683631649237626254679646479993797787152048493667339678132427302287070393467116642911056225476607085160996121608541658158262911013095);
        assert(within_atan_series(88int, 4233620264822525683631649237626254679646479993797787152048493667339678132427302287070393467116642911056225476607085160996121608541658158262911013095int));
    } else if j == 25 {
        assert(ATANS_2@[100] == 0x0000055a762386d335f009cf0c76180e);
        assert(ATANS_2@[101] == 0xc7a655dbb882d344c5a3e30a5e5992d5);
        assert(ATANS_2@[102] == 0x23e88a3db34db6b86a9cda12d0234106);
        assert(ATANS_2@[103] == 0x992ff85532e9b87ab3042d83fd3f025e);
        assert(table_value(ATANS_2@, 25) == 4278236137185904584533565025616610495573845521473730657650290383112316283092024062208796746161352226197646087683782866555983508486259642136468062814);
        assert(within_atan_series(89int, 4278236137185904584533565025616610495573845521473730657650290383112316283092024062208796746161352226197646087683782866555983508486259642136468062814int));
    } else if j == 26 {
        assert(ATANS_2@[104] == 0x00000568b805d783d3913b7a8f82e457);
        assert(ATANS_2@[105] == 0x41deb4eda313c6dd4ab0b06eaecdb752);
        assert(ATANS_2@[106] == 0xd7e379c6bc20a189c2701474c9ff150b);
        assert(ATANS_2@[107] == 0x809cffc1d3bda1e7e09401b78b36c6e0);
        assert(table_value(ATANS_2@, 26) == 4322744028679405987775838695840422495418498579933055651910267735859027653849483966033050593153263041533568329796311298442036377160586420551129941728);
        assert(within_atan_series(90int, 4322744028679405987775838695840422495418498579933055651910267735859027653849483966033050593153263041533568329796311298442036377160586420551129941728int));
    } else if j == 27 {
        assert(ATANS_2@[108] == 0x00000576f0feef9da34f50760dbb7bec);
        assert(ATANS_2@[109] == 0xe25fb2cb9c490e7595d812d07009350f);
        assert(ATANS_2@[110] == 0x634c4aef6afecb7e3253d2a79d9bf5db);
        assert(ATANS_2@[111] == 0x2c0aac630ba0fb5ad91c66e34c8c8304);
        assert(table_value(ATANS_2@, 27) == 4367143256255225641669506733964975565941130694944152191653925050919347052193217161588510443412381538804003831644837687491464227178213827437797344004);
        assert(within_atan_series(91int, 4367143256255225641669506733964975565941130694944152191653925050919347052193217161588510443412381538804003831644837687491464227178213827437797344004int));
    } else if j == 28 {
        assert(ATANS_2@[112] == 0x000005852100c273f8658da8ea8ee100);
        assert(ATANS_2@[113] == 0x507e15a042e6f4bd6b6b817eef8f6850);
        assert(ATANS_2@[114] == 0x05268d7c103001b7c5dedcae5879b194);
        assert(ATANS_2@[115] == 0x0ee0f51b401c35888957e2cac7ee00f7);
        assert(table_value(ATANS_2@, 28) == 4411433150677571301836630289366258576952298953641904098442458692946420246671223450413705684486837405993201350495963202901988744156987311308233638135);
        assert(within_atan_series(92int, 4411433150677571301836630289366258576952298953641904098442458692946420246671223450413705684486837405993201350495963202901988744156987311308233638135int));
    } else if j == 29 {
        assert(ATANS_2@[116] == 0x0000059347fd8d7071605bfc183f0242);
        assert(ATANS_2@[117] == 0x309f5848af9637cdbc7b59f5551d0b01);
        assert(ATANS_2@[118] == 0x68cf23d6bd9c16e932e6121121830afa);
        assert(ATANS_2@[119] == 0x68266d851301b6b9a5b844327c217b45);
        assert(table_value(ATANS_2@, 29) == 4455613056496087809827130519180531751444289620027215109978471824571588951451451209160468443832850023712193312502705482548568106783690858559063554885);
        assert(within_atan_series(93int, 4455613056496087809827130519180531751444289620027215109978471824571588951451451209160468443832850023712193312502705482548568106783690858559063554885int));
    } else if j == 30 {
        assert(ATANS_2@[120] == 0x000005a165e7d7e9bf7db50fd65ca4ac);
        assert(ATANS_2@[121] == 0x7b49ab58574b2d95a515b4038daa836d);
        assert(ATANS_2@[122] == 0xb9b4fb6029dc54c5613e3e4587223583);
        assert(ATANS_2@[123] == 0xa91b7faf57913ea24f1faee01cb6c6f8);
        assert(table_value(ATANS_2@, 30) == 4499682332015895939652761523270715850238394960809126378878745263058226289862821084092011446264078502842291184463274242201594582264110453077552056056);
        assert(within_atan_series(94int, 4499682332015895939652761523270715850238394960809126378878745263058226289862821084092011446264078502842291184463274242201594582264110453077552056056int));
    } else if j == 31 {
        assert(ATANS_2@[124] == 0x000005af7ab272f5db3968ea706485f6);
        assert(ATANS_2@[125] == 0x062fa576944aca1ec768f7711076ddc5);
        assert(ATANS_2@[126] == 0x49a6b12e22eaf251beac4dfd7106b8c2);
        assert(ATANS_2@[127] == 0xa57a048efa71bb71f178b4287a50cd91);
        assert(table_value(ATANS_2@, 31) == 4543640349264307011299270277509692218989205706294957674407445402107498300212701293754080499752928534934621165266055728485627922852310451277345639825);
        assert(within_atan_series(95int, 4543640349264307011299270277509692218989205706294957674407445402107498300212701293754080499752928534934621165266055728485627922852310451277345639825int));
    }
}

/// Entries 96 to 127 of the table.
proof fn lemma_atans_3(j: int)
    requires
        0 <= j < 32,
        pow2(452) == 0x100000000000000000000000000000000000000000000000000000000000000000000000000000000000000000000000000000000000000000nat,
        pow2(468) == 0x1000000000000000000000000000000000000000000000000000000000000000000000000000000000000000000000000000000000000000000000nat,
        pow2(484) == 0x10000000000000000000000000000000000000000000000000000000000000000000000000000000000000000000000000000000000000000000000000nat,
    ensures
        within_atan_series(96 + j, table_value(ATANS_3@, j)),
{
    lemma_word_literals();
    if j == 0 {
        assert(ATANS_3@[0] == 0x000005bd86507937bc239c55190916e7);
        assert(ATANS_3@[1] == 0xf22419ec21cbbd72a2ae62399f2e519a);
        assert(ATANS_3@[2] == 0x4847032662c101cfee06b6e667254006);
        assert(ATANS_3@[3] == 0x7b9e9430b7703bd7d0d30243ead569a5);
        assert(table_value(ATANS_3@, 0) == 4587486493954276070786307149636213566692362262051161027958091075293198566023644800780081803998753822125293125307072647625619242822690610458372958629);
        assert(within_atan_series(96int, 4587486493954276070786307149636213566692362262051161027958091075293198566023644800780081803998753822125293125307072647625619242822690610458372958629int));
    } else if j == 1 {
        assert(ATANS_3@[4] == 0x000005cb88b54ea8aa62636cb1860d84);
        assert(ATANS_3@[5] == 0x315183df5116dbf97b157596df9e5cba);
        assert(ATANS_3@[6] == 0xa36b1938f993f57743f3d440cc956363);
        assert(ATANS_3@[7] == 0x21b87c32a6518701bc5c5e6ccbf07150);
        assert(table_value(ATANS_3@, 1) == 4631220165444657174040076228133302509234297386180696686621810929419001355764475277597440021787445611574057028187176253983132726465206528404219785552);
        assert(within_atan_series(97int, 4631220165444657174040076228133302509234297386180696686621810929419001355764475277597440021787445611574057028187176253983132726465206528404219785552int));
    } else if j == 2 {
        assert(ATANS_3@[8] == 0x000005d981d4a05d407c45dd0dc6713f);
        assert(ATANS_3@[9] == 0xffa13e3d8a98698a666915f8ad04e8ab);
        assert(ATANS_3@[10] == 0x750c5aec2918af43782dcdadffa83967);
        assert(ATANS_3@[11] == 0xaf23b726767e2453bc84d625346c429e);
        assert(table_value(ATANS_3@, 2) == 4674840776697324987419435028550172690450735503142608999554257853427859987240047454608726897478547357514862365873939247471402752172597199995593835166);
        assert(within_atan_series(98int, 4674840776697324987419435028550172690450735503142608999554257853427859987240047454608726897478547357514862365873939247471402752172597199995593835166int));
    } else if j == 3 {
        assert(ATANS_3@[12] == 0x000005e771a264463440dba09d077b03);
        assert(ATANS_3@[13] == 0x66780e2ad83c474be0aa17b4d1f80e95);
        assert(ATANS_3@[14] == 0xb8ed45a0c8c03fcb1fe12c7a63e5a067);
        assert(ATANS_3@[15] == 0xf1ca51feba9572cf0829350a00100b7c);
        assert(table_value(ATANS_3@, 3) == 4718347754231227531942624589562644151396675177172996053841655113965055613954838008893640695098863597886109865492571187736751563745745582331790363516);
        assert(within_atan_series(99int, 4718347754231227531942624589562644151396675177172996053841655113965055613954838008893640695098863597886109865492571187736751563745745582331790363516int));
    } else if j == 4 {
        assert(ATANS_3@[16] == 0x000005f55812d8ecfdd69c885c2b249a);
        assert(ATANS_3@[17] == 0x0881312e09e0eaf2efb9fcb1fbef21e7);
        assert(ATANS_3@[18] == 0x4ec5920529daabcd20a6447d65dfc894);
        assert(ATANS_3@[19] == 0x78ccbba32611734fd2cc9714c74d2476);
        assert(table_value(ATANS_3@, 4) == 4761740538073435451903904335944880625430058428572324552751914524847715562841525401404497395140272865911612021709231967090442596919582189333659853942);
        assert(within_atan_series(100int, 4761740538073435451903904335944880625430058428572324552751914524847715562841525401404497395140272865911612021709231967090442596919582189333659853942int));
    } else if j == 5 {
        assert(ATANS_3@[20] == 0x00000603351a852c74218606697b05e6);
        assert(ATANS_3@[21] == 0xcc5ec618c28f8372f9424909b7c56954);
        assert(ATANS_3@[22] == 0x605754cbfbbfcc9b180294c4a9cb9836);
        assert(ATANS_3@[23] == 0x2d5a59d532daceaca59cd38c59383476);
        assert(table_value(ATANS_3@, 5) == 4805018581707253682503692479019668763376447974145317180156639088772997690727995710909783499752419195980329423055570989274527006887336122784029357174);
        assert(within_atan_series(101int, 4805018581707253682503692479019668763376447974145317180156639088772997690727995710909783499752419195980329423055570989274527006887336122784029357174int));
    } else if j == 6 {
        assert(ATANS_3@[24] == 0x0000061108ae37e575dd76a0299b41b5);
        assert(ATANS_3@[25] == 0xc3a3b8175a01c88d4dc132aa1a59a09e);
        assert(ATANS_3@[26] == 0x11aa8ffe7ddc0984107aec6eda544dfb);
        assert(ATANS_3@[27] == 0x5d55f76a48da9e3e4ad236a7d6ee7846);
        assert(table_value(ATANS_3@, 6) == 4848181352017461826248040257307091488039885399501583666141770110787456852338970007516776304778709164053122146826985163523762330924530775111049836614);
        assert(within_atan_series(102int, 4848181352017461826248040257307091488039885399501583666141770110787456852338970007516776304778709164053122146826985163523762330924530775111049836614int));
    } else if j == 7 {
        assert(ATANS_3@[28] == 0x0000061ed2c307afb6e923055d05b8f0);
        assert(ATANS_3@[29] == 0xb9465d580574f77386fda67335fd6fdc);
        assert(ATANS_3@[30] == 0x2df8f6e4b5b4be4d8d932c1604fc3199);
        assert(ATANS_3@[31] == 0xf972ea764abac99972886c6b20f39d02);
        assert(table_value(ATANS_3@, 7) == 4891228329232749925155435357156167615407685692571063182565543666177612681282716164906559091273611851808089057655613422725780298901319154960010812674);
        assert(within_atan_series(103int, 4891228329232749925155435357156167615407685692571063182565543666177612681282716164906559091273611851808089057655613422725780298901319154960010812674int));
    } else if j == 8 {
        assert(ATANS_3@[32] == 0x0000062c934e5286c95b6d0ba3748fa8);
        assert(ATANS_3@[33] == 0x5146ee25be4f2869d50fb413ddca5d84);
        assert(ATANS_3@[34] == 0x9a43ee3821dd43a18f632a348ef4c9f1);
        assert(ATANS_3@[35] == 0x25b1dbe201df29b5c63e5eb9e214cb3f);
        assert(table_value(ATANS_3@, 8) == 4934159006865416636236760451605200835609850509683486029861555712857190726921070427162980394739383839445734754570736964070899683220430266182659263295);
        assert(within_atan_series(104int, 4934159006865416636236760451605200835609850509683486029861555712857190726921070427162980394739383839445734754570736964070899683220430266182659263295int));
    } else if j == 9 {
        assert(ATANS_3@[36] == 0x0000063a4a45bd737a14c0a7e12bfafa);
        assert(ATANS_3@[37] == 0xf4343ee0dd669eb360681d2cde838492);
        assert(ATANS_3@[38] == 0x01fe805873f7a6b6b5a939569857824d);
        assert(ATANS_3@[39] == 0x8b216d7a15f8efcc501fb8c26ef59d3b);
        assert(table_value(ATANS_3@, 9) == 4976972891648397082324459718910140139365921448983765161050416676510662345597445629976684438305788175491898282058954740581176611463081528744807341371);
        assert(within_atan_series(105int, 4976972891648397082324459718910140139365921448983765161050416676510662345597445629976684438305788175491898282058954740581176611463081528744807341371int));
    } else if j == 10 {
        assert(ATANS_3@[40] == 0x00000647f79f34319891074188054b53);
        assert(ATANS_3@[41] == 0x6bec637d321248b92df5b37a7a057c0b);
        assert(ATANS_3@[42] == 0xd6eb79f56e7a5985febcd23d487c1680);
        assert(ATANS_3@[43] == 0x6ec4758b65e0477406e1d27cc0e8baf8);
        assert(table_value(ATANS_3@, 10) == 5019669503469687860194666711358270065910263622074786107024373876258410375612201767983168664640290993736775977157198393908429137879576655189498182392);
        assert(within_atan_series(106int, 5019669503469687860194666711358270065910263622074786107024373876258410375612201767983168664640290993736775977157198393908429137879576655189498182392int));
    } else if j == 11 {
        assert(ATANS_3@[44] == 0x000006559b50e8d241ccd80a9bf05795);
        assert(ATANS_3@[45] == 0xaf8a9973e149e68afe4fe7c311a23ddb);
        assert(ATANS_3@[46] == 0x0a5c74595f087368062abb859bebc2ef);
        assert(ATANS_3@[47] == 0x8bd4b9832b084c3147f3d7e0ba8e5c4a);
        assert(table_value(ATANS_3@, 11) == 5062248375304236844161996338960477181721891699873715503557900552244998035139297948674553401760780540262271122152941908079915139963857911965522222154);
        assert(within_atan_series(107int, 5062248375304236844161996338960477181721891699873715503557900552244998035139297948674553401760780540262271122152941908079915139963857911965522222154int));
    } else if j == 12 {
        assert(ATANS_3@[48] == 0x000006633551535ac619e6c988fd0a76);
        assert(ATANS_3@[49] == 0xcdbe1c93d002a4410cb0a0991b3376de);
        assert(ATANS_3@[50] == 0xa2a481033627d11a5a672ae70741dbda);
        assert(ATANS_3@[51] == 0x9e833860ab793f9413e9d2d503b1da7a);
        assert(table_value(ATANS_3@, 12) == 5104709053143365527074751386573239415755367453483545874693162499817145884143405785968740416769876936857913813877923146299511620534210746077355825786);
        assert(within_atan_series(108int, 5104709053143365527074751386573239415755367453483545874693162499817145884143405785968740416769876936857913813877923146299511620534210746077355825786int));
    } else if j == 13 {
        assert(ATANS_3@[52] == 0x00000670c597316041c36cd2c044a19f);
        assert(ATANS_3@[53] == 0x5325f29c10727ef24abd846f78781106);
        assert(ATANS_3@[54] == 0xf2c728178c086ef5e863f9fc246c83f8);
        assert(ATANS_3@[55] == 0xba4fdb07edd48dfec5842c9afb77874c);
        assert(table_value(ATANS_3@, 13) == 5147051095921791693072766409452029504405191736276422528886169787775256347288344436301295599761234368909816403757083924309399032666693080516291692364);
        assert(within_atan_series(109int, 5147051095921791693072766409452029504405191736276422528886169787775256347288344436301295599761234368909816403757083924309399032666693080516291692364int));
    } else if j == 14 {
        assert(ATANS_3@[56] == 0x0000067e4c1985a000637d8fb836bc65);
        assert(ATANS_3@[57] == 0x81a7b995f498a03790b35847c5e96044);
        assert(ATANS_3@[58] == 0x7819e8ab8886ef6c1005cf5eb5b4e71e);
        assert(ATANS_3@[59] == 0x79e2055afa598f3fc02a748b7ba241b5);
        assert(table_value(ATANS_3@, 14) == 5189274075442320218793247076235197381756330064754949656334914765394523269518687694373819886009883429890670853951730095446233260243374259773752099253);
        assert(within_atan_series(110int, 5189274075442320218793247076235197381756330064754949656334914765394523269518687694373819886009883429890670853951730095446233260243374259773752099253int));
    } else if j == 15 {
        assert(ATANS_3@[60] == 0x0000068bc8cf9794c2c605357de5c21a);
        assert(ATANS_3@[61] == 0xc153c672881904831b49186690fdbddb);
        assert(ATANS_3@[62] == 0xe058ec5f7dde1ed5d01f4fee46f9faac);
        assert(ATANS_3@[63] == 0x5895559c264aefc57391c68562ed4e77);
        assert(table_value(ATANS_3@, 15) == 5231377576298269753149380335804785036592033556890887316717896178742499606716740200136737118606264929355637808329387949053776525320247716882861084279);
        assert(within_atan_series(111int, 5231377576298269753149380335804785036592033556890887316717896178742499606716740200136737118606264929355637808329387949053776525320247716882861084279int));
    } else if j == 16 {
        assert(ATANS_3@[64] == 0x000006993bb0f308ff2db213e4af4800);
        assert(ATANS_3@[65] == 0xf389b3700206e90b0d39e1333bfc789e);
        assert(ATANS_3@[66] == 0xebf14142bf4205e2241da7bcb42c929b);
        assert(ATANS_3@[67] == 0xfb62e1b924c6ddd66ae64e1150332d70);
        assert(table_value(ATANS_3@, 16) == 5273361195793702931612699667458742836489330927974092319390118811825115100558716654834199315791736040120414782974472456025272686350042736059217030512);
        assert(within_atan_series(112int, 5273361195793702931612699667458742836489330927974092319390118811825115100558716654834199315791736040120414782974472456025272686350042736059217030512int));
    } else if j == 17 {
        assert(ATANS_3@[68] == 0x000006a6a4b567a633c25c85bfeebb02);
        assert(ATANS_3@[69] == 0xd4a70c3f91d5ac0d45d26bcc0fc99780);
        assert(ATANS_3@[70] == 0x8827b4077892917dc58594a6c6b430a5);
        assert(ATANS_3@[71] == 0x89d303d6c4d162defd0b07b8086fb94c);
        assert(table_value(ATANS_3@, 17) == 5315224543861527640374141561260335264410758948463048138464690721095144111824056702817079532174142019701631462935940530453348201466832184512326121804);
        assert(within_atan_series(113int, 5315224543861527640374141561260335264410758948463048138464690721095144111824056702817079532174142019701631462935940530453348201466832184512326121804int));
    } else if j == 18 {
        assert(ATANS_3@[72] == 0x000006b403d5088162dfc4c33891d2e7);
        assert(ATANS_3@[73] == 0xeef7e0a43580c014ae9c2f93f9ea2e3d);
        assert(ATANS_3@[74] == 0x8c4f6900ae95db881b6a8d073f53162e);
        assert(ATANS_3@[75] == 0xe5c79ea7accca5ed2e7940e0a6de9c32);
        assert(table_value(ATANS_3@, 18) == 5356967242979536660129415501441331605625219443141340572630425107851438791977377457506908358759425309976531835302593332878622935819346554907447434290);
        assert(within_atan_series(114int, 5356967242979536660129415501441331605625219443141340572630425107851438791977377457506908358759425309976531835302593332878622935819346554907447434290int));
    } else if j == 19 {
        assert(ATANS_3@[76] == 0x000006c159082ba4d0e6cec6b9c9cbaa);
        assert(ATANS_3@[77] == 0xa6baeff35aaf24d7b491a6f139339073);
        assert(ATANS_3@[78] == 0xec382ddca2001cb1ccde1f04ae75291f);
        assert(ATANS_3@[79] == 0x8c2b8615f314fb90c6c1a0f2a8783437);
        assert(table_value(ATANS_3@, 19) == 5398588928084452789836408253351705235467549604339832010670115140701735280584269922912215945783272114701699814216184251652961895776329262040985646135);
        assert(within_atan_series(115int, 5398588928084452789836408253351705235467549604339832010670115140701735280584269922912215945783272114701699814216184251652961895776329262040985646135int));
    } else if j == 20 {
        assert(ATANS_3@[80] == 0x000006cea44769971b1ae187b1ca5040);
        assert(ATANS_3@[81] == 0x31a2eaaa4088c5fdb82266469134faca);
        assert(ATANS_3@[82] == 0x1b3aaf0b41878e11bb506d88cfb0ab88);
        assert(ATANS_3@[83] == 0x18fe512095bb5a4926cd7427ecd17dd2);
        assert(table_value(ATANS_3@, 20) == 5440089246484046278943918538197541493958139385712552346032139455025850212737652680984270805185237223616772091905839053284053736955955990165137227218);
        assert(within_atan_series(116int, 5440089246484046278943918538197541493958139385712552346032139455025850212737652680984270805185237223616772091905839053284053736955955990165137227218int));
    } else if j == 21 {
        assert(ATANS_3@[84] == 0x000006dbe58b9cdfbef8d6b2e6d9f863);
        assert(ATANS_3@[85] == 0xd50c8cd7949f866ff409ee9c8d9f85d0);
        assert(ATANS_3@[86] == 0x457a41362259f8f7b787f8ff03f2a738);
        assert(ATANS_3@[87] == 0x05eecff1590c95bd87952e32fc2a6f77);
        assert(table_value(ATANS_3@, 21) == 5481467857767391083621274819297952811084884827186207089719212103229297986194817655507815185461205851003732094210690394444967353961883161942874025847);
        assert(within_atan_series(117int, 5481467857767391083621274819297952811084884827186207089719212103229297986194817655507815185461205851003732094210690394444967353961883161942874025847int));
    } else if j == 22 {
        assert(ATANS_3@[88] == 0x000006e91ccde189295519a1b46e4afe);
        assert(ATANS_3@[89] == 0x929cec1897ca0d14d735319d62e63aea);
        assert(ATANS_3@[90] == 0x48300c6adc4c4bf4d1599b0710485453);
        assert(ATANS_3@[91] == 0x52e49170485e9cde99b80c4e1a3b40a7);
        assert(table_value(ATANS_3@, 22) == 5522724433713326109765483030968918739505862068828162679811540555805979519716803052676732303888570905658800544975273509921385371659401061415582908583);
        assert(within_atan_series(118int, 5522724433713326109765483030968918739505862068828162679811540555805979519716803052676732303888570905658800544975273509921385371659401061415582908583int));
    } else if j == 23 {
        assert(ATANS_3@[92] == 0x000006f64a0794a0646b4eabc6509499);
        assert(ATANS_3@[93] == 0xb66209b4bded173fc6ae7e8c8fa9b585);
        assert(ATANS_3@[94] == 0xf6cf44bab502e1cd9af6c1a07fadf422);
        assert(ATANS_3@[95] == 0x0370a5b694f4c7c87e0719dfb0b22639);
        assert(table_value(ATANS_3@, 23) == 5563858658197187214371460959455343469891682017402837304664438402555907711476309200510201357776351126680603285296747649869810832021926496215648839225);
        assert(within_atan_series(119int, 5563858658197187214371460959455343469891682017402837304664438402555907711476309200510201357776351126680603285296747649869810832021926496215648839225int));
    } else if j == 24 {
        assert(ATANS_3@[96] == 0x000007036d3253b27be33e318f6cb3cc);
        assert(ATANS_3@[97] == 0x65c01db0a5f97af9f5c11ca859f5e2c3);
        assert(ATANS_3@[98] == 0x2a5bd56ab8ad21a4d44984fb13489856);
        assert(ATANS_3@[99] == 0x51cfd6b9471465449ded6519673e749f);
        assert(table_value(ATANS_3@, 24) == 5604870227095875308571374192633562417868211869016295232743873861105929130723344351623002074396177083916486655543990264034536052777807553165120140447);
        assert(within_atan_series(120int, 5604870227095875308571374192633562417868211869016295232743873861105929130723344351623002074396177083916486655543990264034536052777807553165120140447int));
    } else if j == 25 {
        assert(ATANS_3@[100] == 0x000007108647fc47ada4e820bcb4c112);
        assert(ATANS_3@[101] == 0x3a70868db9c1ef5c2a63611f68129808);
        assert(ATANS_3@[102] == 0x0388cdb58ee6043250ba3a7ea6eebd27);
        assert(ATANS_3@[103] == 0xe2dc43d7f72ab8730b4c89239d4014a6);
        assert(table_value(ATANS_3@, 25) == 5645758848191325441633577111294872938716663116214430485949469405300844407898450241942775611004039825570374148375298155228738495388894882682403558566);
        assert(within_atan_series(121int, 5645758848191325441633577111294872938716663116214430485949469405300844407898450241942775611004039825570374148375298155228738495388894882682403558566int));
    } else if j == 26 {
        assert(ATANS_3@[104] == 0x0000071d9542ab5c7e28b474008fbc1b);
        assert(ATANS_3@[105] == 0x87ea7bf8b16e66ae7e565d35aa34ae9a);
        assert(ATANS_3@[106] == 0x086586bea56726b31ca451f808d6e77b);
        assert(ATANS_3@[107] == 0xc6aeb4c4a28ae658660c8bd5631c6433);
        assert(table_value(ATANS_3@, 26) == 5686524241072441246813472674275724455423060686380275343056482497848059827624247041447883089950880865704858212709872754754633838226183760544926557235);
        assert(within_atan_series(122int, 5686524241072441246813472674275724455423060686380275343056482497848059827624247041447883089950880865704858212709872754754633838226183760544926557235int));
    } else if j == 27 {
        assert(ATANS_3@[108] == 0x0000072a9a1cbcd8c6c0ca833c0b1b7a);
        assert(ATANS_3@[109] == 0x3f6a75619398598792e643e38f1526a1);
        assert(ATANS_3@[110] == 0x8dbad7e21e4c2122e4bb8fff14938192);
        assert(ATANS_3@[111] == 0x27beda879f9b2bc4abe7cd416db0682e);
        assert(table_value(ATANS_3@, 27) == 5727166137035558598519963396692739312301983606455114198821427921177106623180042686711217387739158735666050393390401953033739739807674401224502831150);
        assert(within_atan_series(123int, 5727166137035558598519963396692739312301983606455114198821427921177106623180042686711217387739158735666050393390401953033739739807674401224502831150int));
    } else if j == 28 {
        assert(ATANS_3@[112] == 0x0000073794d0cb04d425d305bbe70e53);
        assert(ATANS_3@[113] == 0x6e164325927439e7941da0581e081a0f);
        assert(ATANS_3@[114] == 0x59d94eb573dbae08b7c3d33d0ce8752c);
        assert(ATANS_3@[115] == 0x38f0ba83eebfa920b5c3c91743da4ccf);
        assert(table_value(ATANS_3@, 28) == 5767684278983501767151427918268642724165939698894170765324733598606567210416577874576235417433583264965236621422059293355055745039876726482942971087);
        assert(within_atan_series(124int, 5767684278983501767151427918268642724165939698894170765324733598606567210416577874576235417433583264965236621422059293355055745039876726482942971087int));
    } else if j == 29 {
        assert(ATANS_3@[116] == 0x000007448559adfcab5be67835886c30);
        assert(ATANS_3@[117] == 0x2bbadcebb3f7ce05d438eaeeb3ba58ff);
        assert(ATANS_3@[118] == 0x60eb03b05f6407f5291ecb32ebc64978);
        assert(ATANS_3@[119] == 0xef7b73bb34acf92403ebec78f7735ddd);
        assert(table_value(ATANS_3@, 29) == 5808078421323294764509067389514443617565217299807033858583567136168047971319160209270110664339188999987191528806306237670948379433249069180503940573);
        assert(within_atan_series(125int, 5808078421323294764509067389514443617565217299807033858583567136168047971319160209270110664339188999987191528806306237670948379433249069180503940573int));
    } else if j == 30 {
        assert(ATANS_3@[120] == 0x000007516bb27b218acc4a108b1f7c96);
        assert(ATANS_3@[121] == 0x9a4a369ae94166ac5248f9b8814c143e);
        assert(ATANS_3@[122] == 0x8a4a729ed1da8535b540d41da4ad68e8);
        assert(ATANS_3@[123] == 0x9004f5c3958e97ab24ad44d9559386f7);
        assert(table_value(ATANS_3@, 30) == 5848348329862589950251487544917158077541094302632943264469457047614367078689821391518767440345534268482168389544608102115761510850033025827688646391);
        assert(within_atan_series(126int, 5848348329862589950251487544917158077541094302632943264469457047614367078689821391518767440345534268482168389544608102115761510850033025827688646391int));
    } else if j == 31 {
        assert(ATANS_3@[124] == 0x0000075e47d68489bd35ff40ad24dac4);
        assert(ATANS_3@[125] == 0xfde79cb45b4d2dffeffc8f1615af401d);
        assert(ATANS_3@[126] == 0x2b55946fc7a78e3dd84e12a0d869418e);
        assert(ATANS_3@[127] == 0x3b13957fee8e507bb1dd2195d1f4fc9b);
        assert(table_value(ATANS_3@, 31) == 5888493781704875319743098650351425457514220435050816571912515317910236117149723770741675137475532830135877697439264410679052288334662552909732183195);
        assert(within_atan_series(127int, 5888493781704875319743098650351425457514220435050816571912515317910236117149723770741675137475532830135877697439264410679052288334662552909732183195int));
    }
}

/// Entries 128 to 159 of the table.
proof fn lemma_atans_4(j: int)
    requires
        0 <= j < 32,
        pow2(452) == 0x100000000000000000000000000000000000000000000000000000000000000000000000000000000000000000000000000000000000000000nat,
        pow2(468) == 0x1000000000000000000000000000000000000000000000000000000000000000000000000000000000000000000000000000000000000000000000nat,
        pow2(484) == 0x10000000000000000000000000000000000000000000000000000000000000000000000000000000000000000000000000000000000000000000000000nat,
    ensures
        within_atan_series(128 + j, table_value(ATANS_4@, j)),
{
    lemma_word_literals();
    if j == 0 {
        assert(ATANS_4@[0] == 0x0000076b19c1586ed3da2b7f222f65e1);
        assert(ATANS_4@[1] == 0xd4681b70a0ac3930e6f8071678b7374b);
        assert(ATANS_4@[2] == 0x12384fd4e2c8bc495a8b643e4097c635);
        assert(ATANS_4@[3] == 0x230c16770f4077e9e0009eb6c2f1b431);
        assert(table_value(ATANS_4@, 0) == 5928514565143521217191497435334374503508935283077111921042742264467087501930334439241508957316706337642852268270654626307332555972447519005253678129);
        assert(within_atan_series(128int, 5928514565143521217191497435334374503508935283077111921042742264467087501930334439241508957316706337642852268270654626307332555972447519005253678129int));
    } else if j == 1 {
        assert(ATANS_4@[4] == 0x00000777e16ec09a5d0a1ddd86050912);
        assert(ATANS_4@[5] == 0xe14cb66efb53083071db295bbedffaf1);
        assert(ATANS_4@[6] == 0x9971a859211419bf339eb0af8dc1c402);
        assert(ATANS_4@[7] == 0xf4c8fda84ef400907c7f19e0ec0efe66);
        assert(table_value(ATANS_4@, 1) == 5968410479554726516475740808367973005977063038702481953539902383637153738476088803211118389321546383072649775704758881680098652565130206827070291558);
        assert(within_atan_series(129int, 5968410479554726516475740808367973005977063038702481953539902383637153738476088803211118389321546383072649775704758881680098652565130206827070291558int));
    } else if j == 2 {
        assert(ATANS_4@[8] == 0x000007849edac1d12bfb53d9e719cad5);
        assert(ATANS_4@[9] == 0x5185bc787457ef5fe07640c7167a74a4);
        assert(ATANS_4@[10] == 0xbc94f43207a63b37db4f4173f4d3e694);
        assert(ATANS_4@[11] == 0xaf72c9d5d24bac0543a9e840615638f3);
        assert(table_value(ATANS_4@, 2) == 6008181335289423586836365205164043248630176361179425167239074569880155069758812258443189000930404770995855532219465734711686373227513608520039020787);
        assert(within_atan_series(130int, 6008181335289423586836365205164043248630176361179425167239074569880155069758812258443189000930404770995855532219465734711686373227513608520039020787int));
    } else if j == 3 {
        assert(ATANS_4@[12] == 0x0000079152019b3d468274754259d31e);
        assert(ATANS_4@[13] == 0x3ba15b11e90da15d79e70f8f291874b0);
        assert(ATANS_4@[14] == 0x5512099b0e98a7357a85309c4de93bb5);
        assert(ATANS_4@[15] == 0xb14fd961ebfd580f03ecc5313f7c823c);
        assert(table_value(ATANS_4@, 3) == 6047826953564200612913598021780947112343836350846992747381597703662655246002120717528832941068280899502753956981189469990778561236649587519807849020);
        assert(within_atan_series(131int, 6047826953564200612913598021780947112343836350846992747381597703662655246002120717528832941068280899502753956981189469990778561236649587519807849020int));
    } else if j == 4 {
        assert(ATANS_4@[16] == 0x0000079dfadfc5d68d10e53dc1bf3435);
        assert(ATANS_4@[17] == 0x6f9fd1790505c402ec723eca3443d27e);
        assert(ATANS_4@[18] == 0x899fff87a0d00cf53d4099d0680bc937);
        assert(ATANS_4@[19] == 0x1351504ecd0e8cbe30ddc6ba57a5c3e7);
        assert(table_value(ATANS_4@, 4) == 6087347166351299069752063336988659839300409641666319906745374359282518834889267860066009783921409393852172754659272554485990117967517427524851581927);
        assert(within_atan_series(132int, 6087347166351299069752063336988659839300409641666319906745374359282518834889267860066009783921409393852172754659272554485990117967517427524851581927int));
    } else if j == 5 {
        assert(ATANS_4@[20] == 0x000007aa9971f3ca31097d967651df82);
        assert(ATANS_4@[21] == 0xb549a759edd0f0030dbc82fb0684380c);
        assert(ATANS_4@[22] == 0x7e3e42082bcc00191dd6baedbe52f8a1);
        assert(ATANS_4@[23] == 0x42bce65bbadf1335808695474f21df87);
        assert(table_value(ATANS_4@, 5) == 6126741816267743364592000149239753535571714363813129731449651549382018748972769121393916358982465683847980368194587827334042375300052804768276537223);
        assert(within_atan_series(133int, 6126741816267743364592000149239753535571714363813129731449651549382018748972769121393916358982465683847980368194587827334042375300052804768276537223int));
    } else if j == 6 {
        assert(ATANS_4@[24] == 0x000007b72db50fe10d380da2733ddec7);
        assert(ATANS_4@[25] == 0x1326e2c085d461b2d1a22c806eceed98);
        assert(ATANS_4@[26] == 0x59493d9dfa295118640d9ea24fe10ee4);
        assert(ATANS_4@[27] == 0x52cb355ae1bdf1adbf4daa8999886e3a);
        assert(table_value(ATANS_4@, 6) == 6166010756463658849775054136947043828054575927365824420858151463802788607463102082711527070252349011318291720671408775343825195350109160355043765818);
        assert(within_atan_series(134int, 6166010756463658849775054136947043828054575927365824420858151463802788607463102082711527070252349011318291720671408775343825195350109160355043765818int));
    } else if j == 7 {
        assert(ATANS_4@[28] == 0x000007c3b7a63ce4f3ed0bf57834e76b);
        assert(ATANS_4@[29] == 0xbe5183efac40fffe98dfadbf97fce7dc);
        assert(ATANS_4@[30] == 0x1b9f209191e5831892a2ed14dd4f5047);
        assert(ATANS_4@[31] == 0xf8b07852f89238275ef25a9a1152e383);
        assert(table_value(ATANS_4@, 7) == 6205153850509833586125364309349873946360120358080436038589909246746586563998656821675824635049652547652636190364701277243661680109536236812788491139);
        assert(within_atan_series(135int, 6205153850509833586125364309349873946360120358080436038589909246746586563998656821675824635049652547652636190364701277243661680109536236812788491139int));
    } else if j == 8 {
        assert(ATANS_4@[32] == 0x000007d03742d50505f2e33691e3eaee);
        assert(ATANS_4@[33] == 0x476610806496fc5c5aac1b190087d090);
        assert(ATANS_4@[34] == 0x4133566ce6be148c26c4312df65ecc35);
        assert(ATANS_4@[35] == 0xe080ec83a92d8aab03c7d215b810fa6e);
        assert(table_value(ATANS_4@, 8) == 6244170972284578394923081236838571142800110325142302341281410368116172528117748231070042651215614374421053373883144287991888333576996561606109362798);
        assert(within_atan_series(136int, 6244170972284578394923081236838571142800110325142302341281410368116172528117748231070042651215614374421053373883144287991888333576996561606109362798int));
    } else if j == 9 {
        assert(ATANS_4@[36] == 0x000007dcac8869392545227083dfadd0);
        assert(ATANS_4@[37] == 0x04a57b9b4c8a2f26bdfdca47f7e70ff5);
        assert(ATANS_4@[38] == 0x371ffcd00a912d7aa375f7ee70918dcf);
        assert(ATANS_4@[39] == 0x4e3d96cd9771f9c52349bb14dcbb7b5b);
        assert(table_value(ATANS_4@, 9) == 6283062005859938880246696471659727905011128060351750422799419094257732697803487042544848346329062425756710437063031548754209937615152790090590944091);
        assert(within_atan_series(137int, 6283062005859938880246696471659727905011128060351750422799419094257732697803487042544848346329062425756710437063031548754209937615152790090590944091int));
    } else if j == 10 {
        assert(ATANS_4@[40] == 0x000007e91774c0a496235a9c23d7274b);
        assert(ATANS_4@[41] == 0x5310ee6b4f66cb5412874261a128e990);
        assert(ATANS_4@[42] == 0x73e719db942af4d9894be14e05ec1e38);
        assert(ATANS_4@[43] == 0x5fc828209855398887779e55039228a7);
        assert(table_value(ATANS_4@, 10) == 6321826845387312233180795278876501326020949367307984778953431719679768788222259109023123123573505896548868946178409655026289364501925385818776676519);
        assert(within_atan_series(138int, 6321826845387312233180795278876501326020949367307984778953431719679768788222259109023123123573505896548868946178409655026289364501925385818776676519int));
    } else if j == 11 {
        assert(ATANS_4@[44] == 0x000007f57805d7f7e0c9d43d8f624d8a);
        assert(ATANS_4@[45] == 0x9d6729f93b5a82228a70317f74800fed);
        assert(ATANS_4@[46] == 0xa39671aaba8ac261b465b8b2b9c42598);
        assert(ATANS_4@[47] == 0xa7168ab044b99c3503ee8722959ceb50);
        assert(table_value(ATANS_4@, 11) == 6360465394982520746303536659587420658414465204398971875549174967060610146234520754418149419709159272825948049842572666244442002188960934062651665232);
        assert(within_atan_series(139int, 6360465394982520746303536659587420658414465204398971875549174967060610146234520754418149419709159272825948049842572666244442002188960934062651665232int));
    } else if j == 12 {
        assert(ATANS_4@[48] == 0x00000801ce39e0d205c99a6d6c6c54d9);
        assert(ATANS_4@[49] == 0x38596692486326fe2e1cc02f253ef962);
        assert(ATANS_4@[50] == 0x0b8c8434e6df2a7a15c3b764e5cb1c45);
        assert(ATANS_4@[51] == 0x5de90c30512490257e1741a64cb224f0);
        assert(table_value(ATANS_4@, 12) == 6398977568610393072097374989572516416884844172943269115545827040308935468636399761089534245129875104108445668539619847726884913962284824822130287856);
        assert(within_atan_series(140int, 6398977568610393072097374989572516416884844172943269115545827040308935468636399761089534245129875104108445668539619847726884913962284824822130287856int));
    } else if j == 13 {
        assert(ATANS_4@[52] == 0x0000080e1a0f412116a7b689f99521db);
        assert(ATANS_4@[53] == 0xb92b1ad73c70829b081740fd151a6bc1);
        assert(ATANS_4@[54] == 0x99b543109b636cc9f220c78f852506bc);
        assert(ATANS_4@[55] == 0x2b670f39ef51125cddb51a680ef4a077);
        assert(table_value(ATANS_4@, 13) == 6437363289968903353558258365086259677307689940480862335688924127892371677369784280146257702445917446576809862706875023059531154530792270864873463927);
        assert(within_atan_series(141int, 6437363289968903353558258365086259677307689940480862335688924127892371677369784280146257702445917446576809862706875023059531154530792270864873463927int));
    } else if j == 14 {
        assert(ATANS_4@[56] == 0x0000081a5b8492824418f9b38d85540f);
        assert(ATANS_4@[57] == 0xf5431c9474f20630bb75c3123f517e55);
        assert(ATANS_4@[58] == 0xe07815f3b5ceb4db415e9db10d86c02e);
        assert(ATANS_4@[59] == 0xf04a3527a6c07d2f219328c1d097b841);
        assert(table_value(ATANS_4@, 14) == 6475622492372917440380098718778204510888284535079544117970366663330275815044629288644267797230400843302663514194173622634876531081965754363623749697);
        assert(within_atan_series(142int, 6475622492372917440380098718778204510888284535079544117970366663330275815044629288644267797230400843302663514194173622634876531081965754363623749697int));
    } else if j == 15 {
        assert(ATANS_4@[60] == 0x000008269298a1a172dc6f39377a7131);
        assert(ATANS_4@[61] == 0xd6a27bbff43ff88082c6d3c042abe6ed);
        assert(ATANS_4@[62] == 0x19a9ca76401d8510f33bd26ab519b192);
        assert(ATANS_4@[63] == 0x7739b82fdded3d15d449bb622442b39b);
        assert(table_value(ATANS_4@, 15) == 6513755118637594480705836680384217051201149681842156921849744707548159251199272157650160005003390362800628533983314530192747361796715801308697899931);
        assert(within_atan_series(143int, 6513755118637594480705836680384217051201149681842156921849744707548159251199272157650160005003390362800628533983314530192747361796715801308697899931int));
    } else if j == 16 {
        assert(ATANS_4@[64] == 0x00000832bf4a6d9867e2a4b6a09cb61a);
        assert(ATANS_4@[65] == 0x515c0f1155cd8774ddfbc55c6bdcf1e5);
        assert(ATANS_4@[66] == 0xb65d043d7d60cd4f13f4e82c3bd5bd4b);
        assert(ATANS_4@[67] == 0xddc248e2871f553ff817d6ff1ea97f43);
        assert(table_value(ATANS_4@, 16) == 6551761120961491247582369502218761638477147502062554725852820298336433749168095012926701107310851290749984157584033767596873582823752401656421646147);
        assert(within_atan_series(144int, 6551761120961491247582369502218761638477147502062554725852820298336433749168095012926701107310851290749984157584033767596873582823752401656421646147int));
    } else if j == 17 {
        assert(ATANS_4@[68] == 0x0000083ee199274d9c1b70c9e04450ac);
        assert(ATANS_4@[69] == 0x73920c96ba6dc797b9e09cd470655e2e);
        assert(ATANS_4@[70] == 0x7ff896051dd2530d93e05546155975a1);
        assert(ATANS_4@[71] == 0x07ad8147fc691482aba2fe1fbcb45639);
        assert(table_value(ATANS_4@, 17) == 6589640460809415621927320319896971030175347783456219471607618013647790478258135640304620009749467247275848009902605141182040712209879760122397611577);
        assert(within_atan_series(145int, 6589640460809415621927320319896971030175347783456219471607618013647790478258135640304620009749467247275848009902605141182040712209879760122397611577int));
    } else if j == 18 {
        assert(ATANS_4@[72] == 0x0000084af98430d2c7eede4df5ea560d);
        assert(ATANS_4@[73] == 0x2aaeaaea472105c56d4c59e3f429f91a);
        assert(ATANS_4@[74] == 0x471e22a95ee246880ee04d49a7e5323c);
        assert(ATANS_4@[75] == 0x448e8949a98ec12a339b92e18760d709);
        assert(table_value(ATANS_4@, 18) == 6627393108795074710978977896480878737242889970967986031120865422612750433175673875786262390670848333882701994276675786720658588812096006763000682249);
        assert(within_atan_series(146int, 6627393108795074710978977896480878737242889970967986031120865422612750433175673875786262390670848333882701994276675786720658588812096006763000682249int));
    } else if j == 19 {
        assert(ATANS_4@[76] == 0x00000857070b1cc3361075abf2de445a);
        assert(ATANS_4@[77] == 0x53e2c75d49076c037a18272b5a0734e7);
        assert(ATANS_4@[78] == 0x886d0ba3ed0a598005332ab8012f9cb9);
        assert(ATANS_4@[79] == 0x3c484a7123346551f7fa489fb68ab6bc);
        assert(table_value(ATANS_4@, 19) == 6665019044563562133798817679176061468312321460821982918096149337201357943715206506143035380991379901611370411702129264819435188875917900500295136956);
        assert(within_atan_series(147int, 6665019044563562133798817679176061468312321460821982918096149337201357943715206506143035380991379901611370411702129264819435188875917900500295136956int));
    } else if j == 20 {
        assert(ATANS_4@[80] == 0x000008630a2dada1ed065d3e84ed5013);
        assert(ATANS_4@[81] == 0xca37d92a950da94553290ae8bed899cf);
        assert(ATANS_4@[82] == 0x54cc745f546519bd67954c112f51cb87);
        assert(ATANS_4@[83] == 0xb136bf6a5b3b9ebac14430993b796b95);
        assert(table_value(ATANS_4@, 20) == 6702518256673728054344866583867419292793120192959861434300741727942974662451589540211521215439616255631950641838816021319802856299136939593070898069);
        assert(within_atan_series(148int, 6702518256673728054344866583867419292793120192959861434300741727942974662451589540211521215439616255631950641838816021319802856299136939593070898069int));
    } else if j == 21 {
        assert(ATANS_4@[84] == 0x0000086f02ebd537be67c97b4e3ad655);
        assert(ATANS_4@[85] == 0x622ba7c75090d33c397b1208981dc7e4);
        assert(ATANS_4@[86] == 0xa61d5c8e74cc91ddad3fb50ce16acf40);
        assert(ATANS_4@[87] == 0x586d3e4ae36b3fd5036dff66afd88cc7);
        assert(table_value(ATANS_4@, 21) == 6739890742480474588823568995475813145082491711367297360237442731638267980088403191106501132757072908231659516867981413871615994824051381652038388935);
        assert(within_atan_series(149int, 6739890742480474588823568995475813145082491711367297360237442731638267980088403191106501132757072908231659516867981413871615994824051381652038388935int));
    } else if j == 22 {
        assert(ATANS_4@[88] == 0x0000087af145b3f14a800988d8bf64c8);
        assert(ATANS_4@[89] == 0x681429bdd6bf9f150f32c2dea9c231f4);
        assert(ATANS_4@[90] == 0x28f58a2a7f4f882e42791d6dd6a02330);
        assert(ATANS_4@[91] == 0x69252badcfeb33d4678f4a1a5dd2f55f);
        assert(table_value(ATANS_4@, 22) == 6777136508017018258321091208751073745695287483279908713095424759539434276295926564197245709337232447934401095237968853318341622549374297099474236767);
        assert(within_atan_series(150int, 6777136508017018258321091208751073745695287483279908713095424759539434276295926564197245709337232447934401095237968853318341622549374297099474236767int));
    } else if j == 23 {
        assert(ATANS_4@[92] == 0x00000886d53b983d06ad3867a898f60a);
        assert(ATANS_4@[93] == 0xf9f5dbce1325f98c02cf7c7b587391a5);
        assert(ATANS_4@[94] == 0xe9ca19d41053937fe5a4dd0d0bc8ea66);
        assert(ATANS_4@[95] == 0x36083b3c1550b45f2d54321e5977c241);
        assert(table_value(ATANS_4@, 23) == 6814255567877160200948953952163912161425989534873471375206982776286423528301197806293868814710504413367805616509430028941827225964197151164234973761);
        assert(within_atan_series(151int, 6814255567877160200948953952163912161425989534873471375206982776286423528301197806293868814710504413367805616509430028941827225964197151164234973761int));
    } else if j == 24 {
        assert(ATANS_4@[96] == 0x00000892aecdfde9547b5094478fc472);
        assert(ATANS_4@[97] == 0xb4afb8fbe7b9fb9ddf67f28c0a22e65f);
        assert(ATANS_4@[98] == 0xf600e31205dd0e396f760a2d08b4adfa);
        assert(ATANS_4@[99] == 0x2ae57f42337e8b2b51bdd998d73c4edb);
        assert(table_value(ATANS_4@, 24) == 6851247945097603900723666213294856171182643433608734203448934644193805677389338398974192631583157988980115680788766988992791202671402459845894098651);
        assert(within_atan_series(152int, 6851247945097603900723666213294856171182643433608734203448934644193805677389338398974192631583157988980115680788766988992791202671402459845894098651int));
    } else if j == 25 {
        assert(ATANS_4@[100] == 0x0000089e7dfd8d82b726221cdf87da6f);
        assert(ATANS_4@[101] == 0x989c0b2e59eefaa77cc19f400d02fa75);
        assert(ATANS_4@[102] == 0xb251f075ea1ea3712644cf607f342e78);
        assert(ATANS_4@[103] == 0x42a54ff14350ae4b281a5d43f64b0c7e);
        assert(table_value(ATANS_4@, 25) == 6888113671040359233919143483304726948471889360523308380148155864956022637602464501561601827041484978498481914179817839310903419643412908833866714238);
        assert(within_atan_series(153int, 6888113671040359233919143483304726948471889360523308380148155864956022637602464501561601827041484978498481914179817839310903419643412908833866714238int));
    } else if j == 26 {
        assert(ATANS_4@[104] == 0x000008aa42cb1bb234d68b0756e81879);
        assert(ATANS_4@[105] == 0xe8439fe76f7eccfbbf3d6b5fc0254dc4);
        assert(ATANS_4@[106] == 0xa203b458196e9be81d9a526225539c96);
        assert(ATANS_4@[107] == 0x7a295f2d8d29ba97d05351249935476f);
        assert(table_value(ATANS_4@, 26) == 6924852785275270678440968689854281209908154223831282223652973833859247518108679124921548262530227035762951207846791061541763236975708382856603846511);
        assert(within_atan_series(154int, 6924852785275270678440968689854281209908154223831282223652973833859247518108679124921548262530227035762951207846791061541763236975708382856603846511int));
    } else if j == 27 {
        assert(ATANS_4@[108] == 0x000008b5fd37a89bf099606fe141bd34);
        assert(ATANS_4@[109] == 0x8634d99492cf6ba02bf4d3f549952941);
        assert(ATANS_4@[110] == 0x0115c4d37e8ad9c06b113299f56c09cb);
        assert(ATANS_4@[111] == 0x81009b4b5656436ae3e59470d80d1c78);
        assert(table_value(ATANS_4@, 27) == 6961465335462706578603223331690032955765866215051039042334026660784006164385473236800432043077099707898869525229179123422597003328737272055032781944);
        assert(within_atan_series(155int, 6961465335462706578603223331690032955765866215051039042334026660784006164385473236800432043077099707898869525229179123422597003328737272055032781944int));
    } else if j == 28 {
        assert(ATANS_4@[112] == 0x000008c1ad445f3e09b8c439d8018602);
        assert(ATANS_4@[113] == 0x05920f8e244490311ce06ca922e3e403);
        assert(ATANS_4@[114] == 0x64e6fb8340b68a4a934c22a2e149b88a);
        assert(ATANS_4@[115] == 0xd45d8c7dd9b3f5ff1e675c4e88cbc23f);
        assert(table_value(ATANS_4@, 28) == 6997951377236445407245381866410329946294167604409225285123637454686981742963357205407984230073011561228969781248148902210577632491715353857953088063);
        assert(within_atan_series(156int, 6997951377236445407245381866410329946294167604409225285123637454686981742963357205407984230073011561228969781248148902210577632491715353857953088063int));
    } else if j == 29 {
        assert(ATANS_4@[116] == 0x000008cd52f294cfcccb3f27a74e0f96);
        assert(ATANS_4@[117] == 0x02b3b8709d0f2148f8aa62cdaf3be86d);
        assert(ATANS_4@[118] == 0xca7f6082c4f3d40643c3204c22fd818f);
        assert(ATANS_4@[119] == 0x0d4702ae68edeccbc2484943f5994508);
        assert(table_value(ATANS_4@, 29) == 7034310974086794020085918798565194441398232263477614792282651473661097515304476772043266317432802543120053248850128747249365112722971140688191243528);
        assert(within_atan_series(157int, 7034310974086794020085918798565194441398232263477614792282651473661097515304476772043266317432802543120053248850128747249365112722971140688191243528int));
    } else if j == 30 {
        assert(ATANS_4@[120] == 0x000008d8ee43c8214276f0b9ba88386b);
        assert(ATANS_4@[121] == 0x8a2ccdfc2b8615cb6dba333d3ce86493);
        assert(ATANS_4@[122] == 0x8f3868e0c22bde44976ce78a9fffb120);
        assert(ATANS_4@[123] == 0x13d43c488b568c877ab709f183483cda);
        assert(table_value(ATANS_4@, 30) == 7070544197243971954221864884128636655430948287181344427954335130494960334769540762069909177048685346957159568523203621159565913963757773862669401306);
        assert(within_atan_series(158int, 7070544197243971954221864884128636655430948287181344427954335130494960334769540762069909177048685346957159568523203621159565913963757773862669401306int));
    } else if j == 31 {
        assert(ATANS_4@[124] == 0x000008e47f39a0fb27928bbc9d5e7929);
        assert(ATANS_4@[125] == 0xf8ecdef9cec1a885e59ba94ca76369a9);
        assert(ATANS_4@[126] == 0x89102adf93983bf30f35a94ea9a9e6b9);
        assert(ATANS_4@[127] == 0x2045cb7ed34dd9d86e4e7b1171923808);
        assert(table_value(ATANS_4@, 31) == 7106651125561794884374536129739247789564168649667069003331071106153112513476859477214234229036982385591218234993947971237274598519818061232003495944);
        assert(within_atan_series(159int, 7106651125561794884374536129739247789564168649667069003331071106153112513476859477214234229036982385591218234993947971237274598519818061232003495944int));
    }
}

/// Entries 160 to 191 of the table.
proof fn lemma_atans_5(j: int)
    requires
        0 <= j < 32,
        pow2(452) == 0x100000000000000000000000000000000000000000000000000000000000000000000000000000000000000000000000000000000000000000nat,
        pow2(468) == 0x1000000000000000000000000000000000000000000000000000000000000000000000000000000000000000000000000000000000000000000000nat,
        pow2(484) == 0x10000000000000000000000000000000000000000000000000000000000000000000000000000000000000000000000000000000000000000000000000nat,
    ensures
        within_atan_series(160 + j, table_value(ATANS_5@, j)),
{
    lemma_word_literals();
    if j == 0 {
        assert(ATANS_5@[0] == 0x000008f005d5ef7f59f9b5c835e1665c);
        assert(ATANS_5@[1] == 0x43747918a67e0652b375cf53da46d133);
        assert(ATANS_5@[2] == 0x89eb23669dcd3918d712b66cd7dd3073);
        assert(ATANS_5@[3] == 0xd6a5829c4ed1d7e523acc358f6440a43);
        assert(table_value(ATANS_5@, 0) == 7142631845401689417450161736887773535972309264448209187304941882266239957985518095488017380231740751005423730584775196651916335803907975188379339331);
        assert(within_atan_series(160int, 7142631845401689417450161736887773535972309264448209187304941882266239957985518095488017380231740751005423730584775196651916335803907975188379339331int));
    } else if j == 1 {
        assert(ATANS_5@[4] == 0x000008fb821aab89c516c659f6d7dd47);
        assert(ATANS_5@[5] == 0x136a9b668d8770e1ca0a26573867f42a);
        assert(ATANS_5@[6] == 0xa3f89b33adb8f31636f6c3058e42f160);
        assert(ATANS_5@[7] == 0x3e75fdd2e444f9042f128e8e42d7c63e);
        assert(table_value(ATANS_5@, 1) == 7178486450517070478803658767317755268868239642129205311425015362414682968526033375331390281753500203260058769954607649824481798489787373879031219774);
        assert(within_atan_series(161int, 7178486450517070478803658767317755268868239642129205311425015362414682968526033375331390281753500203260058769954607649824481798489787373879031219774int));
    } else if j == 2 {
        assert(ATANS_5@[8] == 0x00000906f409f411d8d0dc5158289178);
        assert(ATANS_5@[9] == 0x50ab599f0a484419afea6fd954e7283f);
        assert(ATANS_5@[10] == 0x80434d44568eff0d6ffa99b146e4ed8f);
        assert(ATANS_5@[11] == 0xf20fc1c8982a54e6ce0660e32ee21ce0);
        assert(table_value(ATANS_5@, 2) == 7214215041938111622812505860082118910505396069296670106501286027354829544380289829199319304084994192003791701450909849928036873523165998648314174688);
        assert(within_atan_series(162int, 7214215041938111622812505860082118910505396069296670106501286027354829544380289829199319304084994192003791701450909849928036873523165998648314174688int));
    } else if j == 3 {
        assert(ATANS_5@[12] == 0x000009125ba60e8c953ada7bf114c188);
        assert(ATANS_5@[13] == 0x0f6a2b0b51d132051239d25831acb28b);
        assert(ATANS_5@[14] == 0xd151e9f4f2fe10c778e51af657582a3d);
        assert(ATANS_5@[15] == 0xa5238ec0fe7593cdac35e8b370708e82);
        assert(table_value(ATANS_5@, 3) == 7249817727856937686508675533353181105144989785860302209774091760735893694414226665511077695836616575009814859954198274805185635633172858449020620418);
        assert(within_atan_series(163int, 7249817727856937686508675533353181105144989785860302209774091760735893694414226665511077695836616575009814859954198274805185635633172858449020620418int));
    } else if j == 4 {
        assert(ATANS_5@[16] == 0x0000091db8f1664f350e210e4f9c1126);
        assert(ATANS_5@[17] == 0xe021fd995e8d1fc3534376758f20e06e);
        assert(ATANS_5@[18] == 0xfbe97684ccd8dee48c3903ce543133eb);
        assert(ATANS_5@[19] == 0x0fb423994dadf2266c6909f6e7953eda);
        assert(table_value(ATANS_5@, 4) == 7285294623513268298578289936929018759945653832823999048845171076747663590143536682799389983630640999482415862786753317598023940948187617257965567706);
        assert(within_atan_series(164int, 7285294623513268298578289936929018759945653832823999048845171076747663590143536682799389983630640999482415862786753317598023940948187617257965567706int));
    } else if j == 5 {
        assert(ATANS_5@[20] == 0x000009290bee8bf280aad5511836cf37);
        assert(ATANS_5@[21] == 0x97d76ea50b3e721bcbf2d24b7bedc86d);
        assert(ATANS_5@[22] == 0xc7ba37dde84bc0716dec0f1315802eb8);
        assert(ATANS_5@[23] == 0xa284b2f3faad1df0f70f9027094cded9);
        assert(table_value(ATANS_5@, 5) == 7320645851080539857495081549115441656196094541346019119538187508825796488211989918021679647077374549966602228148933839241639649722939021355157085913);
        assert(within_atan_series(165int, 7320645851080539857495081549115441656196094541346019119538187508825796488211989918021679647077374549966602228148933839241639649722939021355157085913int));
    } else if j == 6 {
        assert(ATANS_5@[24] == 0x0000093454a034b6d30744d228131cf3);
        assert(ATANS_5@[25] == 0x1c981c4db4f92c291b97daeaad9a7fee);
        assert(ATANS_5@[26] == 0xb773fbedd38a633e3fa3e303e84683ae);
        assert(ATANS_5@[27] == 0x6bac9de6c8285a1106e41222db398bcf);
        assert(table_value(ATANS_5@, 6) == 7355871539552532702354861553137590496624619750641188739444292535503718144056344940361035607929938339388436206356059423944406860197950854462724213711);
        assert(within_atan_series(166int, 7355871539552532702354861553137590496624619750641188739444292535503718144056344940361035607929938339388436206356059423944406860197950854462724213711int));
    } else if j == 7 {
        assert(ATANS_5@[28] == 0x0000093f930939e8d9a877e6c2a3bb3e);
        assert(ATANS_5@[29] == 0x2ecda573dc02ff77c6d78d6a436474af);
        assert(ATANS_5@[30] == 0x2fbc42bfa01d60275deba78fe9f00074);
        assert(ATANS_5@[31] == 0x7ee2cb4a83e2f0a1ede39e919b46a4aa);
        assert(table_value(ATANS_5@, 7) == 7390971824630529318550379454139802941376336357354009012992859427724815108866949893707942966245291730016057985014443282657245778728539254258200388778);
        assert(within_atan_series(167int, 7390971824630529318550379454139802941376336357354009012992859427724815108866949893707942966245291730016057985014443282657245778728539254258200388778int));
    } else if j == 8 {
        assert(ATANS_5@[32] == 0x0000094ac72c9847186f618c4f393f78);
        assert(ATANS_5@[33] == 0xa32f8f38ae0f47a945eda2c6b9f78803);
        assert(ATANS_5@[34] == 0x1c786366dbce1b97e806e892aebb8234);
        assert(ATANS_5@[35] == 0x2e027307f92239fc8cdd23ea57fe00f2);
        assert(table_value(ATANS_5@, 8) == 7425946848611028548172313568096475331632539596884207621940183598715965118017088721521915543841163880270483516549876440946091711299736498900215660786);
        assert(within_atan_series(168int, 7425946848611028548172313568096475331632539596884207621940183598715965118017088721521915543841163880270483516549876440946091711299736498900215660786int));
    } else if j == 9 {
        assert(ATANS_5@[36] == 0x00000955f10d6f6839b85180035a045c);
        assert(ATANS_5@[37] == 0x3b111748dbe4700ec6abf6e81047d6c5);
        assert(ATANS_5@[38] == 0x50ef3535e07303f5b6c6c5faac9053f6);
        assert(ATANS_5@[39] == 0x257a17d4977f607e2277e02013b6763d);
        assert(table_value(ATANS_5@, 9) == 7460796760274039912322954805598818061119988899604572928239182032010536604319378198072906482705321688190850443063798133432587947876431380681917363773);
        assert(within_atan_series(169int, 7460796760274039912322954805598818061119988899604572928239182032010536604319378198072906482705321688190850443063798133432587947876431380681917363773int));
    } else if j == 10 {
        assert(ATANS_5@[40] == 0x0000096110af012232fd68fde4b8b683);
        assert(ATANS_5@[41] == 0xe268649af3b91948783662595a117e59);
        assert(ATANS_5@[42] == 0xcc3c64fb92fff3e6ac2a317d7f06f72d);
        assert(ATANS_5@[43] == 0x045fa51d623a665b5cffa57075bdba30);
        assert(table_value(ATANS_5@, 10) == 7495521714771981299742332788558701986996991067866259742323403813920922592893501687092808855606749702921956556971946634129292800474428145368716655152);
        assert(within_atan_series(170int, 7495521714771981299742332788558701986996991067866259742323403813920922592893501687092808855606749702921956556971946634129292800474428145368716655152int));
    } else if j == 11 {
        assert(ATANS_5@[44] == 0x0000096c2614b0f245e0dabdf5c91afa);
        assert(ATANS_5@[45] == 0x42aa81fd293f462212feefbc20be4ee5);
        assert(ATANS_5@[46] == 0xae7c504d4dfe807b54f2d9654eff2de7);
        assert(ATANS_5@[47] == 0x8a0a8b8117ff74da617827b980db20d3);
        assert(table_value(ATANS_5@, 11) == 7530121873519202433608029621167391057618877749433364172142858035413932709094237736801106341401531078546353594785686548090505010747332019853543022803);
        assert(within_atan_series(171int, 7530121873519202433608029621167391057618877749433364172142858035413932709094237736801106341401531078546353594785686548090505010747332019853543022803int));
    } else if j == 12 {
        assert(ATANS_5@[48] == 0x0000097731420365e538babd3fe19f1a);
        assert(ATANS_5@[49] == 0xeb6b29798db274070578e1faf20aa874);
        assert(ATANS_5@[50] == 0xc64d423b240c5b871bf60048b1a46cc9);
        assert(ATANS_5@[51] == 0x212148173f3b2b6e2a67815f83a6aac4);
        assert(table_value(ATANS_5@, 12) == 7564597404082155696394182273526526434580370657062587719037507368584857504045427071681502305801928402350020399921527255477868289253271612653077703364);
        assert(within_atan_series(172int, 7564597404082155696394182273526526434580370657062587719037507368584857504045427071681502305801928402350020399921527255477868289253271612653077703364int));
    } else if j == 13 {
        assert(ATANS_5@[52] == 0x00000982323a9d84856c18ed9e25e70c);
        assert(ATANS_5@[53] == 0xdba0ed14fc58264bdeff81481e51fb81);
        assert(ATANS_5@[54] == 0xde37c66cb95ffa572d976cbd555f942a);
        assert(ATANS_5@[55] == 0xd7290986431aa1683391e19b8255c4d4);
        assert(table_value(ATANS_5@, 13) == 7598948480070235071555608844344598864195146515690386661681483979486364463199919708610674810712226371277172302946057265396956261474585775579631830228);
        assert(within_atan_series(173int, 7598948480070235071555608844344598864195146515690386661681483979486364463199919708610674810712226371277172302946057265396956261474585775579631830228int));
    } else if j == 14 {
        assert(ATANS_5@[56] == 0x0000098d2902443a5f2819570f4f5848);
        assert(ATANS_5@[57] == 0x92a42fdcc108f999fc0da25f3e25b932);
        assert(ATANS_5@[58] == 0x4c0a084a48c058b48367551c3add786d);
        assert(ATANS_5@[59] == 0x83c220efeead3074e1526d8a3ab60efb);
        assert(table_value(ATANS_5@, 14) == 7633175281027303150812471134921622630215228497964126165240881463392923110852380980823666854693543128594330207464888682057878791184770614966695104251);
        assert(within_atan_series(174int, 7633175281027303150812471134921622630215228497964126165240881463392923110852380980823666854693543128594330207464888682057878791184770614966695104251int));
    } else if j == 15 {
        assert(ATANS_5@[60] == 0x00000998159cdbc42b2bba5db0f75056);
        assert(ATANS_5@[61] == 0x78ad6593e8d1b40b7b8afd521c6db82d);
        assert(ATANS_5@[62] == 0x42a04d675d8eda9c5d9f020c62241422);
        assert(ATANS_5@[63] == 0xcd5790ac0a9b1183f9d16ad5594ba4de);
        assert(table_value(ATANS_5@, 15) == 7667277992323925357202198530660618287210889583160999429388100944186392724251774635290018653109020338916080563977915087407850362160834551318978471134);
        assert(within_atan_series(175int, 7667277992323925357202198530660618287210889583160999429388100944186392724251774635290018653109020338916080563977915087407850362160834551318978471134int));
    } else if j == 16 {
        assert(ATANS_5@[64] == 0x000009a2f80e671bdda204226f8e2204);
        assert(ATANS_5@[65] == 0xff3bcdae46f0617489d5c77874d1e753);
        assert(ATANS_5@[66] == 0xafee44ccdbfe6b74ad88f11620ae2966);
        assert(ATANS_5@[67] == 0xbda9c098e55dd9c44fa81e9e70d29141);
        assert(table_value(ATANS_5@, 16) == 7701256805050329747071757612046585834240430370031406438329237320562098828659310668480221408988937562057460237907597146729865670549072047714130366785);
        assert(within_atan_series(176int, 7701256805050329747071757612046585834240430370031406438329237320562098828659310668480221408988937562057460237907597146729865670549072047714130366785int));
    } else if j == 17 {
        assert(ATANS_5@[68] == 0x000009add05b0766673c77433726d172);
        assert(ATANS_5@[69] == 0xb70996c03d1d89d7f9d9b643b549743e);
        assert(ATANS_5@[70] == 0xaeb9ac496ecf6b4e2ea0eaad9c2420a1);
        assert(ATANS_5@[71] == 0x67aca218780aeb60a89e6d9ec50cffff);
        assert(table_value(ATANS_5@, 17) == 7735111915910109979018885131710920888269482049255281863154882863888149185777084316632896207605457284314254916887221301365518035918599424247107223551);
        assert(within_atan_series(177int, 7735111915910109979018885131710920888269482049255281863154882863888149185777084316632896207605457284314254916887221301365518035918599424247107223551int));
    } else if j == 18 {
        assert(ATANS_5@[72] == 0x000009b89e86fb6281fac21d87f3a7e4);
        assert(ATANS_5@[73] == 0xb6dd3c5daac0edab7679ae01aa73425c);
        assert(ATANS_5@[74] == 0x955300aa57e64a60d5850e221dcf091d);
        assert(ATANS_5@[75] == 0x4f19adcef5ee2ca15bc11ee73c1d8cd5);
        assert(table_value(ATANS_5@, 18) == 7768843527114688274651152828628447681311334593367524229525494555883692467040247361110117790748770314234787945366480473252786988574327978759911476437);
        assert(within_atan_series(178int, 7768843527114688274651152828628447681311334593367524229525494555883692467040247361110117790748770314234787945366480473252786988574327978759911476437int));
    } else if j == 19 {
        assert(ATANS_5@[76] == 0x000009c362969ed88f490e3c682832bf);
        assert(ATANS_5@[77] == 0xbda16e92930016001e35eacbee3501d4);
        assert(ATANS_5@[78] == 0x3e268c5d140364cdf5cc3581ea5950bc);
        assert(ATANS_5@[79] == 0x7c35303cc74818891df0e2f36417d35a);
        assert(table_value(ATANS_5@, 19) == 7802451846278554445094167049644770391642788663996701312366418012873491355844345264215302044209299373897614001929927236088217940500354705117360411482);
        assert(within_atan_series(179int, 7802451846278554445094167049644770391642788663996701312366418012873491355844345264215302044209299373897614001929927236088217940500354705117360411482int));
    } else if j == 20 {
        assert(ATANS_5@[80] == 0x000009ce1c8e6a0b8cdb9f799c4e8174);
        assert(ATANS_5@[81] == 0xcf11c5a2ac6a3b26e793ef1e5725d60d);
        assert(ATANS_5@[82] == 0x2cff2c5acdb526cacdafa34d63cadd72);
        assert(ATANS_5@[83] == 0x640eaf026319fa36cef1ea95e1a5a253);
        assert(table_value(ATANS_5@, 20) == 7835937086315296318604720768794398375307286190759104355785117559154079925067278151985354480408771254831819099938886740418035679542821322658310103635);
        assert(within_atan_series(180int, 7835937086315296318604720768794398375307286190759104355785117559154079925067278151985354480408771254831819099938886740418035679542821322658310103635int));
    } else if j == 21 {
        assert(ATANS_5@[84] == 0x000009d8cc72f12b256d06dde0f8ad54);
        assert(ATANS_5@[85] == 0x20d93feebfb012e5585bbeb87c63b5ef);
        assert(ATANS_5@[86] == 0x33dec61ea308cda8196d586e84f415ab);
        assert(ATANS_5@[87] == 0x03b8ea9998dd2b80a576bcad840e0f45);
        assert(table_value(ATANS_5@, 21) == 7869299465334436178574147346717383139404146163088753845220911086413907711838902499054047739048698005608001607299146700918800632091666053260481793861);
        assert(within_atan_series(181int, 7869299465334436178574147346717383139404146163088753845220911086413907711838902499054047739048698005608001607299146700918800632091666053260481793861int));
    } else if j == 22 {
        assert(ATANS_5@[88] == 0x000009e37248e3c6e243d75ed605e8b1);
        assert(ATANS_5@[89] == 0x28b9c394f7ac857c9913e8c9ee65d54b);
        assert(ATANS_5@[90] == 0x2ce86161fda6a360e6a2812a703774b2);
        assert(ATANS_5@[91] == 0x226f2ecb6accb6d950e93b7713e78de8);
        assert(table_value(ATANS_5@, 22) == 7902539206539087107767763010561134019162951981452076138556439193231422858094306901413741178838130019793543591610120123640966448022039299787527261672);
        assert(within_atan_series(182int, 7902539206539087107767763010561134019162951981452076138556439193231422858094306901413741178838130019793543591610120123640966448022039299787527261672int));
    } else if j == 23 {
        assert(ATANS_5@[92] == 0x000009ee0e150c4282259cc6e1e9d2e1);
        assert(ATANS_5@[93] == 0xdfdf5925a09fffd8b9437af09eda9516);
        assert(ATANS_5@[94] == 0x31e669141cd380d8b79ad875ccc16a52);
        assert(ATANS_5@[95] == 0x36aaf149bdb56e3fc4e25664860bd690);
        assert(table_value(ATANS_5@, 23) == 7935656538124442433948380440131281519990081523533643188772235952867473022016785967805201810862821612173855139943325118377458362755284448957455652496);
        assert(within_atan_series(183int, 7935656538124442433948380440131281519990081523533643188772235952867473022016785967805201810862821612173855139943325118377458362755284448957455652496int));
    } else if j == 24 {
        assert(ATANS_5@[96] == 0x000009f89fdc4f4b7a1ecf8b492644f0);
        assert(ATANS_5@[97] == 0x701df9d743d1bc801acaa00a35bc21c6);
        assert(ATANS_5@[98] == 0xf4dfbdb76883077858f462837a0dd676);
        assert(ATANS_5@[99] == 0x74a8b4a8dcdfbed899dbd149416e92c6);
        assert(table_value(ATANS_5@, 24) == 7968651693177110784170154787582646708927783215110710400486902838861706009533705962366548243347537204932787372519154669574365698115152595824646460102);
        assert(within_atan_series(184int, 7968651693177110784170154787582646708927783215110710400486902838861706009533705962366548243347537204932787372519154669574365698115152595824646460102int));
    } else if j == 25 {
        assert(ATANS_5@[100] == 0x00000a0327a3ab4fa44aa4ee0dc81a9b);
        assert(ATANS_5@[101] == 0xe5a70912c563a99ca96f1570dac4cff0);
        assert(ATANS_5@[102] == 0x55c4999215509850b93767c4390aef1d);
        assert(ATANS_5@[103] == 0xd3e6bde76ccd34e31a5f0a8bcb9cc7c2);
        assert(table_value(ATANS_5@, 25) == 8001524909575308580083194961424993401859568377994265692743563770011503702913876686550330098710190092672553491863091682868862360847853581871957723074);
        assert(within_atan_series(185int, 8001524909575308580083194961424993401859568377994265692743563770011503702913876686550330098710190092672553491863091682868862360847853581871957723074int));
    } else if j == 26 {
        assert(ATANS_5@[104] == 0x00000a0da57037f52089eb052993bb28);
        assert(ATANS_5@[105] == 0xec56839662ecbf7c6370433bc2432ad2);
        assert(ATANS_5@[106] == 0xe8823dfe1392e5d2c3b833a9aa868524);
        assert(ATANS_5@[107] == 0xc029b70db77e1be0760ad0104baa5280);
        assert(table_value(ATANS_5@, 26) == 8034276429889921144624636600581821909969901769687118826628793872552694199604014421021622417365103177257282252307868458274348936657368939082547876480);
        assert(within_atan_series(186int, 8034276429889921144624636600581821909969901769687118826628793872552694199604014421021622417365103177257282252307868458274348936657368939082547876480int));
    } else if j == 27 {
        assert(ATANS_5@[108] == 0x00000a18194725936add9d4ddf1e8cc2);
        assert(ATANS_5@[109] == 0xef763f0f53593017e39321031ccfe85a);
        assert(ATANS_5@[110] == 0xb70c7c54d6eb8ab6b4b529a50d136a04);
        assert(ATANS_5@[111] == 0xb082060a29d7d104858ef89642133dfc);
        assert(table_value(ATANS_5@, 27) == 8066906501286442941539423318502156262531443604754247666887026991327631850083138547812185276724560168567500807824514346677191302785963212018275270140);
        assert(within_atan_series(187int, 8066906501286442941539423318502156262531443604754247666887026991327631850083138547812185276724560168567500807824514346677191302785963212018275270140int));
    } else if j == 28 {
        assert(ATANS_5@[112] == 0x00000a22832dbcadaae0892fe9c08637);
        assert(ATANS_5@[113] == 0xaf0e5d084146d4fd55be415a11f3b502);
        assert(ATANS_5@[114] == 0x2d783345185e92cfe1d33f1bc281ee6e);
        assert(ATANS_5@[115] == 0x9150996b02c2a0513d49b7a2fec8c98e);
        assert(table_value(ATANS_5@, 28) == 8099415375427806833311569889316892550043502713547873546247553506998815722089808415735449377107436549867620127337348268848648908166202435139373943182);
        assert(within_atan_series(188int, 8099415375427806833311569889316892550043502713547873546247553506998815722089808415735449377107436549867620127337348268848648908166202435139373943182int));
    } else if j == 29 {
        assert(ATANS_5@[116] == 0x00000a2ce3295d6e3fa332d31d1c26b7);
        assert(ATANS_5@[117] == 0xa893d3f56d575ecbcdf0a55753016548);
        assert(ATANS_5@[118] == 0x9905ab2a39eb0b7c7b50f770208acf23);
        assert(ATANS_5@[119] == 0x73a5b4f87f3e94630d84ed181efdadb2);
        assert(table_value(ATANS_5@, 29) == 8131803308378111620318868265706826558747198159044746570078746547896301937111971198077478331695971221065617476475238825065756778151887447373607972274);
        assert(within_atan_series(189int, 8131803308378111620318868265706826558747198159044746570078746547896301937111971198077478331695971221065617476475238825065756778151887447373607972274int));
    } else if j == 30 {
        assert(ATANS_5@[120] == 0x00000a37393f7f238af63232723dd99b);
        assert(ATANS_5@[121] == 0x9efd38377a1ec574756daf1fdd467151);
        assert(ATANS_5@[122] == 0x9b7d42363a23f4c8045a6a25423e9b40);
        assert(ATANS_5@[123] == 0x8341a6b338fd3353878c0481b5a55861);
        assert(table_value(ATANS_5@, 30) == 8164070560507256514363012911423064688318789184508433458383970883971379682183835838474861733363980867992486200249751311697137816921437346135860926561);
        assert(within_atan_series(190int, 8164070560507256514363012911423064688318789184508433458383970883971379682183835838474861733363980867992486200249751311697137816921437346135860926561int));
    } else if j == 31 {
        assert(ATANS_5@[124] == 0x00000a418575afbdfef9766a66626d63);
        assert(ATANS_5@[125] == 0x334d8d43b4e063a8e33afa6f75e8b677);
        assert(ATANS_5@[126] == 0x7e14a1f8c1678375987356935ca952af);
        assert(ATANS_5@[127] == 0xa72fed1652a5451157fbb2f3c35f4e2c);
        assert(table_value(ATANS_5@, 31) == 8196217396396490603173106282273483519424268757860696577917141498295129235105250045958172638199969319719136658820100570210391667708624829282705690156);
        assert(within_atan_series(191int, 8196217396396490603173106282273483519424268757860696577917141498295129235105250045958172638199969319719136658820100570210391667708624829282705690156int));
    }
}

/// Entries 192 to 223 of the table.
proof fn lemma_atans_6(j: int)
    requires
        0 <= j < 32,
        pow2(452) == 0x100000000000000000000000000000000000000000000000000000000000000000000000000000000000000000000000000000000000000000nat,
        pow2(468) == 0x1000000000000000000000000000000000000000000000000000000000000000000000000000000000000000000000000000000000000000000000nat,
        pow2(484) == 0x10000000000000000000000000000000000000000000000000000000000000000000000000000000000000000000000000000000000000000000000000nat,
    ensures
        within_atan_series(192 + j, table_value(ATANS_6@, j)),
{
    lemma_word_literals();
    if j == 0 {
        assert(ATANS_6@[0] == 0x00000a4bc7d1934f7092419a87f2a457);
        assert(ATANS_6@[1] == 0xdac9ee3f08689eeb2b9e7214866658cc);
        assert(ATANS_6@[2] == 0x4ef3aa7f7b7db933cb84f5762206ed3d);
        assert(ATANS_6@[3] == 0x024b391742ccce782285ac8ea0ca4548);
        assert(table_value(ATANS_6@, 0) == 8228244084744884779022052300237026113362529764145751841887200850143643762864918451283200925130098193952086189603640414995166181459492989916106343752);
        assert(within_atan_series(192int, 8228244084744884779022052300237026113362529764145751841887200850143643762864918451283200925130098193952086189603640414995166181459492989916106343752int));
    } else if j == 1 {
        assert(ATANS_6@[4] == 0x00000a560058e38bb13641ce47057200);
        assert(ATANS_6@[5] == 0x3eb4629ef1eca0cd0e58d9b1cffb5cdd);
        assert(ATANS_6@[6] == 0xd11604a9046c5e9548892e09b33429bf);
        assert(ATANS_6@[7] == 0x6f3e3b69b5678b357f88c4ebb7d100f8);
        assert(table_value(ATANS_6@, 1) == 8260150898276733034209978001228270645413921900263328638729746268916269916998775662005318416660923538367391785586443443987685024230592890210975023352);
        assert(within_atan_series(193int, 8260150898276733034209978001228270645413921900263328638729746268916269916998775662005318416660923538367391785586443443987685024230592890210975023352int));
    } else if j == 2 {
        assert(ATANS_6@[8] == 0x00000a602f116f4a7247ea7c1ec1a242);
        assert(ATANS_6@[9] == 0x451d4464264c5c916e8e8ec759243d72);
        assert(ATANS_6@[10] == 0xf6e5526d2e613004761ab45f44fadd46);
        assert(ATANS_6@[11] == 0xcd0be3ebf15021f72af1a9f506f83817);
        assert(table_value(ATANS_6@, 2) == 8291938113649889468823461292132894784816357206676988364847398534944963985826584158890945092299784346987669990224858320893406730598603233210039547927);
        assert(within_atan_series(194int, 8291938113649889468823461292132894784816357206676988364847398534944963985826584158890945092299784346987669990224858320893406730598603233210039547927int));
    } else if j == 3 {
        assert(ATANS_6@[12] == 0x00000a6a54011a0a740f1d448ed54458);
        assert(ATANS_6@[13] == 0x0ee24a1872a95c2ed13cb3318a32b115);
        assert(ATANS_6@[14] == 0x2656dcc9b9d5d135455621ef1ec9383d);
        assert(ATANS_6@[15] == 0x36f125b029b160e0c37546068a970c26);
        assert(table_value(ATANS_6@, 3) == 8323606011365046811830765144892423487935072513286763612691042932266130199571122792644095795412196307186841129647108123002650958807229159875930426406);
        assert(within_atan_series(195int, 8323606011365046811830765144892423487935072513286763612691042932266130199571122792644095795412196307186841129647108123002650958807229159875930426406int));
    } else if j == 4 {
        assert(ATANS_6@[16] == 0x00000a746f2ddb760229467b7d66f2d7);
        assert(ATANS_6@[17] == 0x4e01921b81774d87a36a4eb3fe5fa494);
        assert(ATANS_6@[18] == 0xa132239c4080f6ddbb82509f6434092c);
        assert(ATANS_6@[19] == 0xf61f4f385b0baa8eee07245f459439c2);
        assert(table_value(ATANS_6@, 4) == 8355154875675961725168578284381788017715728803800605468709652421518380242716424433498119655533016296107073870253101823332295714777789442279861402050);
        assert(within_atan_series(196int, 8355154875675961725168578284381788017715728803800605468709652421518380242716424433498119655533016296107073870253101823332295714777789442279861402050int));
    } else if j == 5 {
        assert(ATANS_6@[20] == 0x00000a7e809dbee8bf1d513f3e7c24b4);
        assert(ATANS_6@[21] == 0xd1412b0d212cae235aaba566e7e8bf0d);
        assert(ATANS_6@[22] == 0x11959e9c2ff7ddcbda61dc43078b512d);
        assert(ATANS_6@[23] == 0x4e3b841da709b83cbe1ad6ac8c4f7cf3);
        assert(table_value(ATANS_6@, 5) == 8386584994500631641952792363915679265323561207538702207875487579281254545274936080082811200980278403908208627523400264749649314706663985742963768563);
        assert(within_atan_series(197int, 8386584994500631641952792363915679265323561207538702207875487579281254545274936080082811200980278403908208627523400264749649314706663985742963768563int));
    } else if j == 6 {
        assert(ATANS_6@[24] == 0x00000a888856e2f6c0923dcd6832a63d);
        assert(ATANS_6@[25] == 0xe1ee8e17ab4a5af4bc660878211b1f25);
        assert(ATANS_6@[26] == 0x7d01eeca1ba5d448c4b559ede3d4c247);
        assert(ATANS_6@[27] == 0xe47ffdd83543905d79a4b9c76be14e2c);
        assert(table_value(ATANS_6@, 6) == 8417896659333427384233657529014150146311166674293600772478452992083094272355765562481042135007152517504109316065287397609245823087712564626323492396);
        assert(within_atan_series(198int, 8417896659333427384233657529014150146311166674293600772478452992083094272355765562481042135007152517504109316065287397609245823087712564626323492396int));
    } else if j == 7 {
        assert(ATANS_6@[28] == 0x00000a92865f78f4fd7ab19217375de4);
        assert(ATANS_6@[29] == 0x1b9df73ca99a3527462b0bdbab4d9b62);
        assert(ATANS_6@[30] == 0x709d6a88d2a6df528f87f28bfc71abec);
        assert(ATANS_6@[31] == 0x24271d998cbba1e72816dd1ea5a0ef98);
        assert(table_value(ATANS_6@, 7) == 8449090165158185312734933273091053720302746549789975346970134494017108063356819723628173150857410485492140087587222375828811379361984661092049153944);
        assert(within_atan_series(199int, 8449090165158185312734933273091053720302746549789975346970134494017108063356819723628173150857410485492140087587222375828811379361984661092049153944int));
    } else if j == 8 {
        assert(ATANS_6@[32] == 0x00000a9c7abdc4830f5c8916a84b5be7);
        assert(ATANS_6@[33] == 0x933f5f9971655e427bf1c094f003a7db);
        assert(ATANS_6@[34] == 0xf5c4d45931d7436a1ca19ff7ad99b056);
        assert(ATANS_6@[35] == 0x2adec72eb259ff8431ede85c67da6061);
        assert(table_value(ATANS_6@, 8) == 8480165810362262280680122065432813453805264765947722449028550131399469812280011198989866163796570487964726087420335522842903320180296923879426383969);
        assert(within_atan_series(200int, 8480165810362262280680122065432813453805264765947722449028550131399469812280011198989866163796570487964726087420335522842903320180296923879426383969int));
    } else if j == 9 {
        assert(ATANS_6@[36] == 0x00000aa665781b1647b14648ff1e8782);
        assert(ATANS_6@[37] == 0xacc5172cde54877ef508b91bd6827f76);
        assert(ATANS_6@[38] == 0x9d388ec29e77a102e3539abc4e90acfa);
        assert(ATANS_6@[39] == 0x4716dd4607a6b79d2847ed84d5aeb2ee);
        assert(table_value(ATANS_6@, 9) == 8511123896651556196021736490053732846355800743189702970616733309500585443902964682469601942553283213840859671921217360952831553542407821963085918958);
        assert(within_atan_series(201int, 8511123896651556196021736490053732846355800743189702970616733309500585443902964682469601942553283213840859671921217360952831553542407821963085918958int));
    } else if j == 10 {
        assert(ATANS_6@[40] == 0x00000ab04694e3861a332739e1bd0110);
        assert(ATANS_6@[41] == 0x00fd4fa1db9e78e69e2709f321fca5bc);
        assert(ATANS_6@[42] == 0xa35857fa5fb8ae2ec9b6d286ac91b0e2);
        assert(ATANS_6@[43] == 0xc01519a2542b288b7fd78cab1b0aa633);
        assert(table_value(ATANS_6@, 10) == 8541964728966494541049872693555763905078416296871741762858633132253868477508974344366112313969668211472980035147457227919459285542072067560949065267);
        assert(within_atan_series(202int, 8541964728966494541049872693555763905078416296871741762858633132253868477508974344366112313969668211472980035147457227919459285542072067560949065267int));
    } else if j == 11 {
        assert(ATANS_6@[44] == 0x00000aba1e1a9599dcc2bfe5966f02b4);
        assert(ATANS_6@[45] == 0x69fb603728b70e0d2c55b56a206202a4);
        assert(ATANS_6@[46] == 0xd08e414ff539ce73fb9c1b40008b7ba4);
        assert(ATANS_6@[47] == 0x85390cf855bad618b50ba400185f2c14);
        assert(table_value(ATANS_6@, 11) == 8572688615398992755355474249839867594157630400960172919694538801261900041534505961261160445368289196868782790850958917293198278693811250091215760404);
        assert(within_atan_series(203int, 8572688615398992755355474249839867594157630400960172919694538801261900041534505961261160445368289196868782790850958917293198278693811250091215760404int));
    } else if j == 12 {
        assert(ATANS_6@[48] == 0x00000ac3ec0fb997dd6a1a36273a56af);
        assert(ATANS_6@[49] == 0xa8ef4183db5406c42068cb854b5cfa7e);
        assert(ATANS_6@[50] == 0xdf0553cc6eb351ca234ff9b9aabd16f3);
        assert(ATANS_6@[51] == 0x25ae34a195dafc3bde77fd3fdb776fd9);
        assert(table_value(ATANS_6@, 12) == 8603295867110383957346551997410879887997153089476727157575891555636438185284823117282603978227988116287429807125782843548276635283642942755710660569);
        assert(within_atan_series(204int, 8603295867110383957346551997410879887997153089476727157575891555636438185284823117282603978227988116287429807125782843548276635283642942755710660569int));
    } else if j == 13 {
        assert(ATANS_6@[52] == 0x00000acdb07ae7d5cedc9f677dfb2876);
        assert(ATANS_6@[53] == 0x9f24d1951bb83130dd772f4309a24c4e);
        assert(ATANS_6@[54] == 0x2513f648152169defb54cb278542a39a);
        assert(ATANS_6@[55] == 0x2b99ff90a8bfdffed0b204614067c36a);
        assert(table_value(ATANS_6@, 13) == 8633786798250321060841285101776829994239382647796148451933051893127375090072719337581527245186556983846138906469453322531116840262686080518744163178);
        assert(within_atan_series(205int, 8633786798250321060841285101776829994239382647796148451933051893127375090072719337581527245186556983846138906469453322531116840262686080518744163178int));
    } else if j == 14 {
        assert(ATANS_6@[56] == 0x00000ad76b62c84a8bae625ee295286c);
        assert(ATANS_6@[57] == 0xdb591529f4f435ac7f639361bd73d327);
        assert(ATANS_6@[58] == 0x860b82041007364684b8f8d0d947ac10);
        assert(ATANS_6@[59] == 0x9498e7bb25f2e593da3a953a309f46fc);
        assert(table_value(ATANS_6@, 14) == 8664161725876651936563769233795148431660378072336346097103749128908847602566107816661451441828861299119787058165556898248609208667791769691605649148);
        assert(within_atan_series(206int, 8664161725876651936563769233795148431660378072336346097103749128908847602566107816661451441828861299119787058165556898248609208667791769691605649148int));
    } else if j == 15 {
        assert(ATANS_6@[60] == 0x00000ae11cce12213059c8562c352995);
        assert(ATANS_6@[61] == 0x154abc1476866c42ac10401e2dca4c5f);
        assert(ATANS_6@[62] == 0x182b71b7384afa482e425813b0f959c8);
        assert(ATANS_6@[63] == 0x9b025c068fdf710ced33d4c5681e842e);
        assert(table_value(ATANS_6@, 15) == 8694420969876267873514354467930122273725341619495301039442210744127319456610432521780172341524140103598331356905011846595123313569330022469899027502);
        assert(within_atan_series(207int, 8694420969876267873514354467930122273725341619495301039442210744127319456610432521780172341524140103598331356905011846595123313569330022469899027502int));
    } else if j == 16 {
        assert(ATANS_6@[64] == 0x00000aeac4c38b4d8c08014725e2f3e5);
        assert(ATANS_6@[65] == 0x2070a03742b4643effe2604407947c44);
        assert(ATANS_6@[66] == 0xfdd3095ee0fd1eef1f3d7c6586fe1dd4);
        assert(ATANS_6@[67] == 0x39af33fd6f7853b746c2d5307ed4bc54);
        assert(table_value(ATANS_6@, 16) == 8724564852886925212040284166458372444590659760659563457837192207970184831277602814866009740050365435265203188511204657098568489086827864342545087572);
        assert(within_atan_series(208int, 8724564852886925212040284166458372444590659760659563457837192207970184831277602814866009740050365435265203188511204657098568489086827864342545087572int));
    } else if j == 17 {
        assert(ATANS_6@[68] == 0x00000af4634a0821e7ef408a41bae190);
        assert(ATANS_6@[69] == 0x4f9164736fc44bfbb5c686dd5e77f4e3);
        assert(ATANS_6@[70] == 0xa097c77bd59a9b6b5a68c3843bdcb43d);
        assert(ATANS_6@[71] == 0x8a1f6778f23a9608d99e1069518ef19c);
        assert(table_value(ATANS_6@, 17) == 8754593700220039648852402046749862717144047338062258330121672906861003832519231047578872637074881691305577657586147083636610122440626087187132117404);
        assert(within_atan_series(209int, 8754593700220039648852402046749862717144047338062258330121672906861003832519231047578872637074881691305577657586147083636610122440626087187132117404int));
    } else if j == 18 {
        assert(ATANS_6@[72] == 0x00000afdf8686ae624f92cc0bffd23aa);
        assert(ATANS_6@[73] == 0x0ae627e411319f25347b4922e6f31728);
        assert(ATANS_6@[74] == 0x10af72a7b1f70916f0675f7f6847324d);
        assert(ATANS_6@[75] == 0x12ebdb16df078ef9a241acbf0d7450e6);
        assert(table_value(ATANS_6@, 18) == 8784507839784452354074501683803404185829159922466721554969276952085508139164698261639409182868812104132517252313169358939774797155197792621467816166);
        assert(within_atan_series(210int, 8784507839784452354074501683803404185829159922466721554969276952085508139164698261639409182868812104132517252313169358939774797155197792621467816166int));
    } else if j == 19 {
        assert(ATANS_6@[76] == 0x00000b078425a3702f4488f2ccd75cd9);
        assert(ATANS_6@[77] == 0xcdaf2a5b0f42a1149f51704696a5f13d);
        assert(ATANS_6@[78] == 0x626cd1ddf854de64810a7a5f8fbc474c);
        assert(ATANS_6@[79] == 0xf6262c74448b53fcf63dfee29a6a0ec6);
        assert(table_value(ATANS_6@, 19) == 8814307602011166691524002739221740028661116341309207002577168151691133314179743389477908435427816282540595787220201632652324505858373243690847702726);
        assert(within_atan_series(211int, 8814307602011166691524002739221740028661116341309207002577168151691133314179743389477908435427816282540595787220201632652324505858373243690847702726int));
    } else if j == 20 {
        assert(ATANS_6@[80] == 0x00000b110688aebdc6f6a43d65788b9f);
        assert(ATANS_6@[81] == 0x6a7b509e2828d4df9e1c75d3ed56bcce);
        assert(ATANS_6@[82] == 0x6db2b205110bd042594fc790bb09abdf);
        assert(ATANS_6@[83] == 0xca441314716be119ac76f3a0ebf2d220);
        assert(table_value(ATANS_6@, 20) == 8843993319779053995653000960098628499171065260743257501413539180301394037200786199491250072815399492299942223602853603020928665842955822348243227168);
        assert(within_atan_series(212int, 8843993319779053995653000960098628499171065260743257501413539180301394037200786199491250072815399492299942223602853603020928665842955822348243227168int));
    } else if j == 21 {
        assert(ATANS_6@[84] == 0x00000b1a7f98968f9db3a5e62be56b2f);
        assert(ATANS_6@[85] == 0x9e94a3ae3c1f6716ea56a66a635d2d5f);
        assert(ATANS_6@[86] == 0x02eee2e4348852db1af6306202b00d28);
        assert(ATANS_6@[87] == 0x24dd152abf343b70a6d35499d0c17ea6);
        assert(table_value(ATANS_6@, 21) == 8873565328341526531771002342006651008097553660654005199822679872887907999668219889183049205712906644110300625667598885657033943674461895418701774502);
        assert(within_atan_series(213int, 8873565328341526531771002342006651008097553660654005199822679872887907999668219889183049205712906644110300625667598885657033943674461895418701774502int));
    } else if j == 22 {
        assert(ATANS_6@[88] == 0x00000b23ef5c7105c7f84d7eff716b8c);
        assert(ATANS_6@[89] == 0x33242b2a3bdca53734cea3c3177a2c0f);
        assert(ATANS_6@[90] == 0x40bad25329c7984ef727839cb4dbb5fe);
        assert(ATANS_6@[91] == 0x4e0c5ead0314f6c3402d31a366759504);
        assert(table_value(ATANS_6@, 22) == 8903023965254175450165452591403953302639273502781743387689617513177871856586749806517612045028649822696022903777262703468586216231576794690745636100);
        assert(within_atan_series(214int, 8903023965254175450165452591403953302639273502781743387689617513177871856586749806517612045028649822696022903777262703468586216231576794690745636100int));
    } else if j == 23 {
        assert(ATANS_6@[92] == 0x00000b2d55db603d8174363262866c6b);
        assert(ATANS_6@[93] == 0x9dc4ba2d0847e9071ce0eea469bc38a0);
        assert(ATANS_6@[94] == 0x944eddfe5b79263e3ba8fbdfba59ec7c);
        assert(ATANS_6@[95] == 0x3f6c2c63c589bfc5647397763ad684d8);
        assert(table_value(ATANS_6@, 23) == 8932369570303371239371418124356165876002359248746231638687339513465513125403114418216143280121757185587656643917129190185411192867637320252998976728);
        assert(within_atan_series(215int, 8932369570303371239371418124356165876002359248746231638687339513465513125403114418216143280121757185587656643917129190185411192867637320252998976728int));
    } else if j == 24 {
        assert(ATANS_6@[96] == 0x00000b36b31c91f04369159014174446);
        assert(ATANS_6@[97] == 0x2f939e469ff280783f6fe751e5dec409);
        assert(ATANS_6@[98] == 0xdcd1e43ac8c5fef498a5770c045a9fca);
        assert(ATANS_6@[99] == 0x71d8c0cfdc69c9e977afb4785f476d04);
        assert(table_value(ATANS_6@, 24) == 8961602485435823888952913308175527932559438431440030827728740549281781799458655788328483368515600697553831602260733047775769721890019215639457524996);
        assert(within_atan_series(216int, 8961602485435823888952913308175527932559438431440030827728740549281781799458655788328483368515600697553831602260733047775769721890019215639457524996int));
    } else if j == 25 {
        assert(ATANS_6@[100] == 0x00000b4007273f142bf9c56579305bc3);
        assert(ATANS_6@[101] == 0xf157669a530952ffd0ff743c06970ea3);
        assert(ATANS_6@[102] == 0x7fc5fa6e1ef9d8c44cea375f0e0087dd);
        assert(ATANS_6@[103] == 0x4e84f3d2abd15a073dcc12238c933c07);
        assert(table_value(ATANS_6@, 25) == 8990723054689099687578654063564988289307356073718161338666724206513613169132329878695036842791986384279308194602286822426222074581606906045102504967);
        assert(within_atan_series(217int, 8990723054689099687578654063564988289307356073718161338666724206513613169132329878695036842791986384279308194602286822426222074581606906045102504967int));
    } else if j == 26 {
        assert(ATANS_6@[104] == 0x00000b495202ab7db53b2972b51d4597);
        assert(ATANS_6@[105] == 0x1ca787426f3bb8e5b3e750a83bf69551);
        assert(ATANS_6@[106] == 0xc43567486ae524359fdcf0c2b1434cc4);
        assert(ATANS_6@[107] == 0x70fe03c2d947889caa556d3fdabd0c02);
        assert(table_value(ATANS_6@, 26) == 9019731624123091307735761722550471065333865069709495858897091742008025704354148687744692107131125144809091946982089476516985860426163301761876298754);
        assert(within_atan_series(218int, 9019731624123091307735761722550471065333865069709495858897091742008025704354148687744692107131125144809091946982089476516985860426163301761876298754int));
    } else if j == 27 {
        assert(ATANS_6@[108] == 0x00000b5293b62582bac12934c772b2c3);
        assert(ATANS_6@[109] == 0xf989bc0998af1fab778f97c6c5a1001b);
        assert(ATANS_6@[110] == 0xbffe261ae10f0ff66eee0f453dc7b89f);
        assert(ATANS_6@[111] == 0x6a7009a25eeaac5632729a308e1fbb6b);
        assert(table_value(ATANS_6@, 27) == 9048628541752437563955756606218418799042194215102063663326934463887245983330939920439360708060091563182859282701346065891428629800243379675814935403);
        assert(within_atan_series(219int, 9048628541752437563955756606218418799042194215102063663326934463887245983330939920439360708060091563182859282701346065891428629800243379675814935403int));
    } else if j == 28 {
        assert(ATANS_6@[112] == 0x00000b5bcc49059ecc4aff8f3cee75e3);
        assert(ATANS_6@[113] == 0x907d575216f47b3891e078cddaac18ce);
        assert(ATANS_6@[114] == 0xa9535e58350f36fa8d575ba2ca0efeee);
        assert(ATANS_6@[115] == 0xe6cf7ee8b0c5c1792d5caae8d553026f);
        assert(table_value(ATANS_6@, 28) == 9077414157479888976756218685909497737628655510690569116528903039543169691067251051071387304866436419296843657409052846435823731325932289293676642927);
        assert(within_atan_series(220int, 9077414157479888976756218685909497737628655510690569116528903039543169691067251051071387304866436419296843657409052846435823731325932289293676642927int));
    } else if j == 29 {
        assert(ATANS_6@[116] == 0x00000b64fbc2ae18cc1c09de29bd280c);
        assert(ATANS_6@[117] == 0x8a0b6ee7e3ade567914a6dc78e6d2d59);
        assert(ATANS_6@[118] == 0xcf07532f340bf7667216b7231de7d84d);
        assert(ATANS_6@[119] == 0x200035318b2be6e12b2a66a18bd61ac5);
        assert(table_value(ATANS_6@, 29) == 9106088823030615029455666782912255229562573406928447762956224701048460070861600913034827027850905429048339478907977083458898397214831293766867229381);
        assert(within_atan_series(221int, 9106088823030615029455666782912255229562573406928447762956224701048460070861600913034827027850905429048339478907977083458898397214831293766867229381int));
    } else if j == 30 {
        assert(ATANS_6@[120] == 0x00000b6e222a8aa9d77901de72a31f5c);
        assert(ATANS_6@[121] == 0x864980ad7a1ec73b3fd15f25b5517622);
        assert(ATANS_6@[122] == 0xe4065e30321a937ad0b6c235a7456c45);
        assert(ATANS_6@[123] == 0x510447851427ff851e99c76e88d40bd4);
        assert(table_value(ATANS_6@, 30) == 9134652891887448769424412647752920972654230910280080934212866680765173145611710425410637687359496459400328214670332958672384067869322845235820366804);
        assert(within_atan_series(222int, 9134652891887448769424412647752920972654230910280080934212866680765173145611710425410637687359496459400328214670332958672384067869322845235820366804int));
    } else if j == 31 {
        assert(ATANS_6@[124] == 0x00000b773f88102577ad25dd460cc4e3);
        assert(ATANS_6@[125] == 0xef828f91a49550d67f4979bfbd896e0e);
        assert(ATANS_6@[126] == 0x3d97d67a20c15eebef10583f97104955);
        assert(ATANS_6@[127] == 0x957423d93f8ad2b00266ff13b3aac13c);
        assert(table_value(ATANS_6@, 31) == 9163106719227064179015466056446652694812486390085353368573474732086374087635992800740847477504177042320938628303181989438418902498937289925305483580);
        assert(within_atan_series(223int, 9163106719227064179015466056446652694812486390085353368573474732086374087635992800740847477504177042320938628303181989438418902498937289925305483580int));
    }
}

/// Entries 224 to 255 of the table.
proof fn lemma_atans_7(j: int)
    requires
        0 <= j < 32,
        pow2(452) == 0x100000000000000000000000000000000000000000000000000000000000000000000000000000000000000000000000000000000000000000nat,
        pow2(468) == 0x1000000000000000000000000000000000000000000000000000000000000000000000000000000000000000000000000000000000000000000000nat,
        pow2(484) == 0x10000000000000000000000000000000000000000000000000000000000000000000000000000000000000000000000000000000000000000000000000nat,
    ensures
        within_atan_series(224 + j, table_value(ATANS_7@, j)),
{
    lemma_word_literals();
    if j == 0 {
        assert(ATANS_7@[0] == 0x00000b8053e2bc2319e73cb2da55210a);
        assert(ATANS_7@[1] == 0x4443d3d7aecc114c79a80a012155f64c);
        assert(ATANS_7@[2] == 0xae5304655f065cec9818249c49ec7266);
        assert(ATANS_7@[3] == 0x8272ce8c53e214380781c38257e41946);
        assert(table_value(ATANS_7@, 0) == 9191450661857081524201475656557779857478104160659849973128991931836640730958479508967198827214971101575057481547116080699607748599738121762157893958);
        assert(within_atan_series(224int, 9191450661857081524201475656557779857478104160659849973128991931836640730958479508967198827214971101575057481547116080699607748599738121762157893958int));
    } else if j == 1 {
        assert(ATANS_7@[4] == 0x00000b895f4214a8cc2b9b2066fb1102);
        assert(ATANS_7@[5] == 0xf77175a4d5a41aa36f1352801763cfa8);
        assert(ATANS_7@[6] == 0x544aadc6367daedafdea6b772d374c75);
        assert(ATANS_7@[7] == 0x0184538d73bdc564de9dfb7e0289b47d);
        assert(table_value(ATANS_7@, 1) == 9219685078154095680650243250564423791786987561611523071825879090132693745305166055049581799092236766993423379289110958640826230652492948122697839741);
        assert(within_atan_series(225int, 9219685078154095680650243250564423791786987561611523071825879090132693745305166055049581799092236766993423379289110958640826230652492948122697839741int));
    } else if j == 2 {
        assert(ATANS_7@[8] == 0x00000b9261ada7d73d86522ccb6cd266);
        assert(ATANS_7@[9] == 0xbc46005fde833f28bcf2a279fbde231d);
        assert(ATANS_7@[10] == 0xebfaa85a0e5c8dadbb90059fc20bb5ce);
        assert(ATANS_7@[11] == 0x1e2246a57f0ec1fc7fb020c4ccbf5a92);
        assert(table_value(ATANS_7@, 2) == 9247810328002622237426367434937275655205665335790612271139422504263448809935466014933894465129625383829868352349466563039244199166141525299837229714);
        assert(within_atan_series(226int, 9247810328002622237426367434937275655205665335790612271139422504263448809935466014933894465129625383829868352349466563039244199166141525299837229714int));
    } else if j == 3 {
        assert(ATANS_7@[12] == 0x00000b9b5b2d0b96ff9775fd06a892d1);
        assert(ATANS_7@[13] == 0x00e70f01f06d4d5d0f7a02e44e671ac1);
        assert(ATANS_7@[14] == 0xe21d1fe9e8c167f14ee9c36ddd27f0cd);
        assert(ATANS_7@[15] == 0xd73d1929e144a8d2842459f568d99427);
        assert(table_value(ATANS_7@, 3) == 9275826772734955987533817926381144456032105579703428651963689839422000252926918816485502474104762012043633458766082965703254795951997318593869616167);
        assert(within_atan_series(227int, 9275826772734955987533817926381144456032105579703428651963689839422000252926918816485502474104762012043633458766082965703254795951997318593869616167int));
    } else if j == 4 {
        assert(ATANS_7@[16] == 0x00000ba44bc7dd470782f654c2cb1094);
        assert(ATANS_7@[17] == 0x2e38623228454d454a3430672fcfd51e);
        assert(ATANS_7@[18] == 0xece2741a41f8d0d634feced6648f637c);
        assert(ATANS_7@[19] == 0x5c425cbe25d8962ea50d2c24f5187ee5);
        assert(table_value(ATANS_7@, 4) == 9303734775071936231937585134477414828498610061793413941901366658741057677841023148173730560860992645136592914411563643349433051261112758824125103845);
        assert(within_atan_series(228int, 9303734775071936231937585134477414828498610061793413941901366658741057677841023148173730560860992645136592914411563643349433051261112758824125103845int));
    } else if j == 5 {
        assert(ATANS_7@[20] == 0x00000bad3385c16c6c3dc95898e5210d);
        assert(ATANS_7@[21] == 0xa150b48cca7310a8c7b1ed8ae8b68989);
        assert(ATANS_7@[22] == 0x256d6f8603fbac372d285cda43312f0f);
        assert(ATANS_7@[23] == 0xbf88ee98e80f531a19866a0ce4d29774);
        assert(table_value(ATANS_7@, 5) == 9331534699064613149346129951024479949856334171665252410270849795853594092248073008320069120448545525220976715622793726133210619437527511253774407540);
        assert(within_atan_series(229int, 9331534699064613149346129951024479949856334171665252410270849795853594092248073008320069120448545525220976715622793726133210619437527511253774407540int));
    } else if j == 6 {
        assert(ATANS_7@[24] == 0x00000bb6126e636360232a4aa35b9079);
        assert(ATANS_7@[25] == 0x15ae61342deff6f8d6c65e2c7194d05b);
        assert(ATANS_7@[26] == 0x79464902eb9556927dd63892edee986a);
        assert(ATANS_7@[27] == 0xe2a0f3fed44735ae2bca9b58a00b1d83);
        assert(table_value(ATANS_7@, 6) == 9359226910036809317724736873277457984148210259334864039132892885420008663142288101762235709919209588619584803050227725400665442363755733515831549315);
        assert(within_atan_series(230int, 9359226910036809317724736873277457984148210259334864039132892885420008663142288101762235709919209588619584803050227725400665442363755733515831549315int));
    } else if j == 7 {
        assert(ATANS_7@[28] == 0x00000bbee889751163ae64c11f821a7a);
        assert(ATANS_7@[29] == 0xe3e62740e9aafa599e7d2877735b920d);
        assert(ATANS_7@[30] == 0x4c84d43eb505394867be0b1618881ff8);
        assert(ATANS_7@[31] == 0xf33bd888ad40d96ee2335ca1d27237ac);
        assert(table_value(ATANS_7@, 7) == 9386811774528570315068176255545625506789602054609246724242270790244851382669811800512787947830721197471911356688335130124324336587139731100915611564);
        assert(within_atan_series(231int, 9386811774528570315068176255545625506789602054609246724242270790244851382669811800512787947830721197471911356688335130124324336587139731100915611564int));
    } else if j == 8 {
        assert(ATANS_7@[32] == 0x00000bc7b5deae98af280d4113006e80);
        assert(ATANS_7@[33] == 0xfb29013fab81f5ba4ab8a231796bb551);
        assert(ATANS_7@[34] == 0x4a995010c85fc569845f3d4140c7bd05);
        assert(ATANS_7@[35] == 0x0067c920ba34f5d58da8a994e9987c4c);
        assert(table_value(ATANS_7@, 8) == 9414289660240498176215139568193260763426230396021326196235267583845768956928500762549567670200950511604755386830989483554178530331937598798829222988);
        assert(within_atan_series(232int, 9414289660240498176215139568193260763426230396021326196235267583845768956928500762549567670200950511604755386830989483554178530331937598798829222988int));
    } else if j == 9 {
        assert(ATANS_7@[36] == 0x00000bd07a75ce0cd1089e33e6c0afab);
        assert(ATANS_7@[37] == 0xb5d7415d7d6a58a497168be81bf84c71);
        assert(ATANS_7@[38] == 0xfed7904259565f3ec992aafabb0ad11f);
        assert(ATANS_7@[39] == 0x4d92f75a8ca7855ab5af72fc841ff079);
        assert(table_value(ATANS_7@, 9) == 9441660935978961339263390792461968230505499601041035492928737912246291183962234767412652114411306868762812527594773307253321025873614728288299643001);
        assert(within_atan_series(233int, 9441660935978961339263390792461968230505499601041035492928737912246291183962234767412652114411306868762812527594773307253321025873614728288299643001int));
    } else if j == 10 {
        assert(ATANS_7@[40] == 0x00000bd9365697287ec62fe419f7dc09);
        assert(ATANS_7@[41] == 0xb179189fb1e26c726f312a593af0f56e);
        assert(ATANS_7@[42] == 0x4bb84384a46715ca4f7fb9f3a1bfe120);
        assert(ATANS_7@[43] == 0x2cd89ce65df39924473f22b300fb3af6);
        assert(table_value(ATANS_7@, 10) == 9468925971602174579271102063349259554198128447201119069022774391707680696862259608273517425921169770772430509494803726836859291841226114865534024438);
        assert(within_atan_series(234int, 9468925971602174579271102063349259554198128447201119069022774391707680696862259608273517425921169770772430509494803726836859291841226114865534024438int));
    } else if j == 11 {
        assert(ATANS_7@[44] == 0x00000be1e988d30495b767965a606510);
        assert(ATANS_7@[45] == 0x9b7436bbb76d27fa58b329c2bf459664);
        assert(ATANS_7@[46] == 0xccbbe7e4bb855639ea69ea3c88dfdc33);
        assert(ATANS_7@[47] == 0xc737964640bd9570f1ff01495ad10dba);
        assert(table_value(ATANS_7@, 11) == 9496085137967142298235113015649476062116078517383885804276609701738589044576209562220850124351810140004774409537011544567447208536630856092342095290);
        assert(within_atan_series(235int, 9496085137967142298235113015649476062116078517383885804276609701738589044576209562220850124351810140004774409537011544567447208536630856092342095290int));
    } else if j == 12 {
        assert(ATANS_7@[48] == 0x00000bea94144fd049aac1043c5e7552);
        assert(ATANS_7@[49] == 0x82e7d01438341f13d5c3a74fdaef1655);
        assert(ATANS_7@[50] == 0xbf3454130f65d014699b194f33cd5edc);
        assert(ATANS_7@[51] == 0x0ee6314b1de7316036500c26f2caaeb4);
        assert(table_value(ATANS_7@, 12) == 9523138806877458418650758401505764126348191937704663782057128978807921231463472966463577543235753997102021000009369184739171573174703848260882837172);
        assert(within_atan_series(236int, 9523138806877458418650758401505764126348191937704663782057128978807921231463472966463577543235753997102021000009369184739171573174703848260882837172int));
    } else if j == 13 {
        assert(ATANS_7@[52] == 0x00000bf33600e08a7ec6fa8ee913e8e5);
        assert(ATANS_7@[53] == 0x0ada66f6bfd26a2606cd81511e852e77);
        assert(ATANS_7@[54] == 0x38e7aec13bb8d7bfd70599801fe64491);
        assert(ATANS_7@[55] == 0x82faa624975d4189c9cdd3b85c8bc949);
        assert(table_value(ATANS_7@, 13) == 9550087351031956013111626028550558037494067128831095141528571508577704137876656353834586029156843924615213555461047673880152723682953810786466384201);
        assert(within_atan_series(237int, 9550087351031956013111626028550558037494067128831095141528571508577704137876656353834586029156843924615213555461047673880152723682953810786466384201int));
    } else if j == 14 {
        assert(ATANS_7@[56] == 0x00000bfbcf565cbc4c3fab9501d5a441);
        assert(ATANS_7@[57] == 0xa24b5ce2085df539345586ab1d62364b);
        assert(ATANS_7@[58] == 0x3656a6093845c0de6e85621db31c0f61);
        assert(ATANS_7@[59] == 0x807651a3acefda99fba77905b317a91c);
        assert(table_value(ATANS_7@, 14) == 9576931143974199694233704943608929319875382808595294434177833346588473108049378152982700658483110757890802815353216108617896988769717830885150533916);
        assert(within_atan_series(238int, 9576931143974199694233704943608929319875382808595294434177833346588473108049378152982700658483110757890802815353216108617896988769717830885150533916int));
    } else if j == 15 {
        assert(ATANS_7@[60] == 0x00000c04601ca034a55fe19b11d412b6);
        assert(ATANS_7@[61] == 0x30d4d59538baba46a50a5548e902eb9a);
        assert(ATANS_7@[62] == 0x2364286e41e4ea87870f0215fd084488);
        assert(ATANS_7@[63] == 0x0f10e1856411be80b57542234ea74aec);
        assert(table_value(ATANS_7@, 15) == 9603670560042813687520911784747996595840733454168708131152046406879045076114241689973001069005056962738225238245166189568820265328496066771412273900);
        assert(within_atan_series(239int, 9603670560042813687520911784747996595840733454168708131152046406879045076114241689973001069005056962738225238245166189568820265328496066771412273900int));
    } else if j == 16 {
        assert(ATANS_7@[64] == 0x00000c0ce85b8ac52664089dd62c46e9);
        assert(ATANS_7@[65] == 0x2fa24d58ee867aef436f637081467a10);
        assert(ATANS_7@[66] == 0xb2d2544ffa53c51a62f57a34ac5cf485);
        assert(ATANS_7@[67] == 0xbc5c23ad03636ac95ccb6dfe86b83990);
        assert(table_value(ATANS_7@, 16) == 9630305974322638414463559239668561905011325863497087867583069160237071845593058550238812125677699009852960027619901984082278168185926506742965352848);
        assert(within_atan_series(240int, 9630305974322638414463559239668561905011325863497087867583069160237071845593058550238812125677699009852960027619901984082278168185926506742965352848int));
    } else if j == 17 {
        assert(ATANS_7@[68] == 0x00000c15681b00000294592fce924d24);
        assert(ATANS_7@[69] == 0x25ea8695bf27c703e16c40987beecd15);
        assert(ATANS_7@[70] == 0x750708d6fdbad83833ee6f29f8b05e75);
        assert(ATANS_7@[71] == 0x1787074459366d5ce0fad7d87e16df2b);
        assert(table_value(ATANS_7@, 17) == 9656837762596708324015221492788605217043369435035879673017712185900001695303016911248533813041184309962302601298259668265284092739813049234158444331);
        assert(within_atan_series(241int, 9656837762596708324015221492788605217043369435035879673017712185900001695303016911248533813041184309962302601298259668265284092739813049234158444331int));
    } else if j == 18 {
        assert(ATANS_7@[72] == 0x00000c1ddf62e6f711098838827fe361);
        assert(ATANS_7@[73] == 0x448e71812b904e3b003f26653bbab815);
        assert(ATANS_7@[74] == 0x709d175af9aa616023b260458efabead);
        assert(ATANS_7@[75] == 0x7180d4574b346e337a1a4695849102de);
        assert(table_value(ATANS_7@, 18) == 9683266301299043627465648745662863117627681220702252485596999604472852156305497188446274554545804776056877966880608467104688801424116426706517033694);
        assert(within_atan_series(242int, 9683266301299043627465648745662863117627681220702252485596999604472852156305497188446274554545804776056877966880608467104688801424116426706517033694int));
    } else if j == 19 {
        assert(ATANS_7@[76] == 0x00000c264e3b29fbf57e7c9ee01f5c17);
        assert(ATANS_7@[77] == 0x13e2f8039a8ec1847c57bfc8ce728ce8);
        assert(ATANS_7@[78] == 0x822765b06891e12dc125dc1a7586fb4e);
        assert(ATANS_7@[79] == 0x62c8d6ed05d326570fc405a07a42e3cd);
        assert(table_value(ATANS_7@, 19) == 9709591967468248514458672229807929749879533582741169687667956050150124420702687812622615707042219404088099449432283143779762390396776484154351215565);
        assert(within_atan_series(243int, 9709591967468248514458672229807929749879533582741169687667956050150124420702687812622615707042219404088099449432283143779762390396776484154351215565int));
    } else if j == 20 {
        assert(ATANS_7@[80] == 0x00000c2eb4abb661628b5b373fe45c61);
        assert(ATANS_7@[81] == 0xbb9fae970ec0e0e4baa66a4a42effa97);
        assert(ATANS_7@[82] == 0x24511ca811d6a00e8f7ef16f0247649d);
        assert(ATANS_7@[83] == 0x272f441f3a7c6e8cb14e35c9307919f7);
        assert(table_value(ATANS_7@, 20) == 9735815138701908356337068045592921318128788007813022205954025994891121259798053625768414796438479968816477973731872548694463242856956050034533145079);
        assert(within_atan_series(244int, 9735815138701908356337068045592921318128788007813022205954025994891121259798053625768414796438479968816477973731872548694463242856956050034533145079int));
    } else if j == 21 {
        assert(ATANS_7@[84] == 0x00000c3712bc7c3d72a045626eb9fc67);
        assert(ATANS_7@[85] == 0x8fde093a72f30d04b7f6aaa12aec8218);
        assert(ATANS_7@[86] == 0xc6d64c38e91badf6f52680df7a13e115);
        assert(ATANS_7@[87] == 0x9f52ce88a3fcb5ede11895c2a2311629);
        assert(table_value(ATANS_7@, 21) == 9761936193111778336975677776953636744922782693905936398174449175453179909379974304428054516386005935633380382825369702985005775284448963710407480873);
        assert(within_atan_series(245int, 9761936193111778336975677776953636744922782693905936398174449175453179909379974304428054516386005935633380382825369702985005775284448963710407480873int));
    } else if j == 22 {
        assert(ATANS_7@[88] == 0x00000c3f68756e2d1510af5ad957f4bc);
        assert(ATANS_7@[89] == 0x61565ce4aa623cab62fb557b7468f306);
        assert(ATANS_7@[90] == 0x1f2f3ca40809d826637a2c86286b19a8);
        assert(ATANS_7@[91] == 0x1f5fb31d1e173dfd54159e2a717f36c5);
        assert(table_value(ATANS_7@, 22) == 9787955509279755890636256283343629670292073892464491663484419456264607301464839586693377186145099130694132486026666124302168661279348827283087374021);
        assert(within_atan_series(246int, 9787955509279755890636256283343629670292073892464491663484419456264607301464839586693377186145099130694132486026666124302168661279348827283087374021int));
    } else if j == 23 {
        assert(ATANS_7@[92] == 0x00000c47b5de81188c7b34b8b6951667);
        assert(ATANS_7@[93] == 0xe250297192bb863cb83ea91d85ec0f32);
        assert(ATANS_7@[94] == 0xb4f931ccc9b7ccb63ad190a313650438);
        assert(ATANS_7@[95] == 0xff50d3a4558bd5903eb22c2db39af88d);
        assert(table_value(ATANS_7@, 23) == 9813873466214629270991098250471833489739596257133780168406904074026316833628782851755471263543875751423545623541403742135052239699264731073587378317);
        assert(within_atan_series(247int, 9813873466214629270991098250471833489739596257133780168406904074026316833628782851755471263543875751423545623541403742135052239699264731073587378317int));
    } else if j == 24 {
        assert(ATANS_7@[96] == 0x00000c4ffaffabf8fbd548cb43d10bc9);
        assert(ATANS_7@[97] == 0xe02214da621b60039834efe669d994f9);
        assert(ATANS_7@[98] == 0x7d1fab0fd569445c51352a068eb0cf84);
        assert(ATANS_7@[99] == 0x63c2224ed1b160006bc9a098b6ca9d29);
        assert(table_value(ATANS_7@, 24) == 9839690443309594525168122959273892858766275768128298635038660906760017554281416423618814408146934129600686697889702377819936233522447977366761938217);
        assert(within_atan_series(248int, 9839690443309594525168122959273892858766275768128298635038660906760017554281416423618814408146934129600686697889702377819936233522447977366761938217int));
    } else if j == 25 {
        assert(ATANS_7@[100] == 0x00000c5837e0e79eff5e099db3524926);
        assert(ATANS_7@[101] == 0x3d1d46837d6da14b2bfbef66d6033b4a);
        assert(ATANS_7@[102] == 0xb95c99ba8c506c61fe6c93498d02083a);
        assert(ATANS_7@[103] == 0xbad85a8c80473b8b30016388e1c1e65f);
        assert(table_value(ATANS_7@, 25) == 9865406820300533101320523404813138696594467972738303788300052125520806970519906956802589588330917782557003492139095715193323049648241715011762906719);
        assert(within_atan_series(249int, 9865406820300533101320523404813138696594467972738303788300052125520806970519906956802589588330917782557003492139095715193323049648241715011762906719int));
    } else if j == 26 {
        assert(ATANS_7@[104] == 0x00000c606c8a2e7a4eb7d480edb88665);
        assert(ATANS_7@[105] == 0x164556f74b5da8a15c194442531f379a);
        assert(ATANS_7@[106] == 0x3ff17f2db2abb47a14fa2449d52305ce);
        assert(ATANS_7@[107] == 0x6c6be1893fef759c15a7b149126ae892);
        assert(table_value(ATANS_7@, 26) == 9891022977225042277674215531334534546994610301921957433215530967337705512125044896227252165726974188650309239519000482322072901815008128144169953426);
        assert(within_atan_series(250int, 9891022977225042277674215531334534546994610301921957433215530967337705512125044896227252165726974188650309239519000482322072901815008128144169953426int));
    } else if j == 27 {
        assert(ATANS_7@[108] == 0x00000c6899037c626564fe7345576574);
        assert(ATANS_7@[109] == 0xca266dd13c472e3af549fa723e05b142);
        assert(ATANS_7@[110] == 0x2a61b6f575b7c4647ee8f69f86fc8d58);
        assert(ATANS_7@[111] == 0xb13d2cd4c845e57a88b578c2412344dd);
        assert(table_value(ATANS_7@, 27) == 9916539294382210565113246179821604372498513436860344305593636062874421928289211287778395964988870865755945599554621027362595747788677039533571917021);
        assert(within_atan_series(251int, 9916539294382210565113246179821604372498513436860344305593636062874421928289211287778395964988870865755945599554621027362595747788677039533571917021int));
    } else if j == 28 {
        assert(ATANS_7@[112] == 0x00000c70bd54ce602ee13e7d54fbd09f);
        assert(ATANS_7@[113] == 0x2be380e9c986eaf9b702aadfde929484);
        assert(ATANS_7@[114] == 0x17fdabd069fabb5848c7ebb9c9bcfde8);
        assert(ATANS_7@[115] == 0x162ac724d1c664175eb9df6c32fc77cd);
        assert(table_value(ATANS_7@, 28) == 9941956152293130203986340867121665400050278363205845996738763659292915824235897108019890539012097802173823876085106751538507260583362089042055034829);
        assert(within_atan_series(252int, 9941956152293130203986340867121665400050278363205845996738763659292915824235897108019890539012097802173823876085106751538507260583362089042055034829int));
    } else if j == 29 {
        assert(ATANS_7@[116] == 0x00000c78d9862278b38ee8e55c9c99fe);
        assert(ATANS_7@[117] == 0x946b23c9c7639e8b4d30ad41681b39d7);
        assert(ATANS_7@[118] == 0xe8a06972851975bb954e9b2be502821b);
        assert(ATANS_7@[119] == 0x73f1ee0b01556fc0fe1f44d3fb7296b5);
        assert(table_value(ATANS_7@, 29) == 9967273931662138848818444045497930216432695721292558902813667821913037978064394397298277430978033263047022669732781416444310486837596801716205033141);
        assert(within_atan_series(253int, 9967273931662138848818444045497930216432695721292558902813667821913037978064394397298277430978033263047022669732781416444310486837596801716205033141int));
    } else if j == 30 {
        assert(ATANS_7@[120] == 0x00000c80ed9f7778c3ad0ccbcac0791e);
        assert(ATANS_7@[121] == 0xf71d43b7d29bec708214c8402ae01729);
        assert(ATANS_7@[122] == 0x8a4a45c540c8c119a56149a21e260393);
        assert(ATANS_7@[123] == 0xe36826f6ffd2275c0f2951eca4460e95);
        assert(table_value(ATANS_7@, 30) == 9992493013338782511853240218114369432331470099119901837976625877321841232146021085327524398999129924287065854854651946182461273452300924307991039637);
        assert(within_atan_series(254int, 9992493013338782511853240218114369432331470099119901837976625877321841232146021085327524398999129924287065854854651946182461273452300924307991039637int));
    } else if j == 31 {
        assert(ATANS_7@[124] == 0x00000c88f9a8ccc19d89d745076dfa90);
        assert(ATANS_7@[125] == 0xd530c167b4c95e7b9333ed9884aae7ea);
        assert(ATANS_7@[126] == 0x0180ba5917ced01e3f55fb0e884ab73c);
        assert(ATANS_7@[127] == 0xeababe0a59182644636cda0d8504a03e);
        assert(table_value(ATANS_7@, 31) == 10017613778280491817702344981656581409329146642606190706341221988297997997794964283460146455034135003736316419857505782514298717010554545938215772222);
        assert(within_atan_series(255int, 10017613778280491817702344981656581409329146642606190706341221988297997997794964283460146455034135003736316419857505782514298717010554545938215772222int));
    }
}

/// The tabulated `atan(q/256)` lies within the bounds
/// `x - x³/3 <= atan(x) <= x - x³/3 + x⁵/5` of the arctangent's series at
/// `x = q/256` (in units of 2⁻⁴⁹², up to one unit of rounding): each entry
/// is the arctangent of its own index.
pub proof fn lemma_atan_table(q: int)
    requires
        0 <= q < 256,
    ensures
        within_atan_series(q, atan_table_value(q)),
        0 <= atan_table_value(q) <= q * pow2(484),
{
    lemma_pow2_literals();
    vstd::arithmetic::div_mod::lemma_fundamental_div_mod(q, 32);
    vstd::arithmetic::div_mod::lemma_mod_bound(q, 32);
    let j = q % 32;
    if q < 32 {
        lemma_atans_0(j);
    } else if q < 64 {
        lemma_atans_1(j);
    } else if q < 96 {
        lemma_atans_2(j);
    } else if q < 128 {
        lemma_atans_3(j);
    } else if q < 160 {
        lemma_atans_4(j);
    } else if q < 192 {
        lemma_atans_5(j);
    } else if q < 224 {
        lemma_atans_6(j);
    } else {
        lemma_atans_7(j);
    }
}

} // verus!
