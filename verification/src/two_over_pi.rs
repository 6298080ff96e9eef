//! The binary expansion of 2/π, as needed to reduce large arguments of the
//! circular functions.
use vstd::prelude::*;
use vstd::arithmetic::power2::pow2;
use crate::bits::{p128, p256, lemma_pow2_64_128};
use crate::uint256::{u256, lemma_u256_bound, lemma_divmod_unique};
use crate::uint512::{u512, lemma_u512_bound};

verus! {

/// Words 0 to 127 of the binary expansion of 2/π.
pub const TWO_OVER_PI_0: [u128; 128] = [
    0xa2f9836e4e441529fc2757d1f534ddc0, 0xdb6295993c439041fe5163abdebbc561,
    0xb7246e3a424dd2e006492eea09d1921c, 0xfe1deb1cb129a73ee88235f52ebb4484,
    0xe99c7026b45f7e413991d639835339f4, 0x9c845f8bbdf9283b1ff897ffde05980f,
    0xef2f118b5a0a6d1f6d367ecf27cb09b7, 0x4f463f669e5fea2d7527bac7ebe5f17b,
    0x3d0739f78a5292ea6bfb5fb11f8d5d08, 0x56033046fc7b6babf0cfbc209af4361d,
    0xa9e391615ee61b086599855f14a06840, 0x8dffd8804d73273106061556ca73a8c9,
    0x60e27bc08c6b47c419c367cddce8092a, 0x8359c4768b961ca6ddaf44d15719053e,
    0xa5ff07053f7e33e832c2de4f98327dbb, 0xc33d26ef6b1e5ef89f3a1f35caf27f1d,
    0x87f121907c7c246afa6ed5772d30433b, 0x15c614b59d19c3c2c4ad414d2c5d000c,
    0x467d862d71e39ac69b0062337cd2b497, 0xa7b4d55537f63ed71810a3fc764d2a9d,
    0x64abd770f87c6357b07ae715175649c0, 0xd9d63b3884a7cb2324778ad623545ab9,
    0x1f001b0af1dfce19ff319f6a1e666157, 0x9947fbacd87f7eb7652289e83260bfe6,
    0xcdc4ef09366cd43f5dd7de16de3b5892, 0x9bde2822d2e886284d58e232cac616e3,
    0x08cb7de050c017a71df35be01834132e, 0x6212830148835b8ef57fb0adf2e91e43,
    0x4a48d36710d8ddaa425faece616aa428, 0x0ab499d3f2a6067f775c83c2a3883c61,
    0x78738a5a8cafbdd76f63a62dcbbff4ef, 0x818d67c12645ca5536d9cad2a8288d61,
    0xc277c9121426049b4612c459c444c5c8, 0x91b24df31700ad43d4e5492910d5fdfc,
    0xbe00cc941eeece70f53e1380f1ecc3e7, 0xb328f8c79405933e71c1b3092ef3450b,
    0x9c12887b20ab9fb52ec292472f327b6d, 0x550c90a7721fe76b96cb314a1679e279,
    0x4189dff49794e884e6e29731996bed88, 0x365f5f0efdbbb49a486ca46742727132,
    0x5d8db8159f09e5bc25318d3974f71c05, 0x30010c0d68084b58ee2c90aa4702e774,
    0x24d6bda67df772486eef169fa6948ef6, 0x91b45153d1f20acf3398207e4bf56863,
    0xb25f3edd035d407f8985295255c06437, 0x10d86d324832754c5bd4714e6e5445c1,
    0x090b69f52ad566149d072750045ddb3b, 0xb4c576ea17f9877d6b49ba271d296996,
    0xacccc65414ad6ae29089d98850722cbe, 0xa4049407777030f327fc00a871ea49c2,
    0x663de06483dd97973fa3fd94438c860d, 0xde41319d39928c70dde7b7173bdf082b,
    0x3715a0805c93805a921110d8e80faf80, 0x6c4bffdb0f903876185915a562bbcb61,
    0xb989c7bd401004f2d2277549f6b6ebbb, 0x22dbaa140a2f2689768364333b091a94,
    0x0eaa3a51c2a31daeedaf12265c4dc26d, 0x9c7a2d9756c0833f03f6f0098c402b99,
    0x316d07b43915200c5bc3d8c492f54bad, 0xc6a5ca4ecd37a736a9e69492ab6842dd,
    0xde6319ef8c76528b6837dbfcaba1ae31, 0x15dfa1ae00dafb0c664d64b705ed3065,
    0x29bf56573aff47b9f96af3be75df9328, 0x3080abf68c6615cb040622fa1de4d9a4,
    0xb33d8f1b5709cd36e9424ea4be13b523, 0x331aaaf0a8654fa5c1d20f3f0bcd785b,
    0x76f923048b7b72178953a6c6e26e6f00, 0xebef584a9bb7dac4ba66aacfcf761d02,
    0xd12df1b1c1998c77adc3da4886a05df7, 0xf480c62ff0ac9aecddbc5c3f6dded01f,
    0xc790b6db2a3a25a39aaf009353ad0457, 0xb6b42d297e804ba707da0eaa76a1597b,
    0x2a12162db7dcfde5fafedb89fdbe896c, 0x76e4fca90670803e156e85ff87fd073e,
    0x2833676186182aeabd4dafe7b36e6d8f, 0x3967955bbf3148d78416df30432dc735,
    0x6125ce70c9b8cb30fd6cbfa200a4e46c, 0x05a0dd5a476f21d21262845cb9496170,
    0xe0566b015299375550b7d51ec4f1335f, 0x6e13e4305da92e85c3b21d3632a1a4b7,
    0x08d4b1ea21f716e4698f77ff2780030c, 0x2d408da0cd4f99a520d3a2b30a5d2f42,
    0xf9b4cbda11d0be7dc1db9bbd17ab81a2, 0xca5c6a0817552e550027f0147f8607e1,
    0x640b148d4196debe872afddab6256b34, 0x897bfef3059ebfb94f6a68a82a4a5ac4,
    0x4fbcf82d985ad795c7f48d4d0da63a20, 0x5f57a4b13f149538800120cc86dd71b6,
    0xdec9f560bf11654d6b0701acb08cd0c0, 0xb24855510efb1ec372953b06a33540c0,
    0x7bdc06cc45e0fa294ec8cad641f3e8de, 0x647cd8649b31bed9c397a4d45877c5e3,
    0x6913daf03c3aba4618465f7555f5bdd2, 0xc6926e5d2eaced440e423e1c87c461e9,
    0xfd29f3d6e7ca7c2235916fc5e0088dd7, 0xffe26a6ec6fdb0c10893745d7cb2ad6b,
    0x9d6ecd7b723e6a11c6a9cff7df7329ba, 0xc9b55100b70db2e224ba74607de58ad8,
    0x742c150d0c188194667e162901767a9f, 0xbefdfdef4556367ed913d9ecb9ba8bfc,
    0x97c427a831c36ef136c59456a8d8b5a8, 0xb40ecccf2d891234576f89562ce3ce99,
    0xb920d6aa5e6b9c2a3ecc5f114a0bfdfb, 0xf4e16d3b8e2c86e284d4e9a9b4fcd1ee,
    0xefc9352e61392f442138c8d91b0afc81, 0x6a4afbd81c2f84b4538c994ecc2254dc,
    0x552ad6c6c096190bb8701a649569605a, 0x26ee523f0f117f11b5f4f5cbfc2dbc34,
    0xeebc34cc5de8605edd9b8e67ef3392b8, 0x17c99b5861bc57e1c68351103ed84871,
    0xdddd1c2da118af462c21d7f359987ad9, 0xc0549efa864ffc0656ae79e536228922,
    0xad38dc9367aae8553826829be7caa40d, 0x51b133990ed7a9480569f0b265a7887f,
    0x974c8836d1f9b392214a827b21cf98dc, 0x9f405547dc3a74e142eb67df9dfe5fd4,
    0x5ea4677b7aacbaa2f65523882b55ba41, 0x086e59862a21834739e6e389d49ee540,
    0xfb49e956ffca0f1c8a59c52bfa94c5c1, 0xd3cfc50fae5adb86c5476243853b8621,
    0x94792c8761107b4c2a1a2c8012bf4390, 0x2688893c78e4c4a87bdbe5c23ac4eaf4,
    0x268a67f7bf920d2ba365b1933d0b7cbd, 0xdc51a463dd27dde16919949a9529a828,
    0xce68b4ed09209f44ca984e638270237c, 0x7e32b90f8ef5a7e7561408f1212a9db5,
    0x4d7e6f5119a5abf9b5d6df8261dd9602, 0x36169f3ac4a1a2836ded727a8d39a9b8,
];

/// Words 128 to 255 of the binary expansion of 2/π.
pub const TWO_OVER_PI_1: [u128; 128] = [
    0x825c326b5b2746ed34007700d255f4fc, 0x4d59018071e0e13f89b295f364a8f1ae,
    0xa74b38fc4ceab2bb47270babc3a734ba, 0x6052dd34f8563aeb7e8a31bb365895b7,
    0x47f7a994c3aad392251e7f3ed8974ebb, 0xa94fd8ae01e661b4393d8ea523aa3306,
    0x8e1633b53bb1881d3a9d4013d0cc1be5, 0xf862e73bf28f39b5bf0bc23522747ea2,
    0x47c0d52d1f19add39094df9311d0b42b, 0x25496db2e264b25ef1353bc6a41a4ad0,
    0xaac92e64e886573091982cfb311b1a08, 0x728bbdcee160e142eb641dd0bba3e559,
    0xd4597b8c2a4483f332baf848672c8d1b, 0x2fa9b050f3ddf9f573db61b4fe233e6c,
    0x41a6eea318775a26bc5e5ccea70894dc, 0x57e20196f1e839be48515d2d2f4e9555,
    0xd96ec2e7d7556304e0c02e0efc40a0bb, 0xf9b37125a7222dfbf619d8838c1c6619,
    0xe6b20d55bb513779e809af91490d73de, 0x0b0da5ce7f58ac19347246677a1a139e,
    0x26bc4555e7585cb5711d14486991480d, 0x6056adabd62f6496ee0c212ff35d6d88,
    0xa6768495651eab9e0a4ddefe57101083, 0x6a39f8ea319e381deac8b1cac96b37f2,
    0x1ed505e99847439fc56c0331b73b8bf8, 0x86e56a8dc3436230e793cfd56a8f2d73,
    0x30051af021a09fcb7415a1d56b236ff7, 0x252f4bc7b8a5917fac595c55de212c38,
    0xb132965cff50366262fa7b16f4d9a62a, 0xcfe7f07403d4d6046fd91631b1bfcbb4,
    0x505bd7c80ce1946bd6434fd91cdf4543, 0x5f3453e2b5aac9aec8131485f9d2bfba,
    0xdb9e76f5b9af15cfca318214b56de9fe, 0x4d50fc35f5aed5a2d0c1c96057192eb6,
    0xe91d9207d144aea3c634356626d5b431, 0x61e237f1a2209eff958e2349379835f4,
    0xa64bdc02c2be13be80a00b72a3115c5f, 0x1e1bd10db4d3869e8596976b2ac91f8a,
    0x26c23070f0041412fc9fa5f72a389c68, 0x78e2aa7650cfe1559274934e380a92f7,
    0x5533f0a63db4399971e2b755a98a7c00, 0x8f19ac54d22ea0b4f5f3e060c849ffd2,
    0x69ae52ce7a5fdde9ce06fb0ae8a50cce, 0xea9d3e3766ddb834f50da090846f884a,
    0xe3d5099a032eae2dfcb40afb9b33e281, 0xdd1b16bad8c0afd96b97b52dc99c277f,
    0x5951d521ccd6b6496b584562b3baf2a1, 0xa5c47ca2cfa9b93d7b7b89483d3896b0,
    0x3cc79cb1d0825d88edb7d383390c6e66, 0xe912dc1120340de782a0fee6667881dc,
    0x0ae80abfcd28c1b7acde18c4f8237666, 0xb9959db42c07faabd6038a557056aeeb,
    0xf5b0bd95e94be00b9eb3a61e23f24ad6, 0x2c9ac4f1ad75c412f93b6e0b4c2ed46c,
    0x0ed2e55e1655878680fbf676b41e698e, 0xc3ae285d4977c92a16374e193906f911,
    0xc91aaa27467f0da5933f69d6a2578ec2, 0x9f9faa8b4add9bcfbb5c1d0be88dd533,
    0xfede36f7ef60b308b1cc01829ebb5915, 0x17b1cc96b7eef0cde267ca73d1a01943,
    0xb8a3749628ea6a3726262e928185ea61, 0x5fdeeb61d7e2cfa7aeb7948d28b48c7b,
    0x1c4c02f15f9d850b8a2db016cdd5638e, 0x33f4b3b45c292f512b04b90d6fd83995,
    0xdeadc51d8262ac0309a2a916025aaf0a, 0xd3e4275f590b067e774b63e8ab012afe,
    0xfc81441b67bfb19f6d4d79557ffa4d3b, 0x0b29c0264dd64734a1ad8633e708725b,
    0xdf8a0fbefc685251e13b665d171871a8, 0x41a28f4e2e14db2fa42505c02c474738,
    0x60373048512ddf2cab5aa559238ba27b, 0xc2460006db6951b1e0f1341979ab9bc2,
    0x00cbe2ca690fa6934f31f325f2fef910, 0xb32d6fcc0215d3786cffaee95d2616fe,
    0x23843f2c828acdf4d2499ee3ceb09f06, 0xfb3942e0d6c4e24c163a6888e07fd00c,
    0xb22dd531bc9b63c53c94eb2d8ffa1e1a, 0x7fba45e57b7c2624e78a92ac2996341d,
    0x1352f7d5a42191d1231a2c3909576f11, 0x161fffc69032a3fed8e43e97df96da4d,
    0xf9a472a237db66beab208b01bdba8f4a, 0xa0b4c1e8e4038614695a01d9d1914e00,
    0xe8de742238f4d58042160ff0da4af8a0, 0xf7527e5ecb981d04bedfa47a1f4045dc,
    0x68477f528c7ef7f058b5b4a4bbae0a35, 0x51267e265db7c59bbc2a68e9d37e1ad6,
    0x1d19fb56b25c68eda71aefc9be937af4, 0x599520f5daeb075508c71f46bde8fac7,
    0x829495c93aaafbedbbf1be263e4f0dde, 0xfdafb99eeeb0762bac49bdcf73b8d068,
    0x92510aed848c21767f3a59d42cde0fea, 0x912a6c2fb60a49209fe95da2b596bb00,
    0x566245199c8b2feaf0c42cfc3e6c8afd, 0xf40ff29c022d80214a8cd63ead13ba94,
    0x9befec3707a4d18a0a4325445aba761f, 0x06cca16d4d1536ab5e0ce333d4c2913f,
    0x281bf7464239e78b12aff80175f844f9, 0x832ce5b78d6da4ea4f0aed6c1bd83f1d,
    0x2efc76318bd928fddc3bf172e2bcb977, 0x44afe05b819cd9751f7254b9e4e059ab,
    0x67652e1b7dfbacd904e72e0b2a99948b, 0x16b9a380eaf9d1f35399cb58de762c86,
    0xa36b0214b7d9f20834e2aa7c39917735, 0xebaf80537add36c8a562cd07d485e85e,
    0x0a57d5ad782981602ac3e45b1305f3a3, 0xef26db0d0910214a27790cd1e3c2182d,
    0xf51c3c2001c11d392986c73c43c14264, 0x74927ce6ce03dba3b72ade5ad28afb5d,
    0xf8886f4060ad413e90e0083bb550001e, 0x7da01b409a139aad4a378687c6c56a3d,
    0xf68cc38b4ab7ae39c9dad17e6178851b, 0xa345d3ab0da7ed4f9f4038caabc87d9a,
    0x6a007a584c63e1514d4dde063f368501, 0xef295fa25965ca6731bc830f846b554e,
    0x0bd445020f5605da490db5e33fa7404a, 0x2717c4e17059ca13fb742c2b7a1c2dd7,
    0xe754a9545d040274654a19dadfc79923, 0xe89dc953edd05ceac48360a7d19a1800,
    0xa909cd37655859755e196dcac7e07141, 0xf2a86b8df49dde9dd9a4b034bc48a10c,
    0x19a4b52a2a47c59932de0df67f67d7ae, 0x3393c90f913f7754971ec1c6297725aa,
    0x0d0aa6fa0a70e816f4f7caf4cf7711ef, 0x5e960a929895960fba2e9b3c5c6382a0,
    0xcb52513bb0fc856ff7afa8dd087b7451, 0xd9279c56c9173c0a80996aafdbdbb81f,
    0xeba9f6c2e1491602a9769411ce869a53, 0x955c863526c3446b9fbe0ab79cfa9cc8,
];

/// Words 256 to 383 of the binary expansion of 2/π.
pub const TWO_OVER_PI_2: [u128; 128] = [
    0xb4f49457bc07ceaf01dfb6b9b36dfda0, 0x437fafbff66dfac882d11f4ed74fd9ee,
    0xc335b12cc9c58468e0af4ace0d5539f5, 0x91d18d78c5f2328f8a9e29078d4d40b8,
    0x1831877373cb95675bc8d0de6e60996b, 0x5b5113c577aaab80b387ddc92a7c6a13,
    0x291dcd9967044baed431b3cf7ee28772, 0x8ef5212310bcf7651c112c7d0c5dc625,
    0xce02299b0c65b3abd63e7e13a0e4b378, 0x7662d7ec9f2859c058d8fa0b8bd66872,
    0xc98e2d3aabe08cb038ee5afae0a69c94, 0x71813c0d290f115b4d5448006f08b20a,
    0x02c29155e70276e9a12220b959a61a47, 0xff278141b892ddd0c29c0eb39fe63ee0,
    0xd06504dfdefa62dc44ef837842e941ce, 0x8fe00dddf0a9b0e4dafea2048ae861c4,
    0xc8e81b61e81d087c1b97db9b381750fb, 0x63b5c309b178f2a69e9357928c6ae15f,
    0x4096e6739a5ae3d71d7f78255bd41424, 0x8c0b8c6a1c70446819f54a03562ebfb5,
    0x5a26349dbf9c18b6b4fd16615fbaa6f2, 0xa67015f9056a4aaaa1b621f24a82594c,
    0x0ded1cd0cf12b83225c0a48b606c84de, 0xcc16eef409cfbbe4bb68bfe02a158db4,
    0x9e8280d137ec11cc67e18f263f374050, 0x7ecd1438ebcefea22bd40ae85dbaf302,
    0xdf0cb72940b91252f6cf17d5e815f0a6, 0xec7ebc244c11f412e32c7ba844579966,
    0x188a0f984002ee634b861eb8a5600233, 0x335a491a48d9937c3b66d1732ce8b5a3,
    0x1d5eb73fa018a3559f59272eccb718c9, 0xcf48c4886a9f133d9623750baa9396eb,
    0x7bfba3de4d2b6b666153da73521ff187, 0xdbce424432b790f103423764e6c80f01,
    0x5e1a2fb668f9f0e6cdfdc09d4cbe9234, 0x75ccecc741a79ee42a254539f4d32db4,
    0x8a265f13b43c46995fb00be081f4e89c, 0x1265f5c8b4f615441fbfaa99fd22bda1,
    0xf32fdefce7a6438251c1e2b46e82ad8b, 0x82f8a691a9487b6a02050c453f6f3167,
    0xd367f91a1945f9739db3d39d41ebc5e2, 0x48299ae27a82fe99ddd3f274b8f982ae,
    0x429012ffa72607b534cf467c0c25353b, 0x7490f2511166c3149fbaaf8cbbf2e077,
    0xd915eea5d16aa52d229a5a52bab7297a, 0x21764f0a4c436e5889bdef81306997a8,
    0xd9f9886acdf7b529e48569445bcc78b4, 0x76bcc79842aad92c30a8a996462e338c,
    0x7e711bceec61f51d1abcca05caffb606, 0x77cf7c8db728e1f7ef93e570e66a6aaf,
    0x7f1dad75c3cb9e00fbbac147b5199b14, 0x74c6925d4af903dccc92514c77bbf59a,
    0x9c3581c81549d6cd570e1468e5123a56, 0x66fa597dc908cf322f6041fe8dd2e30b,
    0xc53f3b8e42fa1370f957369e2d2738dc, 0xf6defd86fe8fefa9a6eb61d1747dd947,
    0x8b9ec181fe19cc7e2a7e019465ebf9a0, 0x82758fd7210010ffa3f36146b61c8273,
    0x24a4c418a7a5504603e3bbba606c0912, 0xf3d1bc886358a8a247c1433e8348e84d,
    0x25c8b0e083b47c9de804e305067d611c, 0x42f22b4990cfe8634242aa10f4d41b09,
    0x548a2e5aa0fe0b349614f1e6b6558e02, 0x756495702f7620de09579d370788dfb8,
    0xa07413bb11c31f04d9368aa63589fa22, 0xdf9095e6f2d69516b05d17738d7c5066,
    0xe35b4a04463a6ff68991e5372ac5fdc7, 0xba151d9e123ad4239b205188b3d3c431,
    0xf40d491a375ddceeffdbecc87bf7a375, 0x42f36f1588e314a5b29a99bf407f26b6,
    0xde778643da7fdba6436224291959ed1c, 0xe7972e3271cbadaf66766346e9bf11bc,
    0xcaae96f37ac00896b4b4b3f2b210c15e, 0x44d78199752c08647d157e6f032cc614,
    0x89bbbcc7a87364f30bd5037b5d2e9c05, 0x300f6ebf9af82b3873bbe297fbcfbdc2,
    0x5b39a28320eeb94596c932dd142da1d4, 0xd2c96bfa91fbadd0bd86adc50bb2bddd,
    0x9e77ea90ba0297b106ed5b1cd405563c, 0xf25ed6cf0aff0feab6c2b4452c3becf1,
    0x8c5a570fb0df21c2fae15eeda6f29e2a, 0x5a6e44f75ea55e65f5733fa4e17637e6,
    0xc4121e0fa9db7dca9dde894d3d14e00b, 0x7642980cced6610ca0c49ebdcf873d94,
    0x35d83ff14c3adfae376b61a12bd24251, 0x08157c7fd6deef6a134e3c20490b6c99,
    0x9eeb87b72d113266fec137e8d6257ad7, 0x276e71c084b042c1fbf06a70f327606f,
    0x1138da2717ee409796272392286c41b7, 0xdc1047dfdf55c37c2d3bcf93a4544623,
    0x4b0fb68c180624c1ec66fc6d40650020, 0x14d03369abbf0e08a72a54092e54d93a,
    0x5f18d4b16cdaea864f63d0352aabc8db, 0x20328c16748753f432ddc59ef64a0862,
    0xbe99a364d62e5259c55c9f25699960b3, 0x884b727ce9d24d36996b761d86ed115a,
    0x2cc538f9c43f8959e974e751b3b55060, 0x4d94a922015f190e1ba55884bc3a9574,
    0x5d009a73f29ca7bb4d719e27014c42f3, 0xd41228b28d92207015b9904f5cc2bb94,
    0xea6916fdd9c40ed081b586619a9fb813, 0x33b7b2aa6e2a70facfd7bc4a2579943f,
    0x22aa87607e9c99e8f12435b267412f6b, 0x96dca1536ef0605135dee9c640125bdf,
    0x7e30f9d416c5487e1a047431c77e38a0, 0x361b0f5c2b1134f0cf5b57cb5324a4e7,
    0x30f5d11c9c250e77bdf692ff13668416, 0xe0198abd358d8d8e957ba0bf81a1dffe,
    0xb68aec18142d5e9bcb3e14d20ecbe46b, 0x516138d04bf547faba86e737e026f0c2,
    0x19e7a8845465d136677b2ac12a8933c9, 0x704944565da9844f016b59c2bd989db4,
    0x2617be05941ae303f40f976a36db46c0, 0x9dd99532d65ab49e310bf6e1bb834689,
    0x23415595e93aedb94b1638fe2b4aa3f6, 0xda0d685c136d83be50c1188ae8ce261b,
    0x2c276d8dd95709d0cf752e59825d8c91, 0xa2d63ea23b478aa6052362cbef3eb435,
    0x8680533b586dfe510b71bb6d796d0d51, 0x650cec1c0675550c2140eee62590bccf,
    0xef71f65bb2febf99da2a2aed4f6a44d3, 0x71a7434cbc2ed8521d2cd6a7944d148d,
    0xe71bb2c67430ab2e92b0604c76eafccb, 0xcd0f511efd46c9a3e0c073f274309b0b,
    0xaefd49552a88688ab4258baa7840bd5a, 0x60f7aac651227491f73cfdfb0d6608c4,
    0x474ec5792f7ff898d83e0abe86c1660b, 0x5152fd9c6fe62d1645ee1baaf0022dab,
];

/// Words 384 to 511 of the binary expansion of 2/π.
pub const TWO_OVER_PI_3: [u128; 128] = [
    0xde83404127cfa9e88484e3f21f26d3f7, 0x9ab66094e0aee633af4b366a8f9e42b2,
    0xe19e73547add580a4cd42cd886699e44, 0x38127365bbfe2a12887b307917042101,
    0x2acd6528d985c22f008b439147ef7bae, 0x5e00464051e5c20ded523d98bad6ed39,
    0x59f7649050469716bebf6531d27c3899, 0xc6ead65b67735256d1677a7e2ab9477a,
    0x98f33f5a9ec84fe1f14a726e396c4a74, 0x8dbf0cc01107369090edf43334f658ff,
    0xd146d413e8381497169db6cd8a000d3f, 0xc134c78fe24dddd07f21646b214f1264,
    0xf69d7af3e283d149c3a6f11038fa0be6, 0x7fe813d84a1540fe746a191f3260fed6,
    0x0f59f922ac396cbe3addadec40fd464c, 0x26266c0b6df8082bac3480ace12d3558,
    0x608e6f0078d39bf2ce2b316fa206ee1d, 0x4c2738752a6a75682e330a42f2f3e1ac,
    0x677e8d822d628712137d81551a139f7d, 0x98d663e835607752d11f27d84de7da3e,
    0x316c5206d0e31071d23f4175ad2277c5, 0x22d20bf9fc1edc16ec9198b1cf0962e4,
    0x4a64da17e3ad3bcb19dc7cafb6a3b52d, 0x892f4bb2f9187459e0f84061704e8636,
    0x61a19ebed50ee67a060f9aef0d321133, 0x5c5042b7f773b397e3871d5466f258cf,
    0xa60527808803439149ee583ebbe97443, 0xea268fff0c3208fd1ab04181ff468823,
    0x82e2fd5906be5fd3d556b16e60b8b6aa, 0x1fa7f1dc54fbfd8eeb2638cea53097f1,
    0xcbdfe15ce8747544b045e8f7ce4470b9, 0x1c30f3b890343bcacd38006233f55726,
    0x366c7e9102fc2bddb5361018e391c36a, 0x9a0e5274c52c2171d6f4c21efaa6c2fd,
    0xfef20b811f1d2752893a10aa4422e0fb, 0x92a1def62679bd13db1bfe323118c789,
    0x8ce498a8465fb8df394f585257462cc6, 0x2193c03d618d0fbb95e71d877af0d6e3,
    0x241fece19ee9bdea1e7f3b12a547ef89, 0x3339cde4a167b06ae3673f6256bd9813,
    0x5ea0ddb30d7517c96a397c5287e29ae6, 0x1d88d51adaec4becd33d4dc7ec7ab8d8,
    0x5df2161c259093fad6b5f8366c325815, 0x724eab484dec0a5f37de0b124409e378,
    0xb2dc58276e631501bfcc5b4a2a9d3c11, 0x6d66a1420839198d5e64bb9e93c92cd3,
    0x28f7b63078cae18fb4472415330d41bb, 0x19ca15bc75307e7f43a3d40b25615af6,
    0x6714e241e71faee12ac58cfdf1474062, 0x3469161f5b26587ae92810cf1a28a8ec,
    0xfb8833b29b03d0baacd3aeb09c17e50c, 0xf5db34bc2690cfd4fb29454238f18675,
    0xcc238199dcf0758b0d7bbd62d7580581, 0x1b92d9020d621d06e7b0a1421c6341cb,
    0x3b723c07e661062ca94d305191c1aafb, 0x089ead397b65753182799308c047b21f,
    0x0a29bf21a291b3ee7868227ad8e4a56b, 0x3198f89e1d26c82ec6b81366812178bc,
    0x77c1198a2b8dcd6626e5b6fb93720289, 0xecf27783c285a49ccb519d2518b65413,
    0x5514783bfed03633aaf70eac51b4a7ca, 0xa14d83495385f17015e6f44a48c59515,
    0x46ae89b214370e627f0c2bac13dffbaf, 0xd6e57defb2cfdd8357b53c7db4da3c11,
    0x466ddc60bffe51c545d6525276030753, 0xd8cfceed1f9fc18874682f4962f5b540,
    0x4542a6ddba5afbb6207420d3382a0479, 0x3c4ba9650a0f36a148c2a42b60c4106f,
    0xf03fd65c86c93e8a2b5775c59918f026, 0x6a1978ee871e7b36bf1ead6cd0fda000,
    0x9efa374b1a7a01af0ad21a1cda9af546, 0x40a31373158a3f550f346d48cbf9ce83,
    0x423fb7df7a1f9151db743e072b34f772, 0x576dd27924ea4cdfa15ececbed6ea2ba,
    0x610f473a98770ebbfa5ddab5020da757, 0xacdb999a307b566a44fbdb67e87ff940,
    0x83abe3fc026ac07477082a03870313d6, 0x7fb7fc39b5c19919db13b33d37bbb3f3,
    0x60a525281587d310ad94f4e9adbb2f66, 0x54887e657838d0ce5448048e239a6009,
    0x7a3d4d7a2cea296d068d4cac54a9947a, 0xdf33b36663a8638efbfdc2aad38bac56,
    0xa2915cfe3269cd18185b483012416f53, 0x8ea928f5a214accce2c1c0fe5e5769a4,
    0x7d4d2ec04b1cbe827b4f28befd82ccda, 0x295dff2ce0b80f8e0b6b5e1bc9ebff17,
    0xee0ca059f55a4e09b2f6756e3931ac13, 0x392b36d2a73a6dec74b39ec993520951,
    0xab2388995843b94959e6ac8cef2438df, 0x2cb58c09e29e9ba7b20c0f6e4d32abca,
    0xef087783622b07226c5c988cb84d4b25, 0x22c43798934565a00992676560f84145,
    0x0d66d2afe544bc10fb144f77b019b9b2, 0xf13b83c8fb52cd0815ffa6b30dc34997,
    0x57ba07171db479525055d9ab6ccdf356, 0xeb2357a4dd0da73e4bbbcf7a0b7f7338,
    0x253f977c30125b008c55dd9a464d3514, 0x55e6c111dae5315f1df03d99c3565094,
    0xad29bd7afc9262655422b4cda9e220ae, 0x5a86496e220f5aede6ce591d774a64ce,
    0x3a74e212d9a672456b5e0fd54d33fdb9, 0xd686885d856748d1f9a2e0125139bcaf,
    0x33c4c8adbc3f27ae2467759b50b0d0c7, 0xf3d7bc0a48c9b669abc12bdf65609406,
    0x13abf6b925bf94448e73f58629708ff6, 0x7ac694db7f549d418e7a81a247b5b24b,
    0xb9070c45d687035ee16fa12ddf21ff21, 0x1d9aaa709efb454248372fd40ef83e88,
    0x438d6011f0c80c4875811e2235367e7b, 0x8f35db96cb46b870ede2b871bfd4f3b9,
    0x4906e14abb00d0b6713947bb600a0aec, 0x8325941e7ff3d12c60080fde47838d54,
    0x7f69fe176e22ffff45c3b80765f30056, 0xc3b544503ba90ae102f60f63a65368f8,
    0xa6040f3879b9e203ba66fdb9177a12f0, 0x9994658c646470e2e40de99ce20074df,
    0xb50b905a1ea30b3f5cebed7cd0fe1af4, 0x726b70a3a7de2c1e0e3c2eea79461961,
    0xd4495fad0f911c3d301e691fcf38cacb, 0x6f17c07281a391b824149b89c5edf399,
    0x7a48ca6873fa468787b8cb33bf8e12b4, 0x6d401bc6203349ed39017861c7350bd6,
    0xf05636260d2efbd151409672858ee74b, 0xa0998aaba4132253e6fc0ce5684f94ae,
    0x6f3b986483c8ddb53945c27a0586c2c6, 0xfd7464df930b03e36c6f748b80ea4447,
    0xb556778d9b42e98660942547e8e3009f, 0x041c7dde183b3426a8b84fea6a40d766,
];

/// Words 512 to 639 of the binary expansion of 2/π.
pub const TWO_OVER_PI_4: [u128; 128] = [
    0xb8b9d660348870eead08f578718a2a7d, 0xb724f30fcef13f015506578a35b72393,
    0xdfcaf49b76dd67b9b888c579cde35a51, 0xfbc975ec0a38ee5ac32dbd9a881e2122,
    0xc326749f3affec5486ae4295bf959ebb, 0x5e82a74eee99e69fb49040b4173f5446,
    0x9a25d959db7e7b98e4ae6d8b2e96e58c, 0x0645d48624a11cb17234dcb43c745f42,
    0x913df72cbd413d0199c914c6fea8d488, 0xef84d726e7405c96ae2c7415a4667c84,
    0xf874f2127b5dfa3c28ac4af972b26f1b, 0x126dba4b68c86a56dc13184e7e16a9c6,
    0x95e4fb9581c0353c162b6cea1cad60b0, 0x51210e2d998ffa7c96ad1bf72aceb61d,
    0x519c8f7802160b5d3dd4d25ed0ae7813, 0xe32a057a7100b0e4132781c06574b1b0,
    0x2fe3634d204eebe21462d03062134e82, 0x8d5ff1ee5c74fd4cd4891bf3a57cc1d2,
    0xb996f6c17f91caddd00010f695c7e457, 0xe0139cc6c61084c638b828190deac6e1,
    0xf7581a3c9dca68df15c7a3aa1113c4ec, 0x879f1694db38fa11e384e250b1241cd3,
    0x9f7434d564893621ea76005e3da2fc13, 0x2c8e787f23860957fde0f8e01dcd287a,
    0xaf98ff616263e3ba26774182c4581a1e, 0x812a4d045a9da93ae254ce9507c7230c,
    0x6e92f2011c17a9a9a8d92c746596cb5c, 0x172a2347781611651d45d6d8fb0218d7,
    0xda8810a0865b50770bd524a8ba089692, 0x2207aba45484d61628af340f1636acce,
    0xc878c19fb94cf60133cb83fd75166851, 0xe1560cd305cc5a00953693d910995bed,
    0xde874d4303c64e7742972567d482762e, 0xc64276853f89f147cfa46dd0cb2be393,
    0x9d039b5be6f299c5c56e095b4890dec9, 0x319d94e351d1db1cb89517bf979eb6fd,
    0x9419891eca10b0342350a42d331475d3, 0xe2b03f6398e95dcb94fa7776580c677f,
    0x818335b3bc48edb1dd8f8d83d7186e5e, 0xe06fb1513afbc902cd5766d39b726484,
    0x7474286697b921fae1c192ba01f0ae72, 0x552c87cc3e1d65453d8d83ec2493feaf,
    0x974f275cb7e8909b188606731b4027eb, 0x0ea66c23b140bee5421c81edf6eeeefc,
    0x0e51ea2cb7448adf6e50f64d15192572, 0xb05f8188def3b92c981d62807ea25d89,
    0x4d0ad3195d98a08af2b79696ffa3674e, 0x8b4d137cbee01c79560f9aeb11bdb079,
    0x31d26e24f993a20fb6a34ce8ae310eff, 0x8309d16811e30a3d6a98232a9a932bcb,
    0x7f2187de4d8e854f17833df7c51930a8, 0xe7a928c1876c2e7ec155d05aac4d47a7,
    0x5df0851f543bc4a67418844d83d63765, 0xa2776de86db946b7cbfd4b7e5858321d,
    0xbe2b954532250bd92df94ebb1178846e, 0xee0eb22a433390c2969400d9af6594d6,
    0xe4ac4357e1391b451b2cacc8ed2f06bd, 0x2bcd5421496c1e97b173e49a238861ee,
    0x67fd1be30e53ad457d408bba51844a66, 0x1d97a8d36577f6c5e0f650b998b8594d,
    0x2c5cd122f1ecad1614c3d05dd9413853, 0xfaa0842dffff7aaf0530006d7a672b64,
    0x1076ef91e6de337114137c21f501b761, 0x43db1cb68e626aa5022d8298665a2052,
    0x08d99ae630924aa8fd32819f44f58369, 0x3a14e2af11b92d522283aa95616a7ef9,
    0x053ea35224de67f71e25222ba2f7a622, 0xf3f3833aa700f413fc8d6f9258278794,
    0xc783701fa546213a7297a933fd35a757, 0x6b98dd30bc045ae1bbbeacaa99b416da,
    0x8162a94b1f3be9bd49a105ff3bccd303, 0x4769d26b810b04c4f7cfd20864bd83f1,
    0x1c90809d06d4ae6df3fc3253ea18f64e, 0x6978500c5c9173598f1b1b6ad6a40b33,
    0x9ca60a3ca76c8315bb4ecffe99bed0af, 0xe5567d5846fe7d04119311d3e8579e70,
    0x8343a4d533baf6cb4bc875599498ddb8, 0x6f362780fe074f7e68bc520373a32e09,
    0x99c118fe1fd16660345f0a98278705ff, 0xa85e60ca3845633149cfe2e970c7824a,
    0xa205b9088cbfd2c6efd954be25670775, 0xfb8e897e75310a73e77196ea18a3f97e,
    0x7d8e8ad78372845498e14ed90fbe5377, 0xd6153520037c54e088e4bac235c05b50,
    0x9eda80c8826874fc5913a18baec5a03f, 0xc3572af048bb9f260b283c7dcc39098f,
    0xa602efd78df97edc9a3a0a04b391684b, 0x243698d95ce75f487b0b6f8c72ead11c,
    0x44c14edf42d414422a3b5febd1714c9a, 0x92a334e090bec836cd1daefb7e8f5582,
    0xba9243f505ab78175eb5dff64ff823bc, 0x3baf98d92f1b65e4d24210bba550a482,
    0x366755f4a76b8709642805eef82732b2, 0x4f8b8a58a3867065573d2cd20e35d815,
    0x23f1496343ec3ee018c3b11ae61d499a, 0x534c7213759fad7658c454fadd647aa8,
    0xbb2f20e78928b1561a84a6ef7d993fba, 0x4753a756e80e5a51bdf4ff3b0a241f3b,
    0x33412cebf8ab5c00e768e2acd24e32e8, 0x80d7a4de78193a7aeae7bfbc90daba45,
    0xf83f16d00eea7290fe347b81d9ec075a, 0xa93b7fd05fecec83698a7fcaebec1d65,
    0xc893de8ab8077445bddd44a403f5a188, 0x220bd8f7378b341a5ef1d03e9cd051d5,
    0x2fa991a2babf2ad01c9cc8a05c89656d, 0xdba3c420e5c96b8c7f95a6cb6b8c5580,
    0x5ccf5a84e878a004b81b5e6481f2fff7, 0x5cb473a17322d1481ce97be7bf52fea7,
    0x82972126ce9524d6b761e65e874f4a0d, 0xd555f09f20e88b818209f467fc51b467,
    0x38a0eac3e6585c6a094bf35027bf8ee8, 0x11093a33780f72dd51113dcde4376413,
    0x3861bd3ef02b98a65c15e3690504b312, 0x682b94635b808f751d45d4e90e25e8b1,
    0x6aefb0d0f59e1b3de080255bcbac0e23, 0xaecd038e89ef2642c17b21a7805c3856,
    0x9c830bd0870c9540770d4b4b4c3d49a5, 0x06d85fc1042c9ba487131bf22c8c314d,
    0xc487f115af4e18c7b501d141466af075, 0x23ac8d761c77862c433bcbbfd6cdaf06,
    0x00a6b5ef7f55d6282573590d9a75f6cb, 0xedeb0a0b25463c268916f28f8c58ef7f,
    0x42325d674162324ea8c8afb3d3d8d444, 0xce1ce5b87c94f6648ff05ce02c0ff630,
    0x46c7a2a497ef98f88bbcd23d21d75093, 0xd14a887ea8d0afde2fec4836a1596c04,
    0x39845339f25699751ba2e2d899d2d0e0, 0x5e4a7e023372fe497a7160058d4ed39b,
];

/// Words 640 to 767 of the binary expansion of 2/π.
pub const TWO_OVER_PI_5: [u128; 128] = [
    0x1c017b1ec1c14e8418ee1a85ae9b9bd6, 0x94922e9e50f8a93c863aa98d2104dfbd,
    0x7540cc44d2f024fa9a2fb43f3bac4333, 0x48899653369fa7015c6d698944b9b03d,
    0x3601989a9a9b61e16372bfc3ae554a42, 0xf80909f432c45e32a8d42abcff502513,
    0x2665557590f25292d287c1f643b5e9d0, 0xabd169f37cec887441972172e95871c9,
    0x56315fc194055a86a13910a86e364ebe, 0xfb3f07b39d7b84c955e9fd8e13a28196,
    0x6ae56daaf1065510982e10319a112584, 0xedf23910ac90e50a2eee1336a3f16cdc,
    0x7506d5c9cf99e170f424274daadb13fc, 0x8204b122a7a5295dff6847ecade26fe0,
    0xead7c4776488a80ec95a6768f87d3555, 0xe38003b1f29226c719822828b54daaa2,
    0xf3d2390996b6c9061e045ddc34cb9496, 0x66757dd7575f5899585b0ed01810b161,
    0x46c3cbb15b52d872dd0f7d8b62d69343, 0x934ad472eb4e7df69ac657396a700628,
    0x309a25a57e4fd609c9a830b2109dcc92, 0xe7e2861ce6e3efd8364f1511db5f3839,
    0x213c918af60585ea713efea0b44b27e3, 0x2107ef57b5205394dffdcc67670372c9,
    0x4eb124bf62db6d3a667f5697e98f9468, 0x3f784878801143e46c6cf19685ed60b2,
    0xb63e71ef508b53e1179d71f8c4017ce8, 0x18a0efc7fdc30e0dc106262e7e82f251,
    0x61272d47222e1e58771d42c0b7094d15, 0x41d507424aaeb43198c7b908ac4f6038,
    0x1237ed1fd25a0d31095fdffa869771ed, 0x2c2b7a3c4fd285404a1d18815a4e55f4,
    0xdb06cc687afa77c11da780c944fd568b, 0xb3e5aef342167dee943f4a18c99840f7,
    0x22e034da8f77b64d804cf03d05e9cc3d, 0x98eeec4a54d28ba62023dd67742f2f32,
    0x33f0362515d07124c289e64b4a590631, 0x64d9865dfeb509aebd12b46bb64e8de8,
    0x39fcba3ca50ddfdcaa20b603a55dc9cc, 0xf7da7e73ac5e895b72051361c46b939e,
    0xd6daa831bb40106bec730ef593c33b0d, 0xb4a0301dd8807f21dead4a32e8a6207c,
    0x806e28b41b05be5422332aa69bb8d717, 0xbfdff8d7dcf0dd3ce076971abafa332a,
    0xd6f81355b4a684b5ac1be7125c41e708, 0xe0ed3b05205510f056b3268ebc35ae64,
    0x47e6223313f2426765c45f9e07a064a7, 0x7d7d40917b156cc673998ec3b959840b,
    0xcc2522d41a96446071a0a240fae353f9, 0xadfaf026bbfcbfe183f42933d928ff8f,
    0xa23cdefc161e6212b4b12619166744ee, 0x64efa089bfc93cec178c69d9f0099c82,
    0x695f122693537982a7b2ef95038fdeca, 0xc883165c5025c2e8665a5e193cf1e038,
    0x712f56aff70170a1da74c1a1673e8c24, 0x4a68ada663da708c42fd9fc0ebfdf93b,
    0x91fd87c1ec4561ea233931598063ea5e, 0xe17d1ddbfc47eb0c0f67f07a13478c69,
    0x4a8f1be9d6ccbe1d8b1374c65ac99885, 0x140773f22dc7231219be407396c27f7a,
    0xcb78bbdf702742056665bcd40961f6f4, 0xac93ef9e5bf373a2df5af550eeca77c1,
    0x436e11c61bfe6c9a020b13df601447ad, 0x520250bd80b7226bda61519bc2cd2ca4,
    0x0249866441748ce5bab9eb1358788a80, 0xe3737822b53c743be39e9b6191af2fa8,
    0xbb1d6226e63135d2e62d5cc43305f0da, 0xcc84cc94fe083adcdd0cc2997c9e9b5d,
    0x8f93356c1ef1350be20a979ccdd5c016, 0x1bee10c85e2555a4991cc2a21fcba923,
    0x9ab11a9568c5956c0bf0990e369b50ae, 0x84cdd5efe0360cda219511563b5b22db,
    0x7750de0f6d0853c5ada51526bb7a2dba, 0x2bf6b40729bb54a4fd8cab0f7187df9b,
    0x2166932b80bff61efc2f96fc9f5ffddd, 0x1bc262c63bcd6d2407532cb7406cfaa9,
    0xe913a4acc7d312e6d75a4aa6eb6eb1f0, 0x39e69db5279de6ce8a1c5536064a8819,
    0x9f986e85b0f1927995aac6a53b80b674, 0x75843414676a0e08774772e159a9ee3b,
    0xfa0126479293c382c3cb2a5402de350f, 0x5a05ba197996ad3cb030929e0e9018a6,
    0x01f52b93f06e88c939a220f521fa2230, 0x8b9bcb0042fd1994082a76a4255e7896,
    0x14df5b7adbbd1d67ae0c239b35bd1821, 0x5c792d6cc4b501e9658ef2a0164d5a80,
    0xc62e50a00ddf26fb02ca068f950b9d3e, 0xfc13a189958ef13ed76d81a061aa273b,
    0x68c031ba3157c21c86c570096ad975c4, 0x67ec0ab9dda5a4e48771022d8cbdc153,
    0x6789bc4d5e2d21df3499611344102f53, 0x519170aa32a30b1e69fab3ab7331579a,
    0xb0e2fc793c516f62d6a06e2f6b08a5ad, 0x07004cb37b0335cac8367e23e8f211fc,
    0x79891f93f86ed6e789bbed008b7b0aea, 0xe82f7b23d1e6fc8967e036cc730fd0a5,
    0x705004fce3500bcc45add587fc533a0d, 0xf9f4f0658bfe56593d6229caf84a5267,
    0x1f56852383a39efdce1597819d2c5322, 0x61c00701be69ada01b97a0c04c82ad1a,
    0xaec36423c949b3968b1581065372bbe9, 0xd8db29ef072b60593e450759b9612fdc,
    0x36a44e8ecc0dd6b899a31698eeff32a6, 0x7ddab8a3e8cc22d45e7f6162ea278099,
    0x7737aa33c0bf1882c686b27fcb88bc2f, 0x2cd0d8d64454647989d380c0e5812456,
    0xeadb2960013121cf35971e091695df50, 0x22e65b5df5f79a2f2dc9f2973e0bf8f2,
    0xe6c4b6309cfee0568f2c6f487e721db6, 0x388de382b62c276f137eb95bc11ff348,
    0x51a98e1293e537d1a7268e53ee6aca3c, 0x1850a0d342c1a79f0cfb6892642e7d20,
    0xfd059afc88fba686e897ab9310a237d1, 0xf571d507432a17e60ef1e6415a6cf5cb,
    0xff2f02a7fd92750be0a95073eb202df1, 0xe47ba5fd1c63fb52a164dfd3f4821275,
    0x26e27825fad83da0f14d3c4542742661, 0xfbd42dce4df9fa3e61e8cf4ec0db2069,
    0x390041ff7bc6949b738b0bb461fe826b, 0x76b87cfa92511e528ec473ce15462edb,
    0x7f64a4b6f4908479df4d14135f84b4b5, 0x2adc399efb19718af7ce5d7f8257ec41,
    0x1913d6c06ac7bb67fd01a1e2419c5ebe, 0x4f60a8defa913a0e8f95a8d82f97ae0f,
    0x0494538424a067f312f4a31af340ab7b, 0x71d9e92381426bd0546a53c16a2f8a0c,
    0x74f126c69d7a6ede01aac1c67c536e17, 0x63f7be588975b7c664c984f4d48d8bf6,
];

/// Words 768 to 895 of the binary expansion of 2/π.
pub const TWO_OVER_PI_6: [u128; 128] = [
    0xf774cf308089e79d3499fe18f1129822, 0x0cf04afe76f6c185484a9ca319e9a2d5,
    0xe72634380bf928381a8bfb7238e0134e, 0x7657b98cd946ef184a43fafb5282a079,
    0x2100b45e34a1e19962469decbac35857, 0xb96f3c674448ba19ab9a8ab16b0b48bd,
    0x4613c413180834a6bfce84ff7783f11b, 0x6b158fb426477aa1a7508940906d0a44,
    0xc7a48e5149c46078a06b919435de8973, 0xdf386c2f00a7561df53d3627fd2e26e6,
    0x9c078d7c146a8de7f98d23164a372bdd, 0x5d4ab37e9447f9483e32499083cc7a87,
    0xbdfae65a465ff3308b2339f9737292c2, 0x5ba71e2a4291130ea2e5c58a7538a3a5,
    0x6e829ddb83840115620236d39ceb74f8, 0xf3a54183cbd3c379aa53781a7a73670a,
    0xfb57268371834480ca2110bf1733f320, 0x590f05a7ff9a89333fc2591dc6fc0f50,
    0xd3a4e6f07f8e9c122a076c8ae183e038, 0xc438c1dfdccfce23d0bce80bf3e0e0dc,
    0xd3ba6ab0f8fdd597900ce8755511c207, 0x8de35daff9b8a0ae4a144b1a2058ac3f,
    0xbecf8e2b8e861fd7f3262063eb4eac20, 0x7e297b9a3af971eb1d4a537f6868aaf6,
    0x0188c464c79c737a6772726617c71164, 0xd8d16ae8681cdc636725408a9e7ab1c2,
    0x79029eff8a6395532a887d644a0f0987, 0x24f6fe4813d1bf7e43697000c1ed8431,
    0x2e56d866308b8879b3d9bfdb4b7359f8, 0x55b87658e84b46f53ba74af566c0781c,
    0xe381a37e7c0fc3213284028e6a4b983b, 0xee6090b684399d6772432f3cc68a4bbf,
    0xa4bf2a382b3028fdb4d1115fada82552, 0xa5f8c0511d8b076b0a8aab2005afc2fb,
    0x51b11f4679d9f64541e8d9312352db69, 0xbcf5ed19fcbbda5115e26ce405752305,
    0xaa8e6fa764f91f3cce4cf4494f971ff5, 0x28cb68a73b5ca29e3d1f252b046a9e53,
    0xd4efc9f427ba3fc788940be2a79ae6b8, 0x5b210bffd39b4b3bea904c4e201f146c,
    0xc030cb4d639878fe46ddbd3be0be1326, 0x4448f97e1199ead5ae47e9dd0b1c6d6a,
    0x58f3a7b564ec26fa5d29fe0678a8cd3a, 0x36deba19e069c5c6196415bac7bb9655,
    0x3762bfd998909dbe351ce6ecdd14f411, 0x2157dafa16ecc975244bb36d52225305,
    0x4079c625b0bae8a123cf87c38a63188e, 0x0822e060112ecfe958a245ccca420a3b,
    0xe14388ad35ff73abaf733155d8bb13aa, 0x7e86c596f9c13d8beaf114c6af6b8f07,
    0x16101cb9f0f01f6e139d0c2a23a04d03, 0x2bea283207491fb5ee9e46c01797f409,
    0x760b0d7a2f6faf207cdbc4fd88794c38, 0xbaec551f61fcf0fbeccf885a5cd0eab9,
    0x9da34f91efde69fa38a728bef417a437, 0x7567fdb65849b99d85047ad3628a411d,
    0x280161902718112521da5b9f91afa3c8, 0x395a9e9bf1b8a0b9b60a860d8e323d03,
    0x46e735a5c7961195a7a855e65c290059, 0x0211a5bccb7c91bef91a05387d833b0a,
    0x5167d4b7332060864bcacacebecbb8ed, 0x3ccd5c9c5c107db17eaaf962340b5f60,
    0xa7d3bbc3293d0dd2da7fe81df3a423c2, 0x60850476535792ed362984dd381a254e,
    0x9c61242a7c4b4bae5b4c5198105205e5, 0x6ac8aa2201439c4c4e3151779e064419,
    0x32694a0959b0f37a879879eaba00249b, 0x8c3525846f0dd5cc1acf2dfd99b79688,
    0x8b0f4badd816aedb6dbfc2887f0979b3, 0x6092b76df425667ce77edaf612d1ecd3,
    0xf94126a069bb8e272f45c828eb35c369, 0x97e3a45d4c8b0505a011a1aa1f0f83f0,
    0x073d7614ceb379d9a9f2a310d7e77b42, 0xac275842eb25b38cb75e957155489c7d,
    0x9531931b576ea4bccf6bd5433da00b08, 0xaf6f24afbb99ce6e29b2512f0ffe5e15,
    0xeeaef232c0fec25b2cd26c2c6a6765bc, 0x2f6343990f4cab86d746ba08bd799224,
    0x42dbddae40d2ae759585c9a91e29834f, 0xd849d374bbf50837f6dd4a35abe73199,
    0xc76c76f23f793b45a4c738e942692d04, 0x6bf80c4e5ceea1acbe4db13fa61a57cf,
    0xbc97c869709a573cffa9f0cd05252ac4, 0xf4185c425f70942fd7493b5832273ac1,
    0x6e34539f1ef8add0af1495adef267271, 0x93776a6dfc29e715a31a84300bc752ff,
    0x4f5904428e65b408b4182aabbd0bad9a, 0x8327241c65ee1ac52ae61f037d182b44,
    0x4ed73f65b1808e0b8b797362d12ca82d, 0xe1fafd60807c1f6824cc931425f9dbcb,
    0xfaf83b5615c16e8e20bf347486b861ac, 0x9fa29416b0ec4f709a6927d0df232cc2,
    0x77e1a962d63084977ca01539887ce2d9, 0xdebe3204f07656f8ffb110d5c9a8e506,
    0xc10b801d69521393c16ca3b24a0a6062, 0x44f456780107e5ff53a73d01da8dfe8c,
    0x1841643853edbf8825a69d8d4559c48c, 0x0f086ba329cbb42af11c778869f3d355,
    0x7f0f2fb89729c252eea946898522a4d9, 0x7f5abde2f689b3d3341d215314c6109e,
    0x5f6518c64897dd3f6cb3ae28bb807a1a, 0xf6fcbd4ee2c6fe468a3cc39f95700c7e,
    0x2a07e10daf28b648abedd96c864d18ae, 0x32bf2b3d2c160ef9fd79c042210fcbf8,
    0x9b8a16fc42503b41b105916b573d5324, 0x4fbf8206bbbc94c95d64ba00a4b1e174,
    0x6f1463ef49600db4d3b3461574653574, 0xe5c8936eaea3e60f6aa8e6b35140a728,
    0x21175af6525b0868c916a8f4c3648072, 0xb81772a15994e9389adab6b42324c9e6,
    0xe29ed1dcbd298fc54d30d444be36861c, 0x64c3e6b5ec92818156fc774e116b505b,
    0x726a21df9c34c8c28df604fce4227005, 0xe81a29fb91a66553e0a1de4afd1925f7,
    0x5e335ad2a99b96b0a5911b2b22f0621a, 0x900334b865d9676b02c1ecba73c231a8,
    0x8ff7603e905143768d5d3703ebdc61e7, 0x0b028112a682854a5fed613adb20fd6f,
    0x230c75c9e3d5090ffbf0b5cb3b5a0ba6, 0x645aa573dd56e3197a647f49cf27be32,
    0x70b82ec844d1cdfdde51fc6a3593ec1e, 0x5096d3c963f6e2e41d9d465d88cd6db8,
    0xb65d65d5a7fc318579316f5c5eaea47e, 0xe73cf49d6a33d0a7e640a1839e572b52,
    0x75d7e876c63b700068d9f68acd97d8cb, 0xfd92e263cfd1874d2e1311959677d44e,
    0xbcd15ab4f552f164c4fa3d5a39e10d95, 0xad90bfd6d17c15966429cf9a2b9fcdc8,
];

/// Words 896 to 1023 of the binary expansion of 2/π.
pub const TWO_OVER_PI_7: [u128; 128] = [
    0xa1b92b6b7ba2caaf10b9875aa8a97597, 0xae6695d119485b65ad5f203af909128e,
    0x891ce21185571da72439ef4d6bac6d09, 0x288ec9fbf7ca8512a14ff01a4e842b91,
    0xfb1b3cf507aff6c2d55611085091fc7c, 0x7291aa2da13f7afa3203aa93079b1289,
    0xb6a3105f7a4840594f8ee1740686957b, 0x2e1726f413d09f760ef228e4d3c685c6,
    0x2c0d5829abcb0517283b6161e59ae8b1, 0x20b278663235f5cd10bc4548f813a731,
    0xdb98d37bc0d0c3f91aa7288f41172ba9, 0xedf01fc57be76fb82674c179e49c0eb5,
    0xa7c11086915697ed644ecb048c4d3cdf, 0x57b939011a331c153b72a3d67baed6fc,
    0x472ce601897ee8dbac3ba7d51f921bac, 0x70769c16941d550cfa0d576dc0939fad,
    0x80b84c367d55be4de85ed3b2632fd1fb, 0x9877a2eafc2b55a7c5d53876be464e8a,
    0x7487de0ed0f94b2c149ca4b41061968f, 0x52d7bb6c42374cdc6d4805c087c968cd,
    0x8ec68d602711a124e573cf838f79a78d, 0xd3baaccedc14a2d679ae74a94c3c1429,
    0x4f4f52559af73eb8800dd3dd0a2a83bb, 0x68c05b56ac5335a46482cce7449ea02e,
    0xb5a9a315e8c0ac93ea5bf389fac53fee, 0xa1cd898a7c72b1778ba5d517175f847b,
    0xaf66d79e13e1ecbc890e9055c904cc2c, 0x96c844b2c4ca36fad6c7e61b1eeecc04,
    0xcf89972046909f38625072be2cfc9a78, 0xb38c12ac23bfb204a0851612f5a00dc3,
    0x69b490f098a20958b50059b0fffee590, 0x6c4ea8f5bcab5c83e0ef1d6cac2011dd,
    0x194114d3487a661d42b663194c093cfb, 0xf655d767e76c3b04ab8ab6258abf4ca1,
    0x1544b8306acb52f728905b7ef8972b22, 0x0345888889dfc434c416895ef56839dc,
    0xaa72a981ce3b0a3272e68552b811a993, 0xb3b2b79043240905fa8e678dc070ed93,
    0xc9994b1da72bb4a221e9993c9acedb85, 0x869a86d05e14e40550ce1caae5896d09,
    0xf5568abc982b53af07852fe309fbff96, 0x97c551ba61403c4fb62679efed79efd9,
    0x286421ecb41acdfbaab7e662f8adc71f, 0xc5fa40d37a2eee021a55c1eada0c2c2f,
    0x414c749739859a18c07b87f0b768b34c, 0x18ba0d2871da004e869fa4fa595b9407,
    0x387a746f8827d6614786a32f47f8e657, 0x9457ea6c951404c5dc901909243eadbf,
    0x32331c4a570123c95c5b89776476d450, 0x68ea1380ae9856e3e82ed92456449eb2,
    0x90d1c8d1eb70fb7d31daf1838c3b2a7e, 0xaa63310e3dd1750735eb6082458e167b,
    0xef9a3a592be7c1395c48438765da15cb, 0xb501ae97624cf7249db58034d00cb438,
    0x5429fc8120045ea3cf19f8d296fdb0e3, 0x8dc4e7a2ccf81619ae1e42d55dd3d699,
    0x010a41d835dcefbf0876f03ee43a857f, 0xcec2ac903800c9dc173abf51e83995de,
    0xefd538b182a964f54fe93bfb41cec2f1, 0x69a58d53d7d0f126ea5b152934b5c03e,
    0xc33fcac28f23ab88a5a8ec0c17d6b409, 0x2bab2f98967e1ef7718545e4f0d5bd8c,
    0xef830e889ec8745bf8a7c29e8cf51920, 0x7e79714ed18a4d846b999e48118bcdd2,
    0x90bd7e45bdb6d4b5076c55a5af601bdf, 0x7bb12a7592b558758d0fcab72c413249,
    0x046c45bf4ee38564b14a902f6f1ec707, 0x7f02dffd6c24aa82bd063e70dd00d921,
    0x4e741cd05297979dbd67d46c31cf4b92, 0x1834e0218fd65402a86ecaaf197b03ca,
    0xd50061ee1d0a7c7c6f0f588120034f31, 0xcadcf70426e76fa1d083d5c6ec0e4af9,
    0x90f9141fe5267900d3b2f791d60a2f2d, 0xb0d899133f128ef569dfd81edf539432,
    0x5aa54387a7dcb534f24adf5367789ef6, 0x7f115a6dd3b84bd57ba19a98ed18fc9b,
    0xdf7b1e738451c27e5c8d436d2fcf1ebe, 0x47dd90ec240695a5b704d2f5b93232ed,
    0xfc6213997f1ee06bfe7358b91a27e4e8, 0x405eff5739dbb8be2bc2cb6e45ee2e2e,
    0x41c54efba21f11c24f78c91b5bc189c0, 0xc8043c11e73a21f5d447d50a8af9e307,
    0x579b2f5ff12cacf96ca8c8f88b7f8a6b, 0x7552cc4ef049fc2de38a42ae94fef886,
    0x318731ee067ff61b739f3ec2b808735a, 0x2565b64ec85e1cbeaca1c2d42fa165e8,
    0x388b31253d374a280140bb0939147dcb, 0x554022519bcff2dccf1aed8bc8106b21,
    0xa77f6ee90f1fd0b4c31ae57ed4ef3878, 0xf0dbe164f71de08a69e82cf63ab8b908,
    0x1018897da9732650089801e8b76038e6, 0xd2bc9af88039ef24cd5572e1aa541a25,
    0x1bde80792a5960609a3d0da89b6f4a34, 0x118e3a481264c048e3bf718504b448c2,
    0x3c8696931325d552eeb462a8a5a0ed6d, 0x9822279b402dcb8970c20982a069e12a,
    0x752bba020c9c2801b9b860a3cfb7817c, 0xea243d20c38a5d98e85f4be7f7d7c7e3,
    0xd07aa9c09b62f8ead706e3099957de79, 0xd91c696b15cfe0408271641a98ba4078,
    0x59bbe181cc6dc96e7d4068e34c9c7a1a, 0x7f296e4ee50b1659233cb45c6c01c2c9,
    0xc25895d3d80f4cbd0c03890e176b5f85, 0xc5161063af83dd00fe3ee97b2ffe6992,
    0xe0c85618ac42d78a23acfb1ff453f51f, 0xfb47bf5ebd5394432540b6a0432b97dc,
    0x537313bf8c046ad139197ec5d25a58fd, 0xa34cd4dd89d8beaa6bad2b97e88a1616,
    0x22f10a6167b1fcefd08c45a0e5dcd269, 0x3a14bf87f97199bcfa6f8f38e03eca49,
    0x1995018cf3f3fd35d05477910c79da5a, 0x40a64cf5ea5e98fe974e208bba4afc24,
    0x393ed2531086c1bcab4992862592bdef, 0xffeca9b3164749259b6c678f7858af98,
    0x8646e934d82491c71ec9ee587236b826, 0xe2a6f4ef0fca2e20c23d70e2d492a478,
    0xd3663d46cbedc7e1551c26fd75d42a06, 0x449c0f2256da3ad05c4efdf09f6d3155,
    0x44ce926c383d77e256aad7bcf60425d5, 0xa959c6590c4558fe75b21ba0f03fef93,
    0xec0a90ea370735505a11729a739a0345, 0x812b57caedc7ad13df71cc66b49c8d13,
    0x491787dbee39bc2d89fb9eec3b6369ea, 0xb5b1485b5ba2ca64de7559e1190e4e5c,
    0xe28d41eca1b243c42961e6e66d6c5743, 0x00184ccc05571c9367bebde0bd2c7095,
    0x033031dae867a94f02af102c10b6559a, 0xf6422d325768af97de4395544ccedfa8,
];

/// Words 1024 to 1151 of the binary expansion of 2/π.
pub const TWO_OVER_PI_8: [u128; 128] = [
    0x2564e3f1280c865b908360ca09b006ab, 0xcc49f268bda9078c0bcc48c3d958e457,
    0x7c28d1f26ab2c6f55b4a332febd1759c, 0xb9f68f0d84d2f3fbc73e0d25840dd44c,
    0x5c88c7029ef99a77808caf3141d50be4, 0x05db7ea5fb6f62e31e88a25d9c8563e7,
    0xf0abd56df2dcd8790416bb257efdae86, 0x0d7c90f1e388e48752ce9ac83c661fe5,
    0x24c600f1a3f0a9d43b3bed0fc6d70314, 0xd783b046dea8109af6f738c492a1f0eb,
    0x3325105894762f285565de7f558d8eb6, 0xb587ec1c1059b10f66d8c7ba321c79b0,
    0x198cbf2241505161ad87a559d8273482, 0x4a8f0505507d7ff7bc55888010b9ce09,
    0x37926e39950d04b7692b7cd0915f0397, 0xa2d108c1b3ebc824691863a883f27f88,
    0x66f4dd09511afa84c36c7ed0f983fb7a, 0x5e7fb12bcb29b2e7c504cf341997241b,
    0xcb7c5441382b480593b8087cd1c2154b, 0x5d31ef864118d4509b9f66dec6d984aa,
    0x79da1fc5af0728eb71af82e7b0e2c34d, 0xd310ce95b0fcab8e968010ea1367a661,
    0x23311e1fe68d61766d82b9fb7c80b3b7, 0x7a507c54699a7ef1442fc604902bb061,
    0x07f591d440db69fb6e3da730e61a26a4, 0xd0914ca42ed91e38efd4a51a7ed45fac,
    0x85c40d7141c06189aa84aaacca8d7832, 0x3314bf39e99ead44c94ed4846c38fa86,
    0xaf925b63d3b679e9e9b6b9882e59e9e9, 0xe97c98fe8f59c648c7ffc9c14ac4059e,
    0x39f9b6ff03083694ec7963444864379c, 0x15ec228076c2073f7b2aa990d64d5c2b,
    0x0707de18a474dfa80a094658f6d67eb3, 0xc45066644342ccd4b216e8aeead8e84b,
    0x89e50e3bfcfe033f386c80bc02fba793, 0xad9eb48fd7e43c7efa78074f74d3039f,
    0xcb2ac323a8975b866f2f4cc1962b0f78, 0x1f23dee15172bb291b3d8b354135c4e3,
    0x4860824dfac63589b20fb9ecf978ce26, 0x9f832a6cb734288eea9d5fd98616c559,
    0x38cbfafacf7b71598e3f0f08a9b4cb85, 0x1b2be4dc2bffad335b0b873cc434a735,
    0x490cba7b176718837b0ac387cf2b7ec9, 0x3d7e99e3951b48bd47843530ccf47793,
    0xf7626255654ff936d76fe1aa1f8a985e, 0x5b8ffcf989c497eb2fe470b75b0ddb17,
    0x5f44fc4220d61216786a9bec61296c2f, 0x65c22b86a6dc5bea9013db0554d412f7,
    0x803a0d481b03f0db9083880860e334e1, 0x77a0021e6e33fb1442ae66a0206243be,
    0x88d5dae1437f5dbf88707f3a05fb177a, 0xa537eb042595ddcbcb9abf0ea11c7b13,
    0xb8e4ab06ff004bc92903c16aa2fe23ac, 0x2c5b3899431a5c21536b3999d385dc21,
    0x2e0435ec710ceff62172b068b3ca6fa1, 0x0a9b8f0e8011b4a74a9776de76f8ed30,
    0x1feff8a04fbd776598d93db79169e5b0, 0x66f767fdb727e84c6b0f102c1bc6cc82,
    0x255b76528e591c212551800e11754981, 0x2d454c90bf33d00e55614b1d0e10464d,
    0xe8b33f141598e171cc4a0f2fe4d35897, 0xa046cc4e6a78aadba3c4e91bb8e9eb6b,
    0xb2cd034d4e6a8656f6732bdcc3003b9e, 0xb98495ba8b9728cd25efe4b93839d564,
    0xb86ae451785da2885ade4d23437509ff, 0xc13f52e9e59537c1a05f26ed167622b3,
    0xbe1634de7f11b760414da3cd0e8f5339, 0x9d5427181a89420f6fb6001d786482a3,
    0x033a3fddc440b04a5af87329d36a6830, 0x0b2691b582ff40abe4b16836f41e524e,
    0xb8842dc7438b846c01c315a48a56439b, 0xc46bb7172d4186f7bbd1b084a6659502,
    0x4f68ff004cee839b5ea9856602fe241e, 0xa987b550a14aaf7dcbb383807269360d,
    0x0d1b736ad601e27031e1c2aaa1f30ef9, 0x5e4e644ff19930776a6476a3eba7e63b,
    0x0d88f5c35974dc5f7e91e0d48d9890db, 0xdff7f133c8794abfdd6ca63c61de538b,
    0xbcec7e4cc497a0c2f7f3665c74ef453b, 0x4a863b4500f92d372821c85406c99c64,
    0x890768592c837ec8c462de0460ae98b5, 0xc36ab1d63ee9918aa356b6d0977b0bfa,
    0x41cca8148cb3202f1db9f5422d508cb6, 0xfaa7bf4cf5492ce763d58ebcf3e0b6f0,
    0x5ff693496d4d00d6c2f84f6ef67cb640, 0x6909cfd78eba4b7cd30598e82ac8e0b3,
    0x0fea6e105f1780c3660a6e1988b69340, 0xdd6d3d2eccc5e1d7630c2f11c0c38256,
    0x22aaed5f88ff84e80b8d8f4c1422f0e4, 0xc4f08723b537f4f43a76fcccfcc40bdd,
    0x2f211995ca01ba80cb4f07e1254e3fd8, 0xad3dbab054a45a4d0d490c4f8a343f05,
    0x9b31e6511fb79b896b3e272088285fbe, 0xff810bc59a40edbbdc2d4012551b46d2,
    0xce69920eb1ed5a684b48704d397727f6, 0x8c26c6ba20c95271b1ef682c66ae07cb,
    0x638af592f3496ce9435d27a28bba667a, 0xcea16d16acb51f2a9ef8387e7689a1a0,
    0x3503b8a82e792a0dc95e3cd5bd356922, 0x434aa43f33de9f2cef85173daef53496,
    0x38c244841ee389e5cbbef43f566b68dd, 0x973015f3037cf98a5dd9f3179a2cb27b,
    0x03169b52aeee2ac6d22e458dab9c7235, 0xd9b48c82e870f7c7340922dedcb65bf9,
    0xf0d532f4925d67e7bdbc9d8cf72b8b06, 0x8dc2c50a6ff2bf75c2aaa065661bfbed,
    0x9fda07328095289946bc32bf790bb79d, 0xdecf794c9f8c037d816b8ef65a36a6d9,
    0x3d4b93392caf35a0c3445849d9615532, 0x6b48e0dd3637c3895e055a4626ca29e9,
    0x817013fc6e36cacadf316684b6d8ddd8, 0x4b59ab03eea0b673e5d4e280bebb9e9e,
    0xf5a141fa1532738573617e409ff83f09, 0x78f037655c1943ef0660adbd0554bbca,
    0x954291c37163a2477b504b847ce8a9f8, 0xaa9b906338b3cc8ad99d204827e3db04,
    0x1f506b356eb4f1b2c451da8facac95e8, 0x092d926a43b18fe96718f876396fb66c,
    0xc6f3cb138c09c89be0a1ca65894612dd, 0x873272635726cc909b2d98959697ae00,
    0x9f4f5b762029bb1ec6460e56575a18db, 0xe2768d8fe6d6483938442fddf7617c4e,
    0x0e0c5ef618a41c60db9af8b10cedfea2, 0xbb2e7e8bd7f0493098085707d88130fe,
    0x9b819e8ffe4f439812f1f338416eb039, 0x83770ee27a9b78a208ebd462a1ef5ff6,
    0x960a2d4fd5d609f72fa7f46b19a6cb6c, 0x84780a4e0837d011871dcb1ba737b9c7,
];

/// Words 1152 to 1279 of the binary expansion of 2/π.
pub const TWO_OVER_PI_9: [u128; 128] = [
    0xb4826ebe3de4eb49984f685799f70950, 0x770e2d446396777f5dd42fdb52826e67,
    0x6b5e94e28a0ebeb8da8282889d5f4a94, 0x64a2acf16d98ea6a449c5cb6c3705fa9,
    0x6f5761fc928c686f5dab8bcbbda92c78, 0xe358b41cf9c448df655e200258e4d2ad,
    0x85499cddaccc9bd7bc5e5e1d27da6e59, 0xb1131c31ca4e0f7dbac074a8d76afb39,
    0x8cfd6100810d1381c7f0eb620e704dbc, 0xd8dddcb4383aab02a63af122ea47e064,
    0xb58bcc111ceeefd09c11e8eac321b34d, 0xfff53df6c03fbe50e5dc497fe32cd0bc,
    0x9f4abde31ec6d4734081628614d83bbe, 0xfdcc700554f13f726423b5d9be4400bd,
    0x74d963b4627c32690b9065f408ae3547, 0x5f99527360988f929ecdc297b8bcdf72,
    0x384ae04a6b31f3fa4119e31e5c28dc23, 0x486ea22412a7c49c766cf1f4a5540cd6,
    0x192b0344ed07454c059659891c6f3838, 0x6c6dd5f009ad857c409a6f9864f1fe04,
    0xc4f6b3996897306989d56789620d7d42, 0x4e2b2bf08a15988b2e59da2574c9787f,
    0x9cec299c37826fbf8e75c83845d7326e, 0x0e65ffbda7ce502639234e2d9d9b2464,
    0x613f435bca7d52a397deb1c66a43e64f, 0x6a2a8ad9ed402c650ac6033511316c03,
    0x5e519425811895eff38405b4244847ed, 0x5bae73bb8c5674bba07edda58a338c1a,
    0xa3f05fe7d88792d6a714582c8e4c59e9, 0xb0456bb520c99ba3a07165d700d414f5,
    0x2c55d989945162a7e351b917582b7ddf, 0x2034e095e3d0d119ef9b347bd074df02,
    0xcf633a74a549c5564d3a3aa204bc051c, 0xe8838535b96477dc37c702235dbf5e06,
    0x3aff42273d2de47513bfe1d3448c2424, 0x4c0f55e7ad39a6392e95c1522dfac4fb,
    0x24109302b9308354ae6f68bff477a3d3, 0x632191e61a7179eedba84f27295283fd,
    0x255276b85b5f6ad19804742b73007c7b, 0x6c1bfc759927369fd8d8b519a16ac6e0,
    0x169d3d2c8201cf9720a764a2e7b85705, 0x03b73cb13b0f5eab90adf4094f75de71,
    0x34a44ecba1a0e9b4e0c096fb3a4b9c4a, 0x328b0cb47a54adfa3c61b0d59c8acc86,
    0x7f9f33afb9fb192f667e06e6f9c6ac22, 0x7363edbff8762f09017811a9ed49f982,
    0xa6b99d763bfeed20c92fbdae87c5562a, 0x9da181cb695c4bbf3f2c7e7b7319e908,
    0x6c1421003861bc9f780248172bba3aec, 0xcac28d4c9d046904a71d709983cf5839,
    0x2616c3cb18e322888b5a1d55d7448482, 0x63f8cdf51421f310c39d81b976c3fdb6,
    0x35dc5e92564eb72240a7c1afb4112917, 0xea6e63934d88b07d314a848399d7057c,
    0x64f0a7efd234a752c2545b152196fe80, 0xaa722ee0f88f2519bdfaff5ce9816c32,
    0x7242b60f2f8f839c6c667bc3251213c0, 0x69f74c019e26aee904603fc894cd3385,
    0x922ca7536c7c9b1c0529420ac0728d98, 0xe73f0f0ff2c0ee401c01a9d7d31eb940,
    0xb90f0993dd38d0a9abff95a797cb2e82, 0x8ec4d4f037844995069a110a41ce082b,
    0xab9410920ade58e98cb7843931d646ef, 0x83043db68885dc8e6aaa4bc1f49c42b5,
    0xf3ed808c53c388bcf436d9db02aa25d2, 0xd959e4aae57ff218993801cb03c227b6,
    0xb7bb38cffe2c290293f67a814050b96b, 0xa178aa03b0621077ae961262565404b5,
    0x2a226d76f03d921c9c95bacc594c7a3d, 0x006d72d804a8162978d09e9d5c52e834,
    0xf412c70eddde8c8d807c51f1913d5da5, 0x109722012aa3b97aed7cc815c23327d7,
    0xbdfdaca7d83a6ca00b3cb85ab1126700, 0x8643467320b8a2e49951d80d9f326b65,
    0x1804b81a42aa169e5367ee56322f04cf, 0x62c7ed7f3a149cda90f65096f30a69c5,
    0xd7b63aab409c4e15e38f24f305037ff4, 0xc13a2c5dbe0f7c6f29a7617f864d5cef,
    0x8ee094c09ac20f0714235baba2757168, 0x9e19980b415fadceef27b29e41cd8e9f,
    0x04fe8949eeca80282359b4af4addbf3f, 0x4f6c689e423c0f141a0d35c9777ad185,
    0xf3b2217c42107d5fc1ce3bfc2a2cec3a, 0xa79f71ebb2b281c014586c9e234831d3,
    0x0fdde54e55a9df9f1babccf084e093a8, 0xf84d9e186783e8986a731f1dcf15ef40,
    0xd5cab65e6819017719a95088bd883cbb, 0xb22405372a4bc940059dcd96ebddc9a7,
    0x4c6a284a0efaf5b4b1ab2ed0b5e80023, 0x418ee8d3bf075769a97766fb9145359e,
    0x3e049df47e1798fd74e8e744b0813735, 0xa5aabec71033e8223f4cf84795845dd7,
    0x331fe82db4c1b2d7573c14f4bef1c73a, 0xfee58fcd04dadccf62ec8254a3396bfe,
    0xf44a39413c8e25bed87262af24ddef14, 0x09ce5075ee707566971fedfa2441f0b6,
    0x21ac843aaff4df91408937dc1bf1cb45, 0x2428420cc6229dba1f0f022323b21bd1,
    0x61c7b44ab4ef1160cfd4aee13702072c, 0xecc2a4e6760704ee55d94497fbf05a24,
    0x8e0ca7670b9ac77894d3c8a89eab431a, 0xf44357078060f37b8d89293ef5679fba,
    0xb87a6f2fbf3359d2eb7f2a0e14ad7612, 0x18ad3b5a0f907d94bc63a192f0761b02,
    0xdce45452f4542ce1cc78b97366dae511, 0xc96c0167e31157eb2f695e07a4a92f05,
    0x9dd35ea5ece5ea96e9f6c7e73aaca203, 0x83408a170b78a67ceb154c38d2346332,
    0xcc20823d7c65304adac6e88fcd5eb0ed, 0xe8fe6624fc4707b33a12c1caeb294acd,
    0xd2e402bfd03dde913a5a5d91b4ef6fd8, 0x86bc1c64e7a897168f30688ecde219ef,
    0x41fc27cbfcfca48cafdda2e1df3bf697, 0x3ea3576846b906a430d371221cee9ae1,
    0xe028a550d615cc01aa2cc6e4550998b8, 0x068c77b5bf2038d7b58e96531844737f,
    0xbc0a4b50b96df665808acd79d7776eb1, 0xc680b6543e52affb0da0fda0226d6a41,
    0x16198e78a666a9ddd65a22c99f7c6b0f, 0xfc87964c29f3cca6c33de40563eec130,
    0x84ee8d6cb1615fb6115c11767a8ac94f, 0x18d9d39941cd11e21e0d6246532f322e,
    0xf587cdff97efbe9c939a8a4307c9e0c8, 0xf935f078c6bf24403603b0efa8066290,
    0x5487cb2da6e7fc333685c58ab29a962c, 0x6a62caf725d63eb3b938d7862493949b,
    0x1b6893976cd00b519aa0385cf34b6fc7, 0xb25eb84be898f61f0d46835fcc881d44,
];

/// Words 1280 to 1407 of the binary expansion of 2/π.
pub const TWO_OVER_PI_10: [u128; 128] = [
    0x15f0cbd861848a996890f9b551aae053, 0x0cf5beb766a25cb21bb6885799c7dcdd,
    0x57fedc8fbe063b21b521ef5be74cd075, 0x19f6969accd8206c402068eefa66c426,
    0x68e6fcc24878d987a2b6bd926f4023fe, 0x8ceac42f24d35ee611721a0e27aa09a8,
    0x594e669a1104c8bf718d6c4f76bf3513, 0x3a673e77ffe5868f72bdac5e871b25c9,
    0xeb9f48e1755e81a26b6cfbb7f21ac2b0, 0xda577c615ba37e8869477231d207f5ad,
    0xbdf3c48711ecbc316c3341b7d9b377ce, 0xdb92ff5824366568e1d2af4f8d040613,
    0x6b662a4bd31dd3677e34b85abe78dcaa, 0xe80108850c231e2269c2c2bf753e0c6f,
    0x41189b13e320b87e17f9eb5284b79fe6, 0x22bd020e20c73d1f06141e4a40de8a8d,
    0x665dc0bcd5d06643d7e3769f5591b14d, 0x8fa3d8e7223586cc0788fb566276afe8,
    0xb7f120f9d92bdf4edd10a3b6f941619f, 0x7c23399a066aa57b2b6531e29fd19612,
    0x17543b4ca9d6a4a933c90c8dbe8bc026, 0x40e7d00ec3be2554d353e83b3eda4045,
    0x68c5d6d0c9f750af297cffe71281712a, 0x2e2f01eed1482dcc9cb5f3d7baedcc53,
    0x8ff68b60f5d791e4d855283d6c113ce2, 0x7a3532d60f5ebfd20297afa0beff58b6,
    0x202558f312409d91b9cc80f6b443d00c, 0x17e0e55468709a5f8d5c6b68094b1e14,
    0x9da6982e9ae092c5252b4df664e1621b, 0xd04f5fdd7f962c70f9031d88d997d3ea,
    0xc9bb68f2981c920c179b46c4fe75bdb6, 0x96edda95cfcc9652402f8ee1327bbc76,
    0x46a5847c9837fdf285a72549915ce5e5, 0x3d56961d61b4d18d75da8e1f0394b649,
    0x53a672c5d466ed595a58f2030e1cc033, 0x0dbd2d24484720787f3181ae7dbd8076,
    0x3176a72b8bf22feaecad00e1124d2917, 0xfafd47bb2c2c860df82832c8719f2abf,
    0x5ab369d7535c73de66d71c29cd1a9f28, 0xa76bb1b2864854c9a0500889d6e89012,
    0xc867e2885a5be9937aa1e6d2db6b339c, 0xac1d927eca2d78f5d6178d118f1e7857,
    0x7c26e686ba75bf2d71048495efe8c077, 0xa6c070c94b2fadb0831ca7391027149c,
    0x4f0ac0c0885eb2951d6441911cd8f48a, 0xec4ce21215e612088b56e4b13bcb3e45,
    0xdeee9f9d7508ad7b4211a25d16dd0424, 0x84bf38bc3601e003fbbf686470509ca9,
    0x0f618d5e6b5ef2626562b7c9c3ebeef4, 0x20f893dce332ea51f81ac171655b8b3b,
    0x07d7190c5ef50f5040ccfe4aa5c9df5d, 0xf567a32d8b25994194dd6ccea2f21da2,
    0x570df3b80bd69b738b7edd58479fc8e5, 0xb32e657b1e97a1cf5ca9731fd4aaaeb7,
    0x05ca93db135a15f88886c6c99e910009, 0x2bbfe1ee19c86fa97f2a8b0b098a4689,
    0x5ea48fa323268c53b55d28f7c0c00df6, 0xfc3c89ebc2d0ac34527c63e43369e91a,
    0x1705dd935103988a792b6ea70d69dd0f, 0xb5c77ed3fccdb1cc3656e6bbf1d80851,
    0x1faa0988309386c6122c3b218814816f, 0xd9af2625cb094888263ad6e8a4ab346f,
    0x19091e728f20ad7b91735c09e5a80f97, 0x5db359a39dbe85bc927b801adb8ad2c1,
    0x5355403bea3eff4494ae550506fdd362, 0xfe56dac76f138d897ac1921e06311ef8,
    0x8eed6dfc596fe59f295c0c72ecae4271, 0x80dd00cd18b93825803c5c5963db43bf,
    0x62feba1a3fae076350dce22ac05c08dc, 0x3d7e7f516a65e241405ddced4d4ab022,
    0x42f3ac9178d0e989d5655c6d3304e937, 0x9b5242460cb914f47d59fabc01e8ebd9,
    0xab33216453318a393500f1a5e6633eb1, 0xdeb67a4a72ab53c387ba4d5dbfe5d5c2,
    0x36e36f62ef313f254fa22ebbbd0c9795, 0x0de371286ddf6c403b1acb4ea1f7417a,
    0x297ae39fbafd57e7ffbc12a4309043cc, 0xeb9b7748d5e5791cda527a3a2d6a906b,
    0x0564c0c19cc05054b6f0bfd637233ad2, 0xf9adc3b9e1fba21de483c064fb35a0c5,
    0xe80336934c65aede0a804d97e997662d, 0x612723464ab79e4ff33523cf36d6015b,
    0x8abd85ca9c28ab07a8fa686828d7de9c, 0x9ffb4710c234c96798bfdff87d82b4ea,
    0x635aef235cd23ad342b714a282803d97, 0xc166d10960a0a9a13450681042408659,
    0xa086f224f3cb381a45120dee824f3194, 0x1fe004a958a4f20fe32329b6cd2664a8,
    0x20ec8ab9797520b552c88f4e299493c8, 0x0f68aebbee82dce9039b4b417a2e054f,
    0x007873b5f753ef2d35bfa3cdcfd1729d, 0xc3e2b5f844f77b654f2a2b2f9d3d65c0,
    0xefb1d56aa00be4b727f39532b6562c0e, 0x5b65210c7f21e56683407927a2e4994a,
    0xbdc70ad19c4a3fc6fdb861eec28dff42, 0x860fc47cce7e3a5be4c5da6a966a7d6a,
    0x2c939c9ee1deb09861816cc255cdaf37, 0x2daf1d1bbf6df345e1333772f824addc,
    0x08c3a7e67d9f3ded5a108ae98edae9f6, 0x437c8bbf3e7bdd174963912765da3215,
    0xe69303a0055b6be6129199d06c2fa298, 0x19c106af1a4d507b8aa612c0e5f4d77a,
    0xa4aaf420fca761d69e2814359f69d658, 0xe88e023c9191bbdd33fb368a2366b217,
    0x4e4cf3f01ee97ac87a51ecff301f3163, 0xabb9a2eb1fb3857a49d1f1e22827ea8e,
    0xa802840fbe830331471bb7fb21ab2e93, 0x72823a17375b1796f9a1ba5fa21c2fdb,
    0x3ff74a2f8b07f873a6e6a188624b736e, 0xeaa59a30094ed69d47d064709c9dd359,
    0x915941599630ae8840032fd5fac3bb3a, 0x189565ac3936833d56af1b441ce1488d,
    0x7488f122ea76b1c444b3ffb2fd00bf8c, 0xe08aaa7520a31ed780a7d2394c3f0790,
    0xa4c0372058b6cb2e9739f1799144b3e4, 0x252a4bc15c287845f380dbfad21b051c,
    0x96768657a10c8b169b596283f6316227, 0x312d474413ed27729a15476dc2b601e4,
    0x7e7a04a504066a38c4a7229df10192bf, 0x5317d123c25a1d84f958a6a0ea182fc5,
    0x25b54d4fc0c6a0872ab02395c2725879, 0xda9bfd0d9cfeb7f379a3677c92f7f8b7,
    0xa7e5a1fbe316ad2c21a40c5fda3c22ae, 0xe2e3a6984cfe9636fd3a80425787370e,
    0x6441b66f6ced8ab87447563655ccbc1c, 0x0d1715998a398005dd020ec9328597d0,
    0x87f9a32f67a78387c1576ca854bc32f1, 0x174866448266a1775a38e3391315298d,
];

/// Words 1408 to 1535 of the binary expansion of 2/π.
pub const TWO_OVER_PI_11: [u128; 128] = [
    0xa79a6773157e35806865f68e490a581d, 0xdc9bc87a03566c1cc6d377258f039b43,
    0xd64f9dab03fb69b38ffdd377ff7b58d4, 0xbb9d2d9186b6f6651031b7f1048e4366,
    0x60797b7933ad8a09dffd1a332540f1d4, 0x98b7ab508602dd554413826bb6c9836d,
    0xeaa2dbeaec2ae499f634156cdf8de48f, 0x4eee03ae3616a55b81810586985d65a8,
    0xe1df79a74275fb95264ae473878376a1, 0x15da638de74e0f374d51db2c60b7cb38,
    0x54cf0ecbdd47338ee6a6ab1e9aab38e3, 0xd0200a144c4dcb1015a2a51c0a213d9e,
    0xa442e236c8a39fcac925049c06774f0b, 0x5597021585a3d5c8b4a8f34fc4ca310d,
    0xbfcbda1d61a02cfd4d364fb7270947b9, 0x5c90aed62074d6c83491dc5cf1b2f90b,
    0x7ed35bf4278fc3594437059259a3beab, 0x05302a2220738be207c782f65e503d72,
    0x0951911c835e5108ab68879fc5745c2c, 0x0f7eb479ce965fa869debe6714aa7c64,
    0x92b90de460c2b0e01937fad2f4366d15, 0x5535cc1d9be95b6dc3e190e3dc72b159,
    0x548dec59a518349918cf9e8e5f728a86, 0xd2005d0e27f14c6b5416095b3dc83e50,
    0x69d1fa1256df598e8bbda67d6bd26dfc, 0xd76c2ce884168c80244ea6e82810e13a,
    0xa1d88f92b5155046e4c11a395a2df9f4, 0x8665a612b9b7f4f09a5b73dfa61244d8,
    0xd6a537aa80f1464aa354389cc40a8649, 0x2f4c13067ea627453bc3da29c1d69c48,
    0xc8fc680466d394d687fbffb59e570d02, 0x68d3a2795d4a3c8398b1cc27da0a33b7,
    0x85d047bef92c2a7b966c541677ac3775, 0x757460a8ae5a416ca710d7da7aa27162,
    0x1cb2fe1db865ec82948dbe4253b64d93, 0xd7d162f5c342da04e183102076e1973e,
    0x5d9323a114c33468da0efe79a8b53a70, 0x8bcf51166609bc4ce750fbe8be7855cc,
    0xbb18ab8fbe5760315c8a950772bda9eb, 0xb4969758970e8e7798740aac7c616e4b,
    0xb25bd360e223243aecc7d5722da1d9cb, 0xfa221b5c00d2c4cd2a61939949acfc9f,
    0x036fe7cf3b4ff1f1ee18febcd42a9366, 0x387f4b5fd4f366b22491d54c1ad51bd1,
    0x5d6bbcb7b0637a1d5049c830a8f786dd, 0x8406ae63a46245ece340e596508bbbc7,
    0x5485726065cac3abf50a9af59c4ec014, 0xa926049b993060ecb7326735232e3bcc,
    0x5fd23f71c7b49a47b5c11de4ed3312d1, 0xc0b09b557fda9029b48658edeba40dad,
    0x6b88e1c8a088f4a4e3a0a6347c99d063, 0xfdb5473632af26245a4e5b13f56251e3,
    0x750808e5cf5bbce012282752d91c8e15, 0x6be41aac4569477c7e860e5aa0faa804,
    0xe861cd9b33aa2e76ad10767da3a685b1, 0x67850e99911572cd4de24c05e60fd337,
    0x0fe2619539440e0fbd9b86bf91ceb0d4, 0xe1218091f41a9ac9bca1dec389260269,
    0xaa6457d308d8600d373ce669a8d607c2, 0x7a497d911d96cdbee129304cf54b9663,
    0x2accb565fb99af854ec3f2783356d439, 0xd0651cf080f1c989f8b53bec75ca7223,
    0x4aa7551b9100972afdab363546c8944e, 0x77c3595fe09b2c7fb9a7ada0c21115e1,
    0x3ef2d00c09cdedb4fc1dee4cfc0d5969, 0xdb9fe3672e9a4b42b195a920ccf935de,
    0x0a263324c04386b8786e7b921eb721a0, 0x3b6f27ed8e51ca31d7b3adc550f438b4,
    0x310397984835842e62cad349c8ad91ee, 0x8add4607a325dc571d8c3442eb12f7e3,
    0xb4bb031e3b7a4ef9088fc1b633b03aa1, 0xd10a7c7eb6eca531e99dc35bb81d1c61,
    0x124e315f3c9937196d3632b11d018a83, 0x48d5ee496dc7f7084285b370bc05d9eb,
    0x3f5f55a14afe79120d48c73b9cc9f9a4, 0x06b5c822c10050685f27ca91526d3345,
    0x1fbd6ddcb9f0dc7d4822df3298a45be4, 0x3c9de882d7c3ec1a6c050a2740712899,
    0xc94d80e612202e4327e02a7b928aec48, 0xe95cbf3aa94e7ad350c9e539f54e3f0e,
    0xf7bb395351914fb109a3fc94f7121cec, 0x5de4ca90666b4272a59268ae9cef95a9,
    0x8ba75abc4688db1e64fa8deba2cef548, 0xf2043039d391d5c64fc2a65cbc554571,
    0x2954cf7ba79667cc918c452b125ea153, 0x978a6dffac9460d2a7416d7637c1e296,
    0x6e5c918a932853f46bc2055365eebe87, 0xbe59ee5f7fed82692a4e0971d34b7914,
    0x8fc3ab46a34c151c37e6f883a164bf86, 0xce35681f3dfb6f3509b01384ec21fda8,
    0x0d0d4fe3994fbde497dc1cc062381184, 0x26d355bdc0842e37d2426bf9560be379,
    0xfbf7e3b78181d88f363034e5cdad9f28, 0xc759766410c1500458ee77ed1c9fb276,
    0x4859527765960cc2274ebef7e8209b7c, 0x7062ffbc5346f68838208b8328760bfa,
    0x1c9b8cf756501991c6b870e476696f35, 0x396b22284624a1fc449ea4a95656db83,
    0x613c01ea585f20c3a6c840a7ffed54e0, 0x67e74fd1351fe3ef07abd1e0711f24c1,
    0xadf2f384fa4bcc97690627a475e97fc2, 0xed07c00d558bd4ba18c395df4333a13e,
    0xfafdb0f3dab30b81d7dacb2c4af2a3bd, 0x405efc69176ac0e81092718e4307df73,
    0xe9164308a4667132de027fca9b786e50, 0xca124c6fc19a1ed8d5378ec73dab9f1f,
    0x03efcb8cd543f78bd3f28366c674da89, 0x0edcae18ef8f1a90dc19bf61a0b8fd05,
    0x4759db22b2df3b2b528fc8b498ace20b, 0x0fed59fdaceb988ea3a2926171cc09f5,
    0x7a5afc518de987b10b8112b3f9ba67aa, 0x3d876c594bb861fd4e7b83803bbe6b90,
    0xfa4e2d77386329a1bd76c76764e94788, 0x82afebeb841d63e25da8f9c83faf097c,
    0x5d35a25589c77bb38d9fd2d389979223, 0x703a2962af0aebf0bb99d0c29a9eb7c0,
    0x751a8927ea3ffd7a14f5e83803f65abe, 0xa6eb91343f4d6f55474e3ca4b00007d5,
    0x2105350fff3fc99bc32a5ca87f55fceb, 0x7b989e1b3ceb678fc48f3f5c95863834,
    0xd59b98609e99a101a9965d7e0c550606, 0x470c8cecb63fb557057d8badec7e4657,
    0xaeea9026e7276660a9eebb0d80da8b19, 0x6f5a458e59dea2cdd7098d89d3451b3a,
    0x54a3c2b673bef48ec5b9361aede2e6b6, 0xf1eb7150df01ce756bf95831cee3c740,
    0x385e12b8fa5fdb6aacf34a24dcd2bac2, 0x680a8c431b8e34ad17359898b8392be8,
];

/// Words 1536 to 1663 of the binary expansion of 2/π.
pub const TWO_OVER_PI_12: [u128; 128] = [
    0xc1018f789d3c6b12702bd6e4e0d8b50b, 0x64f7cb054115a73ebf7671362b61b376,
    0x7e4549f5c8c7171a256bf9ea6c36ba32, 0xefa48cf56bfc7a4366da1cb352a27b6f,
    0xcf015dea0d5230e7796f17b7d83e90e6, 0x4f1013056caba7c6a358c1ac9bd385c9,
    0xfa335a108bc2aae2b911ca7806068c36, 0xad793a1a66960b7feff417db65c4f138,
    0x6c351f920a6695fdc470c84630b5ffb8, 0x8420016c89fc3b83a8660fba9f4951de,
    0x5b61a3aeb904c0ce43d7dfb1414d69c5, 0x198baeef2b6e6849e4fb39a82c7640dd,
    0x8c2ade8731387858369582e38f472976, 0xb7353dd51d8d55847b221d899b295586,
    0x8d8cc4805b25c05a1afb6d0a22fc8dfd, 0x1293dce69c650e32bdd80358c6162e56,
    0x841ebe44367a96bef15812d05b3e61e0, 0x0d3e4fccb3c0471e8cd77f1242af505f,
    0x1cdaecb01c993e04111c3ffefe9b1f78, 0x92cc7db12ca9467e17fb20f22d719877,
    0x4cd6acd2ab254a244f420e400a32732b, 0x77d483757c4615e6574a3f9d63b489b9,
    0x52d5224b291c5629d45776647591a334, 0xd46f85999767faa3a28a7de24d853d92,
    0x40f52a5e144321c5ff067ef43be40417, 0x9a3376666a2319bc85d0f8c0ad758936,
    0x2e9e95128cdfdc5704a2213e1a7d23ad, 0xf71e8c95f0d396a686a40a4d5f62aa3d,
    0x0d1e39617a8c730be42e52690865f6ec, 0xec660100995edc71e47ce5ef3c8e27c0,
    0xa7f6f68a9bac36877b00b64933d3bbd1, 0x8d7af1f5f68f7d891eb2cc56f3ee49e9,
    0x744fe91b5a3c5e84ece672707f17dc7c, 0xae0cda0493e20765eb27fed19308920b,
    0x84fe262fafa160ca5a3587e81b029fad, 0xfdd74b92c9a9ce0019f601e3fa37ee39,
    0x079edf5fb636c2aa6e8581b16b113e88, 0xe85f20731e17b81bed1dfb486cef2bb5,
    0x9f8b6560b7d2b1eb9d0665366d45bb33, 0x736ec259cf1185a89657d0e9d3405400,
    0x41fe2ad876b34f3ac86708ac858da698, 0xa979ff069f91d401e0f0c7ea0524a607,
    0x1cfa3e7e8d21aeb99872d38a4f3861d1, 0x49b5b7325a989e771c07f8aa9a47d0ca,
    0xa3cb37c902756a4ad19e3914999fb53f, 0x1213fbfb0d6bfb3544f5326bb4ffd640,
    0xae4776a89988f4f384600b51b07cf7f6, 0xd94697bb4ed906c08aae1c8ca64fda20,
    0xda846f0f03c294ad8323b17ecb83d11e, 0x7b337883293391337c6cc75c52957708,
    0x7a64a158edac49f8e78db99f7a5faebd, 0x864ac7b38525c27018d8fb79a1b7ba3e,
    0x8f5d25af6b3c471f2e469a394e927a77, 0x4bab6c175cbc708a1d2e30630814a127,
    0x44a6736a2f637d4de357393308623725, 0x52957db843dd4bc90b1be8f793b5acdd,
    0x75b44e7a73cdf366c23d767cec5e4eab, 0x22f29c2fcbf23fdecdf9229424230c02,
    0x6ce11bb5e8b15c2f28b2f79dc33806bd, 0x31b7592a155b7aa74dd5e4083007edcf,
    0x60d267159d1c6a681d6b0c22ca935262, 0xc2287e3665cab9821d29af357abdb726,
    0xb17d151d784ab7c3193673a4cc0f66dc, 0x862e25af22d168d28bf5f3c856bb84ab,
    0x52e4e08acaa54638abd77fccc0d8e79e, 0xe1d15150afb7681710dfd4d85a1612cb,
    0x0ba62e344e77ca3e6d9ab16269bcbf84, 0x4dd6387d2282dbb1af4c8a9719f1ae6e,
    0xb5eaf541a09654ad1fccaa4fdb4e35a4, 0x3efa36653d150b9b22485459f435090f,
    0x4016043a2a68d2e1a78e8ee7d398f783, 0x4800dbf7571d9ab5900ea0473ac412ee,
    0xe9880a5671747c099c3b76fc6a90fd1d, 0x76876bbc669cc2724407e9649ae59d20,
    0x7f36a883588ed7f8c1dd4948e3ccf815, 0xd17ebc0471bc8237f47ccb9251c46571,
    0x221ea09d93348c0bf597369a5188646f, 0x626fcd0a8f54a9556b02b4a998fe4333,
    0x7b2eac16b08b7a55347a48d59567dc84, 0x928b98847990e3d00ac6b7d22752ab4a,
    0xb9a4c100e81a0093a276de8fe7d296c8, 0x38548f78cd0e3667301f27a39bc31f27,
    0x1e9d45a638849a718da00175174c72b6, 0x9879053a3ebcca14a2a8b1eb20589607,
    0xe578c30e1ce52ce97070eed064deb923, 0xa51d97686fcbf94b089f422579ba7064,
    0xe3c1a0e90b8e7f999d037f269ff09574, 0x2bfc77c0e2e79663c1729181ffa7eb79,
    0x2ddf39a9ad8ba0702ff4e29f108b8382, 0x827be0b2fe3656ee862aed649f3c6a64,
    0x908c2d34d56d80cdb941e3447f6e6709, 0xa0cc39119b31cfa422d2491230d2a982,
    0x863a4fb2eaea1dc2a583669ed3204198, 0x4b1b53f40081ee5e652334789f4ed5ee,
    0xfea6c7605365f68ed768b1c7df49edb2, 0x2f26bfdf2089ab3e64e1c7427d41482f,
    0x9f10402f7786df097f250b099ada7d37, 0x43679789e09c25b96310a638f2c44214,
    0x6b836e5ba0cf8e6ced69589e29dcf17a, 0x5942c49a9b724b3cbdd04db9eed3105c,
    0x0b9380091067c9e359243f7345f15791, 0x771408a6211d1e9e456c69e04a841a15,
    0x0fd946d1f0200260302bb52353a9ffdb, 0x49ffecf195ae964e1be7d2be6d3ab22d,
    0x4809dfd8fa0214734a9700d16768019f, 0x7ba19e13e4f9cc7755e5f587f728d026,
    0x1fe037c39cef443e836934803b201a44, 0xc9de1f9b2a228a444e79aeaf5e135751,
    0xca0ca80e9f77a9067788215eeabc2efa, 0xd3886c6c942a5c02c5b65f256533da0f,
    0x5b8294ad491c20220d99c86f60b8efb0, 0x91e6bfeee341f6e1087f14c1f2382fee,
    0x0537c6e0871575bb69fd4f64e037bfa6, 0xeea6c7448452b00b51bd0cf5e9b21d73,
    0x6329bf4c78dd1051dae22b2d6dbdfd4b, 0x07a7f1c1a1a456cde2223c7d55d50979,
    0xd1d27ffcc49928edce943c7ff7369305, 0x99b355962f1740c6e304df55728c4c46,
    0x5957339867ac914c7a11bc0873786a18, 0x459a2d39aa25c2578d3df0eddf7053a7,
    0xe48c7f6606a079c47fad44e8fd4fa240, 0x86f25a720640967f620fd3c2b26c6fb8,
    0x4c693c87f957efc9c98face71aa8c0a9, 0xe50b58896f3bd8082853dead3e38881d,
    0x3e6e77cbb6e17d4f64ccd2e69a33e123, 0xc79a0eb108c6ff121f0a83d2bad76f24,
    0x48a979a46fd83e80eb426d76a3e781c3, 0x8191f8f07a6d13a405dbd01174a76e84,
];

/// Words 1664 to 1791 of the binary expansion of 2/π.
pub const TWO_OVER_PI_13: [u128; 128] = [
    0x06832344d838f0f63157c8b895098b5f, 0xcabd514914ee999f0f0fad9a8dec908f,
    0xecd48ea7b949d520d5a0f6e41cc10083, 0x59ba1b31452be8015eca2000698d7b64,
    0x3ec631fda375aea1bf40b40497a46df9, 0x2daa4412d0ea615ad9a097c0e9526048,
    0x814b6aead23474ac7dcfd32ded9822fe, 0x54bb4278d5d972b7ded7a2f162eebdfc,
    0xb801581f1b1ac13bfdad8877b3b4d790, 0x00ef0ba68c6338cdb26cab55a7197c9f,
    0xcfa9a4805ccf5302eeca980262ee5d36, 0x074102a87ba865e4d2d0c1fad7df9b58,
    0x2913b621431364a8b5af71332433fda3, 0xccbde3fd5928d72f843f410b23c2cf68,
    0x1311dd7e52cc6012c86f181276b9dcf0, 0x610e50fecf27d20efd6fbdc79768cf52,
    0x4f1f32a1ea9a22fcd0c38753c83b1bcf, 0x1c4b209b5fafc1eb6ca7d55a9b8d2a48,
    0x6b6bed9211a2791ec61d0ed4341c8ef0, 0xae33f16cc3228ad27620c79cc50d298b,
    0x5ab8be624411c63004d0e52601861a56, 0xa590914dbbb8fbeaa23733c66ff26006,
    0xea76eaf37b301f73c8fc9d375135904d, 0x046e2810b768bd420332ddbed8493aa9,
    0xb4230af053571e782abf3f96e3bae1f7, 0xf785059920e09ba8bc3df1d22d34b571,
    0xf659a5b9e76ac5455de1c66f5817988c, 0x409a5d54233e45470cb7fe06ca0931db,
    0xa824a6ad7a753d05ca293d1980d5f99d, 0x3f0580e830b3afa93371ac202d4dcb4c,
    0x38a2bbb390a422813bfbf476dc13283c, 0x007a17ed7b1a9707a15dc9f740512bac,
    0x455d1176637ffa07dc4718313a78d7f9, 0xd6067109c77aef6a4dcb8b8fee1402f2,
    0x114ee4e86359edb510e4838e0da4d3d3, 0x241d826c8acf41bb831af64b8a6840ca,
    0x23c857ac869e6df64c461fc26f8de74a, 0x9706bb336d6558455f198a6638ac594b,
    0x9b3633d32be38920bf8bb2374098172e, 0x557d99fd0bd8e4c19bf9ab9f68051e3f,
    0x42a938a73eeaa569b176c895f4228f7f, 0x4791cdcd7c3bbba1319fab20b1b0f0f0,
    0xd7f9829a6a91dfbba80765ba376b1232, 0x7233110bd174dc8cf6c4d6a9a6e2215d,
    0xd9ac868d0fb58e01295bfb42794bff53, 0x939eb3a72fa2a614390d8674c9d75885,
    0x5947967b555862705c9a7b549654c475, 0xa5fdb7fd8b6663fc5e6ad163f8616920,
    0x1ecb0c511653ae88a01e87b59b303cd5, 0xd8f08fc73abaed2c3c7679263ce677c1,
    0xedeec7267ac6b31d038660f5eb7bd987, 0xb60cf51cb7a20b104e83ad84ac04b0fc,
    0xa23477d97cecfe5d66bf1f5fbf2ce5f4, 0x6a0aa0125816751b383431a6186a6ba1,
    0xacc07ce21a5adf6fa9dc00b2b0a7219a, 0x62ccd3aa124d167500a8abcde23e9e57,
    0xf344837a39c06d5ae2d065ec23f091a3, 0xacdafcc42fd746b8ef4e46b991a46569,
    0x5be4180ffefb0d1922f2e215d05487f5, 0xb9984a9ae5919cd714dc000e010652a1,
    0xd932609c9bd54c28be228f42cb4bec23, 0x662555cbf706c5e85232219f32039b01,
    0xdf2e46192b817b9be92cc585231bf675, 0x5814021d474d61cdde75c7c9a4d1ae18,
    0xe595295b8e8e479e2ba14c9ef2cd6b0f, 0x4cbc5d2926883e658a5be48ece582d00,
    0x5558181f289753b3680fb5debf1da7d8, 0x10570acda49ec2a72eabb523d42b0ab4,
    0xbcf055705c770497b0389bdb6bbb43e1, 0x22e64d81525093b5ae2a3f03efb69092,
    0xaf07370ebb577f362a9e43c972542bfb, 0x38eee2e0b96491e2dc9b26b460f08049,
    0xba4431ff90312f8a2fc22329ae7c8fab, 0x499869c6452c0fce5d094cd2f92ff713,
    0xd1d4319bc32a9a5d1b7dd78306d3658b, 0x9ce4caa005d59cae678f97d208b2441d,
    0x5973e1ecf572002e15aef863f86a7286, 0x231f23da59bcfb9c515d8168c70123c8,
    0xc3aa24fe770510053db54ff932954617, 0x17fab32807bd60a5214db5dd4ca8f963,
    0x948bdab5e191996cbe831976b45242c0, 0x973d152f116b7cb32ae49cd0bee4ddd8,
    0x8d108469405090015928f48eea5de33f, 0x08e932c4dbf65754b7b1fd1994af65e9,
    0xfb06a96da8b80c8f436e27544927f1c1, 0x519e29754311d46b75f42b803631fa65,
    0xd73403f20a1f3d411553f36b13136516, 0x85e6df5e5f6ad3e319eabfe790b7ab4c,
    0x11c867c251e597559c250c437229306d, 0x7bb9a5b10e9f7757fad5c13d5c4285e7,
    0x3ff7b19120ee0ef03b76c7402e8c2db1, 0x28ef1246198ff3e6836d303991aef270,
    0x4dc21ded6f4eef984876da2b2b96df36, 0xa34137ccbc18cac5722594cc3c6a7c46,
    0x7e73c6df00c87a1108a1e473674e694a, 0x9a946a2822e57ff198e8d47c8d59470b,
    0x13615fb23aa10ff04fe603d7bd90d314, 0xe21ba2f9477ce74609e5c3705418e5bf,
    0x588b636b4b758828a83416541bb29654, 0x5b7e0c0ffc7ff07aa10a0ecc3ec76937,
    0x7c84aa630f85d7bae207c5a07eeb45dd, 0xd1d40aa208627e8007d8e39bcc460a3e,
    0xf830c8c125335b3877d7c1dd2273a71a, 0xa83d741f279c74b820e66ef4bb173cbd,
    0x14ea8c07e090c7dc9ac8ecd2181de0a8, 0xd2bba2663002e60c60de3ed1ad04397f,
    0x0bd79ee75223c9eec804b00400c56f2f, 0x04428e3a8ffeb0fe54ff68a1dc244dbc,
    0x3df220f30054ddaa31207ada3d0e6e8f, 0xa190cfe02d52915a8d18e75262678cf6,
    0x7e0cd1ed8e7cb42bad1c124e493692a8, 0x43a26d2263c9b0f9f1c496764e7f70d8,
    0x6e314cc42453d899cbbc144c99dec3d1, 0xcdb43a3c2f73fc7816458e8a81143945,
    0xf61f8caa9d3a839adc64db0977cbc7d5, 0x130218e3338b474248f86600000b2bee,
    0x0ed2c2314f65e0616cae73726c6b9aa3, 0x4039127b4702975437002ea0df496aa8,
    0x9b83c84dc51ba1b471917f9e9c66a5f4, 0x6f26c131267339cd01ee579837f3d5df,
    0xfa2b9eded86fb94b25810ca7b15f4879, 0x64599fae5b1ad96ef6c7166b4a3aafd8,
    0x96c25bfd2da5fcd9f44fca17014c43bf, 0xd1e5fc9311377eda56ff8104ae712263,
    0x3f793e178160285926e882366d6bcefb, 0xc6bc3f9e78f810b47a1470094c4250de,
    0xaecdecbf87fdf0fe400193f7e10663ff, 0xec45c1088d4205539c33e59d004db40d,
];

/// Words 1792 to 1919 of the binary expansion of 2/π.
pub const TWO_OVER_PI_14: [u128; 128] = [
    0xee01175691041dc3fd5d5917ca29f602, 0x24e72211e4f85a1dcf8120c173431da0,
    0x6021a0a3548b721b2121b90afbe9bb1e, 0x23daca42550f032c79af510cd59772f3,
    0xcd41935d4a940b4b315da44e155c9923, 0x2a6792923763f703165637db71f420d8,
    0x2ce4f4d267696800db8ab73a363755de, 0xd3364d7561edb2a769ae2857269446ec,
    0x8938d0728e6bd4eca1aa4f7d933c6145, 0x2667e37084fc14ed54749074c08049de,
    0x2bf4c0012b9ae8789531c4cc380f285c, 0x8b4428fb430a136c9e8b72aeb698384c,
    0xf64f97f12e815c918813c9029d0f57c9, 0x9cd5cec36b5c4ad6109e7c9698149e5b,
    0x48a480a1ea427c73b0f0e9c680553de9, 0x90710ca40574366e3228f6526febe75f,
    0xba9fd94adfece736b3d90d3c5d783384, 0xd1098af7cc4ad0daa801eb7f24cb0244,
    0x59bee30c77212328984726f09bdd3c3a, 0xe5ba0d8c005f59ee2015b94f7bba9b9b,
    0xf3ecec78ecffd3a70500b7ddc06f3226, 0x21445b6354badd21242900ebbe084b38,
    0xada2af9df961cec5450b665d09cba5fe, 0x080e666d12f28bc52a49bdf1b343aa1b,
    0xf5ba169c1cca3de9109d63c9fe0babe0, 0xc2f83cb7166085611be732e750cf61c9,
    0x74ebaac86d850904879eb2e44087be16, 0x237d66f28efe75efe2b51ce24c18657d,
    0x7061a67a9e71e849689f0095f2949e44, 0xfcdfc5b7452c935eaaf84c317180fc79,
    0x04daaad7731cd6282f94ca067d63fa9e, 0xada1911d5fc4ec62cb18c5bd354a3daa,
    0x508c763df78f7e0f7e13758373aab5d3, 0x63fb86063edd889fc2826d149c75d689,
    0x560188d46bc455476af76938010b7422, 0xbf3785d619f7446c770866f6dff655ac,
    0x8ea9beedfec88c83ef61e46dd7acd928, 0x39ca184ddbb9510bb90b53a50c62d9c6,
    0xd936d5a9633a3ba082ca2486312747fd, 0x80ddc19b716a5fe78f5f8955fae2adef,
    0x3a591ae6f347754b08a7f58438cd8600, 0x3a8757f703ab24cb2b3646f8be937ae8,
    0xabcbb7f02e794a1019370ede0aa1ea24, 0x94ec064727702f7d9ae0f1503a7546ab,
    0x8424d8711f180c4690766bc8c08bf845, 0xc96407929209cc43bc80049d84fef33e,
    0xa156ebf89165ba550b7d2fb563eddfd5, 0xf664e0ade7786631ad55595f16dc0411,
    0x0e2c07846cc4ade5e96c88d1324cc1f8, 0x605ac1370bad5015eb97b6a23726bf48,
    0x45b31e90eb30fccdf9685e21fd655741, 0x6b8f130c076f2cc0296a834eea64c64c,
    0x987096baad5ff24a3bc667e316ee7175, 0x1199583a6d235e786978eaf2dd899bf9,
    0xe213db4ff0bc404eba852bff28d3d349, 0x8b80341bb96ee7fa56bf37ab56c02079,
    0xb245bd2f8fefc7e0acf03e826745a51b, 0x5e5b499c20153fed816512665f5c0cd0,
    0x34a81da32391b8d515ac8365e45c2e41, 0xe645d95928ac6df2771c5c7b8a56c571,
    0x258044ea102aa0a5b387e89925ce62a9, 0x738f5580eff4acceeb8e69d8858d0efc,
    0xf22286d1d576b7c929d0546e9c603aa2, 0x48309b4f16fcaf92d786dbadf5cc3b1c,
    0x18d12c1a0540b540e05593f048528378, 0x7db6d34e0a4ae04485270ad7b7595e2b,
    0x2f2725652fc6000425ff6c8edb8bac0e, 0xa84e831ebc1c308c3805748e5a156c29,
    0x82bb215d04a14d25ab027c641e054127, 0x06386567dcdf2d75c4d834fff158bed0,
    0x02abdea73602f501ac84dbf5738da773, 0x9b6a827b46cc31eebb3c6838a89d5395,
    0x9162abbe2f8be49dd1c3acc8f0561011, 0x5162bd5134ef58c69ab4de33420666ef,
    0x9951388d052a0db7eae216382d5c0c1e, 0x4e1514d3abe53c1bf8c551f98baa5d25,
    0x66254b038346893e8b9b362edac82b59, 0xd9a32a8861c91d143a891066c5c4f9f9,
    0xdae86d8ec7efef5f1259b24f152a01a2, 0x325e5fefe191c8b2b13b9fa7eb34a7de,
    0x36c25ee076c5031b46a32227aa0a30a4, 0x483ca1d25505e894b9b4ffd750a0a125,
    0x1223ebe10023e0fce88ad08a7246f672, 0x5f4733d27e8aab77343dc2f916b06ba5,
    0xc4d85fc427cd54e9843e5ed0ded6fe96, 0x5acd5077d7dd2fb1fba5bd4a58029c78,
    0xc2ab8209ed65716a385cc43091b32783, 0x89aa1990e3ce5c7c9e840655931a2d5c,
    0xa08fc0f2f050d30e93ea74cfd6cbd7cd, 0xabc8ffa819de81f271378c4f6119e183,
    0x0adc5302114736bf1dbf94e1e63d99ed, 0x2efb07aea1516d78d2daa07e2edd9190,
    0x0c516deaf6f16b8c5f8f63e8ca1695d3, 0x5e392bdb2408031d9de2af825444d0d8,
    0x6ea7478e39b178cf14ded56a21ea4391, 0x3029b2bdf466dec42767e36c09180309,
    0x2e02d371f7b536c27b2d9fb1c3460fe4, 0xc7ba7080fc0580d7437cabc2309a4d5b,
    0x14280f10a8cc30f063960f592de60e3e, 0xd567a71a5acb6410129e3683094b211d,
    0xe642af06878bd39bf60812d6dbf5832f, 0x0d30848ffa458bef1dbf69a0d2879d7d,
    0xef37ddbef2e4961b924b56461520a4a3, 0xef4e0dbd88169c6a6870b1af877fe03d,
    0xb0f8e565caa79427ba1bc4f3c0298da8, 0xb56a40b49893f297891b498af75c8b43,
    0x304f594b6f63da4020b43e95b5319b75, 0x4799775f6b8ec0aece7d6bee4f1ae023,
    0x9edf62e8b55d0c94274065c6fb3841ec, 0x010884cf1523021cfbd38e5273fb07aa,
    0x0bb49bf49b6e68990d9b341410fbc5c1, 0x98acb0a2ea5ee2500cb25e1b12396a9d,
    0xae0cd549087cef67d435580aaaa147c0, 0xb7645ec5fc547b0b442227053b07791e,
    0x96205f0b501add886ecd92e0f2ff87fa, 0x4cc25ef49851918dcbba2ec0b2a0036e,
    0x62a56f89a3f154c7adecff58fcd986fa, 0xcceef11bc64fa759a2b64ea73a224dc3,
    0xa76ae74a2e983fe454f0ecdb8301d38e, 0xdd9d46a1f3aa0f5592109c3c9538b2af,
    0x6b090af394ee015260ae983c1e2c7c61, 0x4cb527cc5cd7f0a2d025e28dcb8d9f60,
    0x33f6b1e7fefa3e03f7fb24edadac07a8, 0x8ee0cff6d45dfafb29028db5b0df253d,
    0x4097f77d500e399380cd5f627770b44f, 0xd2a8b349d725c76e0240f5cd8744b929,
    0x25c53640cc3e8b1f886057bb2f7e8df7, 0x3cc693088ef19ab8e06f4dac2291fcf2,
];

/// Words 1920 to 2047 of the binary expansion of 2/π.
pub const TWO_OVER_PI_15: [u128; 128] = [
    0xfa7508cc525cf01e7b902d6a0b0cc13e, 0x29a87d9b137a780be94f1b3f3a560f0e,
    0x545c5c793f5c5319e8994deef53ecdbf, 0xa7732a9138e4ba352f615ddf8356ee4a,
    0xc440754847d8d88dd1bdd24a01c1a01f, 0xc8ea57ac0d89d9ccc9ff54e47836a7a5,
    0xb2858f3870f36a96aa60ca519a9a540c, 0xe637372beefc7096051cb9cec07efde9,
    0x6ef523737f4115a1839cca3cd2b3a60d, 0x19c39b85f011e7726aaba5a1b05e1fd5,
    0x4485add6b1054efa39a3f55b96121da9, 0xa434da17d6645375caf7dfd528b3d39f,
    0x34273488aa2e815251bad9b14651e190, 0x8ec144bee5bc38fd8049ed930a3edec9,
    0xba9bce6a1e53bfd7bd05ff30376818d6, 0x4b92511831213002f5e48259a9b632d1,
    0x935f3c27e0d661571a8818941006c835, 0x43105099ba431adc71f05306cff2c3ef,
    0x1d8813ddd519724f5a5bd7bdd7847fb7, 0xfb5901207e23b39adf08d16465a35710,
    0x2274a14b7cc99c101f946d06f14e2bcd, 0xfcb010f877a10ae5c6c844d50f337292,
    0x6655d3df3ac08596186410baa0099c75, 0x6d6f650abd7060ec0ef9c5950914a113,
    0xaef0453aa80150ea32a7fb6584e3a2d9, 0x55f974619ccca038b3e6f76831318884,
    0x598a13f0fadb954e92041ce57f44ff46, 0x66f3c11ce0709469ea7bbc6fb6c66936,
    0x243eb6ea81c0dc911964df462f210d66, 0x523c7fc6dad3ceac92fac56e93abf201,
    0x5205b0b4d04413c4ceb35e770971f780, 0xd2587902c90ee4906567ee243f53382c,
    0x5e50acb1fa1f3efca327cc18577e1edb, 0x7c5ff74ecc83d1dd903b50db2ab7bf06,
    0x1efed0f620fd835d594de8f38dd241bb, 0xe8afd05dfd4260d0739bc6083ca72b9b,
    0xb2d31e3e0c8c4b832619f05aced0099a, 0xa2cb03c9562b8f73a886e9f3876c9d1a,
    0xb3c15daf0b29e68eebc187bb4e39938f, 0x721eaa6f57d11ad105ae7a1e9382152b,
    0xebd08d38f48fe5ab814a5e01461d6600, 0x026bdf9cf1e2380ec965637424fdb5f9,
    0x451472891becdb672abcc9ad0563efc7, 0xdf0752cc5bb57ba4e0de30459b35ffd8,
    0xf5b2ac361364407a474454e387d692b6, 0xdfd68f8a4dd0af3a4e59d588545e856c,
    0x512f5ba83f8978f6e8c0cf6507755149, 0xc5d5992dfa91ac9b5a72f4bcdd6abcda,
    0xa64b39e5061d352e2ff242b451394cca, 0xa1aac754106d19a9463b97393daeef2b,
    0xf8c28c971c715477cb4185cb458c55b8, 0x7889075f0337454df697d435da60f35d,
    0x1a5c161cf8c54fc9b15154744c99e7cb, 0xc2dde313e5245ded3a8f1b3eec1c013c,
    0xd43828cd2f93e037f7c0aedd18e620e1, 0xc64f5d686d883b0df0d1c67b9791a453,
    0xbaecc89a6ce5f9f6f952f9b11716735b, 0x229c4b4f796418893054a778b0f989ff,
    0xed70beb6c05245fc72bf13bf7e2e3540, 0x7cd519031a1e524d2fed4a779682a4af,
    0xb372d483d26668f43715148c4fc791ba, 0x373072fdfa914dad4b9226b9981101b3,
    0x40ec1a865521f563ee68d8183c9c5062, 0x6c12912aac211ca873dbd05ff97f2f85,
    0x3f1dac977ac86ef47623a1c3c20b35e6, 0xdad77dee920e7c5268a599cf0fe4e9c1,
    0xf76d7f794693e9204ae2f6808afe527e, 0x72baa41ad4c199e3228aa3995b890ac4,
    0x94fbda2a5b32d2ff3996e1fbc75b91c1, 0x2a3de70822d39dd67c3821b1a196636b,
    0x0abfd18b6bc1d6b2057e66195d81ef37, 0x8ba0529ef2ae9ce57dbf9fb831c42037,
    0x325ae8562a888d83ca72175aa1829fe7, 0xc67bbc146bd9fb8a73200a7ade6aea7d,
    0x94c087b2ebb445eed15af731e175b305, 0x1217e89f793ac89b13191786d3a5fd0e,
    0x25a2cf728035fc9ef2fb41db9f0d61d5, 0x59f02fe87df4320664d97bda7b1196b1,
    0x19b3a9d3f0641553c9381f73db53000e, 0x91d6ee0d03b4f85ce0e4162055b1ce9d,
    0xdedaf7853953e567387a30879208c47e, 0xfcbad9e084903b13cae0797b0ad86359,
    0x53697ca115f8d39e68d90dec504a6e9a, 0xd6c0207b64a14443d796f5b5177cd5d4,
    0x25cfb9f8ca25ddc48995d56099c9da00, 0x30af1765d49000f1a3133488da6970eb,
    0xe6035a7fb25846bf8ebed43321c2de43, 0xa043030e2434b1b6cebce776fe48193b,
    0xd9bba2e1b2477d39fb0a9ec5080d7193, 0xfa5d53748336cde708e671208328c7ac,
    0x9d67f2db052ccd88bb5a29aeddb5f37f, 0x16efc2e7b7947a62c431c9d1449ac01c,
    0x09c0bc5720fadebc1c3facb2d610d904, 0x1e271b854e17065266955f3190a88914,
    0x51098b502a2a1ac482ec7dba1e0fc294, 0x366f9cf9cc6f5f5def5df15a2e60cda7,
    0xd0d9544f203ed32f4c60df09a3f1b5b2, 0x9bb41c4fc8c90a5ae24f54c0bf7e0a18,
    0xc34d5c1f26d77a600719e1707efe8e68, 0x62f3931a03396a0c1df1cc7db528dc9f,
    0xa17f44d359028e48e3f6b9a7608069c4, 0x5d4f4261b20c8419d8bebda2f3bd10c4,
    0xbd171f2252833f05dde71013de5da70c, 0x645f3f280411b34623b0b458f890646b,
    0x804f5363aec7dec3488ca943428a5584, 0xd1a51496f410e8bfeb714005fbf778f8,
    0xc7a6f80a272495a8707e3f02b32e83af, 0x93e5dd8df2951e6202ae189a1eb3a2fe,
    0x4678115303a16cb0a48ad2ffa2ec4ec6, 0xc781759769e54de9fb4e5f8a03669296,
    0xd3e2eaabe9206b8b071d375e06ee4717, 0x134b906a979d7360387324644dc6e2c0,
    0x42299e455b8383bcd4150f9722d4544f, 0x0bd45eef6a429323da0aa5a30f3f55b2,
    0x30ffe7ed94b2628cb43f3b217a83283a, 0x6fb3aa5fe46590b97de45bbb3a7b90a0,
    0x9a3d9f04166b2a71b700c67cf12d5f33, 0xc49c024430170251dcfa030b3e410f0f,
    0x36540b467d841d3cdcd0748079ff417f, 0x1529549fae86f950b05cd5b2bf463eee,
    0x4eda074ad868792ca7d933ff9184a5ad, 0x9471deb043f394cff424ae3963e1f864,
    0x23ec9162f3493d9db8e68c94b831960e, 0xe2811b3eb6921a731cc843cf99420440,
    0x1d8ec675854732de68f8723dda845d7a, 0x530c40bae1d92f89a2edd2afa11e9561,
    0x88c4003c7b4519c9dd2ed233401228a9, 0x34249821f97bd55780557f3ff6934ad8,
];

/// Words 2048 to 2057 of the binary expansion of 2/π.
pub const TWO_OVER_PI_16: [u128; 10] = [
    0x92111ad3b125aa72f33bcd38e1cc41c0, 0x802de5af301f61b36230f7f5897c17a0,
    0x0d82d99b3d25dd17f954cc59460c11f7, 0xce275d4f2b8498cefd1c3b261d0bfa2c,
    0xcdcf897dc5165e78cbc7073de70095ce, 0x3690398bd3ac36ff1dc34317b9fcdf9f,
    0xcfcf5aafb012ceac24a5d3737ab55322, 0x73cce8f0e4045ae21eaf33081d0337ad,
    0x3d403412c03be6a36ea06878d9bec062, 0x740cc6d14dec2f83dacb0a9c8fb360d3,
];

/// Word `i` (`0 <= i < 2058`) of the binary expansion of 2/π: the bits
/// `128⋅i + 1` to `128⋅i + 128` after the binary point, most significant
/// first.
pub open spec fn two_over_pi_word(i: int) -> u128 {
    if i < 128 {
        TWO_OVER_PI_0@[i]
    } else if i < 256 {
        TWO_OVER_PI_1@[i - 128]
    } else if i < 384 {
        TWO_OVER_PI_2@[i - 256]
    } else if i < 512 {
        TWO_OVER_PI_3@[i - 384]
    } else if i < 640 {
        TWO_OVER_PI_4@[i - 512]
    } else if i < 768 {
        TWO_OVER_PI_5@[i - 640]
    } else if i < 896 {
        TWO_OVER_PI_6@[i - 768]
    } else if i < 1024 {
        TWO_OVER_PI_7@[i - 896]
    } else if i < 1152 {
        TWO_OVER_PI_8@[i - 1024]
    } else if i < 1280 {
        TWO_OVER_PI_9@[i - 1152]
    } else if i < 1408 {
        TWO_OVER_PI_10@[i - 1280]
    } else if i < 1536 {
        TWO_OVER_PI_11@[i - 1408]
    } else if i < 1664 {
        TWO_OVER_PI_12@[i - 1536]
    } else if i < 1792 {
        TWO_OVER_PI_13@[i - 1664]
    } else if i < 1920 {
        TWO_OVER_PI_14@[i - 1792]
    } else if i < 2048 {
        TWO_OVER_PI_15@[i - 1920]
    } else {
        TWO_OVER_PI_16@[i - 2048]
    }
}

/// Reads word `i` of the binary expansion of 2/π.
fn two_over_pi_word_at(i: usize) -> (r: u128)
    requires
        i < 2058,
    ensures
        r == two_over_pi_word(i as int),
{
    if i < 128 {
        TWO_OVER_PI_0[i]
    } else if i < 256 {
        TWO_OVER_PI_1[i - 128]
    } else if i < 384 {
        TWO_OVER_PI_2[i - 256]
    } else if i < 512 {
        TWO_OVER_PI_3[i - 384]
    } else if i < 640 {
        TWO_OVER_PI_4[i - 512]
    } else if i < 768 {
        TWO_OVER_PI_5[i - 640]
    } else if i < 896 {
        TWO_OVER_PI_6[i - 768]
    } else if i < 1024 {
        TWO_OVER_PI_7[i - 896]
    } else if i < 1152 {
        TWO_OVER_PI_8[i - 1024]
    } else if i < 1280 {
        TWO_OVER_PI_9[i - 1152]
    } else if i < 1408 {
        TWO_OVER_PI_10[i - 1280]
    } else if i < 1536 {
        TWO_OVER_PI_11[i - 1408]
    } else if i < 1664 {
        TWO_OVER_PI_12[i - 1536]
    } else if i < 1792 {
        TWO_OVER_PI_13[i - 1664]
    } else if i < 1920 {
        TWO_OVER_PI_14[i - 1792]
    } else if i < 2048 {
        TWO_OVER_PI_15[i - 1920]
    } else {
        TWO_OVER_PI_16[i - 2048]
    }
}

/// The three words `w`, `w + 1`, `w + 2` of 2/π as one 384-bit number.
pub open spec fn two_over_pi_triple(w: int) -> nat {
    (two_over_pi_word(w) as nat * p128() + two_over_pi_word(w + 1) as nat) * p128()
        + two_over_pi_word(w + 2) as nat
}

/// The 256 bits of 2/π following the first `k` bits after the binary point.
pub open spec fn two_over_pi_bits(k: int) -> nat {
    (two_over_pi_triple(k / 128) / pow2((128 - k % 128) as nat)) % p256()
}

/// Returns the 256 bits of 2/π following the first `k` bits after the
/// binary point (`k < 263168`).
pub fn get_256_bits(k: u32) -> (r: u256)
    requires
        k < 263168,
    ensures
        r@ == two_over_pi_bits(k as int),
{
    let w = (k / 128) as usize;
    let o = k % 128;
    let a = two_over_pi_word_at(w);
    let b = two_over_pi_word_at(w + 1);
    let c = two_over_pi_word_at(w + 2);
    let x = u512::from_hi_lo(u256::new(0, a), u256::new(b, c));
    let y = x.shr_any(128 - o);
    proof {
        lemma_pow2_64_128();
        lemma_u512_bound(y);
        lemma_u256_bound(y.lo);
        assert(x@ == two_over_pi_triple(w as int)) by (nonlinear_arith)
            requires
                x@ == (0 * p128() + a) * p256() + b * p128() + c,
                p256() == p128() * p128(),
                a == two_over_pi_word(w as int),
                b == two_over_pi_word(w + 1),
                c == two_over_pi_word(w + 2),
                two_over_pi_triple(w as int) == (a * p128() + b) * p128() + c,
        ;
        lemma_divmod_unique(y@ as int, p256() as int, y.hi@ as int, y.lo@ as int);
    }
    y.lo
}

} // verus!
