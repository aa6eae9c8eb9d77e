//! Constants of the LowMC instance (128-bit block and key, 13 rounds):
//! two words of round constant per round, then the linear-layer and
//! key matrices, each stored as 128 rows of two words (columns 0..64 in
//! the first word). They are drawn from the Grain LFSR as the LowMC
//! reference prescribes; `extras/lowmc_tables.py` regenerates them.
use vstd::prelude::*;

verus! {

/// Round constants, two words per round.
pub const ROUND_CONSTANTS: [u64; 26] = [
    0x9658e91bcf6805a7, 0xeee0761e3a716df6, 0xe14bd09d7c61f5a0, 0xb5e253a59557335b,
    0xc123f105aad878b5, 0x256c73952abc6a8c, 0x94de35837882ce8b, 0x65479d4a34ece513,
    0xeae4ae069d03989a, 0xdc7c192dba4eec13, 0xa443c36dae47be92, 0x60c4ab329b359d0a,
    0xfacf3e098ccd3ded, 0x926ea66a3b39ebf7, 0x3ca06adb3144e808, 0x6f2f8aa3ee3ca440,
    0xbe35776f816753c6, 0x4da71f428c6e4052, 0xbca48c484e95a03a, 0x2404b69f2f0fe650,
    0x8b54340ed157402a, 0xd7cb5af614ff2e3a, 0x0a646568f542f639, 0x70138cf0b600b1a0,
    0xc2c51c617c729c75, 0x9df52b56630d8575,
];

/// Linear-layer matrices, one per round.
pub const LINEAR_MATRICES: [[u64; 256]; 13] = [
    [
        0x7ca0c3af340198ea, 0x3cf75cbbf4cb541e, 0x7423b8f9f2c76c0d, 0xe769b89d447c3ee6,
        0x0bc392de7cd055db, 0xf98dc32fc43c1013, 0xa8c9134d607b119b, 0xd04a21ae1be444e1,
        0xe1cf6453658ae793, 0xdbf007bc420524a6, 0x028bbe5d3205f7c3, 0x71d1783bdf5fe783,
        0x33a5bd738cc3d96c, 0xc887be92161a2568, 0x52a9f6db1025b4e4, 0x97c9e8277a7b529f,
        0xf749ac1f65879027, 0x252425e7bd970507, 0xe87a6bfdd87f40f5, 0xd534fb358f75a921,
        0xd220a24aaaca4a48, 0xac84d1e2d6cc1c5b, 0x45334a23da18e005, 0x5d443d2fa84ddbe4,
        0x6d175218dc5a7ae9, 0xa3904ce1fafbc243, 0x82c81952d8306002, 0x99e02196e8bbc2eb,
        0x44d7d4a8faa0dc2b, 0xf16409a853d85701, 0xec9a9d0a1297880a, 0x0d721272e7c8edb5,
        0x755ffd9741f4d421, 0xe8f20d0a7f8fa598, 0x67b2a0d8f7809e21, 0x96f29e3e56b77caa,
        0xe815e14b3c29853a, 0x68c317d23f351cb2, 0x12f3777bbb9494ba, 0x4aba637b5560c817,
        0x662c93d54edbb5d3, 0x62ba7d471fba9817, 0xfcb845081af740a8, 0xa6c8e1598d30af94,
        0x05d7dc4259c10bc3, 0x260005a224751613, 0xeebcd2d44f16f6a7, 0x82172c6e3cf4e0aa,
        0x8f33f59ff27ce4f7, 0x83e70e1de3ccba3c, 0xeb9820ee031e6aa3, 0x4141743e2db25a10,
        0x64b815e299800ec1, 0x192027db1b3b1f3e, 0x6b3f4018183d3314, 0x4908b88fd077d205,
        0xd41f39d5ea01db2c, 0x11e3fbeeb2f8042b, 0x02993272a5fbec98, 0x49669e842a3cf849,
        0xa7eb91e5723d24ee, 0xd6155cd4e11f5da7, 0x214da67f23490174, 0x31466b6328adcdf6,
        0x393f128b38b2bfd8, 0x1a229fed28a8d299, 0x2bacf1ef306c3e2d, 0xab753dae07ee8a86,
        0x72b2cddd537f5917, 0x34b308ddb4c7deea, 0x5d026d63283572e2, 0x8784f2dc07e4c0fa,
        0xe13a18817796a44e, 0xd7d53e4e0b356f5d, 0xadbae11324928beb, 0x8fb29a4c81a06612,
        0x63b6fa1dedc64d5d, 0x9b0ddd0642274b88, 0x69e4b9f74d1bf0ed, 0xc052d543d90b8540,
        0xd24d28e13b1aa9cd, 0x3eefa131769ede05, 0x0a2ef4a19e113deb, 0x057f3d2994252114,
        0xfe0b1729249331a7, 0xb6552ade0af5e344, 0xa275ba75083324fc, 0xf71b1101a595f5a2,
        0xf1f73ef2a7407944, 0x153bfc365a53c984, 0x756efd7ca8cea50a, 0x5f708a1267a8f6ea,
        0x7f2ddabbf4fa95f7, 0xeb009ae975fd300f, 0x90a5985437527b1c, 0x17f027454b9d3d48,
        0xc18aa01961c087f1, 0x614fc322c29999f0, 0xca33854e44f36b4c, 0xc658e72b55ade055,
        0x68f7287f51528eae, 0xa62e34dfdb87e866, 0xd29fdfae69689259, 0xe9681edc0796f43d,
        0x13a4955c4705c6d8, 0x8b73e07b730b1477, 0xe9ff221c504fa3ff, 0x292ddac9db5cdfd3,
        0x0112b1b5772dc1a9, 0x5a765c9082eb211b, 0x1e036858ca77722e, 0x33c9575556ff41db,
        0x18e23f419d4d1b99, 0x2e893df2c9a7f4db, 0x1c27685e19b3c98d, 0xb789a2317a69547a,
        0x0aee8d746ecedca0, 0xe3ea68c85ca28bdf, 0xece65b4f5b3bacd5, 0x557afcdf00174224,
        0xedd3768f269a4647, 0xd02b850a0d689d0b, 0xab047d69619d5adc, 0x9a53ecf9cfefad90,
        0x668d0cf59b33a199, 0x4c9823e9a12b53df, 0xae61c28cba27cafa, 0x927213ff56cef377,
        0x6d59c447fb27e5cd, 0xfa252e282d03d649, 0xb4b6cc0afba9d767, 0xa92203179e889deb,
        0x8d2beddd9cdeac5f, 0x7258f7fdb12499b7, 0xf694bdf425381c27, 0xbe736ef3671f615c,
        0x5547aa2a97511150, 0x9bb07745fa9d55ab, 0xabbf2cec148a3453, 0xb108f28c6136c680,
        0xbaa5c6b692f88fd2, 0xa4af6e2a2648ccd6, 0xa7e3e708c82bf68c, 0x7f743beb967b5903,
        0x7550547f657ef120, 0x41472a8e205b6c8f, 0x7392ba001b4c0552, 0x19d84b9bce349119,
        0x7e548ffbb722e587, 0xf286421c44ae01c3, 0x40f32eb6d31aa787, 0xc29f48451e51e66c,
        0x2d0d4d6eadeb4551, 0x6c9722c5df569d07, 0xd9f049c40514624e, 0xeaa5f4b79bbb455f,
        0x54ae27a42336e1df, 0x6e04f7fda68d0966, 0xfa60408a92017336, 0xdf4355d083eca1cf,
        0xe680504b009d952e, 0x0d7a99664374758a, 0x415f343d4374b97b, 0x8ac2461de206a284,
        0xb299e85a183e310e, 0x6d42d982ddee10fc, 0x61bc9551341e1464, 0x35507742cac3e70b,
        0x290feead3f6014cc, 0x3ba87538737be8d4, 0x35183b30fa8b22d8, 0xe9d6292c90911782,
        0x16f25aa3a0f7c197, 0x950435c70b5d1d0e, 0x8aa8552fe95ecab2, 0xdbfef4f88e9be67a,
        0x37cee133c1d31196, 0xfb51628f6d0c35d4, 0x04d7d1d9753a21a7, 0xb53c5e1f39bb6a54,
        0x4065e09bbfa2a312, 0x0fa648dee39dd995, 0x757c4b6eee031043, 0xd3ec821586b66e10,
        0xd4edde50caacae16, 0x38623f18250b68da, 0x63959878f0ed6074, 0x4e3aaa0ea6a0d537,
        0xfc236e0cf4f838b5, 0xc821bf44bf1c3d2b, 0x7b15f69da2d538df, 0xfbcce7237d247669,
        0x45d852f8e624ad3f, 0x6c6936ba6062bc8c, 0x5d74a65936f47ced, 0xc7891aa1dbe8c0f0,
        0x88c3666beedf72c9, 0x3f8fe855957c5d74, 0xe0fcc17a9c758ab3, 0xe542608b3d2c9f02,
        0x9e15432073ca1816, 0xecc263f5c1c0b40f, 0x9cdb0673502bf254, 0xb5222c19a7ea3ff0,
        0x87964d9879f7f1bb, 0x09c873c80870b145, 0xc136cc3a3cc55f9b, 0xa7728a224da62253,
        0x6b8e22fe24d51dbb, 0x29db3162c72b8759, 0x35ea094792f3fbb3, 0xc2e2581c64bc54b4,
        0xda52296a82cf89ac, 0xe8e8bf3810e6708b, 0x76028f4e983777ea, 0xe59b0bca2162c867,
        0xbb11b0b3c7db865e, 0x383b1e8010c3b266, 0x2f971a66fab0cdd8, 0x8cf3954a47066b84,
        0x14f0268b2a1901e5, 0xc8270aa8e485bd9a, 0x0c1543b39346a569, 0xc3c05b5d3aab7bd2,
        0x2252cd3757d68c17, 0x33c11c9b8e7dd07d, 0x1121986203a62339, 0x9b75a230fc7f4121,
        0x83973fad73c505a3, 0xf46fa47c526573a6, 0x31a4c260ef3a58e3, 0x084943b84e4eb48d,
        0xc1c14f1ce4237f81, 0x40fe51fd3b50a302, 0xfbdb846ce6ebb7df, 0x74e9dec2ec2e07ac,
        0xbb97759a280a0c32, 0xc858221f28ab1af2, 0xec85f83d3d5646ef, 0xf9d1a611b0432f32,
        0x1938d6f1d7d59586, 0x3143e6d3e89ba9f1, 0x9cc4252d5f2592b3, 0xadc6a76f651b8a2f,
        0x3d7b5733cc99122a, 0xc75c32ae59cb093a, 0x7c6b02e8be2eec95, 0xc5c8aa6960e2b384,
        0x4e99050719d9f4a7, 0x13b6da05442139ba, 0xaa99fe5892a9bb10, 0x48cdc5022aec49ed,
        0x0a1bb2292b4d748a, 0xd39c3baf583e8135, 0x6cd16095c58a02c5, 0x821e0cbb07ac5c72,
    ],
    [
        0x3a89b3db565e2b4a, 0x4ecd5fb390f7318d, 0xd1dffc6b90f55e1c, 0x33c5a8fa798fe401,
        0xaadf4db3a69846b4, 0x173065bae167e820, 0x694bed743fc1fa57, 0x52ff05004b433339,
        0xc55781979d108550, 0x6e3ffa6d8211e843, 0xe691da22f81ca362, 0x1921efb255d5833c,
        0x6fbafdc9669945ac, 0x776a3bd91eb00bdd, 0x8eebe00bbf021333, 0xbe8130c9cce3786d,
        0xc877298bb312cd09, 0xcb571af5c8116510, 0xa3f8000a385869e1, 0xb2d89886747598e0,
        0x7e830dfa40af4c84, 0x5023ad186d6fbffa, 0xc88bb81969f943ca, 0x19c79ee3d3993f8d,
        0x64452d3f527f9052, 0x7a34fbf354b55036, 0x967070547f852adc, 0x3705c7535ed88af8,
        0xcf42de84e0cd9f48, 0xb944cb4bf04447d3, 0x2db31a7f5b244735, 0xf6fdefb124f3a85f,
        0xda7da6f1f0bac02f, 0x639bf7e05e3042e5, 0x8b025da879ffe4ae, 0x40ac8df11319bbdd,
        0xf4b45f67972d3e98, 0x56be1051b808f7e2, 0x2478ce665979b11c, 0xcb9b1cb6574df573,
        0xc28946d03f2e1f47, 0x70f97cc36004ac76, 0x0a1326d381bb48c9, 0xba3785967bc25f55,
        0x22d8ab7511b5b845, 0xe0806b726bfe2445, 0xecdfa74a1ab53245, 0x51f18009f66b5a75,
        0xcd4b1963ae7db913, 0x264cd0c1c7ce5517, 0x1289d419f30d3b21, 0xa88eecc2ffceb481,
        0xf184edafa9800a21, 0x8f7475dc5ee65cb2, 0xce26981213306493, 0xd274321460b6fe9e,
        0x5502a55b7b99bc65, 0x8d7ffbc2e1d4323d, 0xc2c44aa3b661868f, 0x24db6b1f657b8bf8,
        0xac18b516be0509d8, 0x7d89f6991ca754b2, 0x526e28e0642efbc4, 0xc8e17055dd3ed143,
        0x55df3485343c6fe2, 0x4aaf647a50fdff93, 0xd5db6d52e51a76c8, 0x3f9d85ca4b7b03a2,
        0xe8b550ef119cd86e, 0xf935c7632fa2c9ba, 0x80b6eb45c3174b98, 0xde93f25d2f4e7286,
        0xd9997971ba0ff53c, 0xccbdb8b4fe23607a, 0x72df70f84df2ac75, 0x276c13432ec6c56b,
        0x0c05e4b845cdc65e, 0xf2934a3ebda5ca50, 0x97047c0cbc2f3b87, 0xec1ea9a5556c82ce,
        0x0d770363a6c5524d, 0x7a60b7b42365fbe6, 0xc61a5e2d0d28e16b, 0x51534548b05beb86,
        0x9a6bd45c293adc58, 0xa4385d2454ad08da, 0x085f2b9877cb58c0, 0x358d6f8459f74ade,
        0x7ed3033ef9af0622, 0xd30b004b4323ca26, 0x9898516c6a0b4aa5, 0x73d44c7c3698fe49,
        0x053ce6873a0f56dc, 0xd03e5823c728536f, 0x85df941e775f00ad, 0xc93e9a01ab0135e2,
        0xa0176c17bff08c32, 0x00d5f694ec9d490d, 0x4c92b85dc5a757e1, 0x94a7729eee26f436,
        0x5acff0f2909361f9, 0x962829b2dbb68f06, 0x67933d63d88328ac, 0xf821bdd801bb32c8,
        0xa19f1f35a8dc61ad, 0xa9dffca8c32364e6, 0xa1d69edb6c39e116, 0x94d46e042b1b9a87,
        0x53afe5e4fea5b158, 0x098fdc5a1529cc41, 0x01fb95e2152f961a, 0xad630f5cbce7c141,
        0x235ca31bd08599dc, 0x321ef4df34cfec4b, 0x862ee6da3125eb47, 0xd360eff5900889a8,
        0xcd8fbb20dbc26be3, 0x968436d50fd186b4, 0x492b70d9e9d0a16b, 0x0038b78491e6acec,
        0xa2f5a9b587591f59, 0x6da7bca92141d350, 0x94bf5d8abf79af55, 0xc00b9409aabf2007,
        0x4f789faae702f76b, 0xb303d8de086ac3e0, 0xfca265c19960ef02, 0xc5745684e87a7046,
        0x4393d2bb8feff6c6, 0x0908ea50217a3046, 0x363450f8067262c9, 0x661926c46624bebc,
        0x470ab0952e151cda, 0xd6f0c1195061603b, 0x628a4b6b6316f3a0, 0x727a1a11570ba754,
        0x5b8d9534f59a74fb, 0x607a503c68ae801d, 0x89f687d59d66ce11, 0x170282eeee503d14,
        0x3974d17f0b32ad76, 0x473392fd84bdd977, 0x262e2e109cc68727, 0xb05c9e10f048651d,
        0x834c363aed868651, 0x8fe9023ccce091e8, 0xae77a584b9209fc8, 0x11461db8ff8cf35c,
        0xba98cfb37c6174a4, 0xcac1eabf52b6c2a8, 0xb66fc0b15e2ddded, 0xd56932aa9a1f4291,
        0x7bdf14d401b14f62, 0x5cac4da74e9d3936, 0x706b71ce69ca6317, 0x339e171b7f13d453,
        0x13e03fe7c6f26ecc, 0xfc6d84f8716dd8de, 0x845b681e6aaa227d, 0xcc0ff438b839ce1d,
        0x8f1f4c9366675513, 0xbe17110d230b8c74, 0xad6aee08387b7c96, 0x4a03a45cf404037f,
        0xdeb124bd9f41c777, 0xdc71cbac50d13bb5, 0xaec9d5705776851a, 0x3763b641d7ad5b83,
        0x95ccb024a3c8c74a, 0x35ebe6fa0aa4195a, 0x77e7979bb4db3d2b, 0x07208a8a4ba11910,
        0x551647166ace6d2b, 0x2c2d1aea777b8c85, 0x2d11eb14e4ec34a8, 0xf0d51d83f0b6b002,
        0x3fecca60b92fbc1b, 0xea83958954bff228, 0x46a619745e01c820, 0xbc0438caf3064c38,
        0x89e94473a62fabc7, 0x5760dba2b4b8f608, 0xbe0531c7c9eec4cc, 0x789f671e68722e61,
        0xbb50671d187e5e4d, 0x05e99914545cf730, 0xf3c768c588280df0, 0x8f982767b5f34960,
        0x517293ec9029346c, 0x34410bb18390b9a8, 0x7b0a23b2bf6ed15e, 0x64994cb28c194d2a,
        0x8ede39667593847b, 0x3069b9d4a24513e6, 0x1e2613d8b5e4307a, 0x96ec5fc6edca1866,
        0x8bd2493ee8905331, 0x860327428ed2d600, 0x4970ad941015b518, 0x2dc7f1fdf94fc35d,
        0xc9789d0700d3b3c2, 0xed27f57774840886, 0xcac9403265d539c4, 0xa758f0c8c48e369a,
        0xfad2e537fbb070a8, 0xe784ac6a3e0cb9e9, 0xeaca8e8e3d2b42f5, 0x5c86d7cf4a2d2996,
        0x686707a100f3ef88, 0x59c8850eb1b8d0ab, 0xea11910f11893f6f, 0x9cab67cbc0dbf26a,
        0x3390fd20d4117793, 0x0f4f37be9b879c07, 0xbb8f6422249ece3a, 0x6962efa3b59a3e76,
        0xc490659be97b6964, 0x9623f4e4e41567f8, 0x30c5d002b8521e52, 0x1ebd95bd85c1fb5c,
        0xe4488354ee47ad44, 0x214a90cd01bf87bc, 0x25ca03a09d4dab32, 0x48893a29f2b2b54d,
        0xd1adb68d68585ec1, 0xd49f6a7e6ac8a182, 0x11d58b0727551716, 0x7e8098053ad6a427,
        0x8247b3cc684ea462, 0xffc51da2a2f2cff9, 0x34e233ac28e09ee1, 0x49fdd6a4a0aeca66,
        0x22af1739b3362c01, 0x5d7f0013331495a6, 0x33c7098e7105a3af, 0x7ecf59c10f1f423c,
        0x18e9d8aec4436223, 0xab4dbf33661ee920, 0x186c3d0b9789f759, 0xc4e1bb28b6740645,
        0x9fba70158c4627d2, 0x11295cc3d87fb342, 0xdb9617bbdaf01f3c, 0x3517f18c08a9f816,
        0xe885f27f9a90f787, 0x80d06ab1ce0eefa7, 0x668bbafd13149949, 0x66144d9370709b46,
        0x234050148c2d59bd, 0x801baccfd5a857d7, 0x498fa101954fa4b1, 0x1f6248f679900825,
        0x4f4c1e1f70af2c00, 0x05750ffb8f3f633a, 0x078b91e5d64df5f3, 0x5b4a10b2bd386c41,
    ],
    [
        0xd93b984e8a6c59f1, 0xa3fcfce9cae4a29c, 0x2132a4a1e19daa98, 0xc90f23e81739daac,
        0x763c46284b5334a7, 0x02b38f4f1e3416b4, 0x8b1158e35612bf6d, 0xb24d7b3593ed465b,
        0x5666a4de6198ceb0, 0x996df9816dc9a82f, 0xb6861fcb485965c7, 0xe9051c05cf668a88,
        0x3486962340e32adb, 0x6f40f01e7980b7a7, 0xd95f4b9dde18a388, 0xe40dd09b8d707901,
        0x91b1121266e79ab3, 0x4faabb81451b80ae, 0x7de4df67aa09d9a6, 0x2326eae5da995825,
        0xf1b6460b695826ae, 0xb00d43593149b0c7, 0x1e9d7893b4103477, 0x02ca713ece417a68,
        0x18e2ab376fb48a80, 0xed82911431cd1584, 0x0f40991d497596f0, 0x877bd7abb454477b,
        0x36f4ad6e07a3072c, 0x846bc5f47ba85a64, 0x65084e920473798d, 0xd8c0ef776d432566,
        0x78a48655e70d7a0c, 0xbaf975c9300525c6, 0x6d1a388afe568756, 0x2ea3275c161ff2d3,
        0x6f09531580b43a33, 0x6390e66a94f05799, 0xc7fc34e720b46ad9, 0x69081abca34e71c4,
        0x92f0697d32331e8b, 0x9cc9d542f49ec378, 0x247b1e9f1b42f79a, 0xde03f7d35b101c3b,
        0x3d6f1c34ac28043b, 0x0c039a2a86e46769, 0xd636150b46735a1d, 0x788c293ac9d6ed71,
        0x52e86e177796d694, 0x0cf89e7038c2827c, 0x38643082df7a649b, 0xe989a61698996c5a,
        0x6b3307cb917ec17a, 0x53abc81577d3127f, 0x419947b0ef65048e, 0x1061f8a6ce3d40dc,
        0x1e2aaace5e4cb178, 0x0da3cff774712ea6, 0x591d5b0caf2bc852, 0x68c6edabc7cf3701,
        0x591b1b08a6b1aaad, 0x98903486d29355d1, 0x100dfde0f67b41c0, 0x8b97b63e25470744,
        0x33f922275c7aa230, 0x124a1ef5ad1709f5, 0xfd97f80d69566ec8, 0xb48bd5ca812494d1,
        0x340c9639cd993fcf, 0x7949b5269f43119c, 0xe6344dc108f1f197, 0x92ce25c64663c28e,
        0x136c1f254b9e2f3b, 0x81b747cc39ae0f98, 0xf19d958bb56cc520, 0xf7dde057df18b4fb,
        0x724e7c234eec789a, 0xe3a05f25d4eb9d42, 0x617e84cb9e93c9be, 0xbec58a9690b3be71,
        0xbaa7904284f6db66, 0xcb25baeeaf661762, 0x94edd1020a6c8aba, 0xd8e16a683dc4bce2,
        0x867624242df9dd85, 0x99ced6288e3c3970, 0x77e262ce5c2d306e, 0x6e7a8e0ee302af4a,
        0xf5252bcc069e76e0, 0xc33cc55554312446, 0x1e352d9362d1d3db, 0x67aa6669cfc09b87,
        0xceb36709a4f1b6d7, 0xbb1ab06c22e8abb9, 0xfb65a024d97e8482, 0xdbb8e08821578d2b,
        0x5074e1eff6dce0a6, 0x82a33a53eb52f6d7, 0x15189d594b397ddc, 0x6c81dc121f2ae7ce,
        0xa5003c55f43ab40b, 0x00fdbbe21bed1b6f, 0x8a36c6aa6605b3f3, 0x1715674ece26c80a,
        0xa47aadc2c9fff6fe, 0x2730574c43b39fdc, 0xecf02ee41d8f7149, 0x02ab70e91073da9a,
        0x01d2f33f9de1592e, 0xc012e638776b77dd, 0x7d7490f0b49cfe83, 0x1dc5ce910f6aa999,
        0xf38772e12f1afd6d, 0x3f6bf7c63ae28ff5, 0x220a965a8f40ea29, 0x1727d6b08def2348,
        0xf9b9dc148821bbfd, 0x9f54c25c31c6c3b1, 0xdc7dfbae8fc8d5a5, 0x0d273daea8b53541,
        0xbcc314b806945146, 0xd92234dcaefb698c, 0x49a97485bc9e59da, 0x183d1a8b1eaf9bd7,
        0x1e0a6cc328468b23, 0x9af8ee2175bfdd88, 0x52bcc6451ce44a1d, 0x654e4728df3d6123,
        0x7b21a80b01fa40d9, 0xecb24f77659c9453, 0x19c1dec0cf8085b4, 0xaeaaf2c30dc58bc9,
        0x95d84cb21b5354d3, 0x37744e7b8d1973ab, 0x379198a58dc65c92, 0xeb1833274c071aa7,
        0x74ffdb37aaae3798, 0x19e45fb40a313717, 0x365a05144e78f777, 0xad4d85ec11272f1e,
        0xede957cebb2ac472, 0x6caa97a6f9709f0d, 0xa8d2679f84bd15df, 0xf3f6f6fe0e1fa80a,
        0xd0e1917905592983, 0xe8ca239126d15a82, 0x8fb6ad0b1796cf56, 0xd2c6f351ecaf2b18,
        0x259172efcd9b0b80, 0x27cf65047bd8ff30, 0x30bc5f23e0850f26, 0xce473b5e2c346dba,
        0xe105e4d78e465ea8, 0x32457500c4a40ecd, 0xd48acb88acd0efb6, 0x1443a237ff589e59,
        0x9f0743727922bddf, 0x4a10a52f6949e917, 0x31e592d6f1b357d4, 0x89e7d8d8841adaef,
        0x79f657d4f40b9695, 0xbad98a93d282bfc0, 0x9ab7815b9312071f, 0x4c1cd6a929e49d1a,
        0x9f638d54728604aa, 0xc3435345f3b145c2, 0xead911fb4dffaa7c, 0xef944365295f7e08,
        0x5db5cdc321d8ee49, 0xb81f080530721d5f, 0x71edab6de2a3f2bb, 0xf9dfc3dea58e1f6f,
        0x42e261f2dd28c080, 0x3eaaf8c77eb08648, 0xaed4c8219bfc1153, 0xec468cc26fbcaeb6,
        0x14d609edac465919, 0x7b9ccebe1ffb5379, 0xea79dbe35d6af197, 0x5ff9247350e27bf6,
        0x1e8added2040e9f2, 0x0a9ffda6ea5a7cef, 0x337974258b630600, 0xa16b93d9fc5aebac,
        0x85283cff08c99282, 0x8560d2b207c183e8, 0x25bc48ebad780d68, 0x1af18a908de298b3,
        0x4360ccab5ce26319, 0xfd1db5da96b9a478, 0x656091e0f91354bc, 0x60117f86116ce5a1,
        0x680d4c0b0764b362, 0x6450f881f82d5a8f, 0x536e06cc58e58a70, 0x0cdfac53f3867652,
        0x51f57aa29e21f170, 0x47c6f4296c797348, 0xa4fe4a4b99224103, 0xc285a32b4f01f9ab,
        0xe07578bd0f7152eb, 0x0cb626cab838803c, 0x22b94c929456d9b9, 0x8338ff68aeb28985,
        0xd6f8903f3974aa2c, 0x2daf26ab703b0837, 0x2ccac62b42466525, 0xbd4f2648022a0d8c,
        0x00e941a971a582a2, 0x5b3835aed1e390cf, 0xea2e9418da5fa9e0, 0x68a6c4e5fe438fc2,
        0x8a7ab02b64602c43, 0x544ad749e6831e9d, 0xb619a6efab9625bf, 0x5ac2057ac39c5437,
        0x6d5f06366107c8ed, 0x10a730bd592aa15c, 0x3c5fcbcb251682a5, 0x0f5a87d4dbd81c0f,
        0x0f34712430bfba23, 0x66f2adf2c10c9b87, 0x48668e858ee994cc, 0xc29a9e345fad9e1a,
        0x92d0fc31892fe71f, 0x28fcced33f581137, 0xed4c969b6b65fe64, 0xe7ccd4f75a479e98,
        0x2f625dcebcbfeabf, 0x4654496622cb2bfc, 0xdee0be2cb4fe728e, 0xa59c7b80b8242174,
        0xf9b7214f2dc097c6, 0x6c2df5238c56ebeb, 0xe38eaac12913dd29, 0x55a6ddbdb1fd19bc,
        0x0ce5cfe711d1e049, 0x9ba7dece42fe12f7, 0x7f0e711643529ed9, 0x731abe6824a43b11,
        0x48d5be7e77a86760, 0x52d4595129570d73, 0x36cb511d01e74d2b, 0xd80b7fee995e5013,
        0x507a14c5f94b4ef3, 0x5301445dba6ef269, 0x4f70ded330c5a864, 0x1ee71f86ab476a7a,
        0xd0ffc8faee9f63f8, 0x24278cddbf909fbd, 0x9703ce59bb4b8e47, 0x3812263a7dde0647,
        0x17af9c16837f040a, 0x91a40e8949d80347, 0xb9823160bcb36418, 0x058c1e0c6c3b960a,
    ],
    [
        0xcf21a7c6a938a4f4, 0x0009366835341e0d, 0xc092e378ada9c4ef, 0xaf4e9906f1feb710,
        0xe392e6762b33d61d, 0x0ba03f3bc7e2c203, 0xb818b7e217bcc13a, 0x4f234c9e2b641766,
        0x5cf8207da8fff9a2, 0x60a23c6b0554f3c9, 0xde5a7c6f599a8bfc, 0xd92b14114994d78d,
        0x30fd4b9f58bb90d9, 0xaa751fa7f235bb5e, 0xcd95bd87cf01c850, 0x3d313e3f54b191e1,
        0x2a2cc80c826be482, 0xa78e826ee620538f, 0xdf0266b46d23d8a1, 0x995d377577aa0a28,
        0xf83338822274fb99, 0x0f0fe7cf5221beea, 0x966d749fd9f045ba, 0x89fc8b2c943c4952,
        0xbad7a5b29ea3bdd7, 0xb22abae924f912dc, 0x3a72169dbdd1e85b, 0xdcb2871192d6f415,
        0x5fac70e17984171d, 0x56d09642ca970bc8, 0x20844e7ef1d3b912, 0x2b6cee4479a301da,
        0x4b76035d1b016304, 0xf594f1f004a4c856, 0x15ae46cd8912be39, 0xb3f7feb87f840f36,
        0x8c4893f6f302e5fc, 0xf15a220d0a749914, 0x1d2368d6189834c0, 0x265c438ff6088402,
        0x8302d6fb79899cc7, 0x0e785bc017d77fee, 0xb9ca873f8523decf, 0x37d1d40a7f016b18,
        0x56d6cbe88c8bd48e, 0x304cc3df7a8fee70, 0x994abd0bd821933c, 0xf0945ac0ac0f6d9d,
        0x6d162388f7cf1abd, 0x7edf06a8c87346e5, 0x142fc746f09fc95d, 0x73e5d4b9e43f9fff,
        0x2772789c2f3f2723, 0xe10dc5099f982407, 0xe486306502da327e, 0xe75cd96d79975677,
        0xe889eaf16a434279, 0x6ae7d06936194dba, 0x9c40bcb9d3eae9bc, 0xc8d989fd9e1a46f1,
        0x615806a1f25cc94f, 0x56545268d6b28b07, 0x2c2ad67e5f5b64e2, 0x99558584299f7295,
        0xa3f79700126c17f1, 0xf569933ad5cbe51b, 0xc37dc2d628bd6b52, 0xa3074f214c4d0695,
        0x47bbf1a538589392, 0x264bfd5235588369, 0x209be53886e26df2, 0x0cee51fa166a998c,
        0x50fdd18204e9a1fc, 0x1bf5f7227022860c, 0x7261a8b273d33632, 0x5b591f8eea6240c0,
        0xe17c2ba18208143c, 0x9f8676ded3009562, 0x9cf612df9de402bb, 0x355082b5acd4532b,
        0x3b583169d88cd869, 0x3dce7821a9e61ec5, 0x78745d10bd1bba85, 0xd3ded18da3e2dc60,
        0xdcbf1fcd7ae3aaee, 0x1c23961bfd552623, 0xf3aca3308e9e30e1, 0x9a27786dc9f017f0,
        0x71912213f15863fa, 0x72c3986952a27ab5, 0xe715a7003c8d0205, 0x10ac28e1de266885,
        0x23f504e7dc5b089f, 0x394dd25ffe3a5bb9, 0x282772c17da8c744, 0x122d6765b15f2c8a,
        0x30e016502fe62ae3, 0xcdac6e2b2e33c82d, 0x6c5ef5396242f9e7, 0xdeabaf263a2932e9,
        0xb7d01ecd0770ea9c, 0xe4bf3dd95095ad51, 0x46813333026954a5, 0x383b30d43a86b41c,
        0x597358e135d28875, 0x03ed09bc21b6c1f7, 0x2237547336f80324, 0x3a921ba0c7ff4e58,
        0x5bba5117a4bc70e3, 0x5cc3634749e27691, 0xea7a317807162eb5, 0x9daae0679dd1be56,
        0x2352e5248e088062, 0x939a7b822b74c898, 0xe4c17b307ae4a525, 0x423a9c60493d344c,
        0xa36dcb33ba546db9, 0xabc1d5b95d628463, 0x0d0dcaf02375a825, 0x1a99521a56f1f0a5,
        0xb423026e32f5e734, 0x350bd7b1761fc351, 0xab790b60124a85e7, 0x3f3bf40d0eeaed20,
        0x0a2bf92901280db0, 0xcf96d31199593c1c, 0xece49849f5685abc, 0x7423cbcf595d7228,
        0x8f0487e14a53749a, 0x252be356e6af53dc, 0x6e690beaa8fdd2d9, 0xbcd082c8bd15dd05,
        0x06a9537bdbfc3c1a, 0x844787a2c8434bfa, 0xa61fa23e6f28946d, 0x06e4655a5325df53,
        0xb0e9ba2afa84cc79, 0x34ab37e408e1037a, 0x074f5045ba3d318e, 0xf4c2be302e88fd03,
        0x5bbe8dcba17cb381, 0x957a3cd54023da02, 0x27c116a6ed068504, 0x77f8efde661b4d40,
        0xb8ea9ff97d832f74, 0xc8d4c7fb8d5ad21e, 0xbabb1dd0d9b75052, 0xfe065e9c5decf84a,
        0x6ca5c2a9fb40db4a, 0x24e74e5b5dad4fbc, 0x3a3ca597d22c52bc, 0xb0a2500124b2acda,
        0xb4d6e674d7abf63d, 0x8a25640070bae67c, 0xcd283d1d83c92358, 0x1bd257eca2a4d3db,
        0xefa94500d2f5471d, 0x55021bf6c300edaa, 0x863a7a1a9a449c59, 0x1129185d2bfeda3b,
        0x12ea9046e5659dd5, 0x886ba8b0e1d42eb6, 0x40487a130bdc4ed7, 0xb89350c1e4972506,
        0x896bea2ec72b6cc7, 0xe1c25037529e775f, 0x611729bf82f1b4ec, 0x10a25d44ee42a734,
        0x5dc7bd7d515ba5a4, 0xd4c9cc657d6e746e, 0x82c9ba420c45fe0a, 0xf9236053b3d2f8e1,
        0x7747d615683f61e4, 0xa9868ed0d1b4b699, 0x02b038895b405fd9, 0xaf3c0ebfae762959,
        0x49eab7caca709525, 0xf13c0d80c8fd8415, 0x3aab946d45e75a5d, 0xf29088f2ffa84fe9,
        0x47fc06e3b26af3d5, 0xb2f9500970b68fa0, 0xa78c0cbe5ffdb09c, 0xa7e9deaa6c6a708a,
        0x107ed23f4dc09d4a, 0x778a67edf565128d, 0x4477c9610eaa9e64, 0x457cef775e99a40a,
        0xe6e16b3ff95315c3, 0x1c565acbfe308506, 0x7dfbe06286883d77, 0x2466201e733206af,
        0xa4cb05cd90e1cc69, 0xa3305557f5c7a4bd, 0x60e4a27ed07b77f5, 0xeae6252b49c30a66,
        0x914a867a27d2a04e, 0x45742a976d989caa, 0x046fafcb5abc9343, 0x6e0f1a451523e024,
        0x9b09b7e868caacfe, 0xaece05144bcd1703, 0xf2bcaa8c3778cc74, 0xd93d5e7747bb36dc,
        0x3ec3155a00bf9467, 0xa3ae4914c6eaaff9, 0x1620ad20975b4771, 0xb6061ede0f7dbe44,
        0x3214426fe8459a0e, 0x23dfc6084a00eed0, 0xa79381b51346d658, 0x66ef52ce7a509eaf,
        0xefac056b39ffc266, 0x79b8a60f561f47e7, 0x06ff24d1d8fc5fa9, 0xa4e41a3307b8c01e,
        0xd8b5fa07bb35157d, 0x81b8e3392833a648, 0x263acd0a1195bd87, 0x91aa7f6275a8647f,
        0x98151d95397fd023, 0x4866cfb84fc5fefd, 0x48566a899197a87a, 0xe2bea562dd867106,
        0xebd911caa2869d8e, 0xa5d90ddd246b1f49, 0xfca768a37c97d673, 0xfec6c1ec3fe5a242,
        0x67c8093811dbf3f3, 0xf91d8e89adb2b0d3, 0xd27a7973a21676b5, 0x9cf8f14c6b17b9ac,
        0xdc07d8e31ee2350e, 0xeadc4dd5ef54ef5e, 0x789ddc45fbe528d2, 0x68ec52c15dad42ca,
        0x06a78fec079fe3ba, 0x384108414bf54d40, 0xc7cf4921ac2e9180, 0xe022618fcd6b64a0,
        0xd3b703a5bfda1d20, 0x16a0450ea739e278, 0x28f7a534a1a32a76, 0x6de9af53983a9f45,
        0xd454d93b30818f43, 0xaf679c222522f4c2, 0x059ae08003489dd8, 0x3a73bb998320a3c9,
        0xd1688308d24ef8d4, 0x0db644659531056f, 0x8e0d2902bba01944, 0xce32c35d2f773822,
        0x1adcce59f843ebdc, 0x47a9e01860e20406, 0x28adccb7464259df, 0x00a1ee6ea3610279,
    ],
    [
        0xdf3f1a9c9e4ab6a3, 0x3ce2408f6fc6ba47, 0xcf41b32abb6903df, 0xc92e024f0f97f308,
        0xe1ee10d415925ef6, 0xcf40a3e6ce0aa464, 0x4ecdd744f60814c0, 0xb3d520f966e9591f,
        0xde540243786b999f, 0xfbce55569def8fd7, 0xb26ff25ec8f315e9, 0x57574bb5f79a81a4,
        0x10cd6fe7476f7747, 0x152c61e263e1920c, 0x91b2df3fb455a9e6, 0xdd5be45373a14cf9,
        0x1f752141e64d6eb8, 0x3340813d9afb0e5c, 0xa0f742210421bf8b, 0x59f13219d599213e,
        0x11cfdbb4d235bf4c, 0x3a287ebd6ac17171, 0xdb0e11f013cda962, 0x5a4367ba6cafca11,
        0x87826159605ecdc6, 0x242352d315a7af77, 0xf0c7be7e0933a905, 0x9ab8e2a5bcc3cac0,
        0xb80df2c8cc4bf053, 0xfd751d12a31b66fe, 0x6959ac30cc491d3a, 0xa7a67ecd447d20a3,
        0x1d1d4fa9935f9f48, 0x1c48944dd942bc88, 0x0fc0884d5ab01d02, 0x8a7f1c50b49d8b69,
        0x55030c9375cab24e, 0xc9c5f5d3aedf71c4, 0xe8f20fd1d228a74f, 0xb5fb1fa512a0d978,
        0x8ce24a6251b123bc, 0x836d54d2da670f1b, 0xb35930c9bdfa6cac, 0xc1994c31ada7ef2d,
        0xb5f075565f0b771d, 0xed234bb7219eaed5, 0xf1408c4f272874bc, 0x08f58001bb3d7e62,
        0x155302782bb3762b, 0x161a9eb382417a2f, 0x18d84a67a08912bd, 0x553aa671a4c75b5b,
        0x631f1daa1ecf0a91, 0xadbfcd935d43b018, 0x7bcb8b6bdbcf8b93, 0x567a91bcaed545d3,
        0x85b7e791ddbfc699, 0xf9b07458e153f697, 0x3589c0cb4c6e88ad, 0x89b3a75478255837,
        0xe533561fa3b42507, 0x258c3e95e2589ab1, 0x7988ae4003f0331b, 0x26e400fee71ae40d,
        0x995b737e7e0c824d, 0xde2017b65a99cc51, 0xf7d102bc0ad28ebe, 0xadaa7611048351fc,
        0x183bed284dab3c57, 0x0e435d99826a2462, 0xcc76685f1fb83754, 0x499c5b2f6972da6b,
        0x11db93699084658a, 0xdd7fe5bc4a5941f8, 0x4d144af862de4ef0, 0xc57c78c642706af0,
        0x8f956273c93f8478, 0x77164aebb24ae59d, 0x5ad02624f274e656, 0x55c2ae33d11a4ff1,
        0x05579473317ad050, 0x1358449b1de35d6d, 0x9c364f2b658c436a, 0x8fa4ca52202ee018,
        0x2d907f53be5a577f, 0x2504315d7a0a29ce, 0xbe004f6c125d22e4, 0xd3bb0c26caa660ed,
        0x4fc8fde804cad8ba, 0x72a782f4a1e2cd07, 0xd97b3f6b055ed17f, 0xbbde8e330a0d4729,
        0x68c685a063dd580b, 0xde64be54ea73239b, 0xdba8c32a5f8b5655, 0xc8eb75a1e7369daf,
        0x544d0546a401ee29, 0x6be2210f7bf8590c, 0xea8b5f85d1e60339, 0xc269d8b7bc59af1b,
        0x24aef48b2c5cc313, 0x2c289c10e11a5f19, 0xf3573c117e33bfa2, 0x8e680b532b3e4196,
        0xe7e8742caa19ab95, 0x3148cd36d4d02601, 0xe4a8907e7bbc19c5, 0x5ec37aad645ce64f,
        0x21e117d1c0938d29, 0x7ee96e19cdb11867, 0x9e0d4b153db9dd7e, 0x587e168e6741f1e3,
        0xeea396b98e0f96c0, 0xce1016916bfe8c8d, 0xbf1cf225ee9cca3d, 0x05aeb45e3f255cd3,
        0x7e919a36014482bf, 0x0621dee15e51ef2f, 0x2ad35ee84139ba4d, 0x351958cf1608be5d,
        0x0020e2e4dc5ebc02, 0x801a66602a338376, 0x433fd20682033783, 0x8834bcc766cf2a20,
        0xfbfaa670ea3bc316, 0x1c5cad0400a37558, 0x3e0743fa8b76843b, 0x196415f65a2034d8,
        0x9b8dc063cefc8732, 0x96ba324b3bf719d2, 0x77177539040c5526, 0x906a75346fd15426,
        0x405c1194e072174d, 0x9ca74ff57af451e0, 0x27409c0127c26b17, 0x9bfcb5db6a21008c,
        0x3040b72b20a44364, 0x1a69dfedc26eefe0, 0xb96d5cf15c922c8d, 0x3cab531d4bce3733,
        0x2f547810732090fd, 0xd2a1c51113100122, 0xf67438796d464652, 0xb4b61a46a2bce098,
        0xc47f393aa7bcdc0c, 0x1956755c32d5dd89, 0x2206fd3f247b734f, 0x0364db3cd9603be5,
        0x396d475c77df1f2d, 0x00e74c9fe3c58fdc, 0xca56ebc3fff90bfa, 0x39836fbd62bb9a03,
        0xffd5fb47b5b71d64, 0xc28f016785573b9b, 0x204a4f07ed1563d5, 0xc97c4131a9785de9,
        0x444aa126a21f00db, 0xf9a58947fb15fe3c, 0x17b06ccb719c6f41, 0x6c824680cb401525,
        0x714d9bf01c742710, 0x2b55a58733c12fc5, 0xa10c9698bdc820fd, 0xbc258bf2767ceb56,
        0xa9d80d5536a0b73c, 0x8d61f790823d0d4f, 0xfcf76202f39235a4, 0xe3f15c10883b9b85,
        0x1987203c31c909d2, 0xe1e83edf14ed0516, 0x549c266314478579, 0x8397d3643982ee97,
        0xe035f82c649046f5, 0x2298e2e90186632f, 0xb1ce6bd078d403a2, 0xc4b8f0bc6a233c14,
        0x08ba4a54dd5234ff, 0x212be2f6e05537a2, 0x40f1bdbd8c67f7b4, 0x2949b8718c868ac3,
        0xb0c95f60b02b2524, 0x34aac6ab7c434733, 0x0b0dd8b9e163e7a6, 0x9470044c5fd9239d,
        0x9aa1ee201fa91039, 0x85c4d477180067e0, 0x2d025a8d210b3663, 0xcb93838f889d430d,
        0x8ae8eca16425441b, 0x0950f1c328e73dde, 0xf1f03e1a71b33554, 0x5dbcce4258f14991,
        0xc8a1b7e5769a025b, 0xa5910ba6e29acc22, 0x7e169a814c1ca9eb, 0x09d5f83411ab5db9,
        0xeb1a78c24aaaf384, 0x0d059657fd91896d, 0xbaf43cf8ad035703, 0x5bb783a0069a6f69,
        0xcfc693e05b2c5269, 0x746103efcf1c6050, 0xef6d5375740a05da, 0x51bb54da17fb3d1e,
        0x26a45f4e1e6a4c7c, 0xe548767674ce4dd7, 0xd571bed84f170271, 0x2bdea656a4575de5,
        0x2988e8a54dc59f95, 0xa1aed13ee16bbd4c, 0x9d618007911f793a, 0xbf32bcfc3cbc8263,
        0xe35bfb38866339c4, 0x623cb14506d4b8e2, 0x52f101ba95a196f9, 0xb6c9861f1c3c34a6,
        0x108a0322f7cda7da, 0xd88da13c14bbcf31, 0xc2a560af5fe2f9bd, 0x550449a8362556fd,
        0x7632030c17f59861, 0x50d7a67d9e4477d2, 0x85a71bba29476568, 0xccc3fd0ba6246921,
        0x37a7e64791648a61, 0x002a9c96dac78feb, 0x80a3c7fa8a0ec2d7, 0xf69c59d157da0bcc,
        0x36c2841ad8d55a0e, 0x1ea0be1a2b9b7d55, 0xffd675ea53c832d4, 0x4b673f004ae4506a,
        0xb68c9c4d03f04edc, 0xda36b80b5cf6eb21, 0x671c5264a0c531e3, 0x1c92afe90a7cd129,
        0x93a04dd433cc6434, 0x96c7676d4cc20ffc, 0x0f0f2c97479a35e4, 0x0a7304dcf9144f6a,
        0x6964d6e89d988b30, 0xa20d3ba7c97f7b05, 0xafc41b77c4c9f2cf, 0x7409e759bce707c7,
        0x67f7443f2660ca2a, 0x4038a649ecabc704, 0xa668b75ca4d08cda, 0xa0307d120381ffc3,
        0xe3da9c83ca0ceebc, 0xdb556c829f9d6bcf, 0x5dce9f9ef223b446, 0x4a7ce2b7ae6ab257,
        0x7db74b1560a1d19c, 0x17941fa300ba8337, 0xb884c17ff107f76d, 0x4aa977deb5afba85,
    ],
    [
        0x5262033af24c3772, 0x44c5d8f17360ec17, 0x48ee432d5aab8f01, 0x23495b1c1de85167,
        0x8dee91afd518b899, 0x53c16cb1a2fe4bcc, 0x8851563d3d820d5e, 0x6cba2116709b3fa5,
        0xb622ca0927b9f00a, 0xfe2042633880291c, 0xf56cd6debf8f8f67, 0x984a2ea2cc4a3880,
        0x072e0356b5dd5c1f, 0x1c0a7bf8e764561f, 0x52d1cac7f0054d73, 0x6b7a3e3c7016cb2f,
        0x25286215980c53e0, 0x7481dd879957e4aa, 0x53f839772e8ef2a9, 0xbd67ac0a10cc6672,
        0x0522b0675bf98ca5, 0xf20f886437fbdce1, 0xd2649ecbd2918c90, 0x80d4fb51f00bd9b4,
        0x8aa5746cf16bde54, 0x8d3d39e7efdfb56c, 0xc9c70580b0f91f35, 0x22baaff9bf1eea4b,
        0x80313a06dbd4decb, 0x7670cbaf6d4d2961, 0x05b5e39aaff2fc39, 0xb8affba2892bde42,
        0x37d750c5d8fe4576, 0x9eb1553f8b03b5e0, 0x5edebe3e482b6b2e, 0xde68edf93af66129,
        0x2d3e4dbac17edc6b, 0x5786829f295bbb8f, 0x97a564c72e3f0020, 0xf6c5e6f9a52bec0e,
        0x66d90cb7bb4211d2, 0xa7acf63a104d9308, 0x772be820d1a5ee7a, 0xb6affe1bd589a299,
        0x3b8c1d18eb51e393, 0x5058b700560a5d01, 0x9fccf27d2f2981a2, 0x2c90083f4c911e34,
        0x88e09c2ecd03d247, 0x1072817a17e92eda, 0x9498c37b471599b2, 0x4da62a9f3cf6367c,
        0x5cfa6218c98e72a3, 0xa3332e5ebe434ad2, 0xaffc22e651dfa1e5, 0x70c65737fa13407a,
        0x4d0938223807d9ab, 0x1a038ffa4bdfa810, 0xef3bdff2a8410d48, 0x2e8ea17f4f4f9357,
        0x6aacfd9bef7a2d59, 0x76444865efefd566, 0xcae7810938da5067, 0xc45d85f2c51fcc4c,
        0xce526bc1754870c2, 0xac4d85e4b12f7e33, 0x271d8059549bedbe, 0x4694b352e18446ca,
        0x4278bfa3467b4c6f, 0x65e9d7603beb76b5, 0x459f48ce10c895ab, 0xcbf0f54144825a7f,
        0xf35fbc25a6b90efb, 0x92e6542845045006, 0x961fc3798ce2ce3b, 0xcb2ebee684349ee4,
        0xaaa9ca64dc43e301, 0x423c5d4146f4e190, 0x19321265b1233fe5, 0x81a1994a479413a2,
        0x9dc0dbad7096408f, 0x4bf381b5aed9d47c, 0x288dbb83d586a388, 0x8f1339986a57d2eb,
        0x4d21ec218799c529, 0x5f594b7ceeb5bf79, 0x991dd480004d2ff2, 0xcb3d79cd8fb60a6f,
        0x3eeaa9a3fa9b2f8f, 0x19743be16475a055, 0xaafe2899d32f3ac2, 0x27cb3db662de57c4,
        0x673820ad5082c8b7, 0x7114b4e69245a63d, 0x1baab1fbacdce235, 0xdf125ae360107b79,
        0xe9f2827016f5ba72, 0xc605e44b5be80a3a, 0x49a2c46dc1214b97, 0xe10919053c9bd7b4,
        0x57b9e1a4b4063e25, 0xa760a5b699d4138d, 0xd66840a6219bc08c, 0x9662fbd0ce56eac7,
        0x972550656e51fb19, 0x128d4ef123df02c3, 0xd156bae222b70c01, 0x01a1574f674fa2e3,
        0xcfe3f7f835ff8f50, 0xdf90bb15c1453989, 0x29e4bbbbe65e8698, 0x217b1714ae315318,
        0x59219947c076fd58, 0xd9fc581ab1c54b90, 0x682dd272494b855a, 0x719bda8ccf628c99,
        0x03c7d273f6ee4cf3, 0x2fc5ecd965d58aef, 0x407fdbd64f47b810, 0xddf4aadf4b6db2d9,
        0x75fcbb890d45a7fb, 0xb999d3dd4183664d, 0x72b765e60c3691be, 0xfe3c776a491ca9ca,
        0xca7fde4fd9fcddfa, 0xeeee34a29efa9dff, 0x9d0aa0b142e079c0, 0x684c6a766dc66386,
        0x5d6ad8941ca7b859, 0xcdc165f22ae89127, 0x703d4195c9d03177, 0x6c8be468441c4b66,
        0x9e3ec8f685dff093, 0x37ff7f6037fd7c91, 0xdc7ef022737d99bc, 0x5134b29eee205a60,
        0x0b877703bbe218f8, 0x0571eb9c61b80bdd, 0x5cc65760cc6bdb40, 0x1b629fad6d2ffc2e,
        0xab6697a6219fb025, 0x61922f580f001ea4, 0xa9b4fe9c6190402b, 0x6ea3c880b7283e87,
        0x745678fd35ef761d, 0xc916c04099318ee3, 0x166bd92f84556a30, 0xc9dc7a0ee4ad7e15,
        0xc56e0203ed4f0df6, 0x8ba56b3231221980, 0x9e3034bc04f74131, 0xface8c1b7cf493f9,
        0xe3914a54c961e26d, 0xdd2b592f2c8b4d2d, 0x7fa7516b9800374b, 0x1b39eecf7570bec0,
        0x9d8ad978500327e4, 0x60d456833547b427, 0x77b4a848ec3da8f9, 0xb41a0d5aa9ed1aa9,
        0xcf7de19cdcb9401d, 0xb6d843b69bd2f850, 0xa7264ffedf56f9bf, 0xaf8db08e8ed0a396,
        0x9ea77681eaefc2f4, 0x8b53f053e1c841da, 0x19da6d7d3a9ea349, 0xf8c6d26de218da2b,
        0x0f8db1bc18291c02, 0x61fe8efe6bdce2d0, 0x33dab160340782a6, 0xd58c8a97e0c2939c,
        0x0066cec37b4944f8, 0x44dd438b6ef3c64b, 0xaa2d3509f00ed272, 0xd85935f4fad574e1,
        0xa67eb6b3d987c0c1, 0xb08d4abb75d080b9, 0xc8483e5da3b55722, 0xc24efa389c1ac5e7,
        0xb60d88fb3cffddd3, 0x6a60463e4dbe811e, 0x29729840a227bd83, 0x112c9bcaac89cea8,
        0x98a6d697f078e7d2, 0xb3c6f52fdcf7ba1e, 0x206715b7001aedc2, 0x378876acb996fb53,
        0x5e29011487354e72, 0xa7cfb5c02eb7e487, 0x032b440e36709a28, 0xeb7807c69a50f766,
        0xd723d9ca77efba45, 0x112b38f8e5d1d53c, 0xbc43def6ed5fe4dc, 0x10ccd2dff451dffe,
        0x29fd04e08a2a1ee2, 0xa3940fd45ffb9218, 0x8085a3571edbcc32, 0xbe52a56df319f76f,
        0xe1aaf330b83af4d8, 0xbee0ac3040632434, 0xae2a447adff44ee9, 0x152fa75f92ff76ac,
        0x406e15eb69d2e078, 0xc23c9fb7468ff9e6, 0x3846d0bbee7d6957, 0xd5895dd4148fa305,
        0x1e7fbc1d75a18318, 0x947bddaf7bc78f23, 0xada3c1e3555e075b, 0x827ac24f66a02265,
        0xa3f251e4a59dd4af, 0x79407b6636090e12, 0x6c6f5a970d823304, 0xe1d69a0e6724c712,
        0xfd6e1fd246410ac9, 0x243d68369cfb2b86, 0x7f79d0d8e513a912, 0x168d805bc158a0c6,
        0x65544a851c503e25, 0xfbba42ce5d332929, 0x4665d498a47cf995, 0x192735e187db1ac9,
        0x83d9f708ff8d2e54, 0xca53261537eb431a, 0x462c682e9b6db41f, 0x3a80ca388efa89fc,
        0xe3be70a8f0fec724, 0x8cfd6cc158990d8e, 0xc7e702781634d98b, 0xaddf7320b54df1cf,
        0xb4499fc56cc2814f, 0x311afd26edd1d23e, 0xeb30c786ebd37b8d, 0xe1fbb4603de21769,
        0x3347b89f3e562a27, 0xb3c226d66391d1b1, 0x7efeefdb1c1d83d8, 0x21d02217d332d49f,
        0xac56810f42869527, 0x949a33377320603d, 0x2b1a4564173e998a, 0x9a0c3425422d0039,
        0x8d1e29beb9d42a63, 0xdc1bfa9fbde83387, 0xc9231618714d9551, 0x8814a64bfb0ff7e6,
        0x1664df25a699ead9, 0xfc6ad460741509a8, 0x88f34398db1f52ce, 0x84332e64036ec7d5,
        0x02c093bec81903bd, 0xd2bba8b960bb2e05, 0x6832e3c11526981c, 0xdd1042d8bd54215a,
    ],
    [
        0x4dce57bfd0e92d15, 0xa8b6ba79e9678b82, 0x34cd71cacd2c221b, 0x8367d94f7ad4164b,
        0x1b20593d64f779b0, 0xc04237bf92ccf5e9, 0xa51a275a2b9f1c47, 0x851bf534c11b8f25,
        0xbc0ceded7f805f66, 0x2b263cc630fae46f, 0x6abc64ac647460a4, 0x4bee43413f3306ae,
        0x9765977cf77674fa, 0x9b917904666db903, 0xa6bf6b288cd317c5, 0xa928ac472399c140,
        0x83a588bfe3fdd43a, 0x1866d62a528e67f5, 0x98cf967517fe1f80, 0x936b83683d7d6cb2,
        0x75389ff0276d9c74, 0x636ab9cae3a363d4, 0x8bc83e1ceed5ea99, 0xb01a2375eaa117d3,
        0x0f3dd82f424343ba, 0x83a25494cf2469e6, 0x99e674e095adfd63, 0xe6c34ead0a5d9eb5,
        0xb741ea76f0162fd1, 0x0840a40eda24b788, 0x7419e88b697ea9a4, 0xf825c47dd427c664,
        0xcf46c84f3e7ab790, 0x5a1e9b4d804795cd, 0xbd34687ce7347014, 0xa65732a8e47c474a,
        0x5a3afa1a410f03ee, 0xe804680b29fa6ac3, 0xca40dd8922db6796, 0x74d8f81374096051,
        0xa515a99c3d205b47, 0x128749a604915d50, 0xcf27133382a80832, 0xe97c09023fe953e0,
        0x30cfe07406069a7e, 0xb15a853d30c741dc, 0x0e322195c9f45631, 0xc17eb4edf005cc7f,
        0xbc4f167fe296afe3, 0x2b03908435c14b2d, 0x9de3e8958a0ca7ba, 0x0a5ebbc7c7798275,
        0x930bc6cb415a37a1, 0x76bd48c27e2566e2, 0x9463735192ca1188, 0x2c6b4f0de51d5e46,
        0x169f69a23acb2972, 0x8b553e953eb41099, 0x451f9bb75fd3e2d8, 0xb5268140e1a9b8e4,
        0x16e7234ffffa9efa, 0x6efe7fca7ae42df5, 0x668ad635ba66579f, 0xf8272f64289f0de6,
        0xf92f16efb39146be, 0xf0ea2c3fb5d99dd6, 0x762ad353933f8127, 0xa780a4ca14cd7e13,
        0x053c402dcdffdb00, 0xe76bf46a17b1f1fa, 0x6ece63054db1b452, 0xb0bf9260a0c5dec2,
        0x04376b69a661164a, 0x01ac7559d64cf23d, 0x9afddeafad0d90a7, 0x083322d367b689bb,
        0x165c356776fd0387, 0xdf2a952c64514053, 0xed101117cca02853, 0xf8c6915fc4eed1d0,
        0x6bc7fbb58bc62aed, 0x0d34653aa3db4b55, 0xa24e04edea7407f0, 0xe1830c04258522d4,
        0x47b681209650fde4, 0x73bd00ea92fd81de, 0xa53274dce16cf977, 0xaba47e77e3769812,
        0xf12d2065ccfaa3a2, 0x5a311f63d20a23fc, 0xd7f10d0502c535c1, 0xbc80b6581bb91f7f,
        0x21844d4ffa399793, 0xff71a74e7b57bb32, 0xf09ff0c216670fef, 0x418b4c051bdd599b,
        0xc3e7b325d73b563d, 0x981acb3f07496dd0, 0x9e32c0c9ac78203a, 0x7bbdf2f9242b4aca,
        0x4a5f16c64e720ed2, 0xdd5fddd74bb007fc, 0x551d7fae2e2e78bb, 0x8b105d2c1872542c,
        0x2f4b5fe9d1b604c4, 0xa0d877c6b060f541, 0xf931593921a25098, 0x0b8086dd78650e22,
        0xf5af8ea051c1a999, 0x55dcac00aded1468, 0xdae743681d624ee9, 0xe8485780270a843b,
        0xf9ec84e605bb3c1a, 0x767214de0ffe24aa, 0x430976fc293dfcff, 0x8ece96cd0c48eda0,
        0x89b8f2a96373671b, 0xec8c457faf58e930, 0x9ea498622d1cce61, 0xcd75d509e390d158,
        0x42b15ae0e7f2a717, 0x53d697dda92d58dc, 0x962af24ad1fa5b9c, 0xd56d3294b75feda9,
        0x4a1fd8037d2854d0, 0xe92981d091bc57d3, 0x40950d4d4821dbe8, 0x5530adf4e7d69bfe,
        0xfc298986e6511920, 0x7722ebbc556794f2, 0x2feaf911e25d8e23, 0xa6bf07e32ac2c3c1,
        0x61908f8e0872f412, 0xbd1a6cf32d496d29, 0xdf7108b88f641f93, 0x529677d9c9c7853e,
        0x3a4fb9d9f44beca1, 0x2812e623e85d6489, 0x8c6e1efda1bf23be, 0xbb2e02fff76707ad,
        0xc62fcb894bdcf34c, 0xc16f1a034a7d8d62, 0x7823c59d04cdcdc0, 0x28b6c9260a464b25,
        0x69c607c8df3e38f9, 0x8ca0c7fb697a7fe6, 0x185e241ec0e167d4, 0xd96bbaa1ccf508ab,
        0xa8a52cf5f6cda4fc, 0xccb38c6958747b30, 0xbe764a24e666a626, 0xdaa9b7d89d8f6f90,
        0x500abff7e94a4a5a, 0xf3b710df61e254dc, 0x834dc0ca4f67766a, 0x28c8a66941473304,
        0xc9b69cdd3735eb76, 0xdde4a03792c0592a, 0xea7faad4d90a75ef, 0x272c31520add66fd,
        0x1ea08223439afaa8, 0x48af3ffd2a3284d0, 0x4a6b8cac4b4a1b74, 0xe14fbb3c799acc4a,
        0xfa70837db4a3d296, 0x91fdc866892e0880, 0xdaab851b703686ca, 0xcef85faed217937d,
        0x9795f93df52ff371, 0xb098575976c92226, 0xa166bdbfc668e071, 0x2a0f0b5b8bde046f,
        0x644a49491d034e17, 0x48a892a4416f8374, 0xdeebaac03350dbac, 0x130d269edf4a3079,
        0x760017b5dc00b79e, 0xdfd7fd17bbe8e57e, 0x1ea7ae795d0acd94, 0xfc62ff9ac03b18ad,
        0x669353809e7bd2d0, 0x1549925c15dc0faf, 0xa23362116053a61f, 0x8e09f34865c936fb,
        0x20c345498303c071, 0xd478cd9a96a0d785, 0x4faf36a33152cc5b, 0xd1c40a29831a5abc,
        0x852b1154e477e4de, 0xf548b1382b57add0, 0xed123e9e103e17e2, 0x452603b6f15c9f47,
        0x6124fb94256a2ac0, 0x008cf67a99fae425, 0xce5d09ba297c9bfc, 0x527bf61bddcf982e,
        0xd57e8155a6585549, 0xd29a8538cdac00d8, 0xfaaffe36fc7ff6d9, 0x7cd82981a3ea8f72,
        0x6c00f9b0c0366d4a, 0x212cc3d9c579944f, 0xe2e2e1090c2f70be, 0x58a132c25aa8f8ff,
        0x586d08f50f0713ae, 0x339d8c63b33b0d24, 0xf8c2e59884717683, 0xfecf246060101c2b,
        0x31a3196c0bc1279a, 0xc4bdcfd158687efb, 0x263f63d7992d4f96, 0xb6a10b3bf4e7027e,
        0x040e2d11001aa0e5, 0xcad791a3ba122449, 0x419e9e95d87e45e4, 0x86ef8e3526c7a932,
        0xae5f2da148fa2130, 0xca77f332d2084515, 0x3468f43a565acb32, 0xe8a386080a21edf7,
        0xc9980ce15842795b, 0x5f5638b36672fbd6, 0x27231ff0f6611419, 0xd487817831541870,
        0x894f26aeb5a2dae6, 0xea2cc10fd2a682ed, 0xa2dba8dc31a31829, 0x58c10cab70927154,
        0x4497cac9b2bee87b, 0xb1ec4d90d1f7111d, 0x47a4f838f6cd7861, 0xe5ae090868470e4b,
        0xe9592d99713b89fd, 0xa66a2b43d7f8843f, 0x035953cf7d56e163, 0x6016f05f2aace37f,
        0x6f8a4a9f04364580, 0xae104b3d8b3f3d31, 0x9bea5dfea820055a, 0xc9883499a4726776,
        0x2d9eee329ac09f4c, 0x43bbd453d45bd0e4, 0xf9b6317f04803ef2, 0x801ee09c4f491899,
        0xe15a0d06ee7e07eb, 0xa7c24f98dd9b13db, 0x923a6e58c16db42d, 0x33c15bcabf881621,
        0x1a7b0fcc816371cc, 0xe64d55f7d20f3c37, 0x7c4de300825115cd, 0xb020021691d033a9,
        0x57a6717e5cf40bed, 0x92d669ff5fbad56f, 0x0f6cfdb25ad81dad, 0xa9cb070c03e8613b,
    ],
    [
        0x0cf94305cb41243e, 0x277c62bd76a2989b, 0x1bdcf5de08213921, 0x0c5f636d2313d90b,
        0xba836ad2731cb80f, 0x5a577bd226fc9be1, 0xe5033642ac169d72, 0x0a12ba7f3d476871,
        0xec47d0900bb1394b, 0x05402516ebf18bca, 0x7409aa3fc924a1be, 0xcf47df3f437c5eb4,
        0x8498b508746b0070, 0x3d387b2f84013e6b, 0x35b4cb0b4c7cb895, 0xf7dc3c112290d371,
        0x33f6963ed3187861, 0x671db66a5539a108, 0x0529e41da4de0a46, 0x671a04ee6842d864,
        0x0e37093e0f2bb835, 0x35ae73a63f5bd0d7, 0x1a2f98cf9cfa87c8, 0xd3e8acc247605151,
        0x3230cd1ed6e5cb86, 0xb69896511f438d31, 0x8b8632c863007990, 0xa8b5695f21ee0cce,
        0x167f473ea6e0c6f2, 0x51d99776d738f23c, 0xf571fa3b9c5e953e, 0x293e96e96381f130,
        0xd819928261ea9988, 0xf5b2e9c1eabab0cc, 0x545e5de112453ae4, 0x0b0acccfeeb43343,
        0x6f72b700081cda6c, 0x203d498f6c13ceaa, 0xd0cac6451d1ecff8, 0xc6f7ee7add7a4cc4,
        0xf286fd9ba7bb7d43, 0x252e72f954d217db, 0x584b532c04a324d3, 0x90f8a1accc375abf,
        0x86d2849fa9082000, 0x19862d8e8e5dbd22, 0x7b58c0341133e552, 0x1354a324d70f9171,
        0x49c33db96fe75ef5, 0xc7b713a0831078c7, 0xd88c4bbc66ce8b03, 0xc15825c7c99ee77a,
        0xfe172a2ddd5580c4, 0x004c2a56251f35cd, 0xdab6a7a5c0cc526e, 0x6c7d3472462c2649,
        0x7009622c6b98c22c, 0x28c8d26c4179c06d, 0x6c729cb3d0f82529, 0x11be00c797afd3e6,
        0x6c161cf941602aff, 0x91ee0912f9101cf2, 0x121dec7b8c5d5c23, 0x486136e1e56d3f71,
        0x739358e3a66b5b1b, 0xa202851fe71884a6, 0xcee525e37fffe471, 0xb55bd54a93f2d0eb,
        0xeabe1df6c8059dd3, 0x386ca4808aab9761, 0xc530593141eb0292, 0xcbdbf784add4f84a,
        0xe9b22e85130eeb00, 0xc738415c339f1349, 0x79918f9d3017342e, 0x7eab3d5673057e2b,
        0x5b488988b06d4701, 0x0141889f6483f75a, 0x415aa5bffcdc9045, 0xd447213a295a92b7,
        0xe033d861bec4d689, 0xd37215420b576e53, 0x7544f50bdc66dbe3, 0x0d99caff4b6a79c6,
        0x9f91ea2a9953284c, 0x4a637fa93396d2b1, 0x72f14e22bfb90d1a, 0xd108fc737cc28324,
        0xd9db514b0d4cd505, 0x39ae5b3b4ed6151c, 0x02634646b3b8a4af, 0x590b52e5e5b5d248,
        0x18cf33a7de76d630, 0xe5d93eea83422c03, 0xebf693e711868b9e, 0xba3db0ff230ff0b4,
        0x19096e6a26c2ac8c, 0x639ac48003194a22, 0x6d70d68df45c0682, 0x0ba920bf961b1c38,
        0x83dd6ee89612a776, 0xce65fe107a466728, 0x55dc7d64c2a010cc, 0x8488712fcafb41dc,
        0xc6a626782a0318bf, 0x3d6a0833c1803952, 0x2b04cc6b40edc2c5, 0x6ef5ddc28dc69ebc,
        0xe0b223048e2b3943, 0x099733ff7ecb45fa, 0x08a9c8c3f948f7d7, 0x107fbb1463cfc4bd,
        0x5c2385d9163769b1, 0x240b3293b7ea6a55, 0x91c41f3d3a9e4cfe, 0xb1589dd068834485,
        0x6fcd336b51e6fc2d, 0xd7c337bf2e3d3b29, 0x53228baaadc71bed, 0x02dce027c78c59da,
        0xc8daf2a6edba0084, 0xf456be6deac545d6, 0x1d4a131465bba601, 0xa99343fe6a3831b5,
        0xa22d8f603adc2265, 0x79dc4528fa0c78f4, 0xc87d0f61e536ceb5, 0x51c3f175eb419242,
        0xd1634af3239c0db5, 0xc6b7cf6ee89a78bc, 0x32afce7e9ad40569, 0x97e0eeecd261de21,
        0xcbe8ff19cdd203f3, 0x510dcff2445dfed2, 0xd08a8b0799d83290, 0xdc1a2a02e787c7dc,
        0xa3d486250103e06a, 0xfbb31e2a0558ef91, 0xdf216fbec9c92168, 0x11c95d41082a251d,
        0x3817c4c25b57d470, 0x130e982ccb096bfd, 0xd99f2da4ab8fc9d1, 0x49c3a62909343f3b,
        0x666c801afac150cf, 0xc33937fd0a9f04c4, 0xf4a4b7e1a87a0a44, 0x8210a47f0527fe17,
        0x24cf5ed77b9f3abd, 0xa020efae1c6b6010, 0x942c9b7c058fffc8, 0x32d57469b11cc2df,
        0xe5617d26751583f1, 0xadc84280a672143c, 0x6e122494d1e0bcc6, 0xb21898e796b40ed5,
        0x6aff688745c45938, 0xc951f04867a73281, 0xf66973b5ee7cb812, 0xe884e2bdacc362d7,
        0xe0a4f6add90790d5, 0xe30f4a70ae8c525d, 0x48504a8679cb0cf2, 0xe5eaece710b9fb52,
        0xd65f89b7322191a5, 0x6597bb9d7e4a11a2, 0xc4692304b4420d63, 0x42b2284182c248d2,
        0x1b5698023a4f8936, 0x36a29abf389b3c32, 0xa57605667863019b, 0x56857abc7673309a,
        0x0be6edcd6863ec4d, 0x25bd07a41b2ba166, 0xa1bd14d027fc9992, 0x9915e94453cd4854,
        0xee16a8649ce2ec0f, 0xc6ec94a42af87dcc, 0x3d41381bd57bf5e9, 0xc7d8d66df4d50730,
        0x3b80da99ba5bb111, 0xc5b01656b28dbc4e, 0x11cbc526ae52bb0e, 0xeeb068d048cef231,
        0xd2378389e631e877, 0x09b8ee12e190dded, 0x2ff536f289a3f5dd, 0xfe6e7112bfc231d2,
        0xe7f2d8c256fbda8a, 0xbabbbc398e9ea0de, 0xca1604de7693edf6, 0x3026e0c261c16093,
        0x4ba442ab8c0af576, 0xaec3fc7f3f2e8713, 0x07b37e589ae008f3, 0xbec7d7f5bbeaa3c2,
        0xee3beb5ecf9cfda4, 0x7ecd553242b1ba66, 0xe86b4685ddab8f7c, 0x70b4a73a3d596773,
        0xcb01a2a06cbeb42d, 0xaf517d7637e8aca9, 0xfcee9b2de48f265a, 0x61c592b27a74c302,
        0x4679520d046356ba, 0xe6307e4578cacdc6, 0xd73549dc588d3898, 0x5b44b783b8be78c0,
        0x4009192003e55644, 0x59512b99cf8f9aa8, 0x67a852b29c443b9b, 0x6350cf18e00b3f47,
        0xc9b0aad3b70871f2, 0x0b546437c57e1b46, 0xa32ca14ed42bf767, 0xe39a2d71c7810884,
        0xbae0f3c870ae0f9b, 0xf32a251a77d42ef4, 0x0f4fda13f5fb2ad4, 0xdc8816ff46f987cd,
        0xef39e0b98d53596a, 0xbee546e1fbc8c781, 0xfac0c84e829b0159, 0x4d392ad1b5c67ee7,
        0xa18af5dc0e09cec5, 0x3f46fa8311490ac5, 0x6d03966ac5e7fd65, 0xac0245dd0d123159,
        0xf13b8cea6cdec8ae, 0x73a146cb934f39e5, 0xc613373b232d2628, 0xe5403684e15afcba,
        0x9627017fcbe00743, 0x4151ae253fa40010, 0x33cb8afe9226696d, 0x63b938c0fe0a57e4,
        0x787ccd1b9b56b766, 0x962c92839c15c7ee, 0x1793153d14c49ad6, 0x25dadd4d093b3ff3,
        0x1fa3a58b77b9802f, 0xc72e6ae29333d2d7, 0x813cc5e0431af465, 0x6e3a2e6dc5a4013e,
        0xdc4119ee1cef7b18, 0x7cdfd83a7fe9e0c5, 0x1a86e60fc9387f39, 0xb52403dc428a5116,
        0x7bb5dd2b821a074a, 0x2d796ae4a347c4f8, 0xff03713b4eb82789, 0xe421dedd2e81f1ca,
        0x7b2e59a6b7269bfe, 0xc59a07652022c108, 0xccbf0fdcb38794ec, 0x46286812fd70f216,
    ],
    [
        0xc58c2a98713e3da4, 0x563b1120740872e2, 0x1cfa6158975b9ad2, 0xa50d304012c7f101,
        0xbd77161bb1526c1d, 0xb844f0d462233f2c, 0xf40d707cff92bc38, 0xef2e74eb08360cdf,
        0xe1e796c1c48a3bcd, 0x0be246ed538fde06, 0x4731a5be5d8ff956, 0xf28408993339ddd3,
        0xcf483281211ac33a, 0xf4d41121ce516e4d, 0x551ced9abaf5451d, 0x1558891ba3b10d11,
        0xecd52c44b0193b0d, 0x97d4a85826322c04, 0x4aa34c3f83dacfd9, 0xde80576972467d43,
        0x185dc24f536ca56d, 0xb8d3df293e43c86c, 0xf2206cf969a7ab60, 0xf743b7575755202f,
        0xf9146b810c80243f, 0x3b31a2718a8bbb4b, 0x52f17f3485d2c71b, 0x979ffe64e8450d75,
        0x025514183399d2fc, 0xabf4033b34905a5a, 0x7498e8dcf93b120c, 0xb077c56b2cc4d640,
        0x17709642c51bf0bd, 0x9f26945250684f14, 0x3c487369d8101e68, 0xd762ef69fe610a0e,
        0x9078fab200dec74c, 0x2632b193e5ff92c3, 0x268653a0f774990b, 0xe3f9be8b9f3ddd77,
        0x49802161388f353c, 0x045c4b34e2774952, 0x8e48bd29ad694d1f, 0x9a69d5ef9b3157c2,
        0x50a5d2cf289dd76f, 0x6c9bf8d5854c72f7, 0xd40e3b000938ceb6, 0xc5ccc4c4a2364031,
        0xf64fe3b0d6e573a2, 0xf7d7df24de194065, 0x8ed8c4df34242a44, 0xb7f2b510ed8e8969,
        0xcd7a2f07cc289339, 0xc0ca4abae2fc2f68, 0xf6c4e4a62bb0c988, 0xbbf169892f6f3194,
        0x776cc80d5be5a749, 0x87be4eed180f1b55, 0x2f7f2c02c6bdfa23, 0x821814b9d1164c9c,
        0xb90acca681de325c, 0xc1fb0e9143387dcc, 0x82f92ab4534361d0, 0xa7423bb5935882e4,
        0xc99abb207dc2a367, 0x76b828dc9a30219a, 0x79a3d88956d128fe, 0x21ab1f4cc2ff8675,
        0x73ec398d4433f683, 0xc3749dfc4e4a7957, 0x9df546f6e967b37d, 0x290ec65253144e70,
        0xe3ce81315408bddc, 0x011a283eac82f65c, 0x049595a63ffd569b, 0x35daf8c7cf55992c,
        0x9b0e633ae5323bf0, 0xe0766c1de8cbb860, 0xebabccecf024fee9, 0x51094d00ad5ba021,
        0x3fdc38153ae20ae0, 0x80f35b4dd47700f3, 0x879628d083e16a72, 0xe1c8b8e8e8a9b955,
        0x314959e5810d0673, 0xa5fd49061e193cf7, 0x64a963543edc305a, 0xf7807942bbc081f5,
        0x758c00e88331c7c1, 0x69f524d218c75bda, 0xa44f6171a3f83635, 0x4ba203795c6c21f5,
        0x4596521ae720bbb0, 0xfedda6afc9ad4859, 0x52607f848b30f219, 0x65a3badc8c371f32,
        0x8e48ce887c4ff334, 0xc67ba5b2c4a03e5b, 0x926efbcf2597f8c0, 0x4154e32f3f0d2e94,
        0xd50472dee9c5a9bc, 0x52673822b40259fe, 0x4048119644d6ad29, 0xf707093e21069881,
        0x628b9a49d8a51e0b, 0xff7bc8664a4d267e, 0xe0d15ede0ba18bb7, 0x36a381e000e47343,
        0x086442b152ae5966, 0xc2c19b94bd52bea5, 0xc5234e7a016faa7e, 0x76e40f55a7e39447,
        0xeea2f580ba4fb23c, 0xa84617a7dbd86804, 0x6f2e81c3375bbb3d, 0xbb7bcba7e311871f,
        0x8709c417b8135929, 0x34cbdf7aaf020b3e, 0x4b7e18fafb2bd6c7, 0xf6f1e4fe488dbaa6,
        0x8d082367539e74d6, 0x8b215de5ea013b5a, 0xfdaf81d58e2d76ea, 0x5844a1ff65c5fc62,
        0xfac64314741fda1b, 0xfe9bfe9134c57481, 0xb01d1bf3412d2498, 0xa3b409d81b8cbc48,
        0x60917dde7f2fcb11, 0x53ad69f713c43863, 0xd61105c2b89fdbcf, 0x32025b738cc9838d,
        0xb72ef3ec99620b49, 0x361bef07fec94e73, 0xeba69cbe04846762, 0x766bede019a82741,
        0xc493d4205e1595ab, 0xa061b90efa30a62b, 0x7e67a56218c768f0, 0x9e62a515e002811c,
        0x884503acd57d9234, 0x4f02cd7240d699e0, 0x04a708b7e6af69ba, 0xdfb3220420534b5c,
        0xcf6186110dece055, 0x161347d6d2834c55, 0xc990d2dd8a069e78, 0x3287fc79bce4fcac,
        0xa467c17a5f7b028c, 0x38fd0982604c2db5, 0xa7991cc72d7e31de, 0x401ef3dd5c408784,
        0x3bce1da676cd46e8, 0x192c868a192ccb3e, 0x205799aa93d1057d, 0xf6c511eb79d386a5,
        0x6f76aa0646ee5215, 0xc1c02414ae36e874, 0x0d02e29e2e33e0e8, 0x9b99e1f40336269c,
        0xf7dacfc4f256e533, 0xb1a8359bce6d8865, 0xa6c8a9a877c6903c, 0xa6a1330d46072647,
        0x32a0d88b00ec7234, 0xf22b3e49d8cd9c3a, 0x74398e556bac5af6, 0x0e95eb8c13d86409,
        0x382166c9a3390519, 0xdcc818f89bc3d38a, 0x15ad760dade0f7be, 0xfd10cbd84fc8c6a7,
        0x84a8b25032354c7d, 0x5d990de9b966dac6, 0x7217e7c4ca825dbf, 0xdbaf0357e5e1abef,
        0x904dba1470fd622f, 0xd209e0d827c8b822, 0xa5546eb8efa2759b, 0x5f1c52d5161be610,
        0x1c0ce12dbdb77e6d, 0x9dd2c6cf335353f5, 0x996d7d32160c8664, 0xa9a82bf922bad297,
        0x2e3156bb6f11fa2e, 0x4bad9f69c9947334, 0x4bf4f36b776adb5d, 0xd76bcec609d878c6,
        0x9c3199db1dcb3e58, 0x73b3d07215ad1c01, 0x80ef35d7dd7c11bf, 0xccabe9d484b01b1b,
        0x8e42831f673afdf7, 0xd5d25376233ccb1f, 0xea81f221575ed3c2, 0x66abef41034bf574,
        0xb446b5d7dae605b0, 0x54260693ae4cff0f, 0xc94ab88624bbb4dd, 0x286b6168a7829c30,
        0xaf4296c0cdfc9c7e, 0xae8cc3347b14e1b0, 0x38ebdcf42421803e, 0xb76ca2cc26fb7017,
        0xaec7756fe7daa77d, 0xe4fbf8d4122b685e, 0x475e0b3e082d9e86, 0xa3f6ef03269d4e2f,
        0x62e32ef6137aa899, 0xa156f18997ee692b, 0x01ce6d1a7ace3dbb, 0xd3cd4b4a2f418fa5,
        0xa20880cd89c6d8cd, 0x62530e564822d28e, 0x39b0426c8c1333a6, 0x28cbc53925c6bc71,
        0x50916ee3f355d98f, 0x10db148c3c3dbf3d, 0x2dfb214b9815b64e, 0x34abd96cb611e6a0,
        0x0b0e0f35b9d43393, 0xbe38048110c3a4e7, 0x09c082dadc7ddb66, 0x8fedbe25e12d20fe,
        0x2d1077ca6a4279d1, 0x50ed982ea1c379d2, 0x05fd8f27af7c2d75, 0xfb4a3f2d91aae698,
        0xebfde7eab83a76b3, 0x17adff7506437c6f, 0x393317e3928f3cca, 0xf4819d4154e229a1,
        0x2da29e808111d915, 0x7b5d2aa04872b22d, 0x09f8c85eb52108d1, 0x92f28db9cdc12c4e,
        0xc04823fa32428571, 0x557f0ae5d0064ae2, 0x4b85e7c03b01a3eb, 0xb97ef263de27059b,
        0x69a50e9aae6df9e3, 0x0fc02cd0e85374e8, 0xc554e18346359a12, 0xc1b9fd812d6d3b05,
        0x3b4c898f46cf2c9e, 0xf9a5fa2619cb2b01, 0xfc41a9e8b4dd56b5, 0x4c3242968cd7a7e2,
        0x301c823b631ab18c, 0xfab7ed407116bf60, 0xf9ea82bc6abe7e53, 0x29f695b3590324f9,
        0x7b18d0a107639a91, 0x48f274821e8c95fb, 0x7d67e947b2f7ca89, 0xc394127ba2cdf989,
    ],
    [
        0x88f16c34cd99176e, 0xbbfcfa5e4e4bfbd7, 0xf66f481581cb2ff9, 0x86b8a7c2f393dcbc,
        0xdbcdf3085f7f3881, 0xa6100a9908657745, 0x5ea295b918950245, 0x32f1aea9f85c232d,
        0xd1c6337f181bb2ef, 0x988c4b0de4d244fd, 0x871ac926da8ea78f, 0x11a8258121112feb,
        0x0afc3efd6e1387e5, 0x919921c7ed1d87ca, 0xff6ea7cdaa741388, 0x9ece112d307ea359,
        0xf036be3afb6443d7, 0x382cd5f53addd759, 0xada12982113935e6, 0x4638353ada6fbf1e,
        0x79c10139fa93e503, 0xf47052a6a1d56c18, 0x7ecc6657db07f5f2, 0x34eca15c357e64d7,
        0x8469bb9844b4c049, 0x06f8180890673b66, 0x8ffee79ed94c8d82, 0x2f51d04b6bd360ce,
        0x3c82621d7b4f5b7d, 0x3869ba5d4bd9f5c7, 0x15a398befe61b95b, 0x3bd682f21693b3b2,
        0x2b4a47a104818039, 0xe136d7802a5e3e34, 0x2c903eb51fea9faf, 0x70ca97765c08c434,
        0xbab42449260003ff, 0x49fcc7556bd9dd94, 0x8be5fbdd7de5b39a, 0x021ada619bd4873d,
        0x4226a09f7c3e1ad2, 0xebb359d0fbdfe8d7, 0x99f3b0dfee91ac65, 0xfe198610dd4b9d1b,
        0x26ff354d57b2f89d, 0x348d192a61a0fa1a, 0xa9506a1c3d284f79, 0xdd0caef61c51d791,
        0xf5ff17d1101a5014, 0x19857cd21b65b09f, 0x5d3890b3d691c840, 0x8d45fec87acdcae7,
        0x8ab05b0f3dc95256, 0x7a7cd9f338b023c0, 0x78483225ff24d196, 0xb44e1f5f8f103307,
        0x651e87450375eccb, 0xac06526f9b53ee7d, 0xb12a4635a0808bb4, 0xa3d2cb3d462e6cea,
        0xd0362648090da12f, 0x30876aa1fdc989bc, 0x3505d17ac185945a, 0xdb70e33590ec5497,
        0x495b5662f8d2be09, 0x3208b7fae423c915, 0x689b3564d71ecadb, 0xd81b6f1c4abbb593,
        0xba928af73ea68aa8, 0xbbcde9f06714fa06, 0x5c3e29f8f491b0a5, 0x38a41f491daa41cc,
        0xc93aadcfc2616498, 0xb5e7414167c92325, 0x00e48c411efa0f5b, 0x742e9cb6c3f3963a,
        0xcbbdc8e76ed33464, 0xc987bb467a07fc9b, 0xad7dbc7b91a3a06e, 0x056d8f659a875d07,
        0xac1990092cafc859, 0xee7e0b146a20f8da, 0xcdc941e333ce0838, 0xc2fae62bb2f96b53,
        0x8a09778247abaf2e, 0x3cc7deb9e46293a1, 0xf98dabcf5fdc7cc1, 0xb1a441bdf45ab26f,
        0x9a9ea16a8431b0d9, 0xd58998abaef6ca28, 0xa8e281931e67f639, 0x1e319eaffee5c38a,
        0x88fe181b11c0d519, 0xd8e29942479fa142, 0x08a72e30528c1498, 0xa5ae460af0133756,
        0x63a3233cc17da85d, 0xaf4c79f56682d834, 0x1286ba5bf82717bd, 0x2b241570f05e7c5b,
        0x9cd009a25cdedaaa, 0xd4e091917f485fde, 0x4917be6f465f891d, 0x7bcdce0cbba8a0d7,
        0x090b5552cea40fc4, 0x3e36e30ad9399516, 0x02bafde91a2bc325, 0x6b0d347bd48adf9d,
        0xf25c70cefbb2df8b, 0x64253fae2b41ba66, 0xc753c0c6b5c8c8ac, 0x6976ee9c5c760011,
        0x29b8f4e31976700c, 0x3c6e0c7650ac85cc, 0xf1d3179887f0e866, 0xc7da35f0a787f6cc,
        0xc101e9dc0bb22b61, 0x3cff5bccc0cf7835, 0x4722ef2c2f1075c9, 0x4bc7d25e7bf0fb2c,
        0x868dc7698c749dfa, 0x92fe325c424d057e, 0xf822df1bdb93fc16, 0xc8660b635076606e,
        0x45f5c3956ede9777, 0xca07916d106c95c0, 0x108afcaea2d100ab, 0x0adfef354a5d4332,
        0x5403932b33d26aaa, 0x0956141760b9963f, 0x8e52c721b24fb27f, 0x74fe64ed935aa784,
        0x757d73b8e660991f, 0x226d8b68123f46d7, 0x09fd181bfd18b418, 0x4a64eb5bd3ff6f6a,
        0x29ba2cff79ad60b3, 0x55b9753a1e8bfb74, 0x02a45b7fbb3c9a77, 0x7b87858f05c1af6c,
        0x266f013d59481e8e, 0xb1a6893d6058fe2c, 0x457c1586ed765f67, 0x6331c119f8b11326,
        0xbbfab9f0dc91028e, 0x61cec41ee242fd5c, 0x3db36a8c14990add, 0x21acfb32db7c7c6c,
        0x9c318b78a76c4995, 0x68808a56dc085f88, 0x9e246902918fa16c, 0x9a5b58a7500250a5,
        0x66e25e69a92bf622, 0xb26311b6a2d068da, 0xa0c4b71e0b8c954e, 0x0b7cd840ab2c0364,
        0x0d90c82bb450f641, 0x9febc67f632eb470, 0x04073c35adb79a6c, 0xf101991149a4d225,
        0x95edb285cb1f3f96, 0xbe06168984b1bfc6, 0x48099e278ca646f7, 0x7a3fc049de48dbbf,
        0x263b548793a41d44, 0xb1412201bfa16ab3, 0x124b00e74727e228, 0x2a655c256adc4fd4,
        0x913124bafade1d81, 0x39c0240167fde2ff, 0x93135b0a9a798b28, 0x7a63bd19f80022cf,
        0x4da49640b4c0de49, 0x055850b51c651b90, 0x127c7c449177e969, 0x320f24e07676a6ec,
        0xc122a07c58f57a8c, 0x2e0da250733ffdb7, 0xf782b6b1f0171a0d, 0x3b12103d955a37c2,
        0x62b88657cd66d6b8, 0x392d4f287a9ca814, 0x8c926c41e27f74ea, 0xb71dd98452ca7919,
        0xb9d58d03f72295ff, 0xbb19dedf708ba325, 0x5440eafc5829e87b, 0xad5f3775241702fb,
        0x9c308ea3ff1bd39c, 0x1abc1304e7575e93, 0x95eddf9688855c2b, 0x61316d43e0949afb,
        0x483692372299bf7b, 0xcf86b6ceb6ce6230, 0x72a6210293f43e6e, 0x3a5d9a2cbf74d8a8,
        0xea58882e4e9a8c16, 0x754fdf4ac4f2ef70, 0x03b21ac0d0370d56, 0x4cabd5cd4b9e165c,
        0xb79e6f13a7d99505, 0x004445ab485ee050, 0x55fdf031835b3681, 0xbede94a67e492dd7,
        0x551eecfadd5d51bf, 0xcce6bd0261ec92c1, 0xeb3a8e405a951f42, 0xf36c776e01c9c0a1,
        0x6514413c4ffaea99, 0xfd3c7b6253eef392, 0xba3eb8f471c4903b, 0x334898bcd039eedc,
        0x9b7e61cc7d4cca64, 0xccecb31382b072f0, 0xd1aed94bb4ec0cce, 0x39ba391f230cb4e2,
        0xf2f262d948b06f02, 0x01b12cef80f59712, 0x605f210f62503e89, 0x403cc3ed063c8f2b,
        0xe0819cc38c888743, 0xe39bf93271f18f24, 0x6bb687d9866b9be3, 0x8147e81f1a0a1c25,
        0xa64f8d0466cca339, 0x9bc97e4ecd015c60, 0x0370c3fe7abe2c23, 0x6e2f0ebed93eb733,
        0xb94e4e00db33e0c6, 0x9e7b048a12797930, 0x24fd748f33803aa4, 0x4e982ebb403ef001,
        0x8d4f331eb3bd3f9c, 0x472541a6bf52626c, 0xa5fa5bb75a22540d, 0x540f3ee575c02504,
        0x86f288b0614e2f64, 0x0b01a29bccc5dfad, 0x595614220773a5f9, 0xb6553e6a3d3e7905,
        0x961fa167233a54ec, 0x08b63dab7f7817b0, 0x25fbb5bdd76ec7c5, 0x31fc5f19afd8ae99,
        0x8f811a91a3df7370, 0x2d8b150ee66597f3, 0x8eb332f08b159024, 0x92d0720864136d47,
        0xbcc0faa94b200a97, 0xbd6ad28810596d71, 0xa10469509ec40450, 0x04c0dce605552a81,
        0xb667cd86cd44b6e8, 0x71e670a5348648b5, 0x2ded2f25f0b721d2, 0xa8929936117c3389,
    ],
    [
        0xfc8e89ba356c83b7, 0x8e5e157ace0231cf, 0x64fe0865deacd237, 0x9557426026172447,
        0x9cf3f0b5ad72cdc6, 0xb0300f2df76abaeb, 0x0419a9ebb1812ca9, 0x3141e37446e723e2,
        0x839fafd9f5788426, 0x06e0bddc38b00f59, 0xec21266716a53619, 0x9c301f2a9adaff19,
        0x34bf3207452a70d0, 0x1400d58b7943cd7d, 0x8e6783786da4d86b, 0xc75d6e002b672cb1,
        0x804a7f1f240bbbe5, 0x46df4406fd9f11fc, 0xc365d646076d7ee2, 0xc91b80d4dd87a7d7,
        0xf98ddd65ea2d44ae, 0x7213cb9e53967f45, 0x74f7477d246f6157, 0xdb9649bbe931d8cd,
        0x16088d93b54b49df, 0xb4510bcc7957d2cb, 0x918eda935010203e, 0x9978cfcf5c27cd77,
        0x02ea2c78e0df904c, 0x901d8f1d5a03c7a3, 0x6b95fd1f1c935fba, 0x4da99de05388fc8e,
        0xd91a9053d05aa233, 0xaa48aacef06307e7, 0x29d9a9047281208f, 0xf6bebc426eefcbae,
        0x1e7a88fa1609e153, 0xff5607291f337f83, 0xd7df1df7cfc9a9ef, 0xe0a7d80711185cea,
        0xb46e074eb8be389e, 0x28b533a4dbac5693, 0x8e043283ab65eca0, 0xf9b16c393e9c0d25,
        0x8bd9a9d2c74ccab7, 0x3c55f6ea15b19783, 0x444758b800c53105, 0x89960a51e1d54533,
        0x8e7c1e576341a736, 0xd6413120a6d02d23, 0xfe49c06698f73b8d, 0x8c1e2bdba8c8201b,
        0x752dc493530bc870, 0x26fb1295cf17ec93, 0x67b9cc8f92e5e5b9, 0xe8a7f101189b34cd,
        0x007e5567b17b90a5, 0x4c47274778d9fcb0, 0xfe6a79d2c82999de, 0x7a2632d00b69387c,
        0x4d401f2b7d9d0c10, 0x2acbd421e3639866, 0x0f4d0ef4d463bb22, 0x8e3d495fc20bdcac,
        0x725043c437514f74, 0x3c4632d9488b2fd0, 0xb42a3d28d9f28058, 0x4d685aa08e5baa32,
        0x728329f2c53a5520, 0xc1e6ccd3ab200f29, 0xf5b47241cb4ad39a, 0x91fb70a6ac84d220,
        0xf948613ab3f5fc95, 0x2e9a4987c3ccf0eb, 0xd19a0dd4e0a7bf87, 0x588439c46b32713b,
        0xa3d3af06105008ca, 0x0223d2deba4f5aba, 0x4a473c15ea4f12f7, 0x2597300a9b40c1c1,
        0xfc9fa9928d3d3213, 0xc1fc3b77c32e219e, 0xafcc3b6991dcda08, 0xcc8dc835a181f8cb,
        0xff8f0a5bf7152ab8, 0x03444d58f7d8c9ae, 0x08fb138c4d73f28c, 0x32bce01dbf22ccf4,
        0xbe443c239eb53305, 0x1ba8dd6647213294, 0x2989d54e1411a3ed, 0x55c1773967f2f748,
        0x4779c1364c53aebd, 0x32d47d5c1088af95, 0xe43db297860675a6, 0xf1d8350d90b46ad0,
        0x0554ea5ace9826e5, 0x09424a31d87c3be7, 0x9303a2fa38d0069a, 0xc86b8500cb8a16b0,
        0x85b265bb9347a560, 0x4b73fcabfb25c9ce, 0x154e5acc0bf9e110, 0xfb728b36b2b66f13,
        0x4784ffe7ddb89d55, 0xd0f1f7d0f9ca99f9, 0x662fed039e55c845, 0x88136d83279be397,
        0xcd1b11b3e96f51c7, 0x14f96f5b0e194aa2, 0x2d1e706aa827ceaa, 0x9155b0cf5eefae5d,
        0x5844e57e338428cf, 0x9e9d36123c74214f, 0x8816300ae7a3a520, 0x5928cbaa4ae62d1b,
        0x440bc9adbb923c1f, 0x76ba7191b505ab85, 0x7fa7c6f9f3cc9643, 0x1505c363839a32d8,
        0xef08ff0f85c212f1, 0x22a3ab18b03a73ab, 0x6b85dc3bb72652eb, 0x4285440072a10b32,
        0x837b425374533370, 0xc70d80ce08ae82b3, 0xb9da6fc35ae58439, 0xae8afc258cda02c9,
        0xef5e2eb2325d9a6e, 0x7fd5f4de7b04e9de, 0x75630e49e0db747a, 0xea16b104d5861e8f,
        0xa5f11f8d6885d9a0, 0x2337c2a714215822, 0xa3e74e02674db838, 0x2b1fd2ef1a48aacf,
        0x9298f51d7d52d554, 0x95f67bea9e7f05a8, 0x119bc677cd1d9b09, 0x4d87ba3c0241be87,
        0x367563c7ce4c9a1a, 0x4ca8a1a48740a441, 0x90b0d4933529ae85, 0x10cf1c1de44199e2,
        0x5b544177b09c766b, 0xfaec5071d8143530, 0x867d89f4d08d2e27, 0x32c253fb1d3e2691,
        0xae8c8665f56d6d45, 0xde58978536ab9a19, 0x1b7eb2ffbb3b9e53, 0x45cd9a93b4c64a68,
        0x5360d40bec152db9, 0x6cc68efab01da5f9, 0x2272c3ad0c9df894, 0x6f730b7d024117d5,
        0xc60ba90e407e826c, 0x766dd6556c8da59b, 0x82bf87176a24c510, 0x9707fe37f6d383be,
        0x2f3d6109a84b8171, 0xd7351363ac480a97, 0x7f4652df6ac54684, 0x86dda9a387356228,
        0xbf18fe813d9e5508, 0x827e8e71d5d1d117, 0xcfe5fa9afe4433d5, 0xb6704534a0de98c3,
        0xc702dfb2c1c72a86, 0x97156ef13f389ad0, 0x7692a0c14848f415, 0xbc96297816a83006,
        0x0e03e2c42e6a5d44, 0x38ca788b0132ac3c, 0x0b757a7905211960, 0xb3e94a0b6b28f7c4,
        0x2915557ff7d066b2, 0x2f8286a7bbaa382f, 0x363086b2ecb955f8, 0x7193584342d1f0dc,
        0x5b0c306329f77417, 0xf229081e197056b1, 0xf868a7a26f7a07ad, 0x6ca0beb15873e55a,
        0x8d5e906b82e0d9e0, 0xdce046ddc509f8cf, 0xee6bcab6ba3e71b4, 0x80d58c29ce08e579,
        0x6b26205ea3d9963b, 0x408e05829f260994, 0x91a1c158ecd49276, 0xb9c29851805ced8d,
        0xf08b318aa8449e66, 0xc8664eb509dfb5c7, 0x70882a640e5fd99a, 0xdec50c4f5fe84698,
        0xebf22000b56540d7, 0x7c77b8c8865de640, 0x1dcfb50dbdf04d50, 0x0a1839ea831f2c74,
        0x4a7d2229be0d171c, 0x57afefc07b042f32, 0xf84244eb43351d09, 0x647c257fda5396fc,
        0xc47db26b26b20b4e, 0xceeae47275cc6037, 0x24d1612824ee744f, 0xf08e81c00613bf7d,
        0xf6d8cf25d36a0136, 0x401e636344e68915, 0x507e10ba48556c24, 0xde78cae7300a94b2,
        0x887f0887465a10b0, 0xc7c149ac0f1fd45e, 0x842a47de5bdce4be, 0x12e6136338759b57,
        0xc3ae997645161e08, 0x35823d525f45065f, 0xdcc8c699dbef9e57, 0xeeef82af73f45f5b,
        0xa8f307c56eab7c4f, 0xb9a5d1dd76365b11, 0x1351111015ec6795, 0xcd14caeb3d349399,
        0xd810b5c4ee96d084, 0xaf2ddd357e143bf5, 0xb46c7ecc8c882086, 0x3eb9db803129e473,
        0xf49e6981b09a1a75, 0x72e8fa0dec845dc0, 0xbf554bb9fb5ff149, 0x81884bcaf9522969,
        0xf2a472c4a9fb8c03, 0xf03f781dc164f4dc, 0xa356d9d2b8480e94, 0x064ca66ac54d2936,
        0x2bc36bdebe74fb7b, 0x01941bbe725e2c98, 0x121569de4d9b8252, 0xa11234320a88441d,
        0xb366f6fd00239b8c, 0x9a1ea1d5bb39c3d1, 0x929282fc368bb57a, 0xf0b7eb493a83565c,
        0xe992e0da98ba73cd, 0xe493b4eafd8a8aa7, 0xed2ba024cedbdcaa, 0x818f4cee1baa1384,
        0xf6fe07876b6dea80, 0x94e39a0eab7012b6, 0x5b8d8ede6cc7fe17, 0x565a3f3f761e5ef0,
        0x66ca1e6c983d68e6, 0x05118b03cd5c257b, 0xf21e082eb29d02b2, 0xa0334c4e699d96b5,
    ],
    [
        0xf110a151624c1e0a, 0x80b1f3c273570945, 0x5c79422a831e15b6, 0x876d074b6c7cc560,
        0xc5a20e8bd10bd98e, 0x8dc81bf2ad8e07c6, 0xf7e95b91e26c1b86, 0xc02a39c2cd2ff1e5,
        0xe484733bd723bc1f, 0x2ac174ef379e1daf, 0x9ddec42887a87582, 0xc3f09a6306575f99,
        0x45296747c2d48ca4, 0xeb84ddc9e9f98dfd, 0xd1cff364c5ef1387, 0x384006240d0664b9,
        0x4f55656df44d613a, 0xc6542353bdabf149, 0x976f0f896aa61e7d, 0x53fd8f43b944cad6,
        0x2b0d94e372351596, 0x3d8f257fdacc4aab, 0x84da6e512fd3c8d0, 0xd776fd70ec01a811,
        0x57e2bd6b0e444e07, 0xfade7bbd0ff8f1aa, 0xf42268b87eec5f36, 0xcfb3f39cddc55df6,
        0x243d3dce67f3fe84, 0xf68d3252060b1c4b, 0xe2dc20501ab0f4df, 0xfd2f897d9c262fb7,
        0x9a2fa941f30adf5b, 0x35e02a929f16448b, 0x0fa3a6d82b9b6eb7, 0xff2d18a9e731e8cc,
        0x3d3094cfd23a43b7, 0x6db20da2fa859145, 0x0167b3fbe35b25c1, 0x334d174482a0ba5a,
        0x1263bc49bd5ac808, 0x2390d1a9e8f36e1e, 0x976df7c6fd8ca417, 0x4b2a6bbc783802d7,
        0xd6af5573a23dede0, 0x8bc2be18179d8a8f, 0x6463d97279db4a9d, 0xfcbdaf6f86a7e6fb,
        0x2491e687c1ecba4a, 0xb9f3051d7d0e44a1, 0xcef416170e682854, 0x7d66e7c5e0e2ea04,
        0x86227fac1ec2c4e1, 0xd65a67880060f2cc, 0x327253c3f66afbb4, 0x059d88720209d60e,
        0xc5bb798477a7f575, 0xb5a4e84399a137e2, 0xa167966fd9abd17a, 0x1b4146bdf48db7fd,
        0x9c65398d9376205a, 0xa800b3e7c7e7729d, 0x222f46a008c6d735, 0x304f18f8755d9bf5,
        0xdde3af0119973b9a, 0x9c2c69746fa339aa, 0xac9916e4eefd43d9, 0xf1f8557e5fea5865,
        0x62fb54f69d2e8dbb, 0x53b0f14e9f912c52, 0x6f33492213391e9f, 0x526178f4058a709d,
        0x1dc258ec427076d5, 0x410f59a822e23e11, 0x5e7559709a6a710a, 0xdf8afceddf93478e,
        0x34d14cfd8ead13a6, 0xec02575c5d36e659, 0x4ab66055529c2d49, 0x062df07d60a52384,
        0xd77afc589b8644da, 0xd2eedb11d44f22da, 0x15ee79c6b27f7f77, 0x00e9a586e0ed46b5,
        0xfafbe11585d87f96, 0x7214b9e6ab1b01b1, 0x535d2013c5d0523f, 0x6808e6695ca3f55b,
        0x0497e981014b57a5, 0x8aaeff38b78f30ad, 0x0ea409d3fa77b53f, 0x4a34d428fd69773c,
        0x98eab70194224b80, 0xf73cb0704f428b4e, 0x86df49fc49e55e1d, 0x68fdfce52bc41ee0,
        0xb2d208cb3a5b0c57, 0x07be276d3f857af8, 0x5f91fa06c6a8b512, 0xc5c6182d67db5375,
        0x145008bce725ae97, 0x6c3cb6eec754b2bc, 0x8cc958d4a7e1c344, 0x077d775c19b386c9,
        0x988167fe839ef254, 0x2dcc67b1992c0dfe, 0x01f380822d4b9f20, 0x5ae61faaa76e5d99,
        0x84053a7ad46e029f, 0xc9a4c234375343ed, 0x40a73366ed7f87fc, 0x61eb5ea3ea4d02f4,
        0xbb7c00faae974aa2, 0xbee4903bb34df16c, 0xcd10a2a7629f0489, 0xdb3537ab9dbd8322,
        0x2af0416742232691, 0x3fb39d0f1f30b4ba, 0xdf61ab0ebc8948c4, 0xadef530432c8a8de,
        0xbe6dedcb4c045442, 0x15cb946aa83b8838, 0x7f2088406245b66b, 0x327716f366ffe9dc,
        0x79704c1e86bd13a1, 0x83165b1d16c200e6, 0x70eaccb5464e89d7, 0x29e664cbc4af0604,
        0x04dd75bbcb4a66c4, 0xfd211a5bfb8b8ad4, 0x74b604d73f8a4cad, 0x96c9aca71ed14e13,
        0xd3a8907290afb56d, 0xa849f6520b728b65, 0xbd6f904c86e7b82c, 0x58a5255bbb43294e,
        0x3a2d57c3a42568d4, 0xe8da144dd0513320, 0xbdfa0435749ed96d, 0x0564be0dc472ab5d,
        0xee45560afecfe9a7, 0x135cbddab4744bc8, 0x44aaaa23ebbc0536, 0xded8969499ff1a4e,
        0x2d3a50d71abd3784, 0xbf3c76b53e0f1982, 0x253f72214ff17e73, 0xf9a6e9650bdd3b4c,
        0x0e58b8db3594b46c, 0x3ef2144e4985c3b4, 0x65fcdc9a239c1202, 0x1f9faaf406a07672,
        0x32213d0314749c19, 0x15a66723956d1869, 0xb83d7bb69e41094e, 0xfd977f6296c81bc9,
        0x52c87feb66d581db, 0xbc55702f7a15ef84, 0xbcb3a34ecc514d77, 0x6d14443b56c832e0,
        0x878f9f482fdd6fbb, 0x769e8bf3815b78e4, 0x9ad3d171de766410, 0x4afd184ab82c25ff,
        0x79843c39d88ef5f2, 0x6c4ab6425312af8f, 0x8eaace5827bb9d26, 0xbbe408b3f1d5ed39,
        0xf2fa5749680aed69, 0x8dc9d3bee3a09852, 0x7e37e75ee577a4d6, 0x73fee5136f572791,
        0xe739300ad769e77e, 0x4eced773955e99a6, 0xe119a2747308fc0c, 0x3e26b62ac4044a3e,
        0x8abaf3c31ad3cf05, 0xe3a2620793d2f4e2, 0xc38bea04ea34a1c2, 0x409d46adafa79841,
        0xedbe1d482b27ea44, 0xce87cfb9f54856e7, 0xe04c150587953c81, 0x1c377bf721a12389,
        0x72f2bf6c2a25788d, 0xe811d0e47783ed30, 0x4ea73c8a273c46eb, 0xfb99888cb842b297,
        0x2999fa2a2b232cff, 0x1e9f88c7a93ce064, 0x82a0fa632b0188cf, 0x9607520c6f112395,
        0x6a4e7fe967f34c2b, 0x84658411a1119324, 0xd83b0d949a34bfd7, 0x475025f1ac972f40,
        0x8043d8087f53e3bd, 0x6086b4ed7bc748e1, 0x5f7672f2c580ca9d, 0x142a6cfa1d0b7e71,
        0xf521e126571d13a1, 0x5ec5114bc6171aa4, 0x6fd7ddc300bfd76e, 0x657a7884ee9054cc,
        0xfbac0c0b0b464858, 0x6a635d7c7015aabc, 0x47665f4b6ae31b3b, 0xba1293fa5015b876,
        0xb7c23332c46067a0, 0xa8e770e11364c354, 0xe2e95993ef16fc41, 0xe2cbf01191ad4fe8,
        0xa86a0a35c00d70e8, 0x3272f0530a34a285, 0x51ef62923ebc5e0b, 0x7568738e9e492fd4,
        0xa27cdae02e02b763, 0xca283dba787a1d6d, 0x8461084b205724c2, 0xabb6ae2e66e7e944,
        0xb6500b699fb4a164, 0xf3fb9ddffc1c48e5, 0x066a38ad4ab10b20, 0x763865e6d38a30fc,
        0xa02c7c2990851acc, 0xf98f02b1194e7356, 0x0389b35577257836, 0x93c31755c1ec6ea6,
        0xca3eaa960766ada5, 0x6651a1b4e267913c, 0x6f02afbbc045bf26, 0x2ea906d141489928,
        0x1452ff8e14295fa3, 0x33969a2b90345826, 0xf315108b8dc0300a, 0x6da751ee21110752,
        0x9f7acf0ca8573ff7, 0x346291a7fcfc19ce, 0x1e7853da95ff23b8, 0x113018a631960f81,
        0xb6a2b63389e500d3, 0xf0d47ac4939bf1a0, 0x3e9a5c993a5b3d7d, 0xee0207b843ec9034,
        0x670d50b7428594df, 0x9e2df7811c413884, 0xb15c79569aa6a6df, 0x92af10741b340d77,
        0xcc7f55049f54ed89, 0xd903d4ba424ed598, 0x620c48df3305cab8, 0x9f0a767693888dee,
        0xb327e5867c90ab75, 0xc19c53d524830038, 0xdcdd21d791ead805, 0x11de700b29af2f2a,
    ],
    [
        0xec79c4e51fb34f8d, 0x66e3fdde8351fe39, 0x893123230f810086, 0x7a2a35e4e3523f09,
        0x29cf6e21ed8816a3, 0x1417ef3bc61565fc, 0x6cebd24ab0858024, 0x1bd6c754b74d61cb,
        0x40ff6007349e99c2, 0xf1679edb4fba750a, 0x34ebe590ff9f34a3, 0xa5769e19d413f38e,
        0x513c9911f3808f37, 0x97d9fa1bfdaa4655, 0x8d0cd49e609a1d53, 0x53f77799786f628c,
        0x1970f6fba30b70eb, 0xf0751cebb4a3257e, 0xbb1b25bdc253dcc8, 0xa443681617563c67,
        0x3d809a2833de4618, 0xfeccb98f081154f7, 0xdd95f44ae75d7926, 0x7342421d3f27bdf1,
        0x672e87f8e0d840af, 0x1f681e884dd07907, 0x340841bc39867f7a, 0x86187edd55f2730d,
        0xc5c07225f61034e4, 0x4aba237ed6047cad, 0x42d8d38540c6fc24, 0x41f544e430f76929,
        0x6fd7ff1882d8edc2, 0x1b0906c1662ecea5, 0x65141da101d3e66f, 0x283574f6a79bca38,
        0xedc7e7e25288af99, 0xcb3567923aa43b96, 0x723efa7e41a7b4e0, 0x965db9b0ae6f5bc3,
        0x41930cd1296bb330, 0x9319038bd24e9ed5, 0xa5df56ee3ff06f76, 0x98f2653073af07c8,
        0x85ef1e6dcd5d7490, 0x750aaa1ecc454d27, 0x938cfa04fd3e190d, 0xdcd2d9a6b816533e,
        0xe0e33a2d3ae1ca03, 0xaa68380aabbace29, 0x230e584ba5a82432, 0x6a597c50454a7e92,
        0xe7ace0bf8e9f3e32, 0xe65a55a66030daf2, 0x459c51817c5a3588, 0x73c8a0f1d22f192f,
        0xabca3e015e18ca0a, 0xfcf17d4898cdada9, 0x04913477ad4063c2, 0x758f9bafae8eedc2,
        0x350a88ceb136546e, 0xc820442f3e422ba1, 0x456f5a76e1263c37, 0x898422c45379107c,
        0x08f594c7b5164350, 0x1b72516a7c656dc3, 0xc97c1ee3794ce36e, 0xd6bde88d29d5df2e,
        0x2ba08499c8d7035b, 0xb05d40829d2a050c, 0xa8bffdf3b02fc894, 0x443e008ec151e14c,
        0x069072712e2cd204, 0xe5e1b33535d7a943, 0xee749bce321a1958, 0x6cd215c6b265fbba,
        0xbad5660cb035bdd7, 0x493fe11a76fd07f0, 0x0efcd696c253c203, 0x43725fb3b13b68ec,
        0x3879d4ff8a58b2cc, 0x20297afca22af0d9, 0xaed490a7513d6ac9, 0x459f4c58216446d6,
        0x1d4bd1691d97f0e7, 0x8235bc9bd7f68ad2, 0xf9227e98b8d3a08e, 0x269119a7e1a8200b,
        0x36848e0b532841d8, 0x22e4462bb85549ef, 0xa13ea0929b7d0068, 0xb1d93bf76e6e3bc7,
        0xb978f5d3aa11aa88, 0xd1c43c8b4d63ec9e, 0x9d514f8a1b609f30, 0xff6599452998a790,
        0x29ccbe7cecb22ab9, 0xb2d4ac0b49d43ec1, 0xf40352170be6f443, 0x4df961c5a9f686d1,
        0x26c5573b8fb24f22, 0xbceda0896e7980a2, 0x9305f03fd1afe77e, 0xc8a6cc7825797e1e,
        0x20b36612141e6e13, 0x7ff1313f7fbafa5b, 0xff71165a85a537de, 0xba9642f2e4b5a538,
        0xc2eb480c3c481afc, 0xfdb59eecc0719da3, 0x224e1488864ba2ac, 0xcbe5ceade553deb9,
        0x0e88a991b70d6dfb, 0x11c3f58085d88b0a, 0x1b37d2b03bfc37fb, 0xf382181a03c89193,
        0xfc70b9bd0df30b92, 0xeaa6b06606043008, 0xe26d8d5360c32c89, 0xeea57f0fabe10607,
        0x9b29b534efe7cef9, 0xb07ac747b5fa1834, 0x964f721f07a3059a, 0x0624069317026297,
        0xaa29d7f358e9d6c8, 0xdca248a1ddd3d654, 0x4ac4d8074e432474, 0x7d447763f2535793,
        0xbf7d92b7025175c1, 0x6d99d24a9d8dd2a9, 0xc4e62800e998fb9c, 0x8ff6b0d1b99d7583,
        0x787e578921d40070, 0xed5f6b8c701a3a6b, 0xb8fc4435fc96af6c, 0xbb5942e1be66df70,
        0x35b2a0f357d03918, 0x4932345de9f98f16, 0xf5a5ab8eb0695982, 0x714e0e14f8844143,
        0x57ac38cdbea48480, 0xfa72b23ec6645b2f, 0xfb7c9a4e912c4d64, 0x5dbeab558cafa1e0,
        0x5f50e23fed2bce9c, 0xc7c445d95d692c63, 0x0970fa27152e6713, 0x13483f40e1aff742,
        0x61309bbdbf81e2fa, 0x5aa1cb02e5984e91, 0xe35a7e61bfc1df2a, 0xd44c07c4eb64aa82,
        0xb283990648e11c88, 0xe0c76027f4410ac5, 0x093a49421e845432, 0x19ce4c3b1d1798fd,
        0x098b3d3d8bbd7bcb, 0x647a22e9ae063a76, 0x7bf4e49ddfb3f194, 0xe4d35832b1b95ecb,
        0x2a774d75e08c6d2e, 0x49dbcefe87f82fad, 0x0ebac45d0417cb67, 0x73d730154560e6e2,
        0xbb5612d109be4560, 0x933d4336f180c445, 0x1853693864792127, 0xaedb358196103fa9,
        0x92e481ce0fc97ce7, 0x2f5b576fbf9f4c51, 0xb81c56b3c31092d4, 0xb132e6d60ff0b8ac,
        0x01debcbc9f8396fd, 0x124217144f51757b, 0x04ae12398a6c691f, 0x8624167ed2f4ed62,
        0xd49f6fc221ac1270, 0xba1087780e14711f, 0xdd2a8f5785cf7527, 0xe627ad2cf9e5dc8e,
        0x7c4d1986339b85c6, 0xd06cbed73288c1a5, 0x8d8f8395fd67bb83, 0xaedfef1219965a64,
        0xb368cccb219c35b5, 0x16a06866f7db020b, 0x06e5496063f6bfbb, 0x39bddd20c4f7d45f,
        0xdc78dc37a74925e4, 0xd55fe1b66bed6df0, 0x9789483ea10241b6, 0x6b2dce5669838cb9,
        0xc043742fce72b064, 0xbc9aa5f001635054, 0x0929e487580160d5, 0x52940f92ba484226,
        0xdc1077249e972b81, 0xcd8cdfe0379efa73, 0xfd3349e0d4434cce, 0xace1fcd990637650,
        0x7f15bc1579c0172c, 0xa77a7f3667e9b812, 0xb040c1ae9a451cd6, 0xb9ad8294049aa66f,
        0x874eb3c225c86325, 0x849f5f1c956b2018, 0x816db81af0793667, 0xb95313174ee46085,
        0x3cff3308d7bac0ed, 0xbf044e7c7d060f1d, 0xd4fe7195b7a0ad82, 0xee1a4383097eee96,
        0xc2309d752e2c1af8, 0xed16bb88594df628, 0x11b39ac150ea6236, 0xefe436ce9999f2ab,
        0x27a94da53464044d, 0x0c0618039efcac27, 0x902783b0f4faa253, 0x404bafc4796a6496,
        0xe1ac471a0241632f, 0x72cb67c91e95d084, 0xba4c83623c5f81d2, 0x1829b350d27ddf9c,
        0x6a422570161e141f, 0xa2aaf22fe0440163, 0x71c42414756fe5fc, 0x6fdbe4a28d1427ae,
        0xe8b48eb0fe156bc9, 0x1243fddcfe930de4, 0x6046a65862fb4cb3, 0xe8bc7a1e78ebf795,
        0xb41cd39af6f06be3, 0x612df78ce474520c, 0xdc83457069f177f8, 0x809368deb118e2a4,
        0x6fba2faadef6ec65, 0xcc6054aad7f901c5, 0x6abb1ac5f18d3e0e, 0x52d2bb6af5e598ad,
        0x2502890902f9d8bf, 0x5628977b93223528, 0xe0e79d5d1a096f5d, 0x83872a8587a499de,
        0x19a5c6a7355d5b38, 0x6182eb7bfe8b38db, 0x1a151ad7008dcbb9, 0x28c680f1ee7aee88,
        0xd89569277efd0104, 0x8e7f56f8a0c42144, 0x3f400fa5657c09c0, 0x02bb7f45fdcb6602,
        0x2aa21ca47c81891b, 0x7bde549127972a41, 0xcaa9bffa0189e44c, 0x306139951a89a182,
    ],
];

/// Key matrices, one per round key.
pub const KEY_MATRICES: [[u64; 256]; 14] = [
    [
        0x6a6df1e4df6b645e, 0xd99c01bce40677cd, 0x4d45ecf2fbcd2790, 0x8cc8e013c5c3de47,
        0xfc4d06cd61291f7d, 0x007948a1b63f6d30, 0x5c80aa3e9dca2b54, 0x643f66cd2491da1f,
        0x0509f24c42a874d2, 0x92835a8f6ca6b499, 0xf1a9035581fddda4, 0x10e1181f06287f8a,
        0x2dea8709763bae19, 0xbadd7165e246c994, 0x6bba21703475ac66, 0xaa80e55c3a23de63,
        0x92ede913cd2255af, 0x8f2252b2ce067052, 0x8cb6ef84f9031e09, 0x7fa77c20e52a324d,
        0x4900b0b26d18b61f, 0x24d4f08ac85d9e80, 0xb384d28d529d4625, 0x02f777d69c014877,
        0x7309ce7ffa69288c, 0x6bf58ad1ce3eceb7, 0x01c62b79065dfee3, 0xefd52f0a450d9b24,
        0x91b0c80db3eed5da, 0x239d83cd384e9d5a, 0xf5fe87e4abe5550e, 0x9a221b1212e61595,
        0x96472898db154985, 0x797e85150b0d993d, 0x50f863e38136e82c, 0xed186d15368b952d,
        0xf7654278b42350cf, 0xe285d0efd5462418, 0x7d7cbb37b35872a4, 0xe77e6482d551b0e5,
        0xb266fa29f0870c10, 0x6fd8b589f7163e6c, 0x3e555ba9e358c8ed, 0x27e3af1365654052,
        0x69c381eb2bd815cf, 0xec241a1a1e5a46c7, 0xe24171f1ed68d33c, 0x08b2700753d122a5,
        0xbb830338b391095a, 0x6bd033f11bfbc5ac, 0x18e101589985af87, 0xa530b8eefa6ef34a,
        0x64e20b0af001b7b2, 0xc057e6caa117c241, 0xf82e77387279252a, 0x3be314995582cac9,
        0x42ce93371351bcd2, 0xf2ae652598bb4003, 0xc537a97727c16794, 0x89b67eb416bf5d6d,
        0xc8f20c31d7734768, 0x47f6cb596a0bea8c, 0xca3c7fddb1c7939f, 0xfa7325edf87b3cfb,
        0xa2c31a57d7779a55, 0xdab1e15b2bacb88f, 0xba5282e808f81480, 0xbc88fbcac830df24,
        0x05145f46cefe13c1, 0x9d70024c4e477c7c, 0xdeb10be8fbe2df11, 0x928682628ab04de5,
        0xffc6e5b3625875c4, 0xf893b9371c7e6fad, 0x31ad4d099fc17b5e, 0x26eedd44ca88d3f9,
        0x80b0b834ce6954e6, 0x0178b9c235f7def5, 0xd6746291a0f0c75d, 0x292e48836de189da,
        0x24f82ef4b6c1b23b, 0xb683ad2d5c472cd0, 0x708279ee83918de5, 0x239ca64a4a77ecad,
        0x02f58cbfc82631cb, 0xe4b68200c18830b9, 0xb6514db4a84b9f07, 0x78ddf016ade49713,
        0xd6b325c873769b3e, 0x3b8b34e226f73375, 0x55a82e457ac1a0a2, 0x1c6a5e0edc6a02a1,
        0x95c0f737cbe51b3b, 0x5b4f0f2b675a4b88, 0x595c43d4c8b22030, 0x76ebe4a114173dbb,
        0x46b3c055eccd9f5f, 0x9b20c99a3039be2e, 0x52f99849a230056f, 0x2ec90aaa5d2fbd7b,
        0xade52181310359e6, 0x05bc3daa56e8d357, 0x012f91f9a461efd3, 0x01d5fdab32a3422e,
        0xf2cf7007e3842abf, 0xd0a7d89c38f5ff85, 0x9aa0bd0bf1c7efe1, 0x5ed5122ba63df6ba,
        0x32a9771d2afb7424, 0x7aeb4871eefe3b39, 0xfd78244ea8611c86, 0xe64cd9c705984ba6,
        0x1ee918aa6ee79b16, 0xb33ca4cf4c427d6d, 0xfc0a536b66a3cead, 0xcd970c4bc905eaf6,
        0x8d13d054fda552ea, 0x0774207076a396f8, 0x0c522609ac5ee575, 0xe64a6d4f675f991e,
        0x0bcf61a1b6369e77, 0xf6d2bfa30eed1168, 0xa910b0b2ce08018e, 0xa887cae2f3a58896,
        0xade582686547d030, 0x36a944e51cee4f40, 0x10dbb744de022966, 0x494a019aa7c751ba,
        0xaaf37175e590f091, 0x79f58c8ff9a4f4b9, 0x1a7f4683efbf8f4b, 0xf7c02210bc70b027,
        0xa8a7465ba047752a, 0x52588ec484cac97c, 0x21bee637a498db6a, 0xb5af5770d373f7f4,
        0x0c5baca2555d222c, 0x60055164537b53b0, 0xd1becfe39a8d0600, 0x5ed1cf2830375797,
        0xdfd1d9e135a2d746, 0x05ff6c6c34ef92b8, 0xbf2915a06c0e71c2, 0x5eda1b74a27b14a2,
        0x8adee22807943e09, 0x802aa073c18e3af7, 0x2c57fc8b73d9d63a, 0xdf363e5cbdeeaae8,
        0x8af68c0206d3f2a3, 0x62ae5a703f8111a0, 0x26cedca255b67253, 0x4f960589eefdded0,
        0x6a474e18b252ec6b, 0xaea8e9e3b95c1bf7, 0xf11fa75ae6428920, 0xcc266981c602acc9,
        0xaaec2df474a92903, 0xd836c25071d0360b, 0x960d545dcdddd2e9, 0x261f74836f6cd0b8,
        0xb518bc10aa82b643, 0x3bc773db2cf1408b, 0x7a7c71165e0fd5d0, 0xa6e9ce5bcfb260a0,
        0xd91510b14d80783d, 0x6e3f3fcd404a7289, 0xd39515dcc2db7cd7, 0x47cfbd15ba0f2cf7,
        0x84152d11cfdfa917, 0x3ef22c7d07670f51, 0x09e416074ce90a5c, 0xa6f0bfab2665c400,
        0x62ab290f53be20e6, 0x3014d37e4988e70b, 0x1f1b1a953e8b7bcf, 0xfd452d970d8fbfad,
        0xd2ea68e5cff39981, 0x2d29db6037a0b574, 0xd17fec0df624aaf0, 0xd3a3a5bf0d737148,
        0x84479b975fcfbcac, 0x1c50806468da5fa7, 0x328016dad23576da, 0x2d1b162517163007,
        0x7047d4508987b2de, 0xbfa87e47469e3d7d, 0xa1d99dce0c700036, 0x8a77f5437ab2ff2c,
        0x10f464820fe5b2d0, 0x50a57fc97e48998f, 0x58c5b978c8920345, 0x2a357aea39040982,
        0x9c8cf79beeb71105, 0x6df0b35bf5ec48f7, 0xf42b638c6ef78a9d, 0xdb7b5664c4a9efb7,
        0x25e3fae3d13230ab, 0xae8ad8585299c818, 0x7fb8ee9dfa7e8f22, 0xe9573d0358874abe,
        0xc5fedf2e87ed4209, 0x959fc3febc553429, 0x38e3c6edba4baffc, 0x6e65ffc462868ba4,
        0x53a04d0cead4317c, 0xffdeb4730d3de109, 0xe2985fda7b4b6ed5, 0x993450218e587b7d,
        0x67a6ae5d9252db66, 0x967a6b6e0e309416, 0x99fb486278e13bc6, 0x3180763eb025b2c6,
        0x4393b7ead5f055e2, 0xfdbb2856b3ab73c3, 0x530f91e3f86665c2, 0x77a5c3539ef237ec,
        0xcf020957b6e1aba2, 0xf29ebd76ddabf233, 0x26fed9565fe46618, 0x882da614e89d9689,
        0x78b7fadb365dbb6f, 0xd2f21c6f05309261, 0x42d39f4c598eeebe, 0xbd40593e46777fdd,
        0x1e7ffc53c874d24a, 0xf77304f3565997a7, 0x86f76d08531dde40, 0x5949cfb8695de3b2,
        0xa493d92a9dfab873, 0x52d370942f736985, 0xe6facdb6e304b410, 0x0815abf86bb3cabb,
        0x816967b2473c01cf, 0xc94191199197978e, 0xfaa6114d2988e587, 0x0f37e1a6db4cc2d1,
        0xf206749b6d5b28f1, 0xf40334d97e0429b1, 0xeb42b7a4c1146f8c, 0x353fd5aac4fbbdd4,
        0xebd1e6aef513f676, 0xe665da71ebea3b21, 0xa9df8fe150e46e3f, 0x11b61099d94ff89d,
        0x276a01c535798f47, 0x324f90ec928dfef3, 0x99f154da5b560d14, 0x80e76dc2b088e750,
        0x7115b7904e1b4060, 0xcbd744abc84b9b10, 0x19d082536dcb3725, 0x99d1fe2c9777f617,
        0xb9bf5ad2e54cb66d, 0x86e66897a4c3df8d, 0xdf091ae3c580ce5c, 0xd8ffd9d41ed28cf9,
    ],
    [
        0x14e8211fa1068c5c, 0x16100491878aa0c7, 0x1a8b1823bc1f249a, 0x1a85cebf8853aa00,
        0x9c16c32c4482a504, 0x81f520e1c37039fb, 0xc8f1ed00be3f5c10, 0x2bd7de1e7f015dab,
        0x022bb6318bc90b52, 0x56a94737405f5ecc, 0xa37b1f8f2b2bc39b, 0xda6b5eae0e426c51,
        0xae6b74b8d720e703, 0x042b8d9cfc2b29df, 0x09599a94a51f1559, 0x12f05c8565369e07,
        0xc78a7b35a22809a0, 0x174438ab82989608, 0x385df390afb1f3e3, 0x5d87fef3ac9cd5cb,
        0x05d18b2bc0aaf82f, 0x95a2e7fafeea33d5, 0x3e0bb6107fc54b9c, 0xfa7299b6ad078968,
        0xe9a5a02709216bbb, 0xa430340593b01450, 0x75ff9d687ae3f0d8, 0xf5f83c98761a86d5,
        0x355a167c91f40caf, 0x22bfaa3f669dc1ec, 0x3ac8f6e2ab88779a, 0x4e7ebdda5ad48db4,
        0x4251838ecd5a0ceb, 0xc6e7d1b1a7ddb36f, 0x7d2512e49d239c7e, 0xc15f9528ddd96b0f,
        0x003c2486656b04d4, 0x525894a2eff96b2c, 0x5d2a24da477d370d, 0x3412c622002a26cd,
        0x905f8fcc41b689a2, 0x41e68be88984f43f, 0xd776691316869439, 0x6d49956a2bff73dd,
        0xa763fe026510bef2, 0x0e47d7b62a158670, 0xdc29d0c1f43b9e79, 0xaac5d9ae86d8cff9,
        0xc4b41000fdfdb0ab, 0xa95e831b5d39ae88, 0x5a08fd09bfd4f77a, 0x0279bdd63bbe1724,
        0x6250527d086463b0, 0xf714f8097b11e2e6, 0x3a48dee8b27ddd99, 0xe918ba4685342736,
        0x060ffef8928be529, 0x422445dd5c393916, 0xbd05aed348c6349d, 0x05e2d8adc3a4f8f5,
        0x5d04af1d4e29b86b, 0x341b8b79763e72f5, 0xb2e378b55e64ca1c, 0xf3dfaf20fc522e19,
        0xdab37adceec207e3, 0xf932efcf74e5b2ae, 0x335f5c3bf364b10d, 0xadef26cebd470f12,
        0xbb9606e370e80f86, 0x61dd3238e596f259, 0xa36493699f552061, 0x14bd42cc9408b954,
        0xb097c2ea8cd17792, 0xce8314f13c15286c, 0xe89d834581de4e88, 0x1fe402636cd12968,
        0xaed3d9791a242328, 0xfb24bf69b455ce88, 0xfecc359e0fbe7fd1, 0xce96fc1e11ed593c,
        0x47726791ee7f2634, 0xc075189a79194b8c, 0x675913b8a997eb80, 0xb02c9dc79a271b7a,
        0xd938f789d51b4526, 0xeaac360fc07921f8, 0x0d4acd1c9a0baa75, 0x312dfa07da905e17,
        0xb8053c5d2916aeba, 0x2e110bf84470811e, 0xef1d97b199b6e5c0, 0x5dc701bfbf071aae,
        0x520525bc500c7c97, 0x29800793a09f60de, 0x1d74695aea0b1266, 0x9e8ae749ab3d869a,
        0xfcffa27e43c8e312, 0xef71f66431bf04b5, 0x3f711b3d952dd805, 0x3c4142186eb67591,
        0xbaf6717a2686eba4, 0x24be7474816d7564, 0xfff255e63a29e842, 0x6f8d0e1bb7000991,
        0x19c611c057265dd8, 0x8ec620ae6db03290, 0xaf6dfa6eaca694b1, 0xa72a49e691db08fe,
        0x4b63fa89db043c77, 0x299adb431873e5f3, 0x3ab8e061bf049004, 0x34bc89cb14d6f4e9,
        0x4d72d57d9b8a1fc8, 0x4c77eb2ee4edf8e5, 0x639f5855450727c3, 0x7890968cc173dc67,
        0x359394c07f7ef18d, 0x7a553e4fd1ff75e9, 0x817143be617abb55, 0x9ce11e0453bc9d65,
        0x78566298de3d2f15, 0xbb845d7c301f9c2c, 0xd7ad2c991564a491, 0x218d5e8ae4418f68,
        0xd864b0fd11a54794, 0xb407136fc68ae762, 0x251c7c1104d8c76b, 0xd8b1b6a1b1113647,
        0x3a22621adb22a138, 0x691bd024cbd10c02, 0x906ace20c6bffbbb, 0x4b75e81168e52ca7,
        0x0d9a8019f90eb2ce, 0x6ef23301bf293e08, 0xb30128c25313a038, 0x79923c719ae6a88d,
        0x48733e3d294d79a5, 0x7790a484038f1154, 0x03e80c9453577d1a, 0x7aa106b1f49bc3cb,
        0x08d338fc47c1f413, 0x9784928cb0f0acdd, 0x0c57d24ab3a0492f, 0x409837cfe3a04c83,
        0x5f24bf7ef020dcb0, 0x74b97a24f9375b41, 0x07650e60e08b050e, 0xefb59526574d5802,
        0xc6a2eec58d9a6d3a, 0x40a61f7aac2860ca, 0x9f98eadc8df615cd, 0x6d7b3cb72bbed21b,
        0x1c34d63dc7a153d3, 0x466faa976eb3c100, 0xd850ca2031ed4fb2, 0x18b78e9c059035e1,
        0x12f06438f5840c3a, 0x91efd9e7ebebf1e7, 0x83842a932faad360, 0xda816559e1b75e88,
        0x13678c61d2c175c8, 0x264d3ae57381b08e, 0x3c411ce410729892, 0x07c91ec19c91f816,
        0xfcfe90241f5dd897, 0x92e2749dc039f92e, 0x6c75a40466d4cfec, 0xb375b11906626741,
        0x264475b5b36c2e56, 0x3e4759741d390c8f, 0xebd5fd4a16dedff7, 0x3641a074f52c13e6,
        0x23e8b9232a313e6d, 0x3ac10fb92521c1f3, 0x075c761ed0e365a7, 0xb7702ed5851df2ef,
        0x4c3b6e41d4eeca7d, 0x0fa1bbf056a0e319, 0x9e72c22e0d3718a1, 0x043a28d4a3c0123b,
        0xb0af8d130ba268f2, 0x479fd06a4bd20124, 0xfd3b6681cf180382, 0xc39ecde20d4b31f4,
        0xe3278b1c3f5b1692, 0xcdbeedc9f252a20f, 0xb63e72fa6bf886f2, 0xff9498f3088a5c7a,
        0x4390a3b11debaa20, 0xa3ba2924f30e400a, 0x7a6208b36c628054, 0x9a77b51f2bfd4366,
        0x754a17d3eb90977f, 0x9029686796b9a662, 0x9229a7c5a1b38609, 0x20edcdb897679f24,
        0x546b041eff3a2f51, 0x3a6e3998ec8cd179, 0xf745bcffeb284559, 0x7bd0e1f7a949fdec,
        0xf8c683dbcd39df3e, 0x9c09bcaf8c7e48f3, 0xafc0ce26f30b37ee, 0xe0e7b7b5c2b0b82b,
        0x807d620ee65a6134, 0x00b98ec1a9af15a3, 0xa863b4c026711510, 0xec79cb8ca68d1d30,
        0xf026a4800a6b878e, 0x274cd96b31da9c75, 0x6af1c9dd86e318db, 0x109a17ff4c329e8e,
        0xa473bd726fbc0f5c, 0x382052e3ac6abc93, 0x442ff364132e1c11, 0x20e84f7753f223d5,
        0xbb776d5b23375b61, 0xa44694cc5208bb0f, 0x24250b748ad850fc, 0x9d3283db84cf75f6,
        0x66c3dd00ed49d3d9, 0x77b91ec5f3c229ea, 0xbefd59b2a03a045f, 0x25e25c1c537dff41,
        0x77431a14c632e4f7, 0xb73d82c69e880653, 0x4880fcc4eaaf52d6, 0xc37f81e08f19c841,
        0xe6f0906029ff1587, 0x788b0aaa1886dddd, 0xce924a76e0d909f0, 0xe3fdf5518402c86b,
        0x11033a44da2513bd, 0x3b40d61146ed5044, 0xd846c1b971d37947, 0x0ada8641116475d1,
        0x0e17b4512f9266bf, 0xd514b56768728cdf, 0x4aad7c4c50b8ff47, 0xb9ca48ba718e78a2,
        0x590183a176d6ec52, 0x78ae66058505e763, 0x6b8e36a894ebfe93, 0x3f271ac52e7ba6c6,
        0x75cf4078fc5413a7, 0x0714ac51c432e908, 0x7903903390a89f3c, 0xc61fd4d2d834fa64,
        0xb11f4044d58cd115, 0x8ec93834c64512ca, 0x1228dc7884238a28, 0x6e881e82b164e761,
        0xa24b77198c7e138a, 0x1e032994c4bca728, 0x00b8faa659afcde8, 0x483538b43891dfe4,
    ],
    [
        0x96f995899d296440, 0x6ef2e35f69dfaa9e, 0x8489dd5f2252db0f, 0xd1deb6c80f2c2035,
        0x7c8a86e91a7555a2, 0x6356da9f20302bc3, 0xf0bab9fb8c0dd949, 0x77dd8ec9c5c3629a,
        0x841987535f30733e, 0x73c4beafe37f5956, 0x0de58915e25c05e3, 0xd0e3d96800ef8c62,
        0x0f1df8c4b2074952, 0x67ac4bf1a4e871a5, 0x83db633b769c958f, 0x9bb0b6d2454bd277,
        0x5d4f5e717feba999, 0x4410a43c33bd4785, 0x7144c497f683f086, 0xe648d3c74a36694b,
        0x3e33e053529002dc, 0x7ea6da35c8481c2e, 0x0f7b31399bfa6914, 0xf424bf705f1b8973,
        0x308c07dd5562f2d4, 0xb656b88d28f031c2, 0xbb9bf44630b3d92e, 0x30ed17e1d13607eb,
        0x545c37aa8d7ffc82, 0x45e76b5e0fa20782, 0x33e7c89793d8a44e, 0xe787b0dbc318e1dc,
        0xc33858ef7360cd18, 0x4c7e1bcb1821fdce, 0xb4b1ce0aaf934e22, 0xf9c765f218e8714a,
        0x9a4e36d7df3aed25, 0x0bd37747da76da86, 0x9df4fe7d63fc4f28, 0x670a78bf43ad5c36,
        0x389fe9208728848c, 0x68d46d7d1a16d92e, 0x64f670a6b0be39a9, 0xa661eb5e68a0ec56,
        0x86cf9577dbdb1cc7, 0x8a2758de2933c4d8, 0x67421fc1c9f2fbba, 0xea65c0302c6ae04c,
        0x2362f0dd78fd9fbf, 0xb3aee90b5895624f, 0x3b55a340ce7df966, 0xccf25b97400313f0,
        0x40d6cdb40db942b8, 0x1102a99796812644, 0xea19cbe6e4b7a185, 0x80ba87be8c04f1d7,
        0x9174c1b0d0789abb, 0x98e519a71ed17f9b, 0xe0b860b5b75c64cc, 0x9359b0dc8f8a02c8,
        0x321dd8dc4f4f6ee6, 0x27147c480f02bafe, 0xed771d3630696102, 0x4a6d3b292ff28dc2,
        0xb81100857dda35dc, 0x25d61010bd316b16, 0x71933000f16758aa, 0x950a7e8646519ed5,
        0x08671874c0e282d5, 0xb87d76e6f3ce2958, 0x8e472229b5c6a8f8, 0x4b7095ef05abcd6c,
        0xbf39746f3c6971ac, 0xb5dd55e74ad51e3f, 0xbdf7ac538ef53473, 0x56b5f1365e1a786a,
        0xacee375a4d767a21, 0xc6bf7c96773b7f6c, 0x12121d507e423931, 0x288de74651c0f88b,
        0x251f217567191a40, 0x64e5e8ca32f5657f, 0x534e809c019b3a27, 0xede7098371b5403f,
        0x2032f0e7c4bfd47c, 0x0bc070d2f010e48c, 0x565b66d98e23b7f8, 0x3f20c654a0d6e66f,
        0x38f60d8836ebb168, 0xa463f01ba3ca23d2, 0xfa310518fb578a98, 0x7fb04717110f5aeb,
        0xe10084042e0adbbe, 0xbaea4b5e1827990f, 0xf2655dcea1b31aff, 0x285af598cb246d8e,
        0x71ee99994b78d9f4, 0x6ff060a4650b4751, 0x6e34af5bafd8a287, 0x936f6e3c0881de3e,
        0x2458f0962baf6767, 0x3952b02db0e3908a, 0xfb5bb89c6bf8bf96, 0xa2d564f5138f122c,
        0xd9d7e9b05eaf6bb9, 0x56a4d51eba8402a1, 0xe1f135c116739b85, 0x41706c8f3bdb6b4a,
        0x9db99a741490d8e6, 0x0be200a4c68e4c8a, 0xcbcbce127412b3a7, 0x78d089bd7277bf90,
        0xb00d9c7c10df158e, 0x17bb2c313f1f42ee, 0x71ef29702b8957ef, 0xab5a1907a7ba8485,
        0xcf9ef8bd355a69ac, 0xe498cfe2dc53e688, 0x6486044b713c9508, 0x11ed4066b18ac80a,
        0x831db615cd4e3d8e, 0x3e9360805ba5975b, 0x84035e68f12e362e, 0xaa25d8ca89db61ca,
        0xc596fc824cc5352b, 0x9c867c26e7246dcc, 0xf9bc3cf2f8416902, 0xe4238a2b79a7676b,
        0xd23b0e42f8442664, 0x44be1ff1844744d4, 0x21b2e6d00d850178, 0xdedb1012f9fcdf61,
        0x2e987f8cb79f9179, 0xf82be50962beff67, 0x68ee95df037a9fff, 0xb1281366bd8f54f4,
        0x65e22bc6872663ab, 0x4d9d6285d5237d71, 0xfa9cd376178ba0c5, 0x5c5f0713b52d752a,
        0xd352be408385bdc8, 0xf0f9e43f1d591954, 0xaf1215cc6d5a7d19, 0xf7645b87dad2bdf9,
        0xe4e4ee74839a4451, 0x5eeb9bd17c6a10c6, 0xe37316702c58652f, 0x5eb366acf4f4e300,
        0x543cee70d08271d9, 0xe18d92258a5af7bf, 0x5b21b788d11e1cbb, 0x1aef35507aedbd9a,
        0x426a76ff0df8968c, 0x4ef1977b8071d787, 0x62c4e7c32451fdcf, 0x6bc6d9e0da255961,
        0x7a654731091c27f7, 0x3deb945303594c3d, 0xccd6c15d5619352c, 0x76e4b17c55a12ee2,
        0x97d68ba221dac456, 0x5d0d1bbf8c029afe, 0x4dc5b83e2c71005f, 0xc797295a602f558a,
        0xb2b3d8bc67aa03ce, 0x92cfd4c07f8b7cc4, 0x152ded8f3c81f5e8, 0x4894819d1547d2ab,
        0x555c30224693122b, 0x5c5ce0c72a44e7bd, 0xc716bb2790e4cc48, 0x0bcc1170b3f834f2,
        0x7af501816f270c0a, 0xb6d5c0e5f644806f, 0xb725c4ac1d6277ba, 0x39c6cb1187babca9,
        0x90df82600869dab6, 0x49928c0ac5860c94, 0x276406b10cfa5c8f, 0x4f3c1d888ed06962,
        0xb0f68147375bf6d0, 0x0a19869f01d37426, 0x5d0f50198ca2abae, 0xacbb87041a6314b8,
        0xe311e58de56fe284, 0x8f4b7ef186e9975b, 0x732b77f89a595dea, 0xafbd2c412ea5cd2d,
        0x6424be3ed6bddb46, 0x8a4c4ff309a59f8f, 0xda4c9c1401c8ea8f, 0x43cd7c763f6437f2,
        0x06551b6d369a1e68, 0x822fc0b3a4c90a57, 0x4777278a924f70dc, 0xdda70ef3a974c4c4,
        0x3d087642425ac88d, 0x75251a39d341eb5f, 0xd0c589c1313939b5, 0xc044ebac11801b8c,
        0x6c8b40ee4e475bc6, 0xfd4330de4b347815, 0xdcc240ceb496817c, 0x4d7b5cdff34b5889,
        0xbef7eca489c41faa, 0xacfd6765a10642f4, 0x1f97bf1974f36e5c, 0x39238dcbd5543a33,
        0x3a8cb6df92f91f41, 0xdb2f36374a4b545b, 0x82487626e20fc94e, 0xc906407dbe6efb78,
        0xbd388d928f44c482, 0xdfedb1aa1915e339, 0xae60a29df19c3d5a, 0x0ba3bcb1199e0ac1,
        0x3ea977ed338e2326, 0x2cc19b9833dff88d, 0xb78833d0e7daa083, 0x1e1150c0762435bc,
        0xe3283c5be093dfdf, 0x3ddaca456300c337, 0xbfc410634a9cd2c2, 0x3494e6ecad1ddfe5,
        0x294578a403ed368c, 0xd9bac6d6e81b46e4, 0xc018d24760b063cc, 0xee4e4b19860c3abb,
        0x159b99a7dd8dca01, 0xd8b8088221bb230f, 0x9ac4c04b7a894ea6, 0x1f944c6f37b699cf,
        0xd937e250e0bb7e41, 0x7210a900cf6b073c, 0xfd4d6c737cfc46d8, 0xd4f689f4ad20f773,
        0x8517c9d41a3f7970, 0x80460f6c3e2ba82d, 0xa11b9232b69d19a8, 0x76ecadc7519f4ddc,
        0xfd156a3bb337e325, 0x353a3de4fe86a2e0, 0x92d72e92f47d8aa5, 0x6876a5f884a50527,
        0xd9ce8b07f7c98f56, 0x7b5b995bc19c2484, 0x22308be9017fa339, 0x9b30359b54df1acc,
        0xed48a0c74ca129f7, 0xa09a87e055571103, 0x0015e75cfd6710d1, 0xc35fc09bdbf39a7b,
        0x1c10971a07998f07, 0x4b8f54ba8594cc66, 0xb383147344598f0f, 0xd2c07a3d54e0b32f,
    ],
    [
        0xebc7017ac2b76aaf, 0x58dd6014a5c493f5, 0x5ab6a9484a95385f, 0xe8adee093c390f5b,
        0x36640e73e2957f57, 0x5ab1688f158e08d6, 0x8bf558a9dd194baa, 0x6dfef9c0b74eef79,
        0xa6be27932efe0181, 0xeda54d030a86eb9e, 0x44d0a5d8352037fa, 0x2fb3b72afa81cac1,
        0x3fc0430f6ba14a36, 0x6dcd8102b202e720, 0x740a63b30a33e1d8, 0xb0e29094cd636e7b,
        0xca775cef6af4c4f9, 0x4da59e2a672bcc29, 0x434de3908aaf9209, 0x0d52bf9622329f53,
        0xf6e80a0f0238e824, 0x75ce567772f25faf, 0x1de2efc8f4fd20f5, 0xa9e85ade92373928,
        0xf46c649dc2aecc6e, 0xafc291f1e20f8385, 0x9d7a5671e2cc4805, 0x901e50134f0c9f1a,
        0x6ef130be58174e14, 0xca00351b771f7155, 0x772d78220308d39d, 0x4fa043e895605ed9,
        0xd5fdce26f4ff80e9, 0xdda934ca09a8ba68, 0x854da3d4056cefeb, 0x739939d028051e6c,
        0xb68f352364b04388, 0xcbd28141eb3c8ad5, 0x79639cfe29f2308c, 0x62f612f33050630c,
        0x6e8c17a49d7c8a23, 0xc78446d69b82edca, 0x0e801a1f819c25ae, 0xdfa5c411af2ceabb,
        0xe19a5419e57a573a, 0xe67b3721ce4d2dad, 0x3af32a5ea6731e52, 0xbe8cd45aceaf87bf,
        0x93ee343fcbb8a908, 0x7a57e448327b8408, 0x406be48f3a981df2, 0x039f21c672564caa,
        0xfda874d3c3c4eec2, 0xde6014fe023b0b13, 0xb29818d2b346cfbe, 0x970d92ed1d89b8e6,
        0x2a2d1c1ebae424ad, 0xd9a9911cd6057e13, 0x035551ae79b66556, 0x106ba7e3ca97149c,
        0xdb911c7c188f74a8, 0xa1c6461b8d851294, 0xb98e85ba2e546021, 0x2d7f80480b2333e8,
        0x9fe45d9350759291, 0x92aa3f142a6446d3, 0xc7a102f4da13a30b, 0xc0ff0aab0064e078,
        0x494a7431652b055c, 0xb13016159b38bc6f, 0xaf9f62a96be366d7, 0xc0a72d57662ae9b0,
        0xe5c666d6a426f38c, 0x270955fd5f1b88bc, 0x9ab59574d04ceea2, 0x31ab5831b74df893,
        0x372be4b82d5d4a07, 0x554243a0aeb5d839, 0x99c17719b48c707f, 0x118a104b2419cc1c,
        0x6778e1d6f29fa222, 0xdeac9f5bb0056987, 0xc214c50dab9c97f9, 0x68ed2862e5908b40,
        0x258752475f9192a0, 0x95b33ecbec96bbed, 0x9db7cdaaffd9d5f8, 0xff04e2f41c407277,
        0xe5ec475cef24bd5b, 0x62d840d07f156abd, 0x6c58501bd90c6e3f, 0x04e440db81be25a2,
        0x169b93568a8a29c7, 0xd9ccbea924e503dc, 0x214c4ed1a36e8bbb, 0x48791325fb7073a0,
        0x507b09b6ad625a83, 0xafb6048c7f50fb8a, 0x8f53a20ab57c7398, 0x479bd02ad06735dd,
        0x5a88742353480b1f, 0x79a821212239e671, 0x01c9ba57a8567808, 0xd765d46287fd44d3,
        0x0226482bc5067089, 0x159c87c491a9635a, 0x2266a8aed0ddfa98, 0x340d648abb0934c2,
        0xc9ea73e79e1afdd8, 0x72f497e7a4d7ebef, 0xcc3e3467d80812a6, 0x6bbd7bf26db25a11,
        0xe5e50842ae7b4c66, 0x072173c887e2d5c5, 0x34efeb37148817d6, 0x7bd7fcf41eae5386,
        0x355eb6ee72c4f6fd, 0x4ca85ae1bd91a3a6, 0xf63fc76449b697fe, 0x4049fc217c625e08,
        0x7175e079c33cb266, 0xb8c81682a6d7f678, 0x39a748013b5aa7af, 0x03f87f34014ea06b,
        0xd6e2c03b8720e999, 0x0cf9adffd1c85ef2, 0x681de28bda4f107c, 0x2a374c27292fc8ae,
        0xbcea1ce7a596d98e, 0x69303210e5d78104, 0xb583ff9d621f0ad3, 0x6474e4a5cbf09812,
        0x290f634eab788da0, 0x4007693bcecfe55c, 0x734e08bd10f38e64, 0xc94fd6adf45d0069,
        0xb059bc0f49f05c82, 0x73b8c7feb058733a, 0xad0f8a6406dac786, 0xacb3309d2ec6ad31,
        0x9b98021c612d65f1, 0x1cdc9b703f6761b5, 0x47bef1289cac87ec, 0x889a09aca8448a43,
        0x81536caeb4cac0dd, 0x578d9ca467f523ef, 0x2dac6c9f36b225df, 0xdee0ec328cf2b9b1,
        0x4be617ee686c4546, 0x1e9211da4c537719, 0xfb764191259fbb6c, 0x71a7e459551d404e,
        0xde3f344513acbcc6, 0x0720f3e6915c26ad, 0x1e0967e75b6990a2, 0xde8ad442604c36f5,
        0x01d92cf060f67566, 0x8a9a5d9003d8fcf2, 0xcf34f1f8339e8bea, 0x71ef9a09fb15b155,
        0x4523225d60d07c80, 0x66cbb4baafbf1af5, 0xd41dcd865b3c6acd, 0x0b50c8b88783b4de,
        0x5f262b3795387987, 0xd186a0d45fc1e01a, 0x96c0295f3b2e275d, 0xeb13f0ae21b3c1ef,
        0x9560b78c6bbb88af, 0xf4a90e75cafccf9b, 0x022530ba02d6fa43, 0xbc8633ae23c16fc7,
        0x804b2dbeb0c9e3a7, 0xf23a454be3040f2b, 0x9350e66ee351203b, 0xedd1738fcb059319,
        0xec5118665909e071, 0xcf61e91374dbd464, 0x0b3223ec9f62cffd, 0x5c40e8957516e165,
        0x5db54698217b664a, 0x3916de99317ced90, 0x43032946d82dc12d, 0xfef791a0e7162c19,
        0x8146395b00b5026b, 0x81018942ea62102f, 0xe9b011d8acaf777e, 0x33c54fd8d3fb1410,
        0xf431ba718b388a55, 0x3396bec4c82c393c, 0x5212428bda90ff26, 0xc8cfce6265859a3d,
        0xd3e6e19dada7e362, 0xe01421e2f61edb67, 0xc7209d426c55415e, 0x753f979f4429d2f9,
        0xb2efbdf841eef0e0, 0x4dd4e98dbc32a4bc, 0x6b6ff0813b09b3e2, 0xda53d851200ec266,
        0xbe44540894950413, 0x44adae6e08963c79, 0xc8889f5675a2516e, 0xf20ee9e1cd3f067e,
        0x3a43ad76eee3578d, 0x10e3c4ce7924bca3, 0x68a9055cf441de32, 0xa3d32236771487af,
        0x8f07c15e707aeb00, 0x571789dffe143768, 0x154eaff5a9146a98, 0x7cefdc0927e42b76,
        0x1cb998d35d279981, 0xf22e2d9a127e7ebf, 0xdfd0ff9f9992f0f3, 0xa0f9c0f355620876,
        0x0e09fbaf588ffd49, 0x5c7cb0307fb9a95b, 0x31eea8e345681b17, 0x63ad60f17a30c2cf,
        0xd85cd1edcbaee427, 0x132c4dedc97875a2, 0xcf5b035f95c11b21, 0x342f98f1632689f6,
        0x92b033b3ffbfc096, 0x975dc74267f802c4, 0xeadb9b5a55be79e3, 0xa05e0196a80af158,
        0xd790206ec77a775c, 0x0b0f76be4310ad13, 0xa8f2911ffa06273b, 0xba10d70cff4f34da,
        0xbcd95dc2045fa120, 0x4e08b6de4fb10341, 0xd818614011107ffe, 0x5d02b20101e27896,
        0x19c8c0dc8cf963dc, 0x0e51c50cfbb48547, 0x0acabd3647594865, 0xe6b0d820e9b151cc,
        0xbd2bc85c76f6adc5, 0x92daad515aa8f85a, 0x3b495165ad5b7f52, 0xd8b44a18fc477441,
        0xb77a65e2fe62abdb, 0xaeb70394f0a48ab0, 0x9b87670eba98d27e, 0x4dc40584f49d5e45,
        0x37ded8b080edcc8b, 0x93511a727b267090, 0x2450bbb5907b3c26, 0x855776ef6d2c3e67,
        0x5b730cfacb5e23af, 0x5af44fdb8936b29a, 0x1d6913cf7ae4fc6f, 0x48c745ba815eca71,
    ],
    [
        0x599a342c290dac69, 0x59351f955f7e97fb, 0x75774de0669ee26e, 0xb8ab708a701c8dc0,
        0x8e2875a40c460c35, 0xaacbc7be676bc594, 0x94b91e4525f6c54b, 0xbcd53500fba5f1cd,
        0x8459ef13e1e2648b, 0x8113c4e1437916c8, 0x3b4775ec7e5bb3cf, 0xa04f856d18411d0f,
        0x11cab3c71b8e9254, 0x8452e3bf2e10610b, 0x909594cb549e8267, 0x5e84e58852e892cc,
        0x35ca3bbbb8f2e433, 0x25b8ca63f0a3021a, 0xba1f24eda9c0e313, 0x541e8f03ab550eee,
        0x95c1a1ec6a900991, 0xaf1b802012f3b69c, 0x14f48310579e7939, 0x282fc0109f7906d2,
        0xd060472d0c248ed3, 0x1a7f2c049bfa3ccd, 0xce2fae8026706b6e, 0x101c4ab2e0ce8b0a,
        0xcabb14abc1d3228b, 0x9e0f66651a80e4f4, 0x0da4cd35b0c25f24, 0x4eed9dc2d44040b5,
        0x559f412d3c287e93, 0xb2c928973a5ca02b, 0x5e7ee62e0e50ee1c, 0x98585c732d92d63f,
        0x9163432856378959, 0xe3fe5ee8fbe4edf1, 0x05521dfaabf1bb03, 0xc3e666ad0b6c7f29,
        0xeaa739413666f76f, 0x3bd77d1e5701b8c2, 0x211d2f276b14a477, 0x51470d2377672bcb,
        0xe7e2cfbcc3e91bb1, 0xb51236905da5d2db, 0xd6a1f2f6e0be3234, 0xfb255cfccadd2c26,
        0x483f2df42e3e4b39, 0xf82cbdb932898a6a, 0x70511506bbc1d498, 0x8c12a5bdb885a249,
        0xf88d1932b180ad4d, 0xc4de2f87ca402f43, 0x8b0bed9e353028da, 0xe72ef1875a9d259b,
        0x18b247d3532b6957, 0x3f54f8f8c8f78ac4, 0x1b8950f2725b3a46, 0xa02a100d4c507d90,
        0x746a24282cdd7a7a, 0xd24c3430c8aa7183, 0x88b2fa8ac927111b, 0xe023d576cc1dedf1,
        0x7fb4cad3bf981f21, 0x71926e36cf0cc437, 0x4a07bfa4236a0880, 0x8522b7db883bc6c3,
        0xdd903569c84cd09f, 0xef30a356316dcdb5, 0xf571b1d200fae81e, 0xe684071b47f23093,
        0xfbcab00c6e1e7b3b, 0x27c5c3d3a68cd85d, 0x575543e9c54c8488, 0x6d0437b9d4261a84,
        0x04c37ddc177eca12, 0x14242df9fc3d171e, 0xeef62940189b590f, 0x5ecd262ee91a3765,
        0xee2ae1589a06be64, 0xb08ced2d4a8a75a0, 0x76a4da9e38b1c284, 0x557ebb0fe464ecac,
        0x73cf353405d62b56, 0xc67d664adf1ba1ed, 0x970094b2ad40bd6a, 0xe2a3a1f83624f2f2,
        0x8c5b3c3d34f474e8, 0x60027ade21e93d17, 0xd55b5f98206552a1, 0x0f09a3ddd8d3ddb8,
        0x116567b37b1c7908, 0x050b4b149b94c39d, 0xda41cb5ca9157a17, 0x11eb6d2913a52eb6,
        0xbdd9092c2612b34a, 0xcdcd8d0bb90f6378, 0xb5cb1fe139748fde, 0x2c29a9407ff803f0,
        0x35e928f4b3f0cb4f, 0x2ea935db994b615b, 0xb4e9aebca38f8dea, 0x8a9e731bf2370763,
        0xc0f158f3adfb38e1, 0x9109138ac41a8c8c, 0xefef173f3845d8e2, 0x847bef900586dab8,
        0x95d716bedefa5022, 0x355f59a2585617df, 0xdbf5894a390e368a, 0x2721825e5a754dda,
        0x824a2d7f55ce8f89, 0x683a522d2bc9d574, 0x01950b2db0ea3737, 0xa0f8ef9fccf271ee,
        0x37e6a6382fbb9adc, 0x8388ccea05097c4a, 0x8736b50ec9b65be0, 0xc2d2a5ef6da208c4,
        0x101e80598d32b5c5, 0xd3e3559eee20b8c3, 0xfbafcc246e8ec4fa, 0xa347d9064bcc9fd5,
        0xc2a7ce76d822ea7c, 0x53153d931168a2fc, 0xd8b33f729ffcee4b, 0xd101aaf16329761a,
        0xedd0c04d90b811e3, 0x8601625fd5942c48, 0x32a46835520e0610, 0xdf8c49e7714fc36f,
        0x60397d21e3eed6b0, 0xdb51ea410699e2a9, 0xf9e7da9841d4d187, 0xa99d7a49d52c9d02,
        0x98a76f9075302a3c, 0xeea82c9732a82c98, 0xc4b5b9c94e01543d, 0x5866acb982523f2a,
        0x2de7bfdd9e0acec5, 0xe363d35635b61db1, 0x38f0ac6b653f00f1, 0xa40f7ed0dcb09394,
        0xfbb908df6ceac171, 0xe42c3d251e3848c3, 0xbd97739c1b5d6919, 0xc2ce3e2d6c41dff0,
        0x9f50a985f6cf45b5, 0x8b5e0b77742e0715, 0xa3d1da1319724931, 0xd350c11f82fd8026,
        0xd1dfd65b7f2c958c, 0x1523c55da53cfcc9, 0xaddc25e763b995b3, 0xaa695d74457b7669,
        0x24e476d2c0fb102e, 0xfdcb5b13ffb248be, 0xb72d1d39ae40298b, 0x3918e31244e8039b,
        0x2daa89b3462ce05e, 0x8b19c9b8899429cf, 0x0aa8f716892cd5b0, 0xca3967e8e8234d6f,
        0x5996e59bb4809dd8, 0x2f66961687ef4792, 0x1463b1964215a3f2, 0x6e9917b47d150128,
        0x07971363b9e236fd, 0x9f0ea81426090d0f, 0xe9b6926e4505cb22, 0x2e3479d8d18acb38,
        0xdb7573569e33ab3a, 0x8c8f8a1b68605326, 0xdbcbdf29a30e82d9, 0xc5173040eb3f6629,
        0xbc635b42c0602051, 0x124debb065ebb8c8, 0xfbaf8e2c21f7d50a, 0x7decab8efc6f94a5,
        0x3a853651fd8cd279, 0xe0fdfe597b8aabfe, 0x917be54d6714b319, 0x3996e492d885a2c7,
        0xf7977a409005590f, 0xb7b87334037fe759, 0x4cb70b93b5497279, 0x92822275f6974d0b,
        0x1b0d8570513ef260, 0xd2adad8dc0e3802e, 0x66d1fd537aeac9d6, 0x4d85e03b72bd51da,
        0xc2bdf371c73bed3f, 0x6a90176b21f54c21, 0xa4a961013d181d02, 0x065dac9f1366915c,
        0x90bf82225de06b70, 0x6608e675feb64619, 0x7916b1c1d520fdc1, 0xaed41fafdb192818,
        0x7a7bade5e9898f70, 0x5cfedfacf4e1d839, 0xaa658f6ecdcb02cc, 0x3ac13c70d4e90542,
        0xea403f05f5cba060, 0xee3dd646a0788471, 0xfcda1423a2cc6f10, 0x820da9c4f8c8317d,
        0x00d559c366d89c78, 0xdc8594a0827dc9aa, 0x57ad524984d551e2, 0xeb2419f3f3f53a7a,
        0x473aa1bc9127503d, 0xbab46e6f4f94501c, 0x44afa57a232ebf36, 0x5538932f00e793aa,
        0x461dab151f9d849d, 0xba134911686f7281, 0x0d686a94a87ac0d3, 0xda64f55034d42d83,
        0xa05d2491dc4b2f85, 0x3662093bae603cd2, 0x2fdf1c27c7f75900, 0x5a39cd99cbc937f6,
        0x0a86372825529e48, 0x557da29bb401ea7d, 0x79da5aae6d16b844, 0x95db52f73f6d0445,
        0x9112f39b09f72542, 0x13561adec39ec404, 0x8f2b747f0ad37d91, 0x7dde62c58b342786,
        0xebc529d46bcf943c, 0xc13cc9a7472dfd79, 0x465b076d5b5b5403, 0x1749fb13b7a79435,
        0x9c55f0120d948bbd, 0xfcb9aa271dab55f5, 0xc8205b8c24147fa0, 0xee608fc6d77cbf40,
        0x69a630a90b7282ad, 0x36e03234945dd5c0, 0xd795b88e11529a01, 0xed22fa9069885695,
        0xc0b8b5a4b453332c, 0x3d7a4a356cb65417, 0x5f4016dd68f338fa, 0xc29b5833a7a9f542,
        0xe05b6fbf1c80bdd8, 0xff3bb6bd7a2d2059, 0xb0ffbd2a904d7f06, 0x3d67dff40622649c,
        0x5b3c512350f20ce2, 0xf21f5f58052b7e0c, 0xe8397e0062f5288a, 0xe16849fe3d829cfb,
    ],
    [
        0x52d50da05894fdc3, 0x60d41185e62e25c2, 0x3bc85f4fba04ec9d, 0xc37ac9d2b625f84d,
        0x5a8efb01a3290bed, 0xfd1ad48a9e967c95, 0x6b0c10e4d65aae89, 0xbfc550c7d08c68c0,
        0x68d0cac125c805bb, 0xa01329ba7e691985, 0x6f7b69adfdca7350, 0x56c3707e67f92851,
        0x1124c38f6a81a9a7, 0x905d80e5d877cf36, 0x9e7beaa59135bcec, 0xfbb6b8e3700db633,
        0xf53ad62964706596, 0x352176faed6256c6, 0xdfcc0609cc661fb0, 0x76b141d7b693bb70,
        0xfc08c904e9219154, 0x9d9ef28fbc2e1ae5, 0x29d6fbe1128eaa6f, 0x4eb7843a4c52f508,
        0x323b36e2df37a36e, 0xeb00d57124a99290, 0x00052d5420ac0c5f, 0x76e6074d96a50a4e,
        0x15691ab75bd41064, 0xc70c8657a6c62c5f, 0xc773d66af11447c1, 0x155045b76ad13f8e,
        0xb857cb6318a4e367, 0x72e9650d4221d8b1, 0x7f4a9ff33877806d, 0xa821457a6a6b55a2,
        0xd06718010cdb743e, 0x956e68ba7da08a2d, 0xf0b0df864f4bfe0c, 0xa4787cc1912359e1,
        0x91f30617312b108c, 0xd3d20e20a12fab81, 0x865796bf3732355c, 0xfaeb95809c1b294d,
        0x3504244903e1081b, 0x58847836e9547bc1, 0x038d4a1875468a07, 0x72b4a69d45ea49ef,
        0xcab81d9a3e9e7762, 0xf204299587dd3e63, 0x77b519eb2f7db55f, 0x69ee5b1fdd87a008,
        0xf5a088f247e2867c, 0x4fb4076b35221be5, 0x1348b5d5ab2228ba, 0x24a695f6a1bb04fb,
        0x154f729a73bc5470, 0x560de976c93f9955, 0x31f651293f8bcb0d, 0xd255d788e3929ae5,
        0x96de25baa7093d43, 0xb6b9d43ca7fcdf2a, 0x78a8b4263aebbe16, 0xeada9e57811994c8,
        0xc7c40b7f40ce78dc, 0x50ff7d4917dfb21c, 0xadcbd1c7a2f75d2f, 0x0d312da1dc3e57ae,
        0xf14cf55d15b865d0, 0xe070c06246192ef4, 0x78712bd2f708696e, 0xc82bc851c5837516,
        0xbcf0ea02c3ab2f0b, 0xc895c0ddf904fc3d, 0x095d2bbda1c6442c, 0x6054d6834c791adb,
        0xce0cc842f9314db0, 0x60e463bf53d7a3b3, 0x5eade8be5bc318d9, 0xfccc122b4ba44752,
        0x3ecdb4120e50dca9, 0xacc2c732f81bd909, 0xfd386f488757e694, 0x387b3d74ac458e94,
        0x7d358d7a4224c23f, 0xeb1ee641b98eea1d, 0xa4eb6f97ff3da446, 0x0cfc59dd880f058b,
        0x7d30c20b45f1535d, 0x5d3a3af87bf648ec, 0xc8e8cdf7752fa195, 0x2cb3dd17befdd3ef,
        0x8cfeeb0e71308d02, 0xea0e8e89f5328cdd, 0xec80eac655ced047, 0xc2a5e7f462a0657d,
        0x507177b83ddcf224, 0x1503c15c57f501da, 0x7e48c09dd121b3b3, 0x624856ac47a20850,
        0x8f17d6946021ae6a, 0x0d0ee7b9bf148c7e, 0xe01630980f025b41, 0x8e35255ac9edb9f9,
        0x7fa09178934c1478, 0x1c931fb43f049120, 0x6e734899949f0c5f, 0x29d83084507676f7,
        0x5425faee568d5c7e, 0xbbd4515e1872254c, 0x5453f54d76ad7835, 0xdeb50c7b1d82000b,
        0xcf558df68602351e, 0x9aabdaad9ca73b9b, 0x48f5c0785c7be67b, 0xe45587686176c421,
        0x22ac87ba94e4aeb6, 0x71f29db46f799045, 0x52eb257058f72ff2, 0x7c81369d32db4963,
        0xbc00df56d095c6fe, 0xf51534ec4384d137, 0xf5709f26fcf72df2, 0x05a31002d504d941,
        0x76ffe9f9e2d684f1, 0xda3ceddc13b92dde, 0x57d7c3058ae5ffa0, 0xf8bf888e830dd045,
        0xe324ac6f11ab4ae9, 0x947466c9ea35b34c, 0x01f7e8c18763171c, 0x01cf4dc9359d8012,
        0xbd5d4076f54cb372, 0x5f5d1df3a4d93424, 0x026111ac01fd8f09, 0x88abfbef5af81984,
        0x1d51adec7efa6750, 0xbec9a7cf2323f714, 0xda0a203481f87e89, 0x4f203e53f1b4d399,
        0x62b1e9851b3bd820, 0xbca66d1cb0fc23ef, 0xa5241df771429438, 0xe17d590f3ff7665f,
        0x3f9af2ef38d8df7c, 0xa7d496fee92e0e07, 0x903bc79be9cbc5f4, 0x25f9afa07d16f9a7,
        0xad3900dde92f0b47, 0xf4b09106e5461862, 0xf0a3fc262199259b, 0x786a78b6fb2071f8,
        0xa0926c56bc55704d, 0xf150ae5a10a16348, 0x13218797c88a1677, 0x09fd562d4a549222,
        0x5f6b3172c63edd2b, 0xb4c72b33a22fb1a8, 0xa3dfdab39eb594d7, 0x1527a77c253b1076,
        0x503caf9b3febee36, 0x7635c5cfefbbd586, 0xfb5fa80cf260e3ff, 0x00e6ad12cc2ac741,
        0xeaf1c27a3309a192, 0x0c51dc10ccdf42e3, 0x105c12d591bf28f0, 0x84bc570c0d8be25e,
        0xda9d1c6487737ea2, 0x29d7984b24f612c0, 0x69c47bc3af15392d, 0x9f906ebbbf6db887,
        0x6174e6f92398fd7b, 0x66463433e4a3d1dc, 0x9e1df1de0a724c2d, 0x7dd25f896421c964,
        0xbc7e725775af8d0e, 0xa75e815a94846657, 0xc440a9512c69cdd5, 0x043441317a7f3bf8,
        0xcdab9ab37b285725, 0xfb79662e9c2831b6, 0x0e126d8420a10644, 0x268e862148a610b3,
        0x5aae3ef56cfddc7e, 0x693f639650f4502c, 0xb064f45245a1faa2, 0xdd91bf8ad8a9fb3c,
        0xa2a0885e3d9d32b3, 0x119a11ef27fa04db, 0xd17ba1da8c2f99c3, 0x50eb814eb9b8e4fd,
        0xf9472dd22c725e82, 0xade329be514176ad, 0xffcf9f00ee65bc8c, 0xe512385df2dfa8d0,
        0x07888d73045cdee3, 0x361e9de2c0b2545c, 0x79d1f31a84bd7434, 0x99ed3c605cf40cba,
        0xc8af81e299de87b5, 0x4dfb87afca359616, 0x48bb33d91799d705, 0xe02edd818c235511,
        0x97495d0058b06e50, 0xde0e7f41a776d378, 0xc802b35d6450b990, 0x21aada74726dd378,
        0x31d1cab090edcac9, 0x62060a3bc5f564cd, 0xcabf8bc010292d8f, 0x656b8aee289fce02,
        0xbe092bb21a5416ac, 0xa071f92e9e41fe9f, 0x80cb7fce02590d6e, 0x461a951294a8f22e,
        0x635fa959d34f54d1, 0xa9cbc8ff253ff56d, 0x1ec261922e9f1078, 0x93b3619e9eeee9a4,
        0x97e252519e5bcc56, 0x756a2ee71e05cb89, 0x63ab26b12c3a0178, 0x987116b4da92bfbc,
        0xacda9849d2101780, 0x4546af19da779107, 0xe0b19b27c6a50962, 0x50f0ab1411fafe27,
        0x79e1350f867207c2, 0xa4958e368c2cce21, 0x9945a767fb9fcfd8, 0x434c5d689203cd0d,
        0xf32135527c18c3b5, 0x7d967408401a73bb, 0xbae665d8c6c88852, 0xf85cfecd20bec71f,
        0xfe35372ca7d98cd3, 0xac163308fff3a6f4, 0x8a36f3554edb4eac, 0xd9b21372864cc80f,
        0x3783950c73a4cd49, 0x19c6f85b42d621ea, 0x8b50f85c270cc060, 0xdab0c78afa3f34eb,
        0x9f5379aaad9c8558, 0x251210600fda883f, 0x334d52521989518e, 0xdb4b7606236558bd,
        0xf92677a07dfab099, 0xb68b32f38a5cbae7, 0xd7cc66dad1efe5f6, 0x07611b45f86eea1f,
        0x20188233aa4888ca, 0x629e2704e94933cd, 0x3d03c99d9e76378b, 0x3affc5b844d43f67,
    ],
    [
        0x675335ad4ae69b96, 0xdbbc4c1a9b69d822, 0x065f31b07878e1e7, 0xfa615baa6134b458,
        0x87758224c2d1a770, 0x571c264bd359f9b7, 0x9eecc50fd8ee90a8, 0x7d07a1762d032834,
        0x4a70f13162171922, 0x703db57e8e7ca1d7, 0x5ec80a53fc17f7e0, 0x680ba3a0a8fe7a6f,
        0xec2f303306b103be, 0xede41a114d17bbbf, 0x2dbfd7fa2dde5ade, 0x372b52ce1c618a26,
        0xcb0a38229901a85e, 0x4ef04c2d2a247a92, 0xfb3f5d8539fd6a5c, 0x0b41397be382701a,
        0xb6c663e793c1bc6b, 0x6ddea2693be8b8ed, 0x4643fe21618f1e7e, 0x7979b91fe839aae7,
        0x12cb1372e7fc6677, 0x163f1678f7144896, 0x3c0995512e79d2a7, 0xdf8fd9408e5fe68c,
        0x8fa1399b298971ab, 0x5210371d32992602, 0x0f7321a1c68a6b0c, 0xec3da654fc31edd2,
        0x2736642a93fbfea0, 0x12a727b5638b0ab3, 0x93c3ed9e194f07fb, 0xbf4409561878897f,
        0xee0a14088fc2db09, 0xb4c7399dfbe445e7, 0xebb2417d3cd3833a, 0xb0324a185c117ff5,
        0xc3b9933d9962ba81, 0x30fc5af3ff3d53a7, 0x95321c9961f5b0e6, 0x73672d50017c30d7,
        0xd452f837924d67f1, 0xc84cffe7b7bbd643, 0xb613588f14a2b682, 0xeccab34f4c1e6be1,
        0xf92da0df43c067d1, 0x71dba657195c9490, 0xebd0d4523083d416, 0xfef9bcfac4c27b8c,
        0xa9f7b58fa89939f6, 0xd4675a5ba8a121d5, 0xa7cb34eb07891f1a, 0x77d0d771b6783be3,
        0x68356af097c78961, 0xf061fdd0034dc4cd, 0xe8f5f42e02ce5dd4, 0xb70c48b89efb2d22,
        0xe313eceef277963b, 0x14680ed864548266, 0x4c08535392d63ae1, 0xfbde4b923d871416,
        0x63712ab61e7dac74, 0x5e625766bd6049a9, 0x9aa72fc6f12e1bcf, 0xdd60bd0b7b6cd4eb,
        0x3981d609d7568699, 0xb78523d8df9e7185, 0xd27f28b2a407e27c, 0xd44d0f11eef66f0e,
        0x5f7e0e7940b7af00, 0xa5aab6c5aaf49777, 0x17d02e7db453b39a, 0x37553b5d8ffaf88c,
        0xf10eaf6c3d7d47c1, 0x5ab39abd360f0c2f, 0x1ef00a2a9d0c44af, 0x0f3f3d13d0d67177,
        0x52499654e961d7f9, 0xd9580be398dfe2ef, 0xaaa22b7792c5820d, 0x2c2536a4eba02547,
        0x693d7540bf954117, 0x7043123c7ccf9dcf, 0x819a4dd515b394b6, 0x679c4e3e6c7254a1,
        0x28950693544878d5, 0x11c2850ca5dcf17f, 0x14cc91b5eadfe345, 0x3bfaf225fe991087,
        0x8e6b788eba0ce0d2, 0x94b7f072abc7e5ea, 0x608818855916d864, 0xd14073cb42cb7eae,
        0xe0f0b75e81415f5f, 0x7cc2eb2b13e6f356, 0xa4bb1b78fe89694d, 0x9fe41a4003ce707c,
        0xcabf7f4dc8153de0, 0xd0829b6235158513, 0x521d54aafa96a850, 0xd16c75b689610fe3,
        0xac59d6bfa3d2b6dc, 0x73b8ae8c1bc45fd0, 0x362f816d1f9d281d, 0x8efe6c3c91768ff7,
        0x2e9471af1d572c7d, 0xd3f0338474a67272, 0x38bb601130b2bfd3, 0x252defa1e6dc30de,
        0x994a690a0f9fdcfb, 0x8ab074bb5dc173e3, 0x367c4531a3b95bc2, 0x81b077e2b3fe7b5b,
        0xbe882ec28539431a, 0xd1f54548f5975b65, 0x0b2019b42b70ed40, 0x5780a073e83a1ee3,
        0xacad719fcf2e8e87, 0x562d70c0211675be, 0x6908978965e27e89, 0xcce48b158121b61b,
        0x46a7f5e40db0580a, 0x8e317063b1a6b6d5, 0xace3ae391a0855e4, 0x85525a7390a5fbd8,
        0x86dc08ec1cd40448, 0x9f224f69d0fec112, 0x72bc595a9d1c8608, 0x6bdb849f5243ae07,
        0x9d858247b244d5fa, 0x84b7f233d7cc31db, 0x5aa4a73fdc092cc0, 0xe06033b145820cd0,
        0x55a63dbd28aab969, 0xa447405b79291b4b, 0x8b8458209cae871e, 0x8e52afaf8d6926d1,
        0xc41c3f9aedcc3a6d, 0xf76a1675f32c3120, 0x03bf85b97c3029d0, 0x6a54c467db92ea67,
        0x7c1372f36bebddc3, 0x18c3200f52efe2a5, 0x3fde3c9e0c13b08c, 0xa5b6b7183d5e6d5f,
        0x227a0c1174079d3b, 0xda22a34cb835070a, 0xf1826e279433c43d, 0xd2f8eaa7b949563b,
        0x998765167ecbae9a, 0xea6dfd04789efe8c, 0x65879be10fd7a73a, 0x7468f51c6c4fbbb7,
        0xd6834213bde6cdfc, 0xe1abfa24e0b35c43, 0x8a04a78b8c11ebf3, 0x3670a5cb3b5282ed,
        0xd51732424b3dc295, 0x282e0b0b1dbef5ef, 0xee622c8fe068262c, 0x53b7d084cc40b830,
        0x38fdefd3b7e169a6, 0x624857d73d378bae, 0x3756f70d49c65454, 0x42f5d55a900939a7,
        0xbda769b6ee6f9fbd, 0xefb1cd6ccd6c7918, 0x81696d10c1e4c218, 0x42c904b543fbfed8,
        0x59f2f0d7c137e992, 0xce6da1597cfa0259, 0x3ed2ff8819026a60, 0x52fa752f443855ff,
        0x36cd576b8a6ee4ce, 0xc89a3fcd12ee9038, 0xabf5f146024599e3, 0x368afeaf608e07a2,
        0x7756439fc99056d0, 0x5e169aa331c4f23b, 0x2d6ecf8c839fb792, 0xb2bd2a92e8ca68fe,
        0x91ecb5e6572673d7, 0xd47f0a8285c90dc6, 0xff3ad0425898687c, 0x9ff4c6892bcd7c03,
        0x29f83a63649e25fc, 0xdaadafd82c7fb6a8, 0x3501402936fb6537, 0xb65fc67b0fa63fe8,
        0x5d54857f175dfc74, 0xf722a30719a84911, 0xfbf5cb92ebffcdc1, 0x7c4414a526aacb20,
        0x4519fd38a937bf80, 0xaf3f2a6cf1eaad1d, 0x8efce7385b20ff8e, 0xa5a34cbdd432780b,
        0x85613151f66b3430, 0xb7d76094028920a5, 0x3ea2cb7b41dca42a, 0x991ba92af83f7fa5,
        0x7e2e40cf465d5bd6, 0xe73c962e1045a8e5, 0x920c88452efda63a, 0x493244839d91c77b,
        0x8ccc4e0d1dcee340, 0x0b88a4d403fde2f6, 0x50b03d7e1800d611, 0x35cbbe0c4a05e6de,
        0x5d2c42a1ea8e81ef, 0x4bd45bf7cb495941, 0x7121324631b1398a, 0x1c9b43efd2796942,
        0x45e553030900eaa6, 0x831dfca2ca0f9514, 0x693fcf7e9a4e0b38, 0xaa7e0172e5e9a8eb,
        0x384a9d2df65e3299, 0x0d3998181c959cb5, 0x75682c8f12a6c521, 0xe4d130c14a3b2d35,
        0xc53ffc32963e7ac4, 0x0935551e3e58147a, 0x9a9ecf6fca452370, 0x9937d1517efb9652,
        0xc798df34af610468, 0x7bfc2e3e63f860f1, 0xe6c83b1c5c696b21, 0x7eaf740a9651a754,
        0x4e044d912c71d719, 0xbc77c58e8af57ebd, 0x91f1af1f2df04c0c, 0x54da61a46f45077e,
        0x0f253c95dd529025, 0x53f90de4d9a5ca4b, 0xeb7d1d4beddc663b, 0x9c8843bb14e1dea4,
        0xa33466da7efcaaf9, 0x0555f2e7d90d659e, 0x6c0379838bfa9957, 0x3e621818ac44d9aa,
        0xfc5ddb6b37a75746, 0x83e6b256af958d81, 0xcddf1b08f608a85c, 0x55c33147cea8f217,
        0x18241f94822b69c3, 0xd840973aab7fd92f, 0xad458fa89a855d3c, 0xfeaabeb54fcb91d0,
        0x6aa724fc658e98b9, 0x87b903d47209c18b, 0x33c489e0c2db008b, 0x971dabd125bdf90e,
    ],
    [
        0xd7545c2506242b7a, 0xd7eb4300e67f6076, 0xeb26bba453016094, 0x426640d9f01697d2,
        0x2953214b537a343a, 0x8c3f4095ab094dd3, 0x2b20d0eff29eae15, 0x8ddeb84461aa0a80,
        0xad4d6d3eebd9855a, 0xec4a46cd4e38987b, 0x1fbeac8430423d4d, 0x05156632c59b7bc7,
        0x334a392bf428c70c, 0x0ae46a9dc16db796, 0x2e12ce286f5fac62, 0xc99fda6a9d0f21d9,
        0xb266fb0d35eba3c8, 0x6c85b831d16e0bf7, 0x752e3df1036d23d0, 0xf570084407f34178,
        0x72904930f201a09d, 0x10e6c3794401be3f, 0x97535d70a50adec5, 0x702d018ded49c33f,
        0x3fa4a5498700c527, 0xed5015749f9e8920, 0xb0dedc8adae3b710, 0x7738ba8f0a225465,
        0xaf32e0139f7ef741, 0x288e568c7ed657a6, 0x7c7ef8618ae825eb, 0x14a1a5850713836a,
        0x060ff26fe08c3f1a, 0x1f145a9140487d6e, 0x4ca945cb37fddf74, 0x1c07858d9b691d22,
        0xac2a353349c437fe, 0x81ac546a314d0341, 0xc315c2f63c4b5c75, 0x40a8e23f822b512a,
        0x14663a7d9c65c170, 0xd14646ed92ea066f, 0xbb97abccb0afcfe5, 0x98cf91883a43ccc2,
        0x4166b092e95846f5, 0x8a884bd10da379e4, 0x251297b1a6f187b8, 0x12136e594597744b,
        0x7a55b260c4e3cffc, 0xfce8a6a415c50a3a, 0x7b15b85b72ef2f42, 0xafd1e35971011976,
        0x46518a4f748d2ad3, 0x0672ce88bd3a951f, 0xd88b2195edd2a6cd, 0xa4d2d8ebbfc78ed0,
        0xfa6d77feabda4d8a, 0xcbf1461557e7537d, 0x74c0245be873aae5, 0xe3a4fd965a70634e,
        0xdf836e792998bb79, 0xd26abf6c67f85fb8, 0xc73d8ff75b19946d, 0xf13c11075779f5f1,
        0x96fb10cae6955c35, 0x1755768c5bfe4087, 0x528a47b41ef858da, 0xf3fa48aa7a689041,
        0xb0bd978e35bc5637, 0xdf3c235735d37fde, 0x80c7e417eba3afa5, 0x591a49315fe5725e,
        0x4f5ca267c322d6fe, 0x83305e5cc0edde12, 0x26528e14c8682555, 0x812096b667539cab,
        0xfe263e8f58d743b7, 0xf96855d0ed02873d, 0xa488235d7e16e27b, 0x66b0ce3b2a1a0b0c,
        0x72d84b49af3dbc70, 0x13e0c3f41f34921b, 0x202f8dfeefa160b7, 0xb12fd1fc49ec64a0,
        0xfe4b2c209cd2a981, 0x8c67db2ebcd787fc, 0x81934208e00e49ac, 0xfb1d45596fafef31,
        0x2df7274b0f76960e, 0x817e739ebafffdad, 0x3c409ea831f5610e, 0xdb2aea8bde9ae949,
        0x3ffb6879dc7ac25d, 0x2a7576a8ed922f29, 0x5c2fdafa441b5543, 0xd9ae27c9f32a7707,
        0x99edcd04bbab656c, 0x143b5d199857388a, 0xf6cb0ad809a54f5f, 0xc521ab9a13051d2b,
        0xb5e9ac46ab8fc677, 0x17327e93a54072cc, 0xe11e6bf91e818223, 0x97636a4f71ffcdec,
        0xf1af17bf31685b23, 0x11202b236534c7a0, 0xcb5bf924761492cc, 0x9f6f95fc855a29ec,
        0xf77686e8a43c577f, 0x84a1dc4bf1f713fb, 0xff3981ae7751e11e, 0x81c2206a37f53382,
        0x8ff4043ba6c87eee, 0x84e6148d928bc34a, 0xa0ce684064865329, 0xe69ca488509d581b,
        0x30391c7d518d4e9a, 0x817fb37ad79267f0, 0x32150faadb6722ac, 0xe9cc5d33f3b99331,
        0x056d7c4bfb80ba96, 0x8c5aa0592196ceb9, 0x4ff45a1d30a9ffd4, 0x62671a7144b01fc6,
        0xf07b571d160dd0fe, 0x1ae2f64cdd451380, 0x3f49c119e02e0e63, 0x75d24cb89b1f8c69,
        0xf9998717bdf8965a, 0x262645e47a4373e6, 0x90c5ce78cdd7621d, 0xdebce7a3d0c4a333,
        0x2b34e1428fa02d1a, 0x045a5587e5b7bd64, 0x06c280b90ef8c1b9, 0x0e226dee164e0527,
        0x459b913526824431, 0x6ca4ff60ac5cb3dc, 0x73ac82d33b979971, 0xeaa9f7425abadda9,
        0x4bf2382b6ac950ea, 0x057b01f40eb6ac5d, 0xc5bdc76e8dd3078b, 0x72c1dfa512a4bef9,
        0xafdfcd7e8809ec64, 0x1b15ec7ee1c8084f, 0x1d589ab74c523364, 0x19c5d52a6cc32e61,
        0xb9ebdf5fe550b011, 0xdd72b5d3e8024b50, 0x1d25c0cb91d668ac, 0xff06c05441a53757,
        0xc0667e9c5ea4bf1f, 0x83659b5267c6e2d4, 0x3e816915318988ab, 0xbd19cc20a40be535,
        0x5ae24f1f8265910f, 0xbce45de7b27aa402, 0x08742e71091ba15f, 0x6cde6dbff9192af1,
        0x8b55409989a154f1, 0x1ce1484a176942ce, 0xb487d2b16b0fbd4f, 0x33c22389903f1fd2,
        0xa3272f0fd296cf6a, 0x33b4547421464d70, 0x1db4696407434062, 0xca743a76c703dca7,
        0x93ec45ccf6305c45, 0xcf42df51d3014e4c, 0xaad755616e385f27, 0x76310fcaa280eac2,
        0x4c45c116b8fd5a66, 0x8cfbc1bfe283740a, 0x5ae5c95569efdead, 0x899d20390e2259d8,
        0x09dd4523ddd01b6f, 0xc87e97161c38c8f6, 0x27a93ab1cb22e13e, 0x73366c56c2107dee,
        0xb4c08fbe33f3e043, 0xba9eccf96a88658e, 0x474d9b6a3291489b, 0x041dfd7d4c9170cb,
        0xf87d364bb57ddf3c, 0xcdf6c57449410c5e, 0xf42869d70c93233c, 0x5474f6d18631b189,
        0xe561e0e97d107446, 0xb475783e8b1d3341, 0xc7d66fc3f76318ff, 0x7f440fbb1eec493c,
        0x3550a4992e503f50, 0x8a0647f4899dc4c7, 0xc403363f2b22fd57, 0xbb83ed84977a9f42,
        0x382963088e002481, 0xd2d707e6c2fb50a0, 0x6f3e47476426cc4f, 0x427fe3d339bcd43e,
        0xbea361abb680722c, 0x2b580f6a8c41a2ed, 0xee204403f6cf97b6, 0xb3a7bedc196e9668,
        0x4f6c92a16d837d66, 0xe1b4064746ec74c6, 0x6429fd4f76cf5749, 0x93845796218ae6bf,
        0xac96d1b3485aa6bf, 0x57e13f6a3fea3e03, 0xe3968dd675899ca7, 0x113fa0ba7f206ffb,
        0x9ef5ec1a7770e627, 0x4e324ed6c72f1402, 0x16d998d942c30b40, 0x00b786131bfaa83e,
        0x4006fd7d1da42c76, 0x27ac8520d7a45882, 0x354b7eb9def555c6, 0x6ebfc158ae0de808,
        0x55dfffb0eee8441f, 0x4eaeafb7d0765795, 0x26c69b05d438ef7b, 0x46d67eddb5e80315,
        0x4fbb65aeb1f1b768, 0xaf2d1207b3fa8ea0, 0x8d74885b17321e89, 0x74a3748809c5beb9,
        0x868fb7b26a466b39, 0xe9d9c7b333180514, 0xc2c019162158c292, 0x07504da8bf57bc18,
        0x5f059f41ec72df10, 0x770b5db1255081b9, 0xe0b25ae6a675b9ab, 0x0b9be1b7d46ca966,
        0x54ed9950b342afad, 0x43e7cae51aff3f7b, 0x35938ad32d7e92ca, 0xd45ab3dd450d1a2e,
        0xbaaf5958ed1c5240, 0xca98f8553914df05, 0xbd53e17f4bc5cde4, 0x67ba165a5208034b,
        0xcb029fec8cf1d912, 0xf8aeee3ff18512c2, 0xc7824ca5116a84b6, 0xa6f83a7b9c3170fa,
        0xf6e017e18b8dd6d9, 0xd599a2c6b9870388, 0x7428858f750e066a, 0xf7154982a09ea03a,
        0xb8c0c599a1fed971, 0x6dc95af242af3ff2, 0x8a9df81210bf750a, 0xb80a26f148d666ed,
    ],
    [
        0xab11e3ffb30a98fb, 0x6f2de4cc24c720a2, 0x7ed250d834fc4a5e, 0xc9096eecde47fb60,
        0xc91c7f4e5bc2b6ea, 0xb3cdf1ee8a27e9b1, 0x3b2f7bc36514e5a0, 0x901d76d962e4c955,
        0x92f862fcb3557f18, 0x583dbac9cd43609d, 0x5aab612d728f9ba0, 0x3826bd218b90ac67,
        0xea835ba219765f76, 0xc8d14147b23b840b, 0x960f8321ff37a813, 0x5434a27b66863aa6,
        0x5a7fe1e0600d5159, 0x62236ae02eb5460d, 0x83d2b8563a923fdd, 0x1454bc421f2b0a42,
        0x5386d6eecc4afd34, 0x07d64e61f2463da6, 0x64b98646d5b09b6c, 0x0a2cea448836a39b,
        0xe5428aa209e5e8c0, 0x73e6fc6927dd9d7a, 0xfde53fe54c21cf5a, 0xcdcff5a014957242,
        0x7719abc51488b839, 0x0b867399c5461425, 0xceae17a9f00b960d, 0x5f62a82eb81b77c9,
        0x4caeef3a3edb21af, 0x94045d3c4ad1963f, 0x3f777941b5f0e872, 0x5097e175da8c622d,
        0xf41563901080a2e1, 0x7996560bff0c2a08, 0xb2f43be2b6378b19, 0xa65f4855ba8cc429,
        0x784e990cfa488895, 0xd071eb58ccd0b2f8, 0x998220b277537b87, 0xc6ffbfd9d21e2767,
        0x82374d07a1495d81, 0xdf489f13862262f1, 0xee7de36f962635cf, 0x27b713443168f71f,
        0x50a9974a3bf30765, 0xdf4df81d83267369, 0x2e726eabaac9e9bd, 0xc390ca8c0ce59910,
        0xb0aca3c4589052fe, 0x7d0e5259a63a00d4, 0x16ebd1cb270c3712, 0x98310289cca01eca,
        0xc63fa6e328171420, 0x42ab18a6cd56cfae, 0x12cc2d66c299c371, 0x67d8238a6d5eea6a,
        0x8fe87d06041e308f, 0xc203f7d998993b34, 0xb0f9af9ed969c00f, 0xe4eb3592c5b7ddbf,
        0x445b5ff43b9c91d6, 0x996546285d12b8b8, 0x3fdd31220e9069a6, 0x970efecdd5c28cf2,
        0x2ec24caaed79812a, 0x4fc740da20b2ebe6, 0x9a5394042a7175d3, 0x553a1f0add81a284,
        0xd4d344ba647c25da, 0xf3d5d80423055ae0, 0x7e12c6ab68b19a9e, 0xfb2845d3e77c519e,
        0xc17fba31dd2a360b, 0xf75e8f117bef459a, 0x8f963d88b1cbd250, 0x402ad9c61afafe57,
        0x1c293f2189de0edb, 0x3366c3f54da84ee5, 0x7e1b540e6caba83e, 0xff7ac7d3ffe0caff,
        0xb29012bd661a35e5, 0xcbc5a09a4776749c, 0xe4fa4619d940d79f, 0x8abe8cef7330d527,
        0xdb918312eb5964b5, 0x641c3e6455096dcb, 0xa77d96c93cda2c64, 0xaf7af778801292da,
        0x3076b9f6f5483409, 0xb8fdbab6ede7f7e5, 0x928205ee1216e1e6, 0x2623a01e9d5c2f57,
        0xb63b2a48ce6e5089, 0x431d0800477ccf90, 0x3bab9dcf73866545, 0xb2cab004ffa960ea,
        0x2f75f9f2149e4dc7, 0x01ca01f562c4953a, 0x7ebd5b49663e54a0, 0xe7f473ca1b68e77b,
        0x05655cf49747d3d9, 0x5d90e0c7e3353441, 0x9ee9fca7c24cef93, 0x97c3338268ca873a,
        0xa0807488d51e121e, 0xa4cdd0da06a7a237, 0xab81ddc58e90a3c4, 0xca1bfaa167359250,
        0x66f541b5ca422e4b, 0x0c6f998994842856, 0xa752ed3d042ee7f3, 0x62e853f130b2b2fb,
        0xc62c7af534c3d25e, 0x9d88f7d9e9175d91, 0x8126c08f11041b0a, 0x7af4afccd9f97c66,
        0x5c3947d92ad8124b, 0x942f2f29354969e7, 0x00372013cf24d9e1, 0x28a4e8bcbe5296e7,
        0xd1b57e5af4b5a254, 0xde6eb2855755bbfa, 0xd1184e172a19e8b9, 0xf6d0e7108f174424,
        0xf286d936ae84b7fc, 0x5db88c44924faf8c, 0xb1ead944cfc4886a, 0x2b13d79d1c6de5d9,
        0xd91e25afebfa3835, 0x13793399152a66c8, 0x37a975057167d782, 0x1b05c8386f2ca277,
        0xe0ca520bda9578a1, 0x263847bc2ac6b9be, 0x18134c2b5808a597, 0x30e1d97f49acc73f,
        0x0ecbcc2630fc43bf, 0x81237ebeb48ec231, 0xe2361d7a1d41e4f2, 0xac5b80713d34dc69,
        0x52ef1240ec2da9d0, 0xbbee614d900b7abf, 0x8f9846773fdcbda7, 0xe3a1fd13f1d07086,
        0x34bf6d08ab3bc846, 0xd83f49433f0e7d26, 0x81bb29f3b6b8df21, 0x0dfc13c07ccaab3b,
        0x6173ca76e5acd732, 0x6e346a77a5809c30, 0x6dc6307beb41543b, 0xae2dca5290c5b9e1,
        0xf310109fa4bc08da, 0x9cf0ed358d77a5b0, 0x24071a13f9c60bd6, 0xcdbaaa781a101dfd,
        0x6571d277d9b7900d, 0xafdd2bded6380a87, 0xfd7401ae9ef6d0d0, 0x0665d9a272026fde,
        0x6ac9b89d399eb800, 0xd6bdb2de796e41cc, 0xc43b42230d3cfe49, 0xd117c45bef6dd886,
        0x2d3f099649adeace, 0x13e9f146dcfcbf06, 0x7ca4b3a29ed87198, 0x04f2469303c7362f,
        0xcbef242256a9ef29, 0x28327f0374a30647, 0xe9d97fa77f73f917, 0x309991249b58005f,
        0x669c5e076ee0d52e, 0xbecb046cc60801e3, 0x333e43b4a6ce414a, 0x3c32e403029b95ca,
        0x6485024a80c0c7b1, 0x2c7323491c95e1c0, 0x6826d14e5d5f96ca, 0x6ed1ee3ae892d860,
        0x55161b94069277bf, 0x6e4e944405d4b521, 0xa4762e7c824b46e9, 0x0dad2421a8ed9a3e,
        0x1ef3010788232673, 0xe6e59ca011a61bdb, 0xb1512ac5447cccd4, 0x51c2801033fca9e9,
        0x4fce1ee8722dcbcc, 0xd8f7b141654ad37e, 0x55239929994826ff, 0xfeb747753243f33c,
        0x6d808dc189ec97a7, 0xf9d08ceb43433e35, 0x572d068dda996c0f, 0x0a73dadd0a3117cb,
        0x1376f384590842b9, 0x318edd33729d8d28, 0xb6090b9a92b130f4, 0x3997a26dda5e5db4,
        0x9d61c0556b60b0c9, 0x7d03fd269f1c49cd, 0x3fa9e456fbb5a492, 0x4445506230b2c834,
        0xf931d04e17bd0101, 0xe6c2a8e8f5bc796d, 0xacb4cb8a871ceed5, 0xcb78502a957abb91,
        0x908d5416ae394ada, 0xafb3136ad7b24585, 0x9afb313349eb585a, 0xb260c5e3b4bdae3b,
        0x5ae32fa9b46879ba, 0x1f89cc581221f531, 0xbdb1cb2beec86e30, 0x20209037b0606ecd,
        0xa8e0e6fde3a85a1f, 0xb03836428064e638, 0xca062c80d2567d44, 0x1160f050f00afa14,
        0xb4846530f316ace7, 0x8b1a6ea76c9586c2, 0x575cd8a8c9d238a9, 0x43e5094a3baec29a,
        0x2db79741278ef8c6, 0x293b87f442be1a38, 0x1b32f6375bfed52a, 0x6948923dd5cb075f,
        0xd1476f8e8d214bce, 0xb1a607d6b795e2f8, 0xbbdb893a8ed8867d, 0x58b3e12ce6b1184f,
        0x60f94b28f2451c3e, 0x201c3867c4b64ff8, 0x822070e35913221c, 0x82a97bf9d8ba12c2,
        0x81ed0bba90f4aea0, 0x9779dea30f511a46, 0x4b72d95dd74ce74e, 0x3df349ab62c8ca08,
        0x1e0c1cf57d18ca34, 0x5f6a3a195afb30c0, 0x6af4d2688586b81d, 0x720e4b2b776e8842,
        0x216182b9af42f6b1, 0x4c01def16f955d60, 0x31c583660c7c5e25, 0x22064423ac4d0924,
        0xd4404adfdf492744, 0xb90f4196f8d4b83e, 0xde63a513a54602fe, 0x7d24e48106ef913a,
    ],
    [
        0x6a657da44aa10a2b, 0x1b94db1f4a7c3040, 0x872021a87dc46334, 0x7a0a9a2bc13e2ff1,
        0x7cd4600cccb7e16c, 0x3718e89e7d9bee9b, 0x56ff4a45970a73db, 0x8d4f1a60588a7d33,
        0xb5b77f4c03d0daa3, 0x1e262746736b45e5, 0x42bbdddb85c911e4, 0x626e84e52b62a2c7,
        0x68c69785530b8759, 0xe8d8a12d0e9fce26, 0xe99899e6abb785b9, 0xa68585cf85bb9152,
        0x647236a39cbc7caf, 0x9264391728bfa4cf, 0xd2eadcea706c36b8, 0x728fd79b4bf450bd,
        0x7a64133eb84a8e08, 0xcacbe0038b747567, 0xeb1a445a31bac613, 0xef6dd40345a43c0f,
        0x4507b6ce9f103884, 0x619e9e8e2bc2f4ee, 0xc4c045b7707e1467, 0xbafcbca3335decfd,
        0x259a04e36323211c, 0x1d904c894acd3055, 0xb51c5550497ec06e, 0xd1e2130c6c191ef2,
        0x4521ae8356bf6565, 0xcda3de5795ef3416, 0x9bf2b5a222ae5aa3, 0x7c348c34e1a4031b,
        0xb617b43fbb209eaa, 0xee44e7fd37856ff5, 0x3cd2b391d4a4367a, 0xd0a5d8dbf0a04da8,
        0x51855a0d6e6797ca, 0xaef5e0ef73209506, 0x6c62cd1d2bb5a1e6, 0xd47b95d4c0dcfaf8,
        0x4d5fc6afccdc583e, 0xa6ba71502c263c9e, 0x87c0303e303364b4, 0xc072c35e8ddc4c5f,
        0x2cb12d9dc619a9d0, 0x8f7002b53c0e3d6a, 0xeecafcfe50bd2831, 0x1161f372d90754eb,
        0xd1e2f60ea48fbdf6, 0x3814d3c46fe9a1e0, 0xb4fa65bed82ace2c, 0x3a206df8ecbf84e0,
        0xbfac1f6affd1a34c, 0x62e6bf9d0fa3f0cc, 0xb5c68812cc262f12, 0x260cdfb5ff34eab5,
        0xaa3dfee8f98f2f88, 0xf999c82b1e22cd79, 0x141866e555bc9267, 0x87d87e2528f2b608,
        0x48278f9e1170aa57, 0x13304d2017ea8b82, 0x55d7567535376fdc, 0x86a6f64029d0dcc7,
        0xb1854bd2d3cde65d, 0x8d9be7844d642d33, 0x56ef12a99eb52ace, 0x531da56f15a919c0,
        0xe69fa6aab3575ad6, 0xe316ba53e55214fa, 0xa822c750db2a33d1, 0xf5a9975a610de32c,
        0x647c5b0056b00f38, 0x4c5826d2b314a36d, 0x055138e94d2797b1, 0xb5122f1365d273ea,
        0x5cafd30d8d3f8db2, 0xd1aed44622c33869, 0xf54fdb176570d0ab, 0x472515fa44afc6e4,
        0xab9521ef112bbb3e, 0x89860089a244a91e, 0x7c1f978b297504b8, 0x54f88e48e4f99ac1,
        0x871a650b76891efe, 0xbacbf1620fa2abdc, 0xa7ab83aa0c40a684, 0x32d82e61e78968e0,
        0xbabb259c1b04f6a0, 0xbf2dc2536b52628f, 0xc0ab80f830c72678, 0xa2dc5f79148ddfe0,
        0xa8d8b25969931477, 0x2869dc2a2e529b88, 0x781eac9d3b9e00e2, 0x99368c7568340104,
        0x521b1e859c55aa17, 0x6f13ec1a2d95933e, 0x8a30ca0b0b8e447e, 0x40476c85057019bf,
        0x98469d1ba7e04ce0, 0x08727eb8e0c85302, 0xc735dcdedb7f2237, 0x9ec1430e4d856da3,
        0x388f15e3bec20af4, 0x97c86510bd67aa21, 0x355794bd6a0b1a78, 0x24c7de2bd3927281,
        0x6774774a863ca561, 0xf809146f601ef77b, 0x67c5bf3ad8b243a9, 0x771aef6a737fffa9,
        0x68492b344dd3873d, 0x7ccf76cfbbfcd551, 0xd9770c6ccd8a4c1e, 0xb59dbc0e54209c6a,
        0xc99676964d610a03, 0x7b0ad803f7706630, 0xc6bd7f5f37313b6e, 0x5e1e28663f881365,
        0x1c7a3f62b28ed96e, 0xc2af6bbdca2e46fc, 0x1d08e1c1d6abfc91, 0xe0438cf94ae4bf51,
        0xccd439318dbaaa21, 0x3019aa88c6d37ec3, 0x292eefa42c00d50f, 0xb445baae18d21b71,
        0x309fabf8c6dd90fe, 0xdd03afeb3f332b39, 0x1149e9b03ad6a0d5, 0xe2fe4899733a5270,
        0xd95ca5dd0869ad87, 0xda7a4f348ff527f4, 0x0278435af4ced938, 0x0e643b53d7495abf,
        0x0acf8cbd376e9706, 0xb83c1cbea0657c1c, 0x62abb461a521d448, 0x541edcde57b35f8a,
        0x1da7b3d84206f062, 0x9a0a0f38620bdc7b, 0x71bc6d4b587f1592, 0x8afd25bcf17fb2ec,
        0x52def6f03b7749bc, 0x734b58f12fd91ff3, 0xe2229af6d3e94dab, 0xd57647f7b9fb003b,
        0xb08b358c01efbf5d, 0xf1c61bc0d380b3e1, 0x4b0558eee0b2c13b, 0x3135a24e70b77ae7,
        0x4a95cbd7854f16fc, 0xf16349f9cb4739a1, 0x4296cec5c8fa3810, 0xdb3cf576ff77e935,
        0x02bcecb1e5c7a590, 0x4e20ef4dec38ed51, 0xf82262bb0d37a508, 0x6ea0b1beb0199eea,
        0x8e7d40a1158aee4a, 0xe741c41acf10c71c, 0xe2db5f1061ae61dc, 0x118f0e04d8fbb3e2,
        0x702f39679bd0aa0d, 0x5e6cf137dffc448e, 0x5df8a81338c252b2, 0xe32a57b8f5bc6f0d,
        0x9071cd5a4251d0f8, 0x0e20f8e5941bc8d0, 0xa806e3ad50fbe841, 0x32fed89a3f9f6347,
        0xad0a31ce4777ef5a, 0xc91e483603a2355c, 0x2028ead9b2271dd0, 0x8e1ab2d6e483d046,
        0x0ea6a1ca4eafdbbf, 0x0e3ab7580dc180bb, 0x67d28a03e42a4b06, 0x3db13919182878c9,
        0xd7fad2fdd6f48bfb, 0xcce19957a1a02e23, 0xe51f1e42bee27740, 0x0857e3f31c2c8928,
        0x79c22ed6a1a6a772, 0x4c5a01ea56dea9bc, 0xa98afb5d474220ff, 0x7e98fab114e6119f,
        0xfe65f415a7b59260, 0x28f9d4717611670e, 0x937c19dbf35d1241, 0xbbd1aeb6bd90e54c,
        0x4ded7586ccfc1449, 0x9fe095a14ff1eb68, 0x72a605fce09cc163, 0xdd359f297892ae3b,
        0x322cd4ffb09334c6, 0xfafd55c70cf67acb, 0x29d80c1298302de3, 0x30b29baa4f4ee812,
        0xf2dfe8441d2756d8, 0x39e603d3e9b7fdc9, 0x6dd091ad91511fae, 0xeb8e75cfb39fdfee,
        0x07592aafa3edcbd4, 0x174a1687b9eb37bc, 0x640ed701c7b9c782, 0x0cf13f4db8ee9964,
        0x3a63256989b44b7b, 0x0a9bbcd6e5f52c7d, 0xed0e8b21ffda907f, 0x631b99b8b64fb05d,
        0x93401bd725f3746f, 0xe4533f145f5f357d, 0x38d532985dc27e5f, 0x2f4956cd077f2288,
        0xf309022d75f791a0, 0xb8c4b95e5ecba37a, 0xca9215a599f918cd, 0x3caa29426f0be1c4,
        0x264a16ea544fbbe4, 0x31ff27c71f836f07, 0x9aa172ca8ce7b0e3, 0x0d30dc0828719c9c,
        0x4a18923bceef7503, 0x6aeb99cac1d421e0, 0x633dd7b2b009b6b3, 0xff87e1327314a2f7,
        0x8412b4db303797ed, 0x4354e797b881889e, 0xd9840f7e49e86cfa, 0xf1369f00bcacd2eb,
        0xe38b7e0899289407, 0xa650981224867e67, 0xfc5726f40527d789, 0xfe76c1ed6d11ac52,
        0xa1266858ad0e66ba, 0x459135d838abda16, 0x483c5a4bec07b4ac, 0x1e1d56ce24002928,
        0xa804bfd79f44f967, 0xf8ffa906f7dc95af, 0xb9d52d1bff1efe4b, 0xf5332d275370ed45,
        0x443d578e684667fb, 0x04b513ec1cc6a7a6, 0xb3e7b30d4fde0d86, 0x60a90ad961f55968,
        0x952ac5ae343c1001, 0x5606298eb9109454, 0xe7bd2da9c4f5baaf, 0x828b7e29ef1f8dad,
    ],
    [
        0x71fa1aea0ebaf4ff, 0xad6172b7453d9487, 0xb764e4665d81f326, 0x3272284c56d4df87,
        0x758eb8fcf8675a94, 0x40472f4d81cf486b, 0x1d59169ce50335fc, 0x5507bfc667ed56ed,
        0x8cd2e38dbd6effc8, 0xb9de8c578a430115, 0x6e38e5313e6b91ab, 0xbf3460a8a3b70b8c,
        0xe771b580ff1ea59e, 0x80eab08b544d6597, 0xfd0eccc93b7e1434, 0x36aac323ffefec16,
        0x42bdba657606a354, 0x429938fc35c0a41f, 0x23ac538ae13b5f3f, 0xc46e85eef40a0aff,
        0xc2186bd32b9afe81, 0xe305d23e570aa1e0, 0xa0635996b4b409d9, 0x77a8b7f7f7300150,
        0x6350abee069c7158, 0xc1d6397e540a7764, 0x29db9fc65f0326d7, 0x90c470e946a86ef0,
        0x0304649b7e116cb2, 0x33cc0250e489be72, 0x985edb8e05be4032, 0x1c73d426ce5aafbd,
        0x3620bc027c730af0, 0x1a05e1775777d810, 0x260438d166506f43, 0x018f5953edcd0612,
        0xf6e9e66fe31ed0de, 0x0633c127cab34388, 0x47d1a4a70e36d3ac, 0x25d25c63250f4e2e,
        0x9358cbb50dd977f7, 0x8ee21b12dc23a6e4, 0x632c6712d8d65c9e, 0xe97960426f0bbae6,
        0x7be5e60ce3afbd63, 0x85b32a19221e5eec, 0x4e5ab2ed5f0962f8, 0x25862f18c5590757,
        0x5b95dcdd95e6296d, 0x9352c764d102cc20, 0x89ee3cd1202e61b2, 0x257c830b61266dd6,
        0xb66d6fe87a54d18f, 0xe05a691da1b2ca10, 0xd508abdda7f2fb79, 0x57660f74f0bcb6cd,
        0x7a2e7971faa388ae, 0x11efee272c64c266, 0x763cf7c8edb80b34, 0xd238042ec32587c1,
        0xa9ff18bde48c4a62, 0x7ccb8fb06365541f, 0x8ca32eedae43568b, 0x15866b1dfb7d09f4,
        0x964fe9ecc21979e5, 0xb8ced9586ad97e51, 0x189123fa428e2d10, 0xb2c7b163c449b803,
        0xff272d44fcb22219, 0x86c89ab91cec9456, 0x339dc7387d272ee2, 0x4fe24370e2385f9c,
        0xa8743b735fa98c59, 0x8e3d2f57960f94e4, 0xd31adae356ff8e16, 0x945fd10c06ed4f61,
        0x5ad5335c78e2f696, 0x24c7cc306681aaba, 0x840589b9278d2c90, 0x0ed7a1a541cf6d83,
        0xed6b12e9846e7a7c, 0x721dd93eb6676e28, 0x5bf7608a1e55dac0, 0x4d3c1ad25cbd2f91,
        0x693d51246f9607eb, 0xaaebda88206bbc0c, 0x7154b04a76e9e3e9, 0xe4629704d948e48c,
        0xd15c2f8bea3e4c4c, 0xd95eb380484e1242, 0x1a4d9a22395ebd58, 0x8461d4c732fc42b9,
        0xdbe182f05a07db4d, 0xd0ce60f70bd3221e, 0x27ac8730d6f8c73b, 0x78c98fbc6c1b5c5d,
        0xeae0aaaf603d6efd, 0xcbed60adaad14397, 0x70488db0349b1d3a, 0xf5a7cec5484137c5,
        0x5c097072e69a5c04, 0x35d1278eb89c95fc, 0x2e39f13bb4294756, 0xb99aa485c6302404,
        0x022efbe50306e03e, 0x1ee825da1f692eb3, 0x13b90dabe8583eeb, 0x18182d98c249b0ce,
        0x52e5d0c3f2fc2113, 0x4bfd0d47c51a13ac, 0x99e81fdd756db4f1, 0x69ae64b407df029f,
        0x4ae96139f21cf198, 0xb3b32d7429842761, 0x3983e8c0c16ba6d5, 0xcfb55f8f56ba59eb,
        0x5589a85831676471, 0xe0e277728d5d8fd0, 0xe3225bb5f4abe698, 0x52a20e24cfd742b2,
        0x6445faf947075ef7, 0x0395123cca3287c1, 0x4f4b6d506803dee5, 0xc7b82a367fc50892,
        0xfcc030b4a806eb91, 0xedfcb70e7a65b3b2, 0xe57b4280e384e754, 0x1e7f1e38549f3d4e,
        0x589b57c1f9010479, 0xdfefad4c991e8b5f, 0xa141502c3dc1ae3b, 0x41a352b1c074793a,
        0xedd50f9d58557161, 0x7abbb164e01a9aad, 0xb10dc60bb1384af1, 0x407156df36c61353,
        0xd5a51fab8f4c2acb, 0x100f344b7c56f277, 0x06a5c3b1f56f3bd4, 0x8d121822e174ab3c,
        0xd4115860a2645e99, 0xf5fbac2df7f3cea0, 0x6b885ff9ca51f0c2, 0xffbf54388d4115b0,
        0x16bc8ca3c511bd34, 0x6f1405416fb713ce, 0x91394926413aed4a, 0xe7b827efdac86598,
        0x7f3092c8a27cdcdb, 0x89990727beba7dc2, 0xfdcfdb6c461f7118, 0x019b6efafa76816c,
        0xd9cd334c847b899b, 0x0f02392d436fbdce, 0x0483b5b21ec5a437, 0x5c0dc208b55dcb42,
        0xb58e4cc8d652369f, 0x0520ae0d938c0283, 0xbeeb9b9ad467ca65, 0xa963bb56164d6c42,
        0x7c413a982803071c, 0x86ffefee1b73463c, 0xe67e7093dd46e7ce, 0x7a1dfbaafed1a128,
        0x515a03b484338c72, 0x32baa0a7c7a70624, 0x7035e3d8028e9cfc, 0xb20c5dd748fb8974,
        0x803acdc6765ada4d, 0x71715258abfa2f34, 0x8c2d621d38e3eb79, 0xdbba76671c5215f0,
        0xee1e2525c173fc7a, 0x9c910db7ec60148e, 0x19453dcf029856be, 0x63ad85071fae5f06,
        0x16dba8e689e6b1a9, 0xd6e5d1ddb0674ef1, 0x3b9f3a39d08e9bd3, 0x1a73ac28f9a2de53,
        0xbbf7e0c1f9e2ceb3, 0x77006b5f67732457, 0x118e2b9d6ea28a6a, 0xb89dae405df244a5,
        0xd1ae422f1af433b1, 0x0cfe98fe7d7cb6c8, 0x83f620d7e74bea56, 0x8d05501217fab75a,
        0x36b4f0cc8ada9272, 0x871c03c7d62425d9, 0xd7102eb39601a522, 0x227b35f80952cec7,
        0xf21c68b5fac08dfd, 0x12755de8325b5cc8, 0xe6a18726fc6b020b, 0x77cddda4e3bc8c3b,
        0x4f5b5ea5def9314a, 0xd044780b8cc4d237, 0x615082958d208da3, 0x5ab7f4620319d978,
        0xde0e6ed51fe2c0f0, 0x69271ebec3b6048e, 0x76959e8116b56324, 0x440084d98337516e,
        0x175b8af1c8dbef96, 0x6d521e0e52b6030c, 0x0d5526fb6caf5c65, 0xa35397044073ef9e,
        0xe367be7a3ac25d48, 0x0db8452b1518b3c6, 0x51d3c46fab9f2a71, 0x10ca631860d3e9ee,
        0xc5e0bbdc4fa653b0, 0x1271aaec0907227e, 0xe49763b150cbb6ee, 0x68cf943d18980f22,
        0x359e28a30b0d9469, 0x60ddfa81e4552944, 0x881c8825c41851bf, 0x12c79442d624883f,
        0x25c878e0043dcff4, 0x26a4497cd12aa024, 0x5c2aa1d864803fee, 0x6c9261dd745463eb,
        0xe55f1f0a6bdbc275, 0xb8836c33bf2ddb0a, 0x6173d15dfdafa229, 0x8f11775cbe736fed,
        0xe55ba956e5860f59, 0x16b945e70f5e4488, 0x90bd883708240ab2, 0x46a661535373b488,
        0x7fc6fef18a308ccb, 0x886f58821e342652, 0x2639f9404a62c603, 0x3e4d815dee27c2c9,
        0xc6896eaddb934faf, 0xc3b1e59888454940, 0x9fbda684de332294, 0x7e6408f2ac56f062,
        0xb153587e7d79e1c2, 0x6cf4e867aa53f447, 0xde52c0ba7c2f7508, 0x925c8b00e5d15a33,
        0x3118e1ba6cfc6203, 0xa13ebd6bff2f76a1, 0x9aff9c61cf64ed58, 0x32e7c6fc1fe4b7b9,
        0xe4a9f2ffd13cf447, 0x341e94d1c6b5cbba, 0x9a4189ff8952fe9c, 0xbe0c00c28084a437,
        0x420a65cd708c4278, 0xdaa68224dde48edf, 0x7c3a7b47148d3451, 0xa2a4dee1bdcc58d7,
    ],
    [
        0xf5a457accdec5ba4, 0x056af3d1c2b1d0e3, 0x8027f290232441f3, 0xc4e7cb55b464fbed,
        0xd3a9f0fe12433a7d, 0x40fb71e735619f07, 0xea9fe786573c1eb5, 0xc687b0c8d1463e23,
        0x39ebbee493adf148, 0xb4c8d678d5f583e2, 0x0940bb614fb8630c, 0x9ccd374be7e4186d,
        0x790ab1aaf9fbd1c5, 0xd9ed6b41fc7da3ea, 0x36a3be6a66847a37, 0x230791b72531ad91,
        0x1a5f308f94eed64b, 0x41ddee53be17d9cb, 0xbea2a01d69f2e5cf, 0xe2a1199c7928052b,
        0xd46900988517c8c7, 0xbfefb440a4fc7af5, 0x89227827f70e6c4f, 0xc6c465e95c95121a,
        0x5283598e0562d552, 0xa7aa09a1aa0de602, 0x038e58515fd36d05, 0x4717b81228b2f86a,
        0x9d2e76ee610c5c50, 0xb902227828e1c824, 0xcb2faa07c2dc7192, 0x8c14ee0700f9bf2e,
        0x0e3b6d781d5e19f6, 0x9f1c27ad03c58505, 0xe4057f2986b52a6a, 0x0e853eeb49773a85,
        0x0522d0a3d9493c55, 0xd88877b9beb4452d, 0x7949bf692cf9c736, 0x30b65651c80bc6cc,
        0x0421d06b525e27ba, 0x262472575741cead, 0x39bfb8b770bce8cd, 0x34b59bae6a2a5282,
        0x83cb36e19be6d4f3, 0xc69f3cacc5a0d377, 0x5700d646aa087267, 0x6ff75bf5137fb854,
        0x4883636c7d3995cb, 0x57dcde491c778870, 0x991fdf2f50697890, 0xd3fe78b3d7d45021,
        0x1ef4ea1d63a99592, 0xe671b90f99c1dcdf, 0x791ad722cc066484, 0xa8538f87f40f1cf4,
        0x75c936c2a118dd69, 0x51553819678bd79c, 0x8c469780132ad7be, 0xee8395fe16ab0916,
        0x7fa7c0d90d08d86d, 0xf676a21c337bfc81, 0x3e67e2a98b389cf5, 0xdd19b91d374fdb58,
        0x3b414cb4503fb55e, 0x79702b6e79dbfb4e, 0xb11bc8b5a59f11c4, 0x3942351b6b4407d2,
        0x971f1d0ad9abb4d5, 0xf372b704e089e4a1, 0x0c1a60d63eb24e6e, 0x30ede97b95b89dc7,
        0x9b2e969203c562c2, 0x7d5c761be7b95757, 0xa42c7f94b8a2b3a5, 0xb078553892e07a31,
        0xda7854ae21503894, 0x5f08c623995c89b9, 0x7fe358c654a1b2fe, 0x1b4d06e8934ec6cb,
        0x3f89a1e801b2753f, 0x761f320f37b4ea28, 0xb9a268d3a5cc2947, 0x79b6e7133da05102,
        0x18a6a0285a17910a, 0x306f548096b57858, 0x15f065fdb4551377, 0x1852ba6e5c485bcb,
        0x843c46f96c473c63, 0x40e7514d894812f2, 0xd4da83ae806aaf59, 0x8b3d1a4ddfe5e5f6,
        0x960e9d52d946b9fa, 0x405b79c3c0b26f6e, 0x2a52d09a869389c5, 0xefddee80b1917019,
        0xdbfb8524ec15f98d, 0xfab3e9cdd94fef6f, 0xd0ce89997a89eaa6, 0x3b12afaaa2ed85cd,
        0xd6aa2a3802cf4661, 0x3436e05d25036352, 0xd8de17a680fa2b2d, 0x6181dd9002f1a077,
        0xc8c290d783b71c13, 0x4f2447d00935d38a, 0xec94d31228ec30cb, 0xdbb82a30d94aa3fe,
        0xeff28a78c218892f, 0xb8d080ac3f8950c8, 0xb8038b0db6e56b31, 0x62ca5227e9a9e905,
        0x5a8c6e92ecfff6eb, 0xf39665892031f573, 0xff6e3e5e8c6eee86, 0xf74a7264f3d2d76b,
        0x20f18b249c132d58, 0x23c50ca0db14f5a5, 0x4254e430f066c4c5, 0x4f03ab4b59f75585,
        0x3862035a93b31732, 0x09982a95f07525cd, 0xc7319b19da5e6e0c, 0xe88ee81a18fa18ef,
        0x9fdb2eb7e36a059d, 0xcae2aeb5a883c5f7, 0xb7d86bfe731f30d0, 0x5dd8a697c52c1caa,
        0x183e83ca2f6ea19d, 0x2f4ff19c4071d61c, 0x80881ac73a44ecd4, 0x376271d18133f3d7,
        0x1bf7f5e5c778ff5b, 0x0fb1c163884b6261, 0x87cfc5a1bd1725ef, 0x92fef610dd70e98a,
        0x5b6094e707275c8d, 0x1bfbe87bf56bce3e, 0xa6cad5f9e9b06bd5, 0x5740b9bd0f7b852a,
        0xca3ff66adebff41c, 0x866100edec9c7972, 0x9ed3d6dedceec2d1, 0xac0044fab8fb50b2,
        0xdb28ee615131746d, 0xd3b0dea5c162321c, 0x1d7df97bdc6ad929, 0x9b2397f031c6ef79,
        0x0341fc3ac579dc34, 0xa306842584f8f9cf, 0x007915770eadbf64, 0x4fd8a88b86b013b8,
        0xc9e856f55c98d27c, 0x3df3665b3f68b63b, 0xbf7c27ae19bd7e4e, 0x4a837f3f4ec0aa42,
        0xfd73f59b41e1865b, 0x2135175ebd10d726, 0x008f3ff6fb7719e6, 0x65a17b09ee34fabb,
        0x955316a5b5905fec, 0x4cb44da5b96f99d6, 0xdf5ca76912afdc92, 0xba38836d127eefb4,
        0xe7c21f137aceb3a6, 0x20aee7c232270a48, 0x9ea7d671a948ba6c, 0xe47c10a140065cc1,
        0x3a83fcdb6449e0d9, 0x93515d173afaf539, 0x3e0db75438f2e148, 0x95ff4eef278dd7e9,
        0xb53a2e5adf0bcabf, 0x3b8eb1abf2255a36, 0x14d4baaad8cc9520, 0xe458b0ec6a96abcc,
        0xe369440611779de4, 0xd8e9be263888abfb, 0x26a4bccc862e805f, 0x4d7e3bb342a0e3f7,
        0x8f7dc1dc2638c186, 0x27b68698d24047c9, 0x07c825b278b9c6fc, 0xd9af70f89ede0208,
        0x503bc28128bfa44e, 0x2b0974b573b07428, 0xe4234eab7ee9cbf5, 0xfd56371f673c8954,
        0x4c9723b456f091aa, 0x68282417872edf85, 0x74dfb45e8768bc37, 0x596ec7676d306fe1,
        0x56bad327dd590209, 0xb80ae41ed1566bf3, 0xd94cea63d16bee5f, 0xaec50d17c8f128ef,
        0xcb3ce9ee00618078, 0x889234c58ad51bc4, 0x171dd9128e92c262, 0xeedef8ef912491a7,
        0x2ad16b46eb84de84, 0xdc149c23facf139b, 0x022e3ca5d5016918, 0xbe8086f145d80006,
        0x260d7d7a2aad73ed, 0xe72b3a66c7cdf3f3, 0x413043100d7a24a7, 0x342249590debf7cb,
        0x0dd1c9e6d3319b25, 0xdf01d705d23ab0be, 0x2bc1e5f697817eaa, 0xb8407b71f6f3e71f,
        0x78db8349c27f5617, 0xfc457ca6df92c258, 0xe89f69bfc373c96e, 0x177873775800571f,
        0x9006201acda2a8b4, 0xa45e843543134e0c, 0x74e376dfda90f3a4, 0xf1276f734f23df91,
        0x7904f31d90253d55, 0xd39fe0d051cad0cf, 0xc97c956d4800be7c, 0x230be640e111c1f8,
        0x6037572efe9f9326, 0x144b34b1a1a3e287, 0x36b31785c2ae3f15, 0x8dca43a7d8844a7a,
        0xdb2ec08f3e19c393, 0xec9fafe4d020c128, 0xb9d896d4618a1ad1, 0x34bb25136d9a92df,
        0x8826bb398ea48031, 0x9f3346a9d496a0a9, 0x557262d92383d001, 0x36decd8cc90e0982,
        0xff3ec29f1b90e2b7, 0x79c4954abedab79c, 0xcadcf08570dc7ba3, 0x7fdfff070aef8758,
        0x490aafbaf95cdbfc, 0xcd2151994cae49be, 0xe6eef5daf9dea2cb, 0x5362a48d707cad48,
        0x5886223199c6aca8, 0x23eb482c244f7026, 0x0cae1fd8101b0a3c, 0x7000856c5ae72e85,
        0xaf3c1e677df4d84d, 0xba78323beb9e02a0, 0x147e3a6b30b749a7, 0xe897b7b1f7d7ac87,
        0xc880096cab8d72c7, 0xd67cf77fcc98ece6, 0x9c98ab4db9816075, 0x2383970cdad5578c,
    ],
    [
        0xb02a374f6515d015, 0xc977f664138cf06b, 0x2fee5953013045af, 0x074f3adbe36163e3,
        0x68fdc8e321343905, 0xa0a1b1021bd6c079, 0xcfd9e63fe1b27c70, 0x20393b55988506fa,
        0x437a4df50191a70d, 0x9ae8b8af70b0dd68, 0xc84fd12a6d2880fb, 0x36d3ca8a92e43966,
        0x0711c2d20d3cd9a5, 0x0432e07b26364861, 0x209654090860e3dc, 0xf84b252990d35953,
        0xb1f2df14785a6544, 0xb0949cd08d09857f, 0xb610dd73facf92a9, 0x7d9460708e6a984e,
        0x2f0dd785977d3ed3, 0x73d4d0d0e70284ac, 0xa3bbe4cb8eb5e21d, 0x8b451c52c37685ab,
        0xcc45c36d79987bdf, 0x2958c234ed833deb, 0x0a5a93aef5464e20, 0x4f05c000376ddef4,
        0xa38af2eefb6a928a, 0xf0434030eafc33ab, 0x668fba71a5a73165, 0x23aa56d4aa1fedd9,
        0x57c5fe003d7459cf, 0x90bcb9e3a62bc178, 0xd48b74298bfd6589, 0x871fce95c32bf7b8,
        0x07a044177ab6f532, 0x16fb571efe088d46, 0x1715655b0391ef10, 0xc227101cbb3aa98f,
        0x680036275bc391ae, 0xa1489fa77ea8dd17, 0x0cab65066db60612, 0x2bbbf14ecebaec34,
        0x0343f1b4551ebac0, 0x4aba868ced730749, 0xff50ee57c3f0f09b, 0x981c5da574e921ad,
        0xe465e7b03e44a58c, 0xf68669f7cb3d2ff9, 0x38a0fe2bbd861687, 0x6f49396ecd415e5a,
        0xc26aea5f0f901084, 0x5f746c1dec712080, 0x04c9e220f76aea5f, 0x2b71a255368dbb83,
        0x142743ea89fac8bc, 0x12eb438372b736dc, 0x0b7915d4f1be3cb6, 0x3f32af8f8fe6f939,
        0x2f9b57bd54bea007, 0xa6bb9900d6f44a56, 0x71e5692936452f7c, 0xb425dfe49676008f,
        0x4ad5f87f2699eedb, 0xcc5ac3899859ed51, 0xf9a4250382f86e36, 0x6c74ba1eb77aab9c,
        0x61b15d34ade9f78e, 0x6f9d6a161be28a3f, 0x32e7bf20da66ba7b, 0x7f9be66fda113218,
        0x661356c0b526f4cf, 0xe6e65f4052b5760b, 0x26553202c2d933c5, 0x067e293091a714c8,
        0x22c1133bcd7ab75f, 0x1179270293bf6f2f, 0xb72961c92765fa5a, 0x768f3bcd96e9bafc,
        0xd7f13a14aec0921e, 0x6ac51a27474e2a5a, 0x54c5edb1df20b746, 0x9d265848e34c0502,
        0x0bfc7fc75cb76488, 0x190395b8db3f6d1e, 0x532c9b6f35e9f54e, 0x3aa6f43396dec4dc,
        0x2aae6eaed06a4c48, 0x819e71c4305fd069, 0xabee6286153cf53a, 0xe3f428d3e4380531,
        0xb03c47420602a693, 0xd2e40012a30071ed, 0x496d48a9b29e31ec, 0x73477a0d906d6156,
        0x3ccc13d875177615, 0x74efe73da868e498, 0x00f57b03ba71f9cc, 0x244786a882b2589f,
        0x8da2206f1d875369, 0xec20c660987f37b2, 0xc4f730c6468f9db3, 0xab7ab8e9dbd870cb,
        0x44c38f3e79506f06, 0xd32a6ed209de8efa, 0x03407bde8bc03568, 0xf8801c4ff82ea323,
        0x8ac155025ea59319, 0x2f4459ce78397013, 0x5921e34df9143231, 0xe8a13a558e5af752,
        0x3af007b68d473aff, 0x5922c2e4fe25b0c8, 0x734e083ddd53086d, 0x4a4ab3c22a0b9346,
        0x7946c0a55ac2d4b3, 0xd07eb6e78a3a0504, 0x9dbddb0c25295026, 0x02308d775ee98f3d,
        0x5badecab9b0f83b3, 0x1f66f44b2ee9edd6, 0x417f37268a1662a9, 0x534be6b81e4bf4fe,
        0x60ce3c5b37aace3b, 0x84caed7da691f92e, 0x1d61c630cb2daafb, 0x9dd4775d110aeb3b,
        0x8c6007153e50505a, 0xbe926292f93bbb4f, 0x6b6a20dc666cfcf6, 0xb6057c0f7ea32fb1,
        0x9bb49d936fc540d1, 0x30020da926351a01, 0x4dd4ace297f45917, 0x8d98b16c9d67877f,
        0x2263364d12134b42, 0x0a9226978ef32f84, 0xf2a84f9e44003528, 0xee0f52c7880ef8d5,
        0x07a196fc7e76fd08, 0x4c1ffd0ccc0671dc, 0xf86779e0ad9c27d4, 0xb0763a82bcb8c173,
        0xe25932a1211e77ee, 0x8d8b15d064dae8fa, 0x0f36c5cc0b2e167c, 0x812f8d0f8d817924,
        0x6329aadaabb302c8, 0xdc8498edc45f96d0, 0xa79036a7b34a0d11, 0x986c885cfc1c80a6,
        0x02e01b6f850581a6, 0x20a132dcd5ada321, 0x22368cba90da79fa, 0x2a0fa69e2ce8bbe9,
        0x8662a0fea1bebea9, 0x70d262b75b864347, 0x797404bfba8d2cc5, 0x9ec9a251d427c65e,
        0x55bdbe99fef483e3, 0x34d526d2776ec468, 0x207077d751cc7533, 0x41f846d5a3d1b3d5,
        0x1f8df51fdb3b1d40, 0xc07f81ea5c1a81cd, 0x365f106c964419b3, 0x8200abdbb5ed6d4d,
        0xde9651dcf19a6dd6, 0x0c361317a3282424, 0x908e11a720dbbebe, 0x3da631557109341a,
        0x9b1a4f9eef7566d8, 0xfc94aaaf6de6ef27, 0xd248a7a79fd93c11, 0x5a5645f3fbb05ac8,
        0xb64a26623d7c2850, 0xd6157008a0ff68f5, 0x10eb8eca413df5b7, 0x7a7742e7baa60871,
        0x9055a28efc913bc8, 0x54c30fde1152317f, 0x0eed9c3358a96b69, 0x46ceebe07d18ef3b,
        0x079f024127ab21e2, 0xf59d8c0bd9f5dcc3, 0x383935037fd5e48e, 0x31a0b98ed88d18c8,
        0xcc50ef6665aaa2ed, 0x6d66600a61aac129, 0x61a2a19340942c75, 0x3bcfe90f08a76344,
        0x5bb420c1fb4dad8f, 0x6243fafd3c535a1e, 0xdb56e1abf45d1975, 0xe2e3b0b6749bab75,
        0x045d5dc674a80d32, 0x95bc430ec81b2c43, 0x40ee5846d88a7403, 0xed74d79b55d34d24,
        0x5c195f3bf9cede25, 0x40e60d2210e31d44, 0x8e86666523de944f, 0x308ebc5ed6d64fd5,
        0x837597cc9910ed80, 0x2280ae5ebdbe6024, 0x9da2619e6320b2b3, 0x89aae578d0264c8a,
        0x71b9c59d70e9380d, 0x370068ad107cedb9, 0x821746b179d35fb4, 0xbd4801a2893f8405,
        0x25da96d50d328338, 0x08040cd7a1f36e58, 0xef339e5ac0370871, 0xe4aeec19cba8ccf7,
        0xff64a373898a3728, 0x5f24e3e8c69bf635, 0x9cefb36e077e17d5, 0xa8ee77a783bfc075,
        0x0deb8753465f2c66, 0x11b849fbcc91883b, 0x5cf7db2f7d9d23da, 0x9be4336f72809eff,
        0x052231a746d6d0f8, 0xe016b09d64d94bef, 0x6f3ea92b2dbc1a26, 0xe6ed202dd0d584b5,
        0xb3f991349f5c2be0, 0xf513aefa58a38700, 0xbccdb90b93a016ae, 0x229ef5639fa7fa61,
        0x3daa9b8fc5773afb, 0xc3b44770501ff4af, 0x7966721b222b545e, 0x9b8371f610a96d53,
        0xedc6c0cdb15f8e4e, 0xe4f456133d0bfaa4, 0xddad71b8786d9840, 0x95348d41254d7b30,
        0x8816270aec9ecc04, 0x7d4bdd56eca97643, 0x8c95144f50384b56, 0xc0ef61c7a842d091,
        0x6e06f2b70ffe3f20, 0x1baa22f73dbbef40, 0x1280183361804677, 0xaaa53cd92ac5ac57,
        0xc041f29652356d1f, 0xc4d9c0e15e1fd8d1, 0xbff85e55f8d86a2f, 0x66a11f3bc2a4d70f,
        0x47f53758f4cba583, 0x4a03ebe1d165ba11, 0x2238b798278e886f, 0x3ad6abe2bf8a0875,
    ],
    [
        0x1116c15df5b59622, 0xf8fb6529c7260ad9, 0xabb84a3629254676, 0x704ecc652696688a,
        0x191645a4d5ebb5ee, 0x5a5a412343c42019, 0xe278a62ee5fa7c99, 0xa79206f89fa87dc9,
        0xcf2959eb5383a2bc, 0x69aad0dc9c64a3ef, 0xe0a378923432e935, 0x5f8e6384670e34f7,
        0x7a66fa611dcb3f00, 0x176c80b50be01d95, 0xcd351c4a9c7c682b, 0x0a37de6841c99a00,
        0x2fc82df0bc991cae, 0x7b0e4c0b570c08ea, 0x25bfc2a9714a2bee, 0x4c57ac9818655cc5,
        0xe0df782242c3c3c8, 0x2122690c32043e28, 0xc6f587078103c713, 0x9e8edfa671d2565e,
        0xbc9e520f08546d55, 0xf263e5041b44503c, 0x7e49d9672f243505, 0xbc5f704a7bead1a2,
        0x82f252a9624e50cb, 0xed5e3586561d7b20, 0xd74974c85111f317, 0xb44794c3e729d314,
        0xa3f975af244ad18d, 0x96cd4bf209416240, 0xda6799cbcb5283da, 0xb18a97e6f2de8847,
        0xbdf33eadd3b13bee, 0xb7773a24ab166a41, 0x38f821ab5f50b8aa, 0x30c34967ce7fe643,
        0xadf304f5a404c517, 0x90957578d34ff9d4, 0xfd5dd03c3bc338a0, 0x1ebf5475ab848203,
        0x8a5b4dcf6975cd9c, 0x4c630b0d56418f2c, 0xb472c6837019cbd1, 0x9d9bf57778e994dc,
        0x058e7ef14fca4994, 0xcebf70656b6f1ac9, 0x488de54021f87c4e, 0xb21661368559e664,
        0x6b69ee26b97525dd, 0xf6f6ba757900875c, 0xc9f621a9ed0ff391, 0x8238be673676dc8f,
        0x8d63e061afcba2d2, 0xd8b7265c997d997b, 0xdaa235cf7ed4982d, 0xe1d51a6634e0ff4a,
        0x390e729ee69f0a9e, 0x24ef95b21814ccdd, 0x16360676ffd84a33, 0xb3f9b2acaec200f7,
        0x1c51334a14ca6898, 0x560bb9618dd69648, 0xb8158f64622701bc, 0xe7973ec00c479c46,
        0x1e6833ef5822028b, 0x65d306fdd3217e12, 0xb1bd956f7d8d11d1, 0x978f76b555db8363,
        0x8eff9ee7e92992b7, 0xf2168f661ad00488, 0x39b892b200511574, 0x3fce2c987aaf14b9,
        0x6a26f975fcdecfa8, 0x41f6368d6a389164, 0x333bff210136ef52, 0xf4e5d35bd6d6abd3,
        0x8a9247a56017fa5d, 0x14b9c4ba047e581f, 0x0b77416e2649be7c, 0xc332f0b23035e9f1,
        0x8c4084478ce7d502, 0xa11a3a87982d0651, 0x00dc87c53e28613b, 0xebdede5adec427f3,
        0xbd65dcb0d8e5cb71, 0x928286f2148ca159, 0xfdee67953cb4055e, 0x5168b05733627ccd,
        0x1e19b3e32a36c303, 0x4b3bb4ee26535f1e, 0xf03c0e8009e258ca, 0x7833070a270b7a33,
        0x741830db93e42e4e, 0x2062fb4591e67316, 0x918e90cbb89eda85, 0x37322ba4f83abea1,
        0x24ff472b448dbf86, 0xd348525f6121d4fe, 0xde360121e92a662f, 0x0c0034b999e2a16e,
        0x73ae7b5aed8d8c89, 0xad4a9adcbf880484, 0xa3f600a99a34e4c2, 0x3231352c8383f29a,
        0xa13828a58894b4d9, 0xbe1b6dca49b005e6, 0x7361efa4af5ab91d, 0xa85c588a883d8e54,
        0x0aee301af33fdf2f, 0xa7bc336cbe4f9a86, 0x24806886f09477aa, 0x156dcfe77a4cfd56,
        0x2f782eb733190219, 0x186bb9bbb422513c, 0x7e375536459cb155, 0x84b5fa120c35ff43,
        0x416cf7edd396691f, 0x67ab69c378c05864, 0x862a092c6b4fbf2b, 0x32b2e7f8d8084d60,
        0xf96c8668edeaf7d5, 0x960a25527f7f0987, 0x471224e3a9d1f71a, 0x91476582c0ded4c1,
        0x47c37d7ab7c39d63, 0x6fec44ed93443dcf, 0x379259a0464586a4, 0xa725e342a97b3691,
        0x1f482cbb6bfef6b1, 0xdd43df5106902e14, 0x11e499d9c916ec48, 0x8bbb497abc0a773f,
        0xe865749316817632, 0x47242bea23910916, 0x2156c2d9960a91ea, 0xd35df5625a574ede,
        0x47a7aec157ebe0da, 0xe597db80c77ad35d, 0x3472c8b979c62ae2, 0x36f7fea18318cb87,
        0x173215252f6d4c9e, 0x6f34220747651c2e, 0x06551687037a7cc4, 0x105d094049a1b302,
        0x0d1a172eb97ef896, 0x1d8267beed41350a, 0x68f5e76abc6a8fbe, 0xf660a93121ce12a9,
        0xf6f727451f41d2a8, 0x01a014df2945e141, 0xf14cd6af06507baa, 0x19ae174656dea172,
        0x0858ae1101e19a2c, 0x17485f419fc9041c, 0xf100c186f6a541ae, 0xc14d592ecbf93e5b,
        0xb3dca24e0e367087, 0xf8a468c490194061, 0x3cdceb8fecdb6bf0, 0x7e5e0de80180a0c4,
        0x9425a12e1f6652d2, 0x06602e9c9994d7ef, 0x84f392c1dc843fd5, 0x8461a1e2f24f68b9,
        0x5ee81026ca24ca58, 0xe968e49a0220fb39, 0x4caabbfd54ca9247, 0x3e49d0e21eee2a8d,
        0x8a77e9cd1120e280, 0xcc73af3ea572c86a, 0xf8b95f301581c74b, 0x7e4ad237bfecbf80,
        0xb2242f4cc3e97b29, 0x3dc1ac363824abdf, 0x852c939970d096b8, 0xe07b91293edf0b20,
        0xc464cb8f57878431, 0x6c0ccc6b801a6ed6, 0xa22deae6fcecf612, 0x2c344b081ce8797a,
        0x760f533c856d958f, 0x84ca18eee8f9a92a, 0xb91564e7aad3c275, 0x63495b5e46657804,
        0x0f11214f4d82fc08, 0x3a85831a24d4eecd, 0x3231c6c98022a6a9, 0x985b68a04fc0c5dc,
        0x85a4595c4942d1b6, 0xbf4fc00a70133187, 0x22db3a923783c1a9, 0x1af74ac77d629f89,
        0x7c35773cf49acb03, 0x3582de08ac917ca9, 0xff831019d199a23f, 0xaff58a49d4ef19d4,
        0x98eba24483db56bc, 0x3f238220600b7865, 0x045a5c2c353eb55b, 0xb54bc6c4300f61a1,
        0x410fa5adc387bf84, 0x7cd777a91c908bf5, 0x06b0fe63c005c3f4, 0x8e6535146bfd18fe,
        0x36ff0a018bffedae, 0xa6722695e6b10890, 0x1c3b1eb527c2d85e, 0x2eb8051e5b68a7a0,
        0x96b200cfbddc0b40, 0xb0ef2e3440797060, 0x78c7fdd79ae9dd23, 0x986a669c0e358fb0,
        0xb172cb1387cec2d5, 0x208fc859d1ab9f84, 0x243840455e3ba90e, 0x93ec65f77c4eb407,
        0x072964dd19fae4ba, 0xd0ea544559185a58, 0xaab2d32480449f35, 0xe11796b2bf913ff0,
        0x56ee26bbf713fc5c, 0x49be16d6b089a4f1, 0x33a7b682cfda9a6e, 0xb62e6cca54c23178,
        0x2ea8c8f307c395c0, 0x4f0e0df33e0df0f4, 0x2fb1920f65c40c41, 0x58231e77c5d4b818,
        0xc73b49327fa26b2a, 0x258372ba4ae86415, 0x331538d457bce097, 0x0ae135c8eaca8c19,
        0x1e9f93992f8a2e6f, 0x7b0264a6949643e6, 0x61603304b9d7a70a, 0x8f3b382fd7888b26,
        0x4e6377dd45ac0431, 0xaab5404958cdb896, 0xe1dd39d14ba3a03a, 0x2a1b4308e4002a76,
        0xa81e370ccd36e941, 0xf2db1297d7be10d4, 0xa52a123de2de0467, 0x1fd25248d59bb8cc,
        0xefd874716ec4c66f, 0xa83bf8a51713fbbd, 0x37854b5067fea7be, 0x456d26addcaa4c1c,
        0x06575a1a2fe28cf8, 0xb74e711ead08200a, 0x161a026c87fd03d7, 0xc30329336886428a,
    ],
];

} // verus!
