//! The powers of seven modulo the order of the groups that the proof of its
//! primality rests on, each reached by repeated squaring from one that is
//! already known.
use vstd::prelude::*;
use crate::algebra::order;
use crate::number_theory::{
    has_residue, lemma_multiply, lemma_power_chain, lemma_square, lemma_zeroth_power,
};

verus! {

/// Towards the power `126087409461678876690687209612722859509266379400282112` of seven: the first 26 bits of the
/// exponent.
proof fn lemma_seven_chain_part_1()
    ensures
        has_residue(7nat, 0x2a20102nat, order(), 0x72c3d5bdcdd971f1ae90d1fe55cacdcdbabdc16ba7a7f11c7e8399120cde72d7nat),
{
    let m = 0x73eda753299d7d483339d80809a1d80553bda402fffe5bfeffffffff00000001nat;
    let b = 7nat;
    lemma_zeroth_power(b, m);
    let n = 0nat;
    let x = 1nat;
    let y = 1nat;
    let n = lemma_square(b, m, n, x, 0nat, y);
    let x = y;
    let y = 7nat;
    let n = lemma_multiply(b, m, n, x, 0nat, y);
    let x = y;
    let y = 0x31nat;
    let n = lemma_square(b, m, n, x, 0nat, y);
    let x = y;
    let y = 0x961nat;
    let n = lemma_square(b, m, n, x, 0nat, y);
    let x = y;
    let y = 0x41a7nat;
    let n = lemma_multiply(b, m, n, x, 0nat, y);
    let x = y;
    let y = 0x10d63af1nat;
    let n = lemma_square(b, m, n, x, 0nat, y);
    let x = y;
    let y = 0x11b7aa4b87e16e1nat;
    let n = lemma_square(b, m, n, x, 0nat, y);
    let x = y;
    let y = 0x7c05a810b72a027nat;
    let n = lemma_multiply(b, m, n, x, 0nat, y);
    let x = y;
    let y = 0x3c157af0306dcb7f23e06460ecc5f1nat;
    let n = lemma_square(b, m, n, x, 0nat, y);
    let x = y;
    let y = 0xe1a136dfd2538ea78a929d9a4c7cd9e77082abe645375f8d3ba4d64cce1nat;
    let n = lemma_square(b, m, n, x, 0nat, y);
    let x = y;
    let y = 0xb1c95b8ac03f2afd5c45c863f7c7b2dc3c31162f4f797c3a2658a5c83b29556nat;
    let n = lemma_square(b, m, n, x, 0x1b723de0d164ce4ea7baa69a8088398df4fbe3b3d31a5f28a0cc86bnat, y);
    let x = y;
    let y = 0x3489f8d1dea6f11459970ada0c6e2b19237c54142ac0a83cb38accdb6b32f0ffnat;
    let n = lemma_square(b, m, n, x, 0x110a6d65f712cec211ddb58a37f445ae802a0b93249e2460aefca439b8247e5nat, y);
    let x = y;
    let y = 0x13fcd7c399b81fb5d973c3de3a1da59ffd2d60842b4985abe8cb9a02ee6496f6nat;
    let n = lemma_multiply(b, m, n, x, 3nat, y);
    let x = y;
    let y = 0x656d9e66cf25f4a0cbc4e5981c440f5d96947669a88a03c139e0c8cc2359d9cbnat;
    let n = lemma_square(b, m, n, x, 0x372371ee235f8c172de8d6565a56309d0246c31aa31a5573b5015dc8ddb5a99nat, y);
    let x = y;
    let y = 0x3beb36249a716ac2c3f158537cee130977f9afeb62e96805cba4879f4c69f2dcnat;
    let n = lemma_square(b, m, n, x, 0x58bde12436d38e8d21e01c9b8aa9aa4d77143f4ef90be987dc03491c5e05d41dnat, y);
    let x = y;
    let y = 0x24a1e6cbe9e68e30682f29ce21e6e50d8689bfb990333de43f880c63bcd522benat;
    let n = lemma_square(b, m, n, x, 0x1ef83c22d79236936d9f1bc70b6917f74e6e4aa6aac2ace794ee474202078a52nat, y);
    let x = y;
    let y = 0x322e5596f9623d4b2991db3e0e12114ef9ed3602c6371e324ad16fc8f0ab6359nat;
    let n = lemma_square(b, m, n, x, 0xb93578d6c4cb90a07fb9046dbc0a76c751edef7e5532556aaaa9d4ff437a1abnat, y);
    let x = y;
    let y = 0x6cc6bf5df743334092c4bb054e95ad4bf0ed318752393e42470cd7392d73c8dfnat;
    let n = lemma_square(b, m, n, x, 0x15b8b147a483a754fe8c50faec8b4784aae9cb837913973684798aed92002c12nat, y);
    let x = y;
    let y = 0x3c1e045eee50324367a806a366afa163915d6f76426240f077ea173c536f43d6nat;
    let n = lemma_square(b, m, n, x, 0x6610cbb277f8425f5c64018fc3a110b0c1985d8b4fac2953f88dc5792887ee6bnat, y);
    let x = y;
    let y = 0x1a2ae207c2c22bd4b3465dc93109494a6083e7955c2a60ecd596117dc6a52047nat;
    let n = lemma_square(b, m, n, x, 0x1f2cd7376eaaf5a3623622e4866aa53f761550f64443f4663a141bc7e2e8969dnat, y);
    let x = y;
    let y = 0x2267d96141d13674f4fb8b558d24fa8211f59a7644d25a095916e574bcb435nat;
    let n = lemma_square(b, m, n, x, 0x5e814e09097a6220642d31f2d02657f465eb23801bcd7cc7464d45cfedb1f7cnat, y);
    let x = y;
    let y = 0x6988a034f9d53ccd8fbd841774d53dfcdc67686a2f84bb541f2d9c3625191550nat;
    let n = lemma_square(b, m, n, x, 0xa360712a0ee9e62f8cf33a87a83336eda607b9d4fe27514f2ae0f997da9nat, y);
    let x = y;
    let y = 0x2b2a757fdb23b9edbad38c73f809a1ca106202d54caaf752da3f458103af952anat;
    let n = lemma_multiply(b, m, n, x, 6nat, y);
    let x = y;
    let y = 0x9f6cecf1632004b2f898af18b0b2a291bf3e37d4136924d85c58f8c954a6eb6nat;
    let n = lemma_square(b, m, n, x, 0x1012a1f7f87a155fc43cc564b90f3857f2f55d50f7ad1f22775c7ae1ad0b7c2enat, y);
    let x = y;
    let y = 0x2e2cd3de65dbfccb9c018c46c766437bf64d27b08757ae584e0c7dcf2a4ee607nat;
    let n = lemma_square(b, m, n, x, 0xdb3e3b922855bb55b4d6aab083da5c2238f878cdca3d36dd01ab21e2ca035dnat, y);
    let x = y;
    let y = 0x624a97c06424f5ed8ae6f42b93314d4e5c402609b0328a3c5376e65f1add44f0nat;
    let n = lemma_square(b, m, n, x, 0x12645291fb43c15ef24e004502696d60d12391f73f264e5c2c8139ff2c174f41nat, y);
    let x = y;
    let y = 0x21339a5f7d4dadce989930c13928579225ab2c667113573a584987e72de718d3nat;
    let n = lemma_square(b, m, n, x, 0x535670408f1c128cc7629bb5a194ab87e4f416f66d7bf7630ae9dba6ab09482dnat, y);
    let x = y;
    let y = 0x6488fbd50602391bf797003e14d2d9e2a0d7bc1026e901e386bc8d0fd24bee4enat;
    let n = lemma_square(b, m, n, x, 0x98243a67fc06fee9c7d86bb0c123d77564ce716e5051e0b77f828ad2ae64f9bnat, y);
    let x = y;
    let y = 0xa9dda706e9662e28cbbe3c650838833729eda06502390915369083a011c8354nat;
    let n = lemma_square(b, m, n, x, 0x572f90be939ee074d32ddf0ee9ee77e786dbf96da44ce8abc3bc16d7766c9c70nat, y);
    let x = y;
    let y = 0x51145869cafdfe47e4c9d3dce4ad54f15f15acaa849d17c2bae5a35a2273b94nat;
    let n = lemma_square(b, m, n, x, 0xf8e60aa97f3a2bc7b41d2de42f93afef2a13d7e92f4b7453f37c0a0397d7fcnat, y);
    let x = y;
    let y = 0x2378e6ae48cf1f3f74184cb0a40bd52999997b8a9a04ba6531c477776f12a10cnat;
    let n = lemma_multiply(b, m, n, x, 0nat, y);
    let x = y;
    let y = 0x72c3d5bdcdd971f1ae90d1fe55cacdcdbabdc16ba7a7f11c7e8399120cde72d7nat;
    let n = lemma_square(b, m, n, x, 0xada9d5d4a92bceff95366729b572200f57a0349dfd74a0fdf3a16d26621a5b9nat, y);
    let x = y;
}

/// Towards the power `126087409461678876690687209612722859509266379400282112` of seven: the first 45 bits of the
/// exponent.
proof fn lemma_seven_chain_part_2()
    ensures
        has_residue(7nat, 0x1510081a7faanat, order(), 0x48018ed8a18bb79b04b5ce75d6922c1bde85bd1b8aa4d9bc8b5a3a677e2aa2e0nat),
{
    let m = 0x73eda753299d7d483339d80809a1d80553bda402fffe5bfeffffffff00000001nat;
    let b = 7nat;
    lemma_seven_chain_part_1();
    let n = 0x2a20102nat;
    let x = 0x72c3d5bdcdd971f1ae90d1fe55cacdcdbabdc16ba7a7f11c7e8399120cde72d7nat;
    let y = 0x6bc8ec3da7412dea929aadc41ec0908024be71df95a16fcd75992f845a1523dbnat;
    let n = lemma_multiply(b, m, n, x, 6nat, y);
    let x = y;
    let y = 0x4eaa47dfbadac16778da5232e3cd696d6cad8e777c6e344a59cadf8483b8733anat;
    let n = lemma_square(b, m, n, x, 0x6436a2b80c7e5d904f807935fc92c1ef8ba4c9633d8e9385d7e08d675f3b2a1fnat, y);
    let x = y;
    let y = 0x64ce06d99cb1395f8c34aafbacf46d0fa3aa89e3e3b30dbb742d417324aa1282nat;
    let n = lemma_square(b, m, n, x, 0x35612cfca4345b943fd02207d0e8b491297a61d7a3d43f8838a9ffd20e9316a2nat, y);
    let x = y;
    let y = 0xa1044004f27a1eba2159cb180e3eb4d8337ed2939ef38262d3cca2c00a68188nat;
    let n = lemma_multiply(b, m, n, x, 6nat, y);
    let x = y;
    let y = 0x55f70d6e7927d7d885651892a2e5dfbd5b3e37af79ddf80b16cc4609d6da9306nat;
    let n = lemma_square(b, m, n, x, 0xdfa4226e9b3725dcda80197fa9b380de8824edf4fe4bf8d5ab123c670fc53anat, y);
    let x = y;
    let y = 0x63443c895a1f4a2a99aefbf8bc86cf2b4056e3f919a4373a9b02d095faf11911nat;
    let n = lemma_square(b, m, n, x, 0x3fbf0649c554971e7f7835d076da56050b9b2db84d5f2331de5bc155c7b6cb13nat, y);
    let x = y;
    let y = 0x72b03ceba33ff63f33fd991dddff15c561af615102d6493fc408e6a4ae40923cnat;
    let n = lemma_square(b, m, n, x, 0x54ffddaac2d55b1a10ef758f123b2c03e226fe03fb9f352dcbcf700fba35c0e5nat, y);
    let x = y;
    let y = 0x6b3fbe7e7d0ecc0938941fa0d82e8845b559d12513e5d8c45c3e4e86c3c3ff9enat;
    let n = lemma_multiply(b, m, n, x, 6nat, y);
    let x = y;
    let y = 0x1ebfe94ed86f6f54c41ff85a144f86ef0b3b8a6d702777295b05f6da3b471277nat;
    let n = lemma_square(b, m, n, x, 0x63382f4c86ad8385e1133e6d9232ed6bca8149c2face3dceded32b14e2a9130dnat, y);
    let x = y;
    let y = 0x6351b9d4c16e8e0929a5f26e848ad883fae324fb1115e6227d29bff89ef18140nat;
    let n = lemma_multiply(b, m, n, x, 1nat, y);
    let x = y;
    let y = 0x67a49feeaacd2327772b73cbbed34b9439f64711938d3cc145d71299a4c2d30bnat;
    let n = lemma_square(b, m, n, x, 0x5516f92d555862c31b3597bfa4c9274569bb125d58470f234d1e95baf6febcf5nat, y);
    let x = y;
    let y = 0x1dee7393b1eb06630ed51a61fdfc00ed9f4a196908e6814ee8e182398153c547nat;
    let n = lemma_multiply(b, m, n, x, 6nat, y);
    let x = y;
    let y = 0x5d21cee33f246fa59760ab22d93087fa2c5590afdfe06928ded31103363f9367nat;
    let n = lemma_square(b, m, n, x, 0x7ba5cd91a6dbbc0642f086d52a8d0159aacabf76f3a5c9a60cb331fdbd0c64anat, y);
    let x = y;
    let y = 0x48486396e9eb9b1e238375cbc02a7fbc93a2c0c01f2b142317c5771b7bbd07ccnat;
    let n = lemma_multiply(b, m, n, x, 5nat, y);
    let x = y;
    let y = 0x508a4d8980ed3812dfa02a762b15b6ca8964b8ba98fffdff1e62f02ccabc14a0nat;
    let n = lemma_square(b, m, n, x, 0x2d11b7ef7936a27dc73c4dbeb9800fb5bc8e2b5f6cd5b5e85d3c43ddc0b8b5f0nat, y);
    let x = y;
    let y = 0x64118175e00693635079c91b07109f7472ca7d0e2f0681fdd4b4913d8b24905cnat;
    let n = lemma_multiply(b, m, n, x, 4nat, y);
    let x = y;
    let y = 0x1fbff4d587e9335b19beb98106fcf25d9c51ea4df1143637c4046bd90c3fd2d2nat;
    let n = lemma_square(b, m, n, x, 0x5660d1cd0024707afb58e4d8b64fcb91fd729b53fac37f066af92039c707ce3enat, y);
    let x = y;
    let y = 0x6a520a838dc2ea3580fd3a7f2748c889f27fc41e978f1f875c1ef2f055bec3bdnat;
    let n = lemma_multiply(b, m, n, x, 1nat, y);
    let x = y;
    let y = 0x1ca95191ae4452a31eeb30f053edd579457c1d2d69b124a3f4963d9eda62bb62nat;
    let n = lemma_square(b, m, n, x, 0x61824679ee8b8cd20dee0d8df000ad94b9469a7a145b59071a01130ac9d2be27nat, y);
    let x = y;
    let y = 0x54b393a89a40c52da5347e8a41defe4b92a7283ae3d9a47cb01baf58f8b31fadnat;
    let n = lemma_multiply(b, m, n, x, 1nat, y);
    let x = y;
    let y = 0x4318a69ca9145de3d53c5bdd78693b94761005bb7b09441e89a00feaeebf615nat;
    let n = lemma_square(b, m, n, x, 0x3de2d001dcbf259fb234e309bb225e655641747e95c5b7eb48e13b79d0ed64d4nat, y);
    let x = y;
    let y = 0x1d5ac8e489f8e913ad4a6830e4ae0a10f3a7028205d40dcd5c3606f6c873ba93nat;
    let n = lemma_multiply(b, m, n, x, 0nat, y);
    let x = y;
    let y = 0x4374ba2d33c2851cb5c20ad433366ffedfe867ada575619f02d321c0a0ba2cc4nat;
    let n = lemma_square(b, m, n, x, 0x76ed872bb137e93dd9d995d2aed222e256208936d9c31eadaa1203f3751c3a5nat, y);
    let x = y;
    let y = 0x702eca4ee450a4d4de1cfbeb6a4abeaea70469e7fdc59c466fcf494b92493f5fnat;
    let n = lemma_square(b, m, n, x, 0x274043f3610bef0d229fa177067c0a9525fbafc3bc81129c695a5abf825ab6b1nat, y);
    let x = y;
    let y = 0x59b59c3544839220df6fd33fae4026a69aad0d45f0711df30eab01170000bb93nat;
    let n = lemma_multiply(b, m, n, x, 6nat, y);
    let x = y;
    let y = 0x55db76b3faa36f9674b23af4363de43b53dbb55aba9872b937af3b3ebefcbb38nat;
    let n = lemma_square(b, m, n, x, 0x456b9869a477c2b01013f3f8d291cb26d075d8a4ec9af3763ebefa5cca735b31nat, y);
    let x = y;
    let y = 0x61ff656beddcd64a20e9f613cb8ce893639fdc0109ab816a7cb3cfc368079377nat;
    let n = lemma_square(b, m, n, x, 0x3f9622512a03a5e9e689496014e4ef68975e43237727cb3ff032178dd72348c9nat, y);
    let x = y;
    let y = 0x6a578153b0f6699de644826260b123ed16aacff843b8bdee68eaae5cd835083cnat;
    let n = lemma_multiply(b, m, n, x, 5nat, y);
    let x = y;
    let y = 0x5d7b4cfc63bd092461aab6c0b6b1a2ca3a74a019d174f27d094866026e426fdbnat;
    let n = lemma_square(b, m, n, x, 0x618c4c7fd8492f77f80d6528390fccbd8cf24c367249f2b43329fc343ad95e35nat, y);
    let x = y;
    let y = 0x19e0fb474368133cf47aa55a6c72bb6789a642c0b6703c43f06acd87feba1347nat;
    let n = lemma_square(b, m, n, x, 0x4b6196b83ced341088835e3827704273e87af9df705ef81f4d80315413119212nat, y);
    let x = y;
    let y = 0x4139379fae3b09627c20ad70ed8147cf6fce2f41fd1349dc92eb9eb8f71686f0nat;
    let n = lemma_multiply(b, m, n, x, 1nat, y);
    let x = y;
    let y = 0x48018ed8a18bb79b04b5ce75d6922c1bde85bd1b8aa4d9bc8b5a3a677e2aa2e0nat;
    let n = lemma_square(b, m, n, x, 0x24b22cbdf4a1867ef9c4ec7c580c29d64c24f928fe8813e3f8e9f7171a357e20nat, y);
    let x = y;
}

/// Towards the power `126087409461678876690687209612722859509266379400282112` of seven: the first 68 bits of the
/// exponent.
proof fn lemma_seven_chain_part_3()
    ensures
        has_residue(7nat, 0xa88040d3fd513416anat, order(), 0x23089e9aa071cfcc9ba0627cb026d091d106564d275c347a220237e81bbb561dnat),
{
    let m = 0x73eda753299d7d483339d80809a1d80553bda402fffe5bfeffffffff00000001nat;
    let b = 7nat;
    lemma_seven_chain_part_2();
    let n = 0x1510081a7faanat;
    let x = 0x48018ed8a18bb79b04b5ce75d6922c1bde85bd1b8aa4d9bc8b5a3a677e2aa2e0nat;
    let y = 0x2f934137328575ad83d4c5cf926d20fa7decc8ab879e1fbfd8fdfab393e980dcnat;
    let n = lemma_square(b, m, n, x, 0x2cb98f3a1e45a5312e5b924bd7c78ed46f4ad88d249c165ec803581ec536c324nat, y);
    let x = y;
    let y = 0x6cada9581489e5d44fe678f633636687bf3fb7f3b996f12b4a778f72adaf9685nat;
    let n = lemma_square(b, m, n, x, 0x13862e01b2bd722bb5ab75b7783bbd1b0b5e44549840eb38b1b379b8cba5268bnat, y);
    let x = y;
    let y = 0x6930f55304367d8f51e319f726db9c57aa52090430a4c78a49a75211d65a16dfnat;
    let n = lemma_square(b, m, n, x, 0x65e1bd77ec05a0501f0fdf09fb8c301fa14f3d5dd021d984e85c267b0dfc0a3anat, y);
    let x = y;
    let y = 0x28c4c95223cc7f3a09daa591d6363645b1cc670b548b4cce03933e82dc76a013nat;
    let n = lemma_multiply(b, m, n, x, 6nat, y);
    let x = y;
    let y = 0xc9323cb5efea3a3205f292ce7bfe9022389f016497b49710ba655495d2c32dcnat;
    let n = lemma_square(b, m, n, x, 0xe5652229ecca954f376a3bb79bea58605c5cfce0a9d3802987b1aa8406f8e8dnat, y);
    let x = y;
    let y = 0x70c1117c25a7358f286a86f6ab98ea40d26c950fab03e3c8590ae131b2123579nat;
    let n = lemma_square(b, m, n, x, 0x15d2e3c75c3df5b3b17900c5286f19c809c03e706a8f10fced1d472aba87797nat, y);
    let x = y;
    let y = 0x22cc320b946304bc05c8fd82cc16d712c6d9a8e6ccd6a9ffaf34d94786b6cc01nat;
    let n = lemma_square(b, m, n, x, 0x6daabb5c78e9b59dde73430702acd13f61fd86742ee1e366968c2be24d788730nat, y);
    let x = y;
    let y = 0xbba0faabb7a2693c20b3e83815c3178c878564999e1edffca71f0f6aeff9405nat;
    let n = lemma_multiply(b, m, n, x, 2nat, y);
    let x = y;
    let y = 0x3551f855c56647f5342296c8e19b3ca9392b7c2fb6c3d165c9ca10b1db917e43nat;
    let n = lemma_square(b, m, n, x, 0x12face2d753c7633928a263df43d1b580235911ee137c91eef47f1f27fa49d6nat, y);
    let x = y;
    let y = 0x1974d45ee8f37fdbd34497660e59209094f77944ff5fa5cb848674e000fa73d2nat;
    let n = lemma_multiply(b, m, n, x, 3nat, y);
    let x = y;
    let y = 0x219fd73a2ad3baab8c32f798591e2e29b849dde30aef030ffe3201cf756ceafcnat;
    let n = lemma_square(b, m, n, x, 0x59702faa8c78dd6d5fb1ea313b96872aaeb881080c15fc976095ffef5216d48nat, y);
    let x = y;
    let y = 0x1a7905e05306abeb10229cea832138fec3b37270851745509bb4980f18decf14nat;
    let n = lemma_square(b, m, n, x, 0x9c0a8321448ce0784e54bce0d8aa9427b12dff4f73cb6ab9004f9965b72d8fcnat, y);
    let x = y;
    let y = 0x456181cf1b9136253db872618c46b6f2062a7d10a3a4893541f0286aae17a98bnat;
    let n = lemma_multiply(b, m, n, x, 1nat, y);
    let x = y;
    let y = 0x15560172fd7c8abd743b3031a3fe57f2657bcbad91ccd4e9788e9d64fd6accc0nat;
    let n = lemma_square(b, m, n, x, 0x2985ebf29bb1523c54860abcbb50e3302c00c4eb3ad70bc8e6e16b18ddd804b9nat, y);
    let x = y;
    let y = 0x288a666c7d092f77aa245b75b645199958d1dce88333ac2228366e3d73991029nat;
    let n = lemma_square(b, m, n, x, 0x3ed40625e00cda37d40569668106b7d7a31a570aefe5b2b3162ccdb3f297fd7nat, y);
    let x = y;
    let y = 0x201a335b74217e631607bb002c7b00b423762ef28dac0f0ef2d25ce41ca90191nat;
    let n = lemma_square(b, m, n, x, 0xe2d5ebe7e8837a7f6e48ecc943d237182d012232f80883b8edf97af0b5e2500nat, y);
    let x = y;
    let y = 0x7011f175ae36619908147117f1d094337bb210d12b6cace7255593b51dbb5d5enat;
    let n = lemma_square(b, m, n, x, 0x8e3bf25a95535c0320b06610a1f124beb8288b682f2b911c5a7ed40abb916c3nat, y);
    let x = y;
    let y = 0x19578fcde7c8514ac51c2a7e351e23dce5eea9eff49f3e812091a94ae26e5fb7nat;
    let n = lemma_square(b, m, n, x, 0x6c571ae55066bf935d3b2c7c137b778a5975165c8c09b8583a6d5cb6f2f30ecdnat, y);
    let x = y;
    let y = 0x13fe0a35bd33b3727f3e83d83c58a81dee9e1982d2aa26bdd239d0576718a8denat;
    let n = lemma_square(b, m, n, x, 0x58a2fd397d741bf3d9bfbbe96fb24e58a763045e7333973df7edffd19f4abf3nat, y);
    let x = y;
    let y = 0x1804a02502cc6ad9477bc2e19ccac0cc32950e90c2a8b331bf94b264d1ac9e11nat;
    let n = lemma_multiply(b, m, n, x, 1nat, y);
    let x = y;
    let y = 0x1b1f1ea5ec1407bf8c04d1b5459a120fbde6ee38d6dc309ed92afdae9c0a7ab1nat;
    let n = lemma_square(b, m, n, x, 0x4f9dfc98b0f3f9d0c83999fd5808c358a4929551806ad95bd49f485ee668270nat, y);
    let x = y;
    let y = 0xb2f8891874d0aabe20d14f0c960f083605e3ddce46085e3b6f81f8da3484bfdnat;
    let n = lemma_square(b, m, n, x, 0x65859ba42cb113a817d9321d948c0077d88abe81f17f959b6522b67e558e264nat, y);
    let x = y;
    let y = 0x4e4cbbfab31b4ab32e5b929581a69397a293b10a3ea3a93a00c8dcdf76fa13ebnat;
    let n = lemma_multiply(b, m, n, x, 0nat, y);
    let x = y;
    let y = 0x4c3db588464fb4073f16e7c222d6e7dd3cdbf3dbc5302a30299d361cbc0c639nat;
    let n = lemma_square(b, m, n, x, 0x34e283f6aa663eb838b7f9630113c82cc55514f9632135d62e943a2fc0c7f380nat, y);
    let x = y;
    let y = 0x215aff6b9ec2dec32b9a0564ef3e0570caa03ab0264512751234c7ac92456b8fnat;
    let n = lemma_multiply(b, m, n, x, 0nat, y);
    let x = y;
    let y = 0x3bdb167a78fd35f2fa902be3c6babc4d37f6d8105bd3c9d5e75cf430b967a4adnat;
    let n = lemma_square(b, m, n, x, 0x998e1b34779e4c6c498e0c14a4dbae37ec825e9861873d23fae5cad8adf3534nat, y);
    let x = y;
    let y = 0x4836d4e78334d6e99d77fcec6ad89623cf3e11bd1e2e0a21dd930541db4f393bnat;
    let n = lemma_square(b, m, n, x, 0x1ee79386180bdda2493f4a3342fae36844f11370c7a199146fa85d441bd4e3aenat, y);
    let x = y;
    let y = 0x29c93507effbeb4281608a56c564bae55bbbec1fd348d6f10f0524d0ff2a9099nat;
    let n = lemma_multiply(b, m, n, x, 4nat, y);
    let x = y;
    let y = 0x6c9a1cbf2483d2cfff809aa16da02fca44a80618def756240cd6419d21876522nat;
    let n = lemma_square(b, m, n, x, 0xf0fc56aa9b0a7238441bb4bf29b5611586bb15764f477b293a8a8767059164fnat, y);
    let x = y;
    let y = 0x733e241eec19593dc0f541fed22a31f5c39967e0cacf23315bdde48aca390abanat;
    let n = lemma_square(b, m, n, x, 0x65bd19876b27b3ca9b9fb8ac16e9c2ee0be836bf0916b01b9a6268a1cb96cdcanat, y);
    let x = y;
    let y = 0x6f2110e57b0080ff1359bdc7855c4d9862bfff138bb3ce5f83113fd1878f4b10nat;
    let n = lemma_multiply(b, m, n, x, 6nat, y);
    let x = y;
    let y = 0x23089e9aa071cfcc9ba0627cb026d091d106564d275c347a220237e81bbb561dnat;
    let n = lemma_square(b, m, n, x, 0x6a8756d1766ade7a060febd8ccd80089072a739f3b9fe0d512f7b47ab6270ae3nat, y);
    let x = y;
}

/// Towards the power `126087409461678876690687209612722859509266379400282112` of seven: the first 88 bits of the
/// exponent.
proof fn lemma_seven_chain_part_4()
    ensures
        has_residue(7nat, 0xa88040d3fd513416ab6375nat, order(), 0x161ca7ae49e3394a212bb0e5281925a2d8ff469ec70a830d36654e9c0c85b8f2nat),
{
    let m = 0x73eda753299d7d483339d80809a1d80553bda402fffe5bfeffffffff00000001nat;
    let b = 7nat;
    lemma_seven_chain_part_3();
    let n = 0xa88040d3fd513416anat;
    let x = 0x23089e9aa071cfcc9ba0627cb026d091d106564d275c347a220237e81bbb561dnat;
    let y = 0x47ec33747315e2877df72433abd7eba853521bdd61d7b732cd35486df1aa89b0nat;
    let n = lemma_square(b, m, n, x, 0xa9653a1b8e781a0ed8443bd389eea890e5e760a24cf23301c7744fc17aaf599nat, y);
    let x = y;
    let y = 0x27becae27f233c93a4da9d498c601184f8483301acec92679c74fb059ba9c3ccnat;
    let n = lemma_multiply(b, m, n, x, 4nat, y);
    let x = y;
    let y = 0x62b8f625e81db238b9940975dd5de2c34758f023d7cdbaee158164496c8e3898nat;
    let n = lemma_square(b, m, n, x, 0xda05cb42add2572c2d17f13e6e24690497e94ffeedb0c5e09237f53b48a31f8nat, y);
    let x = y;
    let y = 0x3d652ee76422de12ce3e12005ee1213c952ac2b13cc6dafaecc5bb3600045a3nat;
    let n = lemma_square(b, m, n, x, 0x5412010f062e51b929ebe0a70926b80a64681a724b3f926632e18e5cb522949dnat, y);
    let x = y;
    let y = 0x1adc44853bcf41283a3b27e029827e8a8142b52d8a96ffcdc79681e7a001e775nat;
    let n = lemma_multiply(b, m, n, x, 0nat, y);
    let x = y;
    let y = 0x11e55b264ec6ec4e6744a957013233cee81d86ef1deddbe1d4f4ecc7e6187e2dnat;
    let n = lemma_square(b, m, n, x, 0x639388a7c47bd3040123ded4551bd4e705370401d8d22b35af2f0fffa15dd4cnat, y);
    let x = y;
    let y = 0x957d6b8fdd2f8dc9fa6c958febd92a305110c86d182a72dd2b279784aab733anat;
    let n = lemma_multiply(b, m, n, x, 1nat, y);
    let x = y;
    let y = 0x282f331d71f4d0552dacc3c3dbaf608c9d62198fac067f495617e231b169ec3cnat;
    let n = lemma_square(b, m, n, x, 0xc0c48729b09c99a3e9e4612b903279f396f3d32ab5611d31efc686f9ef3ce8nat, y);
    let x = y;
    let y = 0x63b170fa6c1698a2996ccf88e0c45410ce51eb62a3bda6073ae85341c62acb4cnat;
    let n = lemma_square(b, m, n, x, 0xdeddd2ff619ce53c57d6a45bd6d27ddf1d1c76642767492c78592f8d50be2c4nat, y);
    let x = y;
    let y = 0x2482ae5faed3cc0fe9e9c8deb933c55adcb97a07a3962389c5a46d26b2b8f0enat;
    let n = lemma_multiply(b, m, n, x, 6nat, y);
    let x = y;
    let y = 0xc371154c7f726a1302e6c9506de2e2715aaf24663c17046705e5816b013b4eenat;
    let n = lemma_square(b, m, n, x, 0xb7fa4e074e6e07394331f7c7056a41c880d14cdde79ef6a9a63b66290efd6nat, y);
    let x = y;
    let y = 0x5581795177c20e685144f8133013431197ac9fecba4a11ed1294689ed089f282nat;
    let n = lemma_multiply(b, m, n, x, 0nat, y);
    let x = y;
    let y = 0x2cfe3ad6a146ec2a3138737acb6e9cb21950df361c916c0cf1731808b32d3ca7nat;
    let n = lemma_square(b, m, n, x, 0x3f111ce5b3e85330474cb51ce08cdee1acb131cce24951c9e7bf223501b0cd5dnat, y);
    let x = y;
    let y = 0x683b8223e46c0ab4967e97fab54fde1826e445fa9156c06d0d84ea92d0e96a50nat;
    let n = lemma_square(b, m, n, x, 0x11765aa210b01ec24b0145c85f31d8ca8b7d5839e396d3e5244bc54e1a2b4aa1nat, y);
    let x = y;
    let y = 0x6e0622d40ae65e3bbc9a34760576345ce628705b08f052f18955b4e6fd258e67nat;
    let n = lemma_square(b, m, n, x, 0x5db77066ee2036cf9db6f2d3a767d289645acf61cc7e9ded98deba86b4a0ca99nat, y);
    let x = y;
    let y = 0x732e27ab06dc68a5b639c4abc8ae100c9625e430880957df6d4cf307b779cf37nat;
    let n = lemma_square(b, m, n, x, 0x686b9a12161c7e9b10bb35a8250373e35f3e37317af81f4c62aba54057829e3anat, y);
    let x = y;
    let y = 0x6eb129ba3655ecd6c839508242f7603824976541b84b3f21fd1aa53c0454aa7bnat;
    let n = lemma_multiply(b, m, n, x, 6nat, y);
    let x = y;
    let y = 0xe3a0eaf5c87c7641c68bfdedb0a29e176f877e7cca7b447eb93c374d2d22f41nat;
    let n = lemma_square(b, m, n, x, 0x69b1385a77d9104221400e5663f8762cc271fdf178b41476565add5f576d67d8nat, y);
    let x = y;
    let y = 0x639666cb87b673bcc6dd3f17fd47252a40cb47569895edf7710a5831c3bf4ac7nat;
    let n = lemma_multiply(b, m, n, x, 0nat, y);
    let x = y;
    let y = 0x4a79ba978795c6736721004e70d32dac7fa65262857799ffe2ca1ed877295e3enat;
    let n = lemma_square(b, m, n, x, 0x558cce206ea58eaba02a5c7cd5df9bfefce99ebf10091c4f08b294a45da04873nat, y);
    let x = y;
    let y = 0x72a71470a7cf94d41207d052a14ec7a6adeca5dcbdde70d86b9a32cfe8165a2fnat;
    let n = lemma_square(b, m, n, x, 0x2fd85742edcd0e0468005f50b97df6b0180576fb88e4bd17d41216f20e773cd5nat, y);
    let x = y;
    let y = 0x6affa3219cfc221b4adba2122f5c656ecb06b0f7311eedf0f13763b5589c7743nat;
    let n = lemma_multiply(b, m, n, x, 6nat, y);
    let x = y;
    let y = 0x41f43953c1fc3c10f8ff1d4d400ecf843c61a444707bfef33137421ce20f9429nat;
    let n = lemma_square(b, m, n, x, 0x62c1b566101d8ba3fcda66830c90681308b37abad828507462e4eda0bf27c760nat, y);
    let x = y;
    let y = 0x71e49b50d10d2c9e354c4504a382248dab7291d61368e4a95882cecd2e6d0d1cnat;
    let n = lemma_multiply(b, m, n, x, 3nat, y);
    let x = y;
    let y = 0x5dc727d57dd51c1e6075a2cfc2e5a9575b7843449806dfb6d484a823a2488124nat;
    let n = lemma_square(b, m, n, x, 0x6fe4b52ef211e0613e1bdeefc45a1ea6485b3664b17ff3e738521fca983b59ecnat, y);
    let x = y;
    let y = 0x4ccdd236a0c0526ba3163b86241e6948dd95a2d128385204cfa098fe6ffb87f7nat;
    let n = lemma_multiply(b, m, n, x, 5nat, y);
    let x = y;
    let y = 0x5aab255cd91ecc2c994b5b54ef05c7267d25d97842f9c0e3d94e3eb254181759nat;
    let n = lemma_square(b, m, n, x, 0x32e23492f3f956110046d1c9f2df35332dcd0087c08d256a6b7d4f75c47858f8nat, y);
    let x = y;
    let y = 0x2c9b72896c52b8d4cba59bd92f5f94232428deb6ea5f93a7ac5249e81e215a22nat;
    let n = lemma_square(b, m, n, x, 0x46e9a29a21a53c965096a9b7e9f9bb8986ae93d61e6c8476d508de41acafc2cfnat, y);
    let x = y;
    let y = 0x5064d31ba30813412b1392e038595ceb55a2cefa68a05197b640055ad2e976ecnat;
    let n = lemma_multiply(b, m, n, x, 2nat, y);
    let x = y;
    let y = 0x8f80c111a0dbd9925d2ed35a026af9477d23d5d2e045523d15115b9d021b235nat;
    let n = lemma_square(b, m, n, x, 0x37c05dc4f1da5fbc809da9f00b8791cfd2aaddaf828bba7e5df4539610b4b75bnat, y);
    let x = y;
    let y = 0x34d7a8ced33f6272acfa75db09db3d62b09a50611c6e834a9a0e78f14aee8823nat;
    let n = lemma_square(b, m, n, x, 0xb1a2ed1a59711fafb276e3a1a3d57bf9f620da4c383bdef96bc68442c936d6nat, y);
    let x = y;
    let y = 0x161ca7ae49e3394a212bb0e5281925a2d8ff469ec70a830d36654e9c0c85b8f2nat;
    let n = lemma_multiply(b, m, n, x, 3nat, y);
    let x = y;
}

/// Towards the power `126087409461678876690687209612722859509266379400282112` of seven: the first 112 bits of the
/// exponent.
proof fn lemma_seven_chain_part_5()
    ensures
        has_residue(7nat, 0xa88040d3fd513416ab6375605984nat, order(), 0x23b07c352754d46f8d77c063029ba119e0f9f45fa5a869ced0fd751a80b19dfnat),
{
    let m = 0x73eda753299d7d483339d80809a1d80553bda402fffe5bfeffffffff00000001nat;
    let b = 7nat;
    lemma_seven_chain_part_4();
    let n = 0xa88040d3fd513416ab6375nat;
    let x = 0x161ca7ae49e3394a212bb0e5281925a2d8ff469ec70a830d36654e9c0c85b8f2nat;
    let y = 0x446fb112a6ec0a5c9433ad94182429701e97c0c8b4bf7e4b412b36825deb7544nat;
    let n = lemma_square(b, m, n, x, 0x437b3a70b49385563d4b78d513ce63906133ccdd25dcf318937c71e03254f80nat, y);
    let x = y;
    let y = 0x1f7eca7b5d7f05ec04534fd953fedb2588d3da56604be309c38e63da7217075fnat;
    let n = lemma_square(b, m, n, x, 0x286672c11cbcfdf08525a872f2dac52686c44fc1be1f3dd27ad283aa767832b1nat, y);
    let x = y;
    let y = 0x6889e20c64dbac2beb0d56e9425626016a0d5459a214d94558e4bafa1ea13398nat;
    let n = lemma_multiply(b, m, n, x, 1nat, y);
    let x = y;
    let y = 0x1e58a18902984d2e1282c74262b6c213ea824ecbd0ffd498d284a6fe6a47ed5dnat;
    let n = lemma_square(b, m, n, x, 0x5e4494c10a0677387b41e8d6a0e72add4e17420bdd7b0816cf05285e254dfce3nat, y);
    let x = y;
    let y = 0x607ec36be88c9efa4e599ac8a95d768615d2838fb700742ec1a090f5e7f77d8anat;
    let n = lemma_multiply(b, m, n, x, 1nat, y);
    let x = y;
    let y = 0xd0708296a145a18c2955abb794be8b17f2435122fdccd6d0ae7c76def1c22e3nat;
    let n = lemma_square(b, m, n, x, 0x5051d174e1b09d82a4bcc4b549860d51118c0f6758ade388cf7a42099abfeb81nat, y);
    let x = y;
    let y = 0x644da461f29be41a82a42ca4b3e331c9228fcd82258ab781fc185c5e3f2f3825nat;
    let n = lemma_square(b, m, n, x, 0x176c65b6796c089ff87bf0c53d4a939d903392d553ef5b33253ac4f4139dd24nat, y);
    let x = y;
    let y = 0x2cf60fd7e64b372ff890a26bd5ba4d10ecbc104101f25141c167d6e652bdcc33nat;
    let n = lemma_square(b, m, n, x, 0x56c8c2890d6ceae93dec742187abb3c15c9cfc4bd22d46719150abc38d286926nat, y);
    let x = y;
    let y = 0x2508093374f68a72e15e827c785fb0f4f8fb54de6bb899136305622eaae7507dnat;
    let n = lemma_square(b, m, n, x, 0x11700421a07ebee9bffa03bdbd73c055f5c4ae5a734d2755147af2a9274801acnat, y);
    let x = y;
    let y = 0x1fbc6a67e8de055d1eacd333e5fae79c325532156e04be728d51388ba5fe0da6nat;
    let n = lemma_square(b, m, n, x, 0xbd43da4eb5c635bd7cae1ab117fab7e14a790713c5471cef54fbfabb8e64f63nat, y);
    let x = y;
    let y = 0x3ef711e0f29dff75fa46d8a64f849b098c0c33e0c7bc53a81fc858c0fff34468nat;
    let n = lemma_square(b, m, n, x, 0x8b01a1e95fe2c4f728cc8d309a60bc5e47a00ed621d907c44ef9676122f033cnat, y);
    let x = y;
    let y = 0x39c2ad5e3070f7da638cbefb1007c3a47bf8c7bf9cd45ae4da92009640e3cc7dnat;
    let n = lemma_square(b, m, n, x, 0x2232e248baa3c4bd97b3255122b7145f8f192a821420c2214296429eded39dc3nat, y);
    let x = y;
    let y = 0x3889c799d63e4f201f2bb0c55350d16f68948a3449d36844f9fe041ec63a9768nat;
    let n = lemma_multiply(b, m, n, x, 3nat, y);
    let x = y;
    let y = 0x3ebe7313f8eb335dc5070dc35c2b4b125e653a57f636a991b57dd5184ee43a9bnat;
    let n = lemma_square(b, m, n, x, 0x1b92db448d2a8d3eb95d41190421c954a234eff66270208f769f368a85c79fa5nat, y);
    let x = y;
    let y = 0x1ea21ca8a75a9bdbea3f9e024c9a24e48878d7c40963966f097e07933eebe41anat;
    let n = lemma_square(b, m, n, x, 0x21f57c935963ed0ab778ac29c55ec59815d8fa860e7438a7b317786aa696b5bfnat, y);
    let x = y;
    let y = 0x6281214969dcc5bb34837a080e952a3a6790425941bac10a42723507b8733cb5nat;
    let n = lemma_multiply(b, m, n, x, 1nat, y);
    let x = y;
    let y = 0x66fb1f83807236f05c017813b318a5a04fefb870bb11c1cfa3ce4b3176c414denat;
    let n = lemma_square(b, m, n, x, 0x53b304dad59ce36a99080031e7f2b2c19fdfe23453c670ed65fb16f3523f431bnat, y);
    let x = y;
    let y = 0x194bf0a5896e90e150af3859abe17742391c33031d8624b37aa40e603f5c920cnat;
    let n = lemma_multiply(b, m, n, x, 6nat, y);
    let x = y;
    let y = 0xa6c6375c5f369eba13bea92e9bae1df37b36ec2a89c42989fb99def171ceaf2nat;
    let n = lemma_square(b, m, n, x, 0x5851c3f500a5838400dfdb0670f0cf54125e606b39c1ec3c190b20a1cd4c59enat, y);
    let x = y;
    let y = 0x297b0181a34c9aa02ba0029d156f410f8ff0ee5148e5885a51ff6c22ad6f81eenat;
    let n = lemma_square(b, m, n, x, 0xefebd190041ca95859518ff7a9e437bd0599a76a47af308926180b0b1fcad6nat, y);
    let x = y;
    let y = 0x4cf2a7483dc292ea9c63338c0ace30a2015acbae202bd5db9b5f84fbb660f79anat;
    let n = lemma_square(b, m, n, x, 0xed79a3b7a35b26f6c0b44f83de0422e15e54524f7bfe0a059787613e3f4c1aanat, y);
    let x = y;
    let y = 0x4aebf5ad09dc0f4979cf08b4251bf458ba8501b6e13969053f9ca2e5fca6c532nat;
    let n = lemma_multiply(b, m, n, x, 4nat, y);
    let x = y;
    let y = 0xedec2d41e4878fd15eb1a2129191fac6ffbc552d6caf46d93f8c7be3a4a34a8nat;
    let n = lemma_square(b, m, n, x, 0x306b8ceb32a2757be5e375c996f9b2d4494b8b7121273502f4b3d5b08a73c91cnat, y);
    let x = y;
    let y = 0x681753ccd3fb4eeb996db6e81fafddb70fe26543df8caeff0bcd763398077098nat;
    let n = lemma_multiply(b, m, n, x, 0nat, y);
    let x = y;
    let y = 0x2402d1f70f936bf5eb14db80673393de7ac90989a6061a2e571bb620ee6a6d0fnat;
    let n = lemma_square(b, m, n, x, 0x5d766bf2ba700af536188a2fdd29d5a283f8548b59bae982c0cb098beb6aed31nat, y);
    let x = y;
    let y = 0x786329b15d4257f11beb96599875dfe39520e8734423c79e6e244485c1d8362nat;
    let n = lemma_square(b, m, n, x, 0xb2fa86832e08136e2b8c429d394929b0a9a45d01bacbe351ec2a5fd06c4437fnat, y);
    let x = y;
    let y = 0x2a277055786299c2f44fa7c49112cef0d2523c0631f9b8b107558d33e1ab6c72nat;
    let n = lemma_square(b, m, n, x, 0x7d04942331cec08822e84b27f008368c9961426303d16c3f33a8d395f60512nat, y);
    let x = y;
    let y = 0x30ecf947e34a11d28c3907e2f1cb624586576f0d75a3a2f67c610868cd9b2a60nat;
    let n = lemma_square(b, m, n, x, 0xf5400556edb71ce1648e5aa21801734cb0bf83b9b88a8c1eea5c0d1a4a13864nat, y);
    let x = y;
    let y = 0x1ff73b04dd897672feb8e27636a23dfa1080a23243cabebd7433e9df90b0cff8nat;
    let n = lemma_square(b, m, n, x, 0x14a5f66dfb0c133374cb318e03982aefd44dbd76e096364194f938128692d408nat, y);
    let x = y;
    let y = 0x6bd4f5cee524bfdcc3d4593374cdd9d11fc6cb5cda8cdb2f2d6b651df4d5afc7nat;
    let n = lemma_multiply(b, m, n, x, 1nat, y);
    let x = y;
    let y = 0x1b3e312cea4f7bf3ea17c508de5d125927ebad841948bb5910edd526bc3419d7nat;
    let n = lemma_square(b, m, n, x, 0x644d062b4d94aea211a925e7af454affa9504034298895ec6a54a03a95a392danat, y);
    let x = y;
    let y = 0x23b07c352754d46f8d77c063029ba119e0f9f45fa5a869ced0fd751a80b19dfnat;
    let n = lemma_square(b, m, n, x, 0x666ebff2c96f1c813865eed70275171c130b3aa7f77661389c2c3c2a1e898b2nat, y);
    let x = y;
}

/// Towards the power `126087409461678876690687209612722859509266379400282112` of seven: the first 132 bits of the
/// exponent.
proof fn lemma_seven_chain_part_6()
    ensures
        has_residue(7nat, 0xa88040d3fd513416ab6375605985acc73nat, order(), 0x58750f24e37c137188bd83f339dc3569881aeb0ad4ea662eaf42d68bd2211f10nat),
{
    let m = 0x73eda753299d7d483339d80809a1d80553bda402fffe5bfeffffffff00000001nat;
    let b = 7nat;
    lemma_seven_chain_part_5();
    let n = 0xa88040d3fd513416ab6375605984nat;
    let x = 0x23b07c352754d46f8d77c063029ba119e0f9f45fa5a869ced0fd751a80b19dfnat;
    let y = 0xf9d365741351cf0cde4642b5124167b526d5ae9d879ae4a7b6ee33b984db519nat;
    let n = lemma_multiply(b, m, n, x, 0nat, y);
    let x = y;
    let y = 0x3920414f24341315b942cfe2412b72644a2244806ebeaaab5fa61e198a9c110dnat;
    let n = lemma_square(b, m, n, x, 0x21a5ffe2485539a29316b79e885643d7487e99dad7507683bf85b74968a4b64nat, y);
    let x = y;
    let y = 0x3418d33080940dbf77262717ab4a98ae0bb6f37a073b96b29d8ad2b5ca447758nat;
    let n = lemma_multiply(b, m, n, x, 3nat, y);
    let x = y;
    let y = 0x44755014b39d12923ce67031c0a77563d4f4909747147683135aa0e1ddea8fbfnat;
    let n = lemma_square(b, m, n, x, 0x17696dbd3ba1e48b82e8f2a877cfede997e3819d1e006e36206afeb5a0785e81nat, y);
    let x = y;
    let y = 0x582813127e48ffa4e092a13a6e1c4bc82cbae45be64cc6cac1806b280fcc344fnat;
    let n = lemma_square(b, m, n, x, 0x286d16039b4732b88b4c16227d473da67aa1f5738913b7b4854091e2d016bc32nat, y);
    let x = y;
    let y = 0x257440e1a3eb8b1923e13070d29cda5e96680a744c21a3904a82ee1d6e956e24nat;
    let n = lemma_multiply(b, m, n, x, 5nat, y);
    let x = y;
    let y = 0x732dad9e3ecf1edff665af98e43eb107da493662661cf20297ef114671d6b35anat;
    let n = lemma_square(b, m, n, x, 0xc19c5a12129cbd350b80330b9ccd1f8cf9410547698ef1c0e7fd677e37441b6nat, y);
    let x = y;
    let y = 0x435827bfc6485a98d6777ad275f09c2a81f6759e714fb9d3b3bc81b39307e158nat;
    let n = lemma_square(b, m, n, x, 0x726ef1d1cf94bbcab778c220970c6462c2482d2d3d4d2b0e8b41e03639171a4cnat, y);
    let x = y;
    let y = 0x7b278f1c584850d105cfba1130ce5143ec6a7491934a4cdea278bed05372964nat;
    let n = lemma_multiply(b, m, n, x, 4nat, y);
    let x = y;
    let y = 0x3f46370703a7a7f96f3590863e9d28092d4227f46ad76199b28107a07a7c45ebnat;
    let n = lemma_square(b, m, n, x, 0x82d4c66d69b42c5f4c57724a62b0f9c40ea656a366a3768654502d3d2ce925nat, y);
    let x = y;
    let y = 0x5f228b379cbd1ff970c96b939966903041962ba5ebe89736e18735665965e96anat;
    let n = lemma_multiply(b, m, n, x, 3nat, y);
    let x = y;
    let y = 0xe3a862e5f606ed83b3b976230d4ad413efc707060d05789920e169ebf094d9nat;
    let n = lemma_square(b, m, n, x, 0x4e1235a628effcbe4f5c6a19153e70cb809a7dda018fa0f9424492f6ca858b0bnat, y);
    let x = y;
    let y = 0x8e1070a63f530d315544512927926d4fb35c9966629a214d40c923f09d70f8fnat;
    let n = lemma_square(b, m, n, x, 0x1bf11dd4519bc2bc733c90e9edb91a98cb8d496e8c3e0d83b1d82c9949062nat, y);
    let x = y;
    let y = 0xf99343e3a85e0bd85352ff35f6523549debc8bbb95a8a672e5573610fd045a1nat;
    let n = lemma_square(b, m, n, x, 0xae17a7b555607caf0cc56fffad773cde7e0219644cb1e2665ff1042153cc40nat, y);
    let x = y;
    let y = 0x6d306db399a9252ea4744fa79bc3f75051727d221179c8d2445627a76eb1e767nat;
    let n = lemma_multiply(b, m, n, x, 0nat, y);
    let x = y;
    let y = 0x6a24a04fd223b3d151279e1ab8a34e96ce87a7de1c50b34cc0e0b6678ed31f9dnat;
    let n = lemma_square(b, m, n, x, 0x66d77e93234200d64b2730d7852fb065d38841fd0130cf820393de4cc2c5ebd4nat, y);
    let x = y;
    let y = 0x2f6e763bc548fb0804ba428ad2ac15ffaf43bf00c63ebf1f4624fcdae7c5dd45nat;
    let n = lemma_multiply(b, m, n, x, 6nat, y);
    let x = y;
    let y = 0x1682a6432819eb7a7238ed8c4d044f32401914792d3cb2fa9487dc9a53dba4canat;
    let n = lemma_square(b, m, n, x, 0x136806df24a754ef8160046af8fd313cb759a46268c930a8faea12f97d968fcfnat, y);
    let x = y;
    let y = 0x12562b7cd13c0523cd9450502cf0001011f7f25e921c70a98a73271b2e42e10nat;
    let n = lemma_square(b, m, n, x, 0x45ef5f21f237837db24eb4bf32ea1df614dfae875a7bd65ec25ab38a4cb4154nat, y);
    let x = y;
    let y = 0x61373f4fcd85424f275edead16812ec46ac1f968d10466a2ad34892110da9e30nat;
    let n = lemma_square(b, m, n, x, 0x2e67c510e1b44892d07d3c9c2888df23e2fb69c5b0d743c0b9f3f43ef22d0nat, y);
    let x = y;
    let y = 0x50d29bbf57f471fab2b3fc3ae94411ed1156ec2f52b2107cc06898a5efe1609dnat;
    let n = lemma_square(b, m, n, x, 0x5186151d7a397730e3449f313fbf6724d7f2ff38bb94fa27957d8694db9de863nat, y);
    let x = y;
    let y = 0x660ba4eec13928ba1604857c3a551d662a69e53f42e5036d42dc2c8d8f29a447nat;
    let n = lemma_multiply(b, m, n, x, 4nat, y);
    let x = y;
    let y = 0x42994160cfc3cd57216c7b94167d59fa18cb453de1367d673444fa84661bce5bnat;
    let n = lemma_square(b, m, n, x, 0x59d33da212ba85158ba2efb449f00a78ac768c5bd4e5137e0a372d54f40d3d56nat, y);
    let x = y;
    let y = 0x27a2c5907e4a8411d1000ec76e615c15e9854a52883fdd66de2d9a2cac2a479nat;
    let n = lemma_multiply(b, m, n, x, 4nat, y);
    let x = y;
    let y = 0x472025b1da3fe1655d058cb687c5f7cb6d78feb590185d715c85290bff7acb5cnat;
    let n = lemma_square(b, m, n, x, 0xd8d2cd2be56fbb023eba1af3c8ae316dd9bf010bb2b25f2785779a59475d5nat, y);
    let x = y;
    let y = 0x222a6a90514934a4be3f78dd8fe2667aaf5866eaf0b11e1d87a41f57fc5b8f80nat;
    let n = lemma_multiply(b, m, n, x, 4nat, y);
    let x = y;
    let y = 0x5a9d46c2bf112364e251c998acc236cadba1bc58e1cb9550019e43d5676b8043nat;
    let n = lemma_square(b, m, n, x, 0xa11b0b2442f3b359a3685c59f7453c9ab0679bf550d7d9c7427682aee04bfbdnat, y);
    let x = y;
    let y = 0x5dd634fda0726d2140cdbbf34d53e5a3db9b967579850aa4f51b99beca1d3641nat;
    let n = lemma_square(b, m, n, x, 0x46d3f2596a1c8f70af347df59a53c0e32875b67af4e76f9f038e71619827db48nat, y);
    let x = y;
    let y = 0x70527f89a5805bb0318402c4ef3b7427b3d3c62898ecc9c42d791e36d4892566nat;
    let n = lemma_square(b, m, n, x, 0x4bf479e74a2b4dd4fa8da59bac717031783db3b8260628bc51b5905415b0571bnat, y);
    let x = y;
    let y = 0x5aaf90d08cd192202741033250d51cf5f458930a2e835c633e4fd385cfc005c4nat;
    let n = lemma_multiply(b, m, n, x, 6nat, y);
    let x = y;
    let y = 0x5f71551c19a6c9faa5d6ad287cdc343773d4722842fbbe05f4774337d4e02903nat;
    let n = lemma_square(b, m, n, x, 0x46f08c9b6648002265497b5ade4c698f967172f8c56e172e636100d8c941150dnat, y);
    let x = y;
    let y = 0x58750f24e37c137188bd83f339dc3569881aeb0ad4ea662eaf42d68bd2211f10nat;
    let n = lemma_multiply(b, m, n, x, 5nat, y);
    let x = y;
}

/// Towards the power `126087409461678876690687209612722859509266379400282112` of seven: the first 157 bits of the
/// exponent.
proof fn lemma_seven_chain_part_7()
    ensures
        has_residue(7nat, 0x1510081a7faa2682d56c6eac0b30b598e7417800nat, order(), 0x230840fe3f7d8beaaa86e49559616b73c5faaebba6927cd3a0a4aaa4eac9922fnat),
{
    let m = 0x73eda753299d7d483339d80809a1d80553bda402fffe5bfeffffffff00000001nat;
    let b = 7nat;
    lemma_seven_chain_part_6();
    let n = 0xa88040d3fd513416ab6375605985acc73nat;
    let x = 0x58750f24e37c137188bd83f339dc3569881aeb0ad4ea662eaf42d68bd2211f10nat;
    let y = 0x608859a40afd31a5922a42f80dd1d301074d13d6bbee338527061cfa2c0b60anat;
    let n = lemma_square(b, m, n, x, 0x437ef34c302719cc21c761e18a01b5be6236d581ae4d1a7c71549fc5a3242af6nat, y);
    let x = y;
    let y = 0x2a3ba737c4cec5b86ff27d4c860bcc507331b8adf238368a4112acad7344fa46nat;
    let n = lemma_multiply(b, m, n, x, 0nat, y);
    let x = y;
    let y = 0x3b21e59dc7bfa9455ccbf8bde0efb7249b9cdb2b7cb94959742d8b2d7b777a71nat;
    let n = lemma_square(b, m, n, x, 0xf62b7423a324f6a7ea448aa81981cf864e13fb8618af7984b7f2392526550b3nat, y);
    let x = y;
    let y = 0xa5d9b742917448fc5e37a1004bd56242eae6ec36837a1b27d25026af423f9fbnat;
    let n = lemma_square(b, m, n, x, 0x1e297f5256f239639bb710182973b5e9f9ad7d6538a004860a92b2a0b179ebe6nat, y);
    let x = y;
    let y = 0x488f402d1fa2dfee69385670212d5afd46c50757d9856be16c0310ecacfbd5ddnat;
    let n = lemma_multiply(b, m, n, x, 0nat, y);
    let x = y;
    let y = 0x555c6f08c6dc9b2af8390031d3da8a211d506b935e285a3e323a7dbde0bb3949nat;
    let n = lemma_square(b, m, n, x, 0x2d6a410431594221c43482c840e3d4bbbb417648d458acdc52311858294c4780nat, y);
    let x = y;
    let y = 0x37b53b036ab43c19042eee197ba1c270d1b5a2708f8aa4807c7c0b2f6d5288dcnat;
    let n = lemma_square(b, m, n, x, 0x3eda84f45a2d603ab787547889349227b70924da2d46720f7c690fbc10250df5nat, y);
    let x = y;
    let y = 0x7082713ac97b87f5f9944838d5bc87d3650fa89e43f7982d1f77b583fe69189fnat;
    let n = lemma_square(b, m, n, x, 0x1ac50ef903e0cf6a39045aa0ef2b3523b87c305394071fd8501a3adc4fb16471nat, y);
    let x = y;
    let y = 0x2bf308b65a62fc40826ad62b8c16ab9f59dfde402348e7208f3dab5ea5647783nat;
    let n = lemma_square(b, m, n, x, 0x6d310a9ecde30ea74f10b5463a66ce74bb3552f7368ab817e330d09a1367bb3enat, y);
    let x = y;
    let y = 0x36a2ad0ef63118fb69215b9b706ea6ed76fb2b30f55a2b09d1097aa59098a869nat;
    let n = lemma_square(b, m, n, x, 0x10a95b3676aa1cfbaad6a9f281e89b3d32c4f06603960158793a59aae38a64a0nat, y);
    let x = y;
    let y = 0x47d5304b42f9b5b7b3f2f65fc7fede19bfc51f5c99cbf8846afb3c2a41e5aaednat;
    let n = lemma_square(b, m, n, x, 0x19bfbb1b05449626e85ae689c04bf71e6debc01469da83705ef457d249945024nat, y);
    let x = y;
    let y = 0x271db4c22e5e02e51ebd5c7e5170b29eef6d4b7c349a5ba2ecdea52bcd47ac77nat;
    let n = lemma_multiply(b, m, n, x, 4nat, y);
    let x = y;
    let y = 0x6e08290eb33a660ee8cc47dd9230441a43ca016fc6eda9bca09df812e345f382nat;
    let n = lemma_square(b, m, n, x, 0xd32c8162eeda300215e29f56c6275796a401c1877161313b5b367fdd0ec2bcfnat, y);
    let x = y;
    let y = 0xae37f4b47d9c00d7c6759f8e3aa24ad047e0ecee1dd9558f9ad80b5233f1bc1nat;
    let n = lemma_square(b, m, n, x, 0x686f71c6b70d65b4ea9a5acbfcf65931ad0847a4944a12910fa2b0cb9474f243nat, y);
    let x = y;
    let y = 0x4c387b0ef6f4405e66d375ce39a700bb1f7267a82d0f156ed3be84f3f6b9c247nat;
    let n = lemma_multiply(b, m, n, x, 0nat, y);
    let x = y;
    let y = 0x2cf7563ec1106e0d68b2a1d09277c7426a70c92ee6540dd6b834b25161b2ff5dnat;
    let n = lemma_square(b, m, n, x, 0x321d13b556dc153e576bc800a4902f7b086ea6dd5d5d8f64065390f7705ab054nat, y);
    let x = y;
    let y = 0x52e80d10f43807cd766ebca3ee02c2c6419a38424c4fa8e10970e03babe4fb89nat;
    let n = lemma_multiply(b, m, n, x, 2nat, y);
    let x = y;
    let y = 0x4da3b8ec0fee01e30711d86c65b3bd151119cf3c63878386d7e316dbac7c70afnat;
    let n = lemma_square(b, m, n, x, 0x3b4a6f69ecb5720cff5d513f373d992b6718fa8a46aa8478a5d5cdc65cb17ea2nat, y);
    let x = y;
    let y = 0x4fc37127c90c181464958ad6a162cb7e28be1a9ab8bb28b3e735a005b76714c5nat;
    let n = lemma_multiply(b, m, n, x, 4nat, y);
    let x = y;
    let y = 0x6118352aee049c93360d784aa80c420b04efa79f382a23ceead75b4e125c32eanat;
    let n = lemma_square(b, m, n, x, 0x36e169b99dd27eb426420b86eeb1742e6442400698c7483007f56a464bd92cafnat, y);
    let x = y;
    let y = 0x64052f8cb20cd59d7a3d11e2682c96327fd9614b892f2ead6be37f2780856461nat;
    let n = lemma_multiply(b, m, n, x, 5nat, y);
    let x = y;
    let y = 0x3b038fd35836577507eb2fa778f061a6592fdfb70507596043dac69ff10c59fenat;
    let n = lemma_square(b, m, n, x, 0x564b8e401a300796c4bb89bdc8310da56626b219a5819c261c074993831992c3nat, y);
    let x = y;
    let y = 0x3c00d2d72bbbf553094d9d8d18572529cdf08c4734eec0ef2951ee16e79a6501nat;
    let n = lemma_square(b, m, n, x, 0x1e0a94f3da8e87bebc03c41b060093831a9d3ec793a67dfd5ea33878e3d83303nat, y);
    let x = y;
    let y = 0xcbe08109923f9f7b5c271d6c4d7564d42fdaa06efd1adf3cb91740921f0a42nat;
    let n = lemma_square(b, m, n, x, 0x1f0e976eb8f012b5366937c54366eff9f1eed737e700958b9cb6e00fe8eebfbfnat, y);
    let x = y;
    let y = 0x48913b8e3a526030a98d1d220b1f52b55500d580e8acc6a0379d619a70953c33nat;
    let n = lemma_square(b, m, n, x, 0x1668c2b36298fe4cbd5c273d02febeacc1fdc3cd0cd10d65b03ad53cffcd1nat, y);
    let x = y;
    let y = 0x520217e0d366c06650912872305db55113f0fbf061d6485d7f0024e0c6955342nat;
    let n = lemma_square(b, m, n, x, 0x2d6cbc301c930d1e7fc4423546497094e8a6df6378308cbdf92c790dfaf09ee7nat, y);
    let x = y;
    let y = 0x1427b35794eecf947a5cfcb0f57bce9a59173e65afeb0b5e635b4f7fe59d77cdnat;
    let n = lemma_square(b, m, n, x, 0x3a034ea84411599e57d2b0fde0304b322199c43e8e2806b96fb6ad1b384a6537nat, y);
    let x = y;
    let y = 0xdc880ba851ff99ac8a31beccd41cade0a62278f0c27d7d4b3981a17b986c1ddnat;
    let n = lemma_square(b, m, n, x, 0x3810e45a1316197e95147ac68ddd2f1daf8c0bca8f4fc070841dacb31fb784cnat, y);
    let x = y;
    let y = 0x25f1f0d08e349f1932a4f807291ae6c0fd8a87aee7600c41c3c2ee9422bd0012nat;
    let n = lemma_square(b, m, n, x, 0x1a384cd372ef4d07104579d0a36dcd87a53049272b0da7a8a26cef9cd6df8b7nat, y);
    let x = y;
    let y = 0x9e00b4894c5fd37d0dea78a4264168bd332612b06dd232f2f435a2951c43be2nat;
    let n = lemma_square(b, m, n, x, 0xc6b84b11cb7ffa2d37afc865c7d629b9a79485ef74035cc8434b79690cfc562nat, y);
    let x = y;
    let y = 0x2cf724dd62a63dda44854458e2c95e20239e73323fd8896b81a6bfdda0139af2nat;
    let n = lemma_square(b, m, n, x, 0xd758f21831e88086e6c6a396d91d40130365dc913682693bb7736923fe5892nat, y);
    let x = y;
    let y = 0x230840fe3f7d8beaaa86e49559616b73c5faaebba6927cd3a0a4aaa4eac9922fnat;
    let n = lemma_square(b, m, n, x, 0x1170db04eb021328829f17664e2b0126838786c54bdfc1502f44f4f2f2ea7a95nat, y);
    let x = y;
}

/// The power `126087409461678876690687209612722859509266379400282112` of seven.
proof fn lemma_seven_chain()
    ensures
        has_residue(7nat, 0x1510081a7faa2682d56c6eac0b30b598e741780000000nat, order(), 0x29e2e8419099c605303232d171dff57887c58134466f3bc76bdae76aaa9433eenat),
{
    let m = 0x73eda753299d7d483339d80809a1d80553bda402fffe5bfeffffffff00000001nat;
    let b = 7nat;
    lemma_seven_chain_part_7();
    let n = 0x1510081a7faa2682d56c6eac0b30b598e7417800nat;
    let x = 0x230840fe3f7d8beaaa86e49559616b73c5faaebba6927cd3a0a4aaa4eac9922fnat;
    let y = 0x6a24035a50725ec66b3347a4fc488d15ea856798eb66ae75f629ad34ed858167nat;
    let n = lemma_square(b, m, n, x, 0xa961b0de4f4fe0797dd1133afe98fe1d948c63605bea57f558f4c31dfc2233anat, y);
    let x = y;
    let y = 0x31563c12f7e03ae79c3a61ca34592c04df8151a25140fa6109b0e916dcd26052nat;
    let n = lemma_square(b, m, n, x, 0x612deb8c8fc8ef71da786167821b6624a8eb8853575bef69b86bed188f9c971fnat, y);
    let x = y;
    let y = 0x1afb3fa85190452260425a59308dd5c6860aca1483f26092097dc5fe95516a13nat;
    let n = lemma_square(b, m, n, x, 0x14ff2eebdb8a65bbefa7e8074065ad683dd68ebc2efee48856ae7eb985743031nat, y);
    let x = y;
    let y = 0x3503c14b7a03d89a1a300057ff8968645da6c2f4be1afdf178715053059b9bd8nat;
    let n = lemma_square(b, m, n, x, 0x6479c15def2757dd55fa6176905b13ec1225c6c184e0b8eca626c50645e2191nat, y);
    let x = y;
    let y = 0x37feb04ff2efc5f66fe0d1dec5bb8241c919aae9c3b8d440cfe24f85d8534068nat;
    let n = lemma_square(b, m, n, x, 0x183e7049007ec2d4278d5a8248c0bf6fe2e97f0cfbf5f93dd757370eae1c05d8nat, y);
    let x = y;
    let y = 0x71cc46502180faa5414ba87be8e51f8f8ae00dc39104568c3448948b2a021e46nat;
    let n = lemma_square(b, m, n, x, 0x1b0bd6d4275b8512d0f4333b7835c1ecdbf60c2c36f3f352bc072b4129a20bfanat, y);
    let x = y;
    let y = 0x6494c42f16aa8dded513eca578cc8e32fd24d23243f5101ec25fc809d7dfe8c8nat;
    let n = lemma_square(b, m, n, x, 0x6fb4eb023acb7962b8406f97b6716b9cdde0a76c6d5794cd69ff4c499ccc925cnat, y);
    let x = y;
    let y = 0x43491ba07729ba24b7b7c3a45e57ecd4a743386b2e30f8c6afef07ef0bab2436nat;
    let n = lemma_square(b, m, n, x, 0x5744019bda0002337cb1855a42a9bd219776536ed4d197d23871ab02446ff80anat, y);
    let x = y;
    let y = 0x46d20ccf20dd7343a97ba9d7ee54700d5da8bb9028feddbf50aab3edcb18f989nat;
    let n = lemma_square(b, m, n, x, 0x270d914237ca5b62ac205491f58a88f915fe8ab72f4a50d4846446473e2a41dbnat, y);
    let x = y;
    let y = 0x6b1f624d3cd3ed2ad50473670aa26c28b1b5eb5d505f2851b2558a42c7ddcdb1nat;
    let n = lemma_square(b, m, n, x, 0x2b43a14fa5dc087c903f80a68512a837b38dd0464af8a8fa2d00af363b0dfda0nat, y);
    let x = y;
    let y = 0x121ff8bb5a95746ccd7f65eb94467e58ed56049a5d380f78d75ee005de198ce9nat;
    let n = lemma_square(b, m, n, x, 0x62fc5863fe22d2b7e0dfeb6edde7fc1aa930fa8f6f60eee8c91c00ac18c56778nat, y);
    let x = y;
    let y = 0x466d88b4b9bda7595f242095e4be6feddafb188a0fcdf08ba44a936820a95947nat;
    let n = lemma_square(b, m, n, x, 0x2d570768e77e8a4345f185b81c536220fc2ee6257bed05d2781536cce6852canat, y);
    let x = y;
    let y = 0x55a53a027929d2911547488b59c2f9159231d7a54e0da90a6ef22198bb18294enat;
    let n = lemma_square(b, m, n, x, 0x2ac929079f1fc92f8d5f87d5053a527a3c117cc9c498bb6d342d00d303c84863nat, y);
    let x = y;
    let y = 0x5d5c42c12298ac8b7fb89e6f43925e08ef15e304b1c178012bf476430ffc681enat;
    let n = lemma_square(b, m, n, x, 0x3f45e580c8242f5734fb496d8611ad0b0b383059fa58a6e78ce4aca2a94daba6nat, y);
    let x = y;
    let y = 0x39aff7f226c520410196d2b689bba67c5fb49d127feca6aa5948ec470e8c59cfnat;
    let n = lemma_square(b, m, n, x, 0x4b2f8fc14ddf38d63f64c7af1a16e51f5cf8d827616141e7dddcd2329adc09b5nat, y);
    let x = y;
    let y = 0x520b6111681b169ce6e87b00ed560e221cb953a85cab7970e17dca2230aba608nat;
    let n = lemma_square(b, m, n, x, 0x1cb4b96ccdf860ff43c0260af04a61ead71472afbc645592367344cdcd3def59nat, y);
    let x = y;
    let y = 0x4929804ee4ebba45eae8a9445d904594f68f25fd4b80f763c34d645b0a938af6nat;
    let n = lemma_square(b, m, n, x, 0x3a1072ab27fe686fcc437c89f20fdfb93dc3df51a9c25429792afc692fcad54anat, y);
    let x = y;
    let y = 0x2cef571172abe3c27a9b2ebd912379ae83cdb3bd1f5367e6d160829fc4157fe3nat;
    let n = lemma_square(b, m, n, x, 0x2e2c258524e7b7b9be5c9778a714303264f5073515466a9faa5cf8a955dca481nat, y);
    let x = y;
    let y = 0x6a406cd202e77ec912fc8ba646ef0890adc3cdd3e44c8fd40c7d401025a0257bnat;
    let n = lemma_square(b, m, n, x, 0x116acdc3970928040bd7e7af3960b038b35ed86708878103300bf359ad80ddcenat, y);
    let x = y;
    let y = 0x29e2e8419099c605303232d171dff57887c58134466f3bc76bdae76aaa9433eenat;
    let n = lemma_square(b, m, n, x, 0x6161f9456d7ec73e6b94c56ff61717ae8f5954750da2c4fd45358c24c2a8952bnat, y);
    let x = y;
}

/// Seven to the power `(r - 1) / (2 * 11 * 19 * 10177 * 125527 * 859267 * 906349)`.
proof fn lemma_seven_to_quotient_by_2_11_19_10177_125527_859267_906349()
    ensures
        has_residue(7, 0x1510081a7faa2682d56c6eac0b30b598e741780000000nat, order(), 0x29e2e8419099c605303232d171dff57887c58134466f3bc76bdae76aaa9433eenat),
{
    lemma_seven_chain();
}

/// Towards the power `3855595957114` of that residue: the first 21 bits of the
/// exponent.
proof fn lemma_chain_to_125527_859267_part_1()
    ensures
        has_residue(0x29e2e8419099c605303232d171dff57887c58134466f3bc76bdae76aaa9433eenat, 0x1c0d9bnat, order(), 0x613211c7a695f9731021baf4833732ecdbc39b3d0c9f0e560f15c360dd0a4e47nat),
{
    let m = 0x73eda753299d7d483339d80809a1d80553bda402fffe5bfeffffffff00000001nat;
    let b = 0x29e2e8419099c605303232d171dff57887c58134466f3bc76bdae76aaa9433eenat;
    lemma_zeroth_power(b, m);
    let n = 0nat;
    let x = 1nat;
    let y = 1nat;
    let n = lemma_square(b, m, n, x, 0nat, y);
    let x = y;
    let y = 0x29e2e8419099c605303232d171dff57887c58134466f3bc76bdae76aaa9433eenat;
    let n = lemma_multiply(b, m, n, x, 0nat, y);
    let x = y;
    let y = 0x48da32ea46a5f5f79030b7742989ff53655a6ef80caa01609faefad84dc6b861nat;
    let n = lemma_square(b, m, n, x, 0xf22520821c2cb143dd37e8490aa80a2f25fdde96f839587cfb6ade6dff1f8e3nat, y);
    let x = y;
    let y = 0x7f8c14fb40c4bc1bde32e62be8d14540b03c3e9cd85da056bc031e769c1ef61nat;
    let n = lemma_multiply(b, m, n, x, 0x1a528ccd0fcb1629448122a36805d7fdf7c17b3f2b550c911da7b4f97dcccdcdnat, y);
    let x = y;
    let y = 0x2b5c8efb52d960cf6a5214b9475d206edc83b06ba0451b0dae981b0e62bbd324nat;
    let n = lemma_square(b, m, n, x, 0x8c549ef586c5e6fd748c694d4fe249624e4f239d1abfecbd9620e4ff5c6f9dnat, y);
    let x = y;
    let y = 0x17b4be39625cf78dd74a8c0ad0334c739d5b88b3948c5a13d7794d7b52effee1nat;
    let n = lemma_multiply(b, m, n, x, 0xfaac5438fbb1a1561fe069f0f0f5bec0c6b68f7953dc6000ab6e7dadb8e7897nat, y);
    let x = y;
    let y = 0x355379d4df00f5d060fb29d65caf54be1bb2bf4d0b13aac5cc39a084b20ac795nat;
    let n = lemma_square(b, m, n, x, 0x4d8fd309ef1af9eedda162c0c5242f365fffbbf3c97b939971fc02357d67a2cnat, y);
    let x = y;
    let y = 0x51f0e7a381e1c5f7c3760df95ad2a9545a49d321247889b80befe9874fd09c45nat;
    let n = lemma_square(b, m, n, x, 0x188790fafa657672846070cb27e824604b157d3dd4b956d9f4418694176c6074nat, y);
    let x = y;
    let y = 0x4531440388bfe8de4bd807fc01db8de3023f7239175cc6bb6e98037682b42ccnat;
    let n = lemma_square(b, m, n, x, 0x39eaffb60335727abe8c16e275fab54132f3f92db52eb51e80a23ccc7d58e7cdnat, y);
    let x = y;
    let y = 0x42e13561e8ca82195571d3e1c74608f1849c53ca08212a78152524e177150eenat;
    let n = lemma_square(b, m, n, x, 0x294c41ca72566653b39af93088e6186eab74c40947d3f6805010912a8481a2nat, y);
    let x = y;
    let y = 0x1f524f7d7f418802a667f9cc5ddaac02d9c262a9b72cce79247159026aa82706nat;
    let n = lemma_square(b, m, n, x, 0x269552c7dd9c6f439889e8463f6b471ef45ffecb043a3e581b74f6e509763enat, y);
    let x = y;
    let y = 0x2f484cf00230700bf4d354c579b5f4c7127d0a1654beea50c775dcdedb3ec117nat;
    let n = lemma_square(b, m, n, x, 0x876633f8fb2a3dddfc893cd98acd6894ef834213e99d70d789cad0a5a94130dnat, y);
    let x = y;
    let y = 0x4f97e365405bcd0afb70be62bdcd198cdfc5fdf0d2093453b9a9d3fcdb6b5879nat;
    let n = lemma_square(b, m, n, x, 0x1348d9514c0475565a4c5ad9f9fe4a61829189aecdb65d45f7335d3e975c5798nat, y);
    let x = y;
    let y = 0x45b064b23d8b7bd4fc20e13a468cfcc2f8c69456bc6e0a5d5bc12c0c14c7bb77nat;
    let n = lemma_multiply(b, m, n, x, 0x1cc2102a80ae8195768ae9ee08a28ff4f8c5c937777fb043fa2bdcaecb98a007nat, y);
    let x = y;
    let y = 0x5064e02fc353daf3ba910afa3b1b07c7935e97e7214d5c069281e91f236ee1d2nat;
    let n = lemma_square(b, m, n, x, 0x29e48e224a8b9810f0a460ff9cb8d4a2d66d208fa2b2bebbbea092a770da2f7fnat, y);
    let x = y;
    let y = 0x15093ca9a1d041f06826a5d9cd0b8e2c71cc03e94f82127173d2614cb176915dnat;
    let n = lemma_multiply(b, m, n, x, 0x1d0c20afc8304d16fc71c29739c2e31cee0cd9cef673ca263a73e098580435dfnat, y);
    let x = y;
    let y = 0x127b7937850115c3f45ccb1dd971b51ee26a8f5ee4050a847b85467b571eca8enat;
    let n = lemma_square(b, m, n, x, 0x3d1314039797c6425155478daa4c7e05254a881b9821d4ad9ca5fe49727b13bnat, y);
    let x = y;
    let y = 0x6deae9d237914a59b44165577f458791aa50a1ef56412ec5f57572e44a0ca542nat;
    let n = lemma_square(b, m, n, x, 0x2f2555138e214f0acfb735c4746ec3e880669b37ab82d52f5988c72537fc182nat, y);
    let x = y;
    let y = 0x32bdbd770c6f3c060174690d9e779733ed3717bbf745c0988f2c5b8780e02c33nat;
    let n = lemma_multiply(b, m, n, x, 0x27b6f0f00b01a4f633c63704d1ae05a4f424fb989ca84530ab93bd0039f59d29nat, y);
    let x = y;
    let y = 0x73a9bc2ffaf1fce710437c0c19d9a44973053b01efe2b85f3b632fdf284626a7nat;
    let n = lemma_square(b, m, n, x, 0x1635890aaefbf037fb4484f50433dbfb2f5c297b7ddd5f68b57c0bed389b6b82nat, y);
    let x = y;
    let y = 0x45777f270df8ad24e86d68e9c63e0466dcc6a4fd771e114841451eed1969786cnat;
    let n = lemma_multiply(b, m, n, x, 0x29ca5e10e5889e7649e34e2a7f5005de3ab639238283d146d66d23c5900dbbd6nat, y);
    let x = y;
    let y = 0x35a02415a195f2b598271bc0c2dcfed2e4f6a3234c83750ad9cca26d269523denat;
    let n = lemma_square(b, m, n, x, 0x29a0423a2cfc977258803a76311c772bba187a85673e552ba31bb435f2a849b2nat, y);
    let x = y;
    let y = 0x5d4e3fc712528cde5913e4773c63259be2a4b05f0f5c575aecd18da01cbe335anat;
    let n = lemma_square(b, m, n, x, 0x18ce4b8252d2c86cbd54618d244db047df1e362b343a0723cbe8d41e90b4412anat, y);
    let x = y;
    let y = 0x7b08e98fa24579e4773db0037e251b450c40c842300b5319aba398e80c73ee4nat;
    let n = lemma_square(b, m, n, x, 0x4b19000f26245012df203d7bbb11ff85017b7ebfe4c5b01f16e3003d731dbcc0nat, y);
    let x = y;
    let y = 0x41a552a8d6e17669ae80005bb83f0c2992de18256e7f46f9f9780aee3d6851c0nat;
    let n = lemma_multiply(b, m, n, x, 0x2c743a699cc5c248247134293c1f234aba3f29a78ce613fc89af6c8f12b9238nat, y);
    let x = y;
    let y = 0x15f9bfbe71a7c40b17ea98b2c88d84827fcb35051c7937587a21b9d7ee2a411dnat;
    let n = lemma_square(b, m, n, x, 0x252c36909d296d042f2c309220afe5a97fa97ad88532fde424e4f78317f0cee3nat, y);
    let x = y;
    let y = 0x5b1b28d896e5acdee3937def5dfb85b1ea6399de816c6470ebe1fec10854b207nat;
    let n = lemma_multiply(b, m, n, x, 0x7f0a747e988a8275d9c194be9a15c4f5c85dd2b12fb4718311f4b0cb4b09defnat, y);
    let x = y;
    let y = 0x285ae10f2580d8a9cc2ed8f5717183a70f419be0ec3da7cf043c0aae9ba698banat;
    let n = lemma_square(b, m, n, x, 0x4799458364891df31b3d84cd18fe1b6d2fcab43a45fa8a138c10d27c24bf2377nat, y);
    let x = y;
    let y = 0x33b74de3409da5471b8540e2b40eea995ba2891ed2747cb1da3f7adaac25e573nat;
    let n = lemma_square(b, m, n, x, 0xe0c35aa627a511ff68f143c376afefcff1bcde2df24acf382295509fc2f81b1nat, y);
    let x = y;
    let y = 0x3e0fccf99e929616236b0d8914815dee3dce3ad2409b9f4b3229b64cb8b14ea0nat;
    let n = lemma_multiply(b, m, n, x, 0x12af86b06d72a2e73266b4d7da99bc6a0555f6589002540769767379e3bbeb4anat, y);
    let x = y;
    let y = 0x74f2fe51abcd0d6fdf8ae7778f25af325e5a2f23ad1a2a9aeff50630e923a7fnat;
    let n = lemma_square(b, m, n, x, 0x213976c03b79e667d1a67cab3c28d8e81c807aac6357f9a50d65e3f1c2d3a981nat, y);
    let x = y;
    let y = 0x613211c7a695f9731021baf4833732ecdbc39b3d0c9f0e560f15c360dd0a4e47nat;
    let n = lemma_multiply(b, m, n, x, 0x2a415524ee551a1e2e93dcfb28bf0749dafdfc4ea617b4b98b26e60f7fb60cbnat, y);
    let x = y;
}

/// Towards the power `3855595957114` of that residue: the first 41 bits of the
/// exponent.
proof fn lemma_chain_to_125527_859267_part_2()
    ensures
        has_residue(0x29e2e8419099c605303232d171dff57887c58134466f3bc76bdae76aaa9433eenat, 0x1c0d9b6b5bcnat, order(), 0x21ff6f0f93a5700ef6e8441d6b81b8c189403f2bf51afdef4cbf20fb04608285nat),
{
    let m = 0x73eda753299d7d483339d80809a1d80553bda402fffe5bfeffffffff00000001nat;
    let b = 0x29e2e8419099c605303232d171dff57887c58134466f3bc76bdae76aaa9433eenat;
    lemma_chain_to_125527_859267_part_1();
    let n = 0x1c0d9bnat;
    let x = 0x613211c7a695f9731021baf4833732ecdbc39b3d0c9f0e560f15c360dd0a4e47nat;
    let y = 0x2c1075dba75e21be3667841472a3ba4314f65aa0522a617d89061cd93e1b1c86nat;
    let n = lemma_square(b, m, n, x, 0x517d6633fd3c6b894be8d3a2362757d00393d7b308b4b8c567d5c9228d603b2bnat, y);
    let x = y;
    let y = 0x2f5f8adced3294979c236e49f528e7a9f574028322a698aeef0a6e75702a4e07nat;
    let n = lemma_square(b, m, n, x, 0x10bfb26ec94389725d09326475ee8944b4696ded30b17f8a99c9a9837f47481dnat, y);
    let x = y;
    let y = 0x1be8ee4e3f9cc4017e76b54b42f8969998feef6d675d39edce6a79bb59285ba9nat;
    let n = lemma_multiply(b, m, n, x, 0x111dd52b0374da87b8ef2dbf3a273a6802ef57e81a3b36497450c0d01dc393d9nat, y);
    let x = y;
    let y = 0x165d48c18a869098e56ed52dbde7b14c9367a9664083694d9666f1fd19210c0dnat;
    let n = lemma_square(b, m, n, x, 0x6b82695be4963660aa1efaf72bfda6db62ca89f032a6df902b658852e808984nat, y);
    let x = y;
    let y = 0x469170cfad311193bf9f89a82ffe2ecb796e1643ea1e65288a10a05d53de762dnat;
    let n = lemma_multiply(b, m, n, x, 0x8149de39d1fa2d1d9bf272514660556f191824578375228e8424b5837c554e9nat, y);
    let x = y;
    let y = 0x59b5cbf51ae90e3f518ceefb9f2d717dba1fe6ff773e4e0859eee14c855d3ea8nat;
    let n = lemma_square(b, m, n, x, 0x2af4d4c821eb9067ca50195ec7da4c2537e030aee739abf4e3c18298d53c4541nat, y);
    let x = y;
    let y = 0x33d4f34b16eb3e1dfcf4d2c4be60391cc71a4ed49c5e03c18a80daa4f9c46373nat;
    let n = lemma_square(b, m, n, x, 0x456be250303acdfaecc977e921c8c58ca63b31cc47a386c34e7b18f92ba16acdnat, y);
    let x = y;
    let y = 0x699bb0e47b4f04923afeeaa2ba38e8804234d68f3953b7dda2cbf603e3a9f1b2nat;
    let n = lemma_multiply(b, m, n, x, 0x12ba3cd617531644ad8a54694b662c6b4be0356059699bfb70fd5b884d366c38nat, y);
    let x = y;
    let y = 0x2fb10eb4445820105520362b41448d32dd1963729f6af70f0aeed37f7de14faanat;
    let n = lemma_square(b, m, n, x, 0x6034ebc875b074d34912f517e7c88a917b9a667ac4157b9c79a512392f53501anat, y);
    let x = y;
    let y = 0x41c90981812b6b468ce15b8ed5965c364095e2c57919880613bf4000486e7faanat;
    let n = lemma_square(b, m, n, x, 0x139eabb80950ae1309d922f369e0fb95ea85b9d63bdfa347be4db1fedd2fdd3anat, y);
    let x = y;
    let y = 0x5f5d29808977729782b2f8dd785c3666a9e7153c11f88597b4d26c2c2d28cb1bnat;
    let n = lemma_multiply(b, m, n, x, 0x17c4e0932b2b3fa0d6a6c555c89db8f6bbc24061c8142a9747fe6882df48c2f1nat, y);
    let x = y;
    let y = 0x6845201c737d155ff4d8319d17bc51c5eadfd35f44d4ae069e9732d4f7689744nat;
    let n = lemma_square(b, m, n, x, 0x4e7288ad4af1c6136106b31a104e4bcf4f7538fe00c56f9d2b3c01efa02b3d95nat, y);
    let x = y;
    let y = 0x47a0c94c1fe9b4357618db3a707989c84f6d62536f02b300d12de3de234b8386nat;
    let n = lemma_multiply(b, m, n, x, 0x25ac8f56422de519cf249a6e9276e7474d9fc867b13c015ded06f02e5163a9b2nat, y);
    let x = y;
    let y = 0x33a5cb74b6cbdeffbd7590e8c674e2e3eadb1c1d32c4a309e0808cf6e65a6986nat;
    let n = lemma_square(b, m, n, x, 0x2c41a9062e069b27a27d4a0f175edca177f83fba29fa5286616cf04c11bc009enat, y);
    let x = y;
    let y = 0x20e67fa57507847b9a852d05d0b807bd517f3340b56aac34c955a94788598673nat;
    let n = lemma_square(b, m, n, x, 0x17027ce029118cd6d89b0b8f8d43a8ebcaf590d871acf58b427bf57c9d5dabb1nat, y);
    let x = y;
    let y = 0x1662f3df750c9e72e70deed11b07627c502ace5a7b1c76112e6e393b87610a62nat;
    let n = lemma_multiply(b, m, n, x, 0xbe3276f31c2242a6e2249ec16dc0080923390fd4ffc98af6444fc9f2a1edd88nat, y);
    let x = y;
    let y = 0x2d2dfe339983f626fc773f0623b9da6041ebef8e3f36fc90745d4b2b99de83fcnat;
    let n = lemma_square(b, m, n, x, 0x452af64dcddffdb5b5c0cbaf18634a1b3d3944f765bd681359de944a0d14988nat, y);
    let x = y;
    let y = 0x98e5de62ce9203d39740a8694a0e7bbb3b3ff396b0f0cdeea503710ae945d66nat;
    let n = lemma_square(b, m, n, x, 0x119b81770a3560fe8a7f1d938fc244a7159913c3396705967fe1056db68782aanat, y);
    let x = y;
    let y = 0x2db9fe2ada86984d62d198b0eb53338c393775c5baf7a5290767bfae2327255enat;
    let n = lemma_multiply(b, m, n, x, 0x373e724bfa5394454de459c8ba7b5a8e59eb103129ca35e7ca3f019745b0176nat, y);
    let x = y;
    let y = 0x71905f9f96c8f24bb51536dac33edf704d40fb25cff696b1690027411d3a1452nat;
    let n = lemma_square(b, m, n, x, 0x120949ae3dde2eca2c200bd6146df2bdf1824274895b68fd034edcecfede3a32nat, y);
    let x = y;
    let y = 0x2fa7844d9ed98947246a102f28288cbd93b5b652ca1437ce960efd3b9d5bca11nat;
    let n = lemma_multiply(b, m, n, x, 0x29083644f27ee4181dcf1262e2c6e456c755cadf6565aab76942c9515417702bnat, y);
    let x = y;
    let y = 0x723866538789b94edfbf125a8ce20f418b70d738a809a30136203680889f13b9nat;
    let n = lemma_square(b, m, n, x, 0x1396d2f3641024e2c02f4bc832e68e09faf94f5381fae901bf1fff7f98f5c168nat, y);
    let x = y;
    let y = 0x2266a905a9470bd515511aee76eb7f8f7325489587ef153416629c8eb56f6f92nat;
    let n = lemma_square(b, m, n, x, 0x7089968b6f3909d88a325bdb7f3b2b4e32d6873526a4eafe44101c5e5be38c1fnat, y);
    let x = y;
    let y = 0x572f1263636da3bd994313e8738d5b31e0c7ece57619c5ba396f0d7d4c7fee4bnat;
    let n = lemma_multiply(b, m, n, x, 0xc6df4d91960deeede7ed7540f55acca34962aca285fb523414ca3bd08bbe171nat, y);
    let x = y;
    let y = 0x372a50f2163a5bbb8547824c8fa3bf218a8fd31ae39ae9219de100e6f1d2da8anat;
    let n = lemma_square(b, m, n, x, 0x41910d61f118d57f6607342d907d7376c3c010b0cce712a1198e3730e266af6fnat, y);
    let x = y;
    let y = 0x6fe982e75118b962cb14da1ae561c4b62da11cf2b136d275d1adef64baedbd3bnat;
    let n = lemma_multiply(b, m, n, x, 0x13ee91c32412c34ee46963ac35ff7f24ed4ffe540fed4db6eb38acb8146aed11nat, y);
    let x = y;
    let y = 0x581ca8cc0bbc2f41fc67d427a2772619bfdbfc20a3d4e387a0ed850819bc4431nat;
    let n = lemma_square(b, m, n, x, 0x6c08fcd829d61e6c8331d6c8e17437346110d22840d62efe7dc0b6398d61e768nat, y);
    let x = y;
    let y = 0x29e7207299abb5b82b3930888b0b9534eba4929238a43668e13abedb0ee4028dnat;
    let n = lemma_multiply(b, m, n, x, 0x1fd600c52d794aad66034cc8441170c92a3467c6c4c43c1cc3210b38560d2601nat, y);
    let x = y;
    let y = 0xe07dd23ca68fdb9e06d0ec3f10d92a101bb00a0b0d8f909db052ead3e2734d8nat;
    let n = lemma_square(b, m, n, x, 0xf255ec23e2e77a2c42d5ecf52bf4067dea514fa2995ba6ecea982bdb9074cd1nat, y);
    let x = y;
    let y = 0x1cdda2c597cc6535fd3924b6da0489c8190a0d6fb303450f821e32ce684a48dfnat;
    let n = lemma_multiply(b, m, n, x, 0x511c90998fb55f4a08942d6ef89e40bd3f72da74459b6a3bdd856c62c8fdff1nat, y);
    let x = y;
    let y = 0x318503d613dc4aa6371eef9a88dff018491d74cfe4cbadb79252cef49890fdfenat;
    let n = lemma_square(b, m, n, x, 0x72ffe93ac2cbdf5206522ee0494f8576cce28ab7b2e9637d18b38f5cd193443nat, y);
    let x = y;
    let y = 0x21ff6f0f93a5700ef6e8441d6b81b8c189403f2bf51afdef4cbf20fb04608285nat;
    let n = lemma_square(b, m, n, x, 0x1527131a784424a52b4982998f840a3449a201b2a824d6f8ff6dd870555f857fnat, y);
    let x = y;
}

/// The power `3855595957114` of that residue.
proof fn lemma_chain_to_125527_859267()
    ensures
        has_residue(0x29e2e8419099c605303232d171dff57887c58134466f3bc76bdae76aaa9433eenat, 0x381b36d6b7anat, order(), 0x6a2e1cb31c7aa6e2f8ec3b202ef053e4e83c19837988d9b68252c23aaf1827cfnat),
{
    let m = 0x73eda753299d7d483339d80809a1d80553bda402fffe5bfeffffffff00000001nat;
    let b = 0x29e2e8419099c605303232d171dff57887c58134466f3bc76bdae76aaa9433eenat;
    lemma_chain_to_125527_859267_part_2();
    let n = 0x1c0d9b6b5bcnat;
    let x = 0x21ff6f0f93a5700ef6e8441d6b81b8c189403f2bf51afdef4cbf20fb04608285nat;
    let y = 0x50f3d22a8798472fb4c86c8fbe08253124c9cff04ecdd9b0cb74274b737a5cfnat;
    let n = lemma_multiply(b, m, n, x, 0xc48a8d161067fbd94932e6da217d3e8aff5a7a8eecfb6911ff646295b6630d7nat, y);
    let x = y;
    let y = 0x6a2e1cb31c7aa6e2f8ec3b202ef053e4e83c19837988d9b68252c23aaf1827cfnat;
    let n = lemma_square(b, m, n, x, 0x3887629801ffe7c9887ad5712b38f930a447bcfca1ed651feb2e15ed3e5592nat, y);
    let x = y;
}

/// Seven to the power `(r - 1) / (125527 * 859267)`.
proof fn lemma_seven_to_quotient_by_125527_859267()
    ensures
        has_residue(7, 0x49dbef9b2f0ac434caa70e82eea8aec6243950294eaa5b300000000nat, order(), 0x6a2e1cb31c7aa6e2f8ec3b202ef053e4e83c19837988d9b68252c23aaf1827cfnat),
{
    lemma_seven_to_quotient_by_2_11_19_10177_125527_859267_906349();
    lemma_chain_to_125527_859267();
    lemma_power_chain(
        7,
        order(),
        0x1510081a7faa2682d56c6eac0b30b598e741780000000nat,
        0x29e2e8419099c605303232d171dff57887c58134466f3bc76bdae76aaa9433eenat,
        0x381b36d6b7anat,
        0x6a2e1cb31c7aa6e2f8ec3b202ef053e4e83c19837988d9b68252c23aaf1827cfnat,
        0x49dbef9b2f0ac434caa70e82eea8aec6243950294eaa5b300000000nat,
    );
}

/// The power `859267` of that residue.
proof fn lemma_chain_to_125527()
    ensures
        has_residue(0x6a2e1cb31c7aa6e2f8ec3b202ef053e4e83c19837988d9b68252c23aaf1827cfnat, 0xd1c83nat, order(), 0x3dd479f5454967ce0dcb2b172ac73d5ce93d58a856569621c247fb7ed7f91c4fnat),
{
    let m = 0x73eda753299d7d483339d80809a1d80553bda402fffe5bfeffffffff00000001nat;
    let b = 0x6a2e1cb31c7aa6e2f8ec3b202ef053e4e83c19837988d9b68252c23aaf1827cfnat;
    lemma_zeroth_power(b, m);
    let n = 0nat;
    let x = 1nat;
    let y = 1nat;
    let n = lemma_square(b, m, n, x, 0nat, y);
    let x = y;
    let y = 0x6a2e1cb31c7aa6e2f8ec3b202ef053e4e83c19837988d9b68252c23aaf1827cfnat;
    let n = lemma_multiply(b, m, n, x, 0nat, y);
    let x = y;
    let y = 0x7345120520ae2cbb738bb2b8ecb3e9704a582d75594f6ca696d119f7ad2a4895nat;
    let n = lemma_square(b, m, n, x, 0x61406a918a80416aaf7987f8ff00917744b20dbc2ad0148a62ab2554d1d670ccnat, y);
    let x = y;
    let y = 0x25d572fc0951b19edb3a75fe1cce049681671b08ec08c8dba19e49b835e1e494nat;
    let n = lemma_multiply(b, m, n, x, 0x6993b46a99d7a331f61f9fb47fbec3ae64ce7d754fb4dbec04a76f2be9557ee7nat, y);
    let x = y;
    let y = 0x51f1d900af5d3937095788030676cde03e8fb362d538a27bf6d6559f78419700nat;
    let n = lemma_square(b, m, n, x, 0xc58e4ef337a00ebaca0742801e2dddeef28e08f1175de96144455a967fe5e90nat, y);
    let x = y;
    let y = 0x21f307e97eb27194da5f4b942d696b7c868c89d8523cd4ae8008b52144757007nat;
    let n = lemma_square(b, m, n, x, 0x39ec54ec3c41803adaacc46130a147ff380143b2e7e4b98edecffb35c29b8ff9nat, y);
    let x = y;
    let y = 0x26de495cf671155b3787f91f80c71490413f4ecf7d77d158cd6bdf857c158d6bnat;
    let n = lemma_multiply(b, m, n, x, 0x1f1837ab68ce49bd89248b25b004572d450784160d500a42c479233a0c99193enat, y);
    let x = y;
    let y = 0x47bd42a5e8ce642b5b92ea0fcc2faacd2b225d7903cb9f5ec82a4951e87e77b5nat;
    let n = lemma_square(b, m, n, x, 0xd081ea05bc90c4a13695f0a4c7a369bbac0fa4948a40d2ec56087b0412e9304nat, y);
    let x = y;
    let y = 0x2047349bbe6f4fbb62a42338559951852eb1c24a8fba76a0f2206021199fcdc7nat;
    let n = lemma_square(b, m, n, x, 0x2c64dfb04a6082179b320957dd183c6d5f23c573890007e13d3c0a0d0485f832nat, y);
    let x = y;
    let y = 0x669847107b02d2115880e4a6ba721a311ef0375e5c23f77800de0b0e4681d8a9nat;
    let n = lemma_square(b, m, n, x, 0x8fcbd717e5618c886ad8e9bdfad71e85ee6be9a13670208ff135439da187808nat, y);
    let x = y;
    let y = 0x64cbbb03ffb1a12a810e90f05a71167d61e405f2ff18e81d6f4ef4248585fb1enat;
    let n = lemma_square(b, m, n, x, 0x5acb7db8b12bfa711da86cff9d9909bc465e4251185555f740342d22f829a473nat, y);
    let x = y;
    let y = 0x2c64640f254fc83b04d1358cd66fa30b359070db72d23197fc38e55192f03633nat;
    let n = lemma_multiply(b, m, n, x, 0x5c51f0bcaa25335f8783b3c03e4537b9f4298068590e6260353e39a1da77690fnat, y);
    let x = y;
    let y = 0x4a09048deeece688770f212d02110949fbae37b2b235e60efb4ee11af96f6523nat;
    let n = lemma_square(b, m, n, x, 0x10ffbcfc09f5111e32624b7586d23976cf7ae1bec6ed813611fbb168ddaa2906nat, y);
    let x = y;
    let y = 0x7333e0ba40f6cdfb0cb3de36285ccb2f735dd67b9ea1d1e831e26944ce1e9e73nat;
    let n = lemma_multiply(b, m, n, x, 0x43cf4abf43b3686a00f3bc3be7271c7b1c137a4e1c8fc594eef72de743a47ddanat, y);
    let x = y;
    let y = 0x16702ae6a32ceba696d8e6174333367b42b643cc260802b5748b2b00dc6bd21anat;
    let n = lemma_square(b, m, n, x, 0x727b43d63fd5dc696437f3b464bdca098b6ac39356ca07e5554ef850bc9a558fnat, y);
    let x = y;
    let y = 0xf77dfce76e06eff8d68dab975bac450dce24e47b8f660632143d318439cc174nat;
    let n = lemma_multiply(b, m, n, x, 0x148d26924718d9fb05ceedabb8d11cc26f50a81225bf256cf090d85fdd041792nat, y);
    let x = y;
    let y = 0x5a0951062fa3f5f629fb9bbb5b0a5e13e41c4131d51606547e674fbfe1b47a8nat;
    let n = lemma_square(b, m, n, x, 0x2105d2fab5bffc6084a7a21da4c4e4328ee2b289152ced41a6b4aeb1174d4e8nat, y);
    let x = y;
    let y = 0x546850c0c28b4bfc8b2c887f0a7a6739dd5fed01b577708274d9e55cbac048ebnat;
    let n = lemma_square(b, m, n, x, 0x45ed6197e0c7acc09fa4451e1294c928ff1903487d4cfd526d5881d6be5555nat, y);
    let x = y;
    let y = 0x469adb111e462883ce7cc73d34ba76cec052b11158a1e588a34f86b091bb0de7nat;
    let n = lemma_square(b, m, n, x, 0x3d7506a89a7a057bc72a324d0c0cf249611ada672dcd73251785446c5f89f9d2nat, y);
    let x = y;
    let y = 0x4ce4e52c212a3ebfb731bbbed1cd2e615899d2e20c3c73e0153831c0c9c673a9nat;
    let n = lemma_multiply(b, m, n, x, 0x40aaf917b09a8c70a952acc0f3f311e79d794a1270692181b2ef54b8c23ffb20nat, y);
    let x = y;
    let y = 0x22a59ceea260eba5267942c9a27ab92d8a23136c898d432dacbc7fc77cd6a1b7nat;
    let n = lemma_square(b, m, n, x, 0x3300cc096d3ec3a87a8bd19da4656696550befd06ead09aeeb078f0902d6a3danat, y);
    let x = y;
    let y = 0x18508314355f1badcada5cf51256402fadd7b8a52fab592be7ffcc9ad91e91ffnat;
    let n = lemma_square(b, m, n, x, 0xa5ad134ea88a0346deedb8b10597683b8f250f482e32f2cfec8ef5532fd1ed2nat, y);
    let x = y;
    let y = 0x2733235c6a308ba69d575db7e0651ffbaddc7ebd8fbea5fcbbf8b07cf2fbb232nat;
    let n = lemma_square(b, m, n, x, 0x5198338168b7781d66831fe98836ce0b3e6e45b18deb6d6dfaf5f46e60b29cfnat, y);
    let x = y;
    let y = 0xa308621e70027be0a19265a89c6eee8b36e8780d1f171992a2fa0d399ac2d21nat;
    let n = lemma_square(b, m, n, x, 0xd41429496d2ea62faf4f2e9d3d163a6cf6250937259272b5a93f89cd86964a3nat, y);
    let x = y;
    let y = 0x6fb5467af9198e9fd30fa82e7e8e3c7a5fe37f131589926586e9abf9b751cf8dnat;
    let n = lemma_square(b, m, n, x, 0xe546dbdbebb2626879bec02e115b3f508e8d5d6429c3a42caa08de66faceb4nat, y);
    let x = y;
    let y = 0x579bc23d240c6051385c5b714817023964115dd962c773f550c32879cf8770b8nat;
    let n = lemma_square(b, m, n, x, 0x6ba43a12f52abcb985bb8cd9f61d7c90cafe7853894a3c904b90e9a1c5f7e2f1nat, y);
    let x = y;
    let y = 0x24d7aa8d2717be92d99cc84fad0228bf124feaee10e72d4dbdd7c45e4006baaenat;
    let n = lemma_multiply(b, m, n, x, 0x503dd91d3e5a7dbb3dc9213e4a619e68b215a3dc9999dc03185dfb4889e9721anat, y);
    let x = y;
    let y = 0x6b00ba855cb224310ef7b94fb5e998ee3b9b4968a3f9c6cdd6ad5b06d8313e69nat;
    let n = lemma_square(b, m, n, x, 0xbb56af5db802ff06b35b65bdb36eb288a4dcc9dddca9789787d9a2070180fdbnat, y);
    let x = y;
    let y = 0x3dd479f5454967ce0dcb2b172ac73d5ce93d58a856569621c247fb7ed7f91c4fnat;
    let n = lemma_multiply(b, m, n, x, 0x620152890fbc2a476db67b6d7019f84fe4948440618cf9382878a7a319325998nat, y);
    let x = y;
}

/// Seven to the power `(r - 1) / 125527`.
pub proof fn lemma_seven_to_quotient_by_125527()
    ensures
        has_residue(7, 0x3c86504a1f91a36a677a9b5b8ddab737ef243e03188648495e9900000000nat, order(), 0x3dd479f5454967ce0dcb2b172ac73d5ce93d58a856569621c247fb7ed7f91c4fnat),
{
    lemma_seven_to_quotient_by_125527_859267();
    lemma_chain_to_125527();
    lemma_power_chain(
        7,
        order(),
        0x49dbef9b2f0ac434caa70e82eea8aec6243950294eaa5b300000000nat,
        0x6a2e1cb31c7aa6e2f8ec3b202ef053e4e83c19837988d9b68252c23aaf1827cfnat,
        0xd1c83nat,
        0x3dd479f5454967ce0dcb2b172ac73d5ce93d58a856569621c247fb7ed7f91c4fnat,
        0x3c86504a1f91a36a677a9b5b8ddab737ef243e03188648495e9900000000nat,
    );
}

/// The power `125527` of that residue.
proof fn lemma_chain_to_859267()
    ensures
        has_residue(0x6a2e1cb31c7aa6e2f8ec3b202ef053e4e83c19837988d9b68252c23aaf1827cfnat, 0x1ea57nat, order(), 0x672315bde95b3660335e8a5dcace029b6404f0331eae7401fa8c8374cd50438dnat),
{
    let m = 0x73eda753299d7d483339d80809a1d80553bda402fffe5bfeffffffff00000001nat;
    let b = 0x6a2e1cb31c7aa6e2f8ec3b202ef053e4e83c19837988d9b68252c23aaf1827cfnat;
    lemma_zeroth_power(b, m);
    let n = 0nat;
    let x = 1nat;
    let y = 1nat;
    let n = lemma_square(b, m, n, x, 0nat, y);
    let x = y;
    let y = 0x6a2e1cb31c7aa6e2f8ec3b202ef053e4e83c19837988d9b68252c23aaf1827cfnat;
    let n = lemma_multiply(b, m, n, x, 0nat, y);
    let x = y;
    let y = 0x7345120520ae2cbb738bb2b8ecb3e9704a582d75594f6ca696d119f7ad2a4895nat;
    let n = lemma_square(b, m, n, x, 0x61406a918a80416aaf7987f8ff00917744b20dbc2ad0148a62ab2554d1d670ccnat, y);
    let x = y;
    let y = 0x25d572fc0951b19edb3a75fe1cce049681671b08ec08c8dba19e49b835e1e494nat;
    let n = lemma_multiply(b, m, n, x, 0x6993b46a99d7a331f61f9fb47fbec3ae64ce7d754fb4dbec04a76f2be9557ee7nat, y);
    let x = y;
    let y = 0x51f1d900af5d3937095788030676cde03e8fb362d538a27bf6d6559f78419700nat;
    let n = lemma_square(b, m, n, x, 0xc58e4ef337a00ebaca0742801e2dddeef28e08f1175de96144455a967fe5e90nat, y);
    let x = y;
    let y = 0x6259e581714c9c603bd7b97e6276e8a09662de42b5dea00f63fc4de15451e7denat;
    let n = lemma_multiply(b, m, n, x, 0x4b0ddb84438f01bbae58bc52a09935b1dfd1c957e21e70614488bce40eb83122nat, y);
    let x = y;
    let y = 0x5aaf517e4f97378b485d927dc9332242605d99e4260097eec548bb7e395da6f2nat;
    let n = lemma_square(b, m, n, x, 0x537065b64ebb509ac166587ba4b0aace8e53b049a34403fa0822fcae0320bd92nat, y);
    let x = y;
    let y = 0x64f1ec353096a373cbb1b44a864751dfbcbf465548d51e145736bbaf4ab3f402nat;
    let n = lemma_multiply(b, m, n, x, 0x530f2ee5df84edf89629b03405729a3e2eef0a1219a6ec1de6999e857124e7acnat, y);
    let x = y;
    let y = 0x37a8669072e733962f85f1aee770d6b8e8e4635023eb15363949ffdd74187834nat;
    let n = lemma_square(b, m, n, x, 0x57e5f2413dd5c5829ae97fc563667cda90c50afaa987e4170924663ed74757d0nat, y);
    let x = y;
    let y = 0x4a0243b194cf42af978abcaef95142359aaa3faf3f5278bcffa3a16bbd908d67nat;
    let n = lemma_square(b, m, n, x, 0x1ab8bbca21cbbd4f1f7dceb07e59e692449eb34d79e43b7d4101eccb24a03d29nat, y);
    let x = y;
    let y = 0x1b7f725839440ce79bb2749a405515c4ffc85631e807f3ca81e8146de542002dnat;
    let n = lemma_multiply(b, m, n, x, 0x43c91b4362bcffd3eeecb2d56b858cbd6c0315272eef00661367903a12d3071cnat, y);
    let x = y;
    let y = 0x9b3448f6a783dbb0e0ad7c2d3901e7c37fdaf581660d4648d20e90d0a71df3dnat;
    let n = lemma_square(b, m, n, x, 0x685bc17f7eed2d377d21ff1897934cb5de4984a7ca8335e04bb93458ec228acnat, y);
    let x = y;
    let y = 0x5dd21c78bf2dbc9ecd8c076f6240424fc6b1a555f4712c62e7c858014da193e1nat;
    let n = lemma_square(b, m, n, x, 0xcfc95f438eae3b8deb818c0d0d9eb2b3c9cad9e09ca4ebbeb636f04ce3c0a8nat, y);
    let x = y;
    let y = 0x47d6ad0b4aa3aab0f27385f641fe568a95ecf1f97b751ca001734850a67ec36bnat;
    let n = lemma_multiply(b, m, n, x, 0x55ee787c05d580a691aea4ede50a6fa05b259f3c9d96c95924a9e84b68c71684nat, y);
    let x = y;
    let y = 0x5a4a976b1938d749572fd4e925894a27ade598b6133a0bbee30ca9e3c6b4b071nat;
    let n = lemma_square(b, m, n, x, 0x2c8459e54c1672d056b89dcacf5fe0e3b57f3312ef41163b3e4fcb77efcb7e48nat, y);
    let x = y;
    let y = 0x19e36f56b0538c7f03c74ff4265fbbbed2153042b5ec113c01df0f1d2d17e69bnat;
    let n = lemma_square(b, m, n, x, 0x4652eaca5583df9d5c7aa7bed06baa58b4b9635d61565fa9b5c6b706376bab46nat, y);
    let x = y;
    let y = 0x6d5bd3d9dca321f8295e1aac4bbc837f7616b3641f1d9df74adbd1b3d090226dnat;
    let n = lemma_square(b, m, n, x, 0x5c7ffb56af814682b914a6a27ee114585e4ebdd7a38ee4da694c023ed04bf6cnat, y);
    let x = y;
    let y = 0x45bf58c67a277b883b2d9045e175c55ef4b366f5bc6522b4f424c6e1ab6947fanat;
    let n = lemma_multiply(b, m, n, x, 0x6429b533f0508aa365fda532fc3ca94c3a7dee8a331e72e62c3bd330ab992929nat, y);
    let x = y;
    let y = 0x5ad3f691b4865272cebeffc0a4d1ac68a34dd1134755da1c7ac71331bec6f5cnat;
    let n = lemma_square(b, m, n, x, 0x29f68a7a41ba9363f5d643d2ecfdb288cfb714c385562419a334ce7cff6430c8nat, y);
    let x = y;
    let y = 0x156f57981c3f8710ade4553c28c709f124b9c2bbf99f20d900e2b57f22607f14nat;
    let n = lemma_square(b, m, n, x, 0x472989cce5416096b93e3a851f3e80ffec69c56279eb8c4ffd04ffc7b069fcnat, y);
    let x = y;
    let y = 0x3b7febf9a7a5f36a8afc88664b11226e4234ee19626abcedcec97642a2914324nat;
    let n = lemma_multiply(b, m, n, x, 0x13a1ebd6f120ec88296f75b264cd88346e53fd22563fb7cc97dc564172b18a08nat, y);
    let x = y;
    let y = 0x643a5a2bcb8a031aabe36a0d68b69778650c27f8c9a1e719e816e308f30cd4f2nat;
    let n = lemma_square(b, m, n, x, 0x1e89b711672cab9aabf0319d21991bd888b0b532c320381757d01f0bbd57081enat, y);
    let x = y;
    let y = 0x33c29e7a2800afbc836295dec70c620c51f8843e6f2e4a09148f0c73b9c75a50nat;
    let n = lemma_square(b, m, n, x, 0x56a7647c4444cec43a774d85e6539bfc411ae0b6c425c13b584726085a0a5a74nat, y);
    let x = y;
    let y = 0x204c0e3e7d83e91f999c2f44f6e9913bc81d3188ce5b2399f2853e7d9c336667nat;
    let n = lemma_multiply(b, m, n, x, 0x2f6865dbd612505464dd0558e524698440e2665d06a3bae698600c392240d049nat, y);
    let x = y;
    let y = 0x3f92df0e86e784eaf615b7187e7c177f5c5b2d99570adb9bc93fa0d9f0a4687cnat;
    let n = lemma_square(b, m, n, x, 0x8ff71117857e5023ef85bf3b30b29fee4f460fb63b0d695b63cc7d08d5bd4f5nat, y);
    let x = y;
    let y = 0x585b0731f680080b40ff8e458b30b5f7812454c2cb54c2afe941d0207d9fcfb9nat;
    let n = lemma_multiply(b, m, n, x, 0x3a3a589b021b336d85360364694a707ccac5c8e5a25cb040d1a29b3bb2db908bnat, y);
    let x = y;
    let y = 0x10eb51e899c3a4b3703923f07d91f1157cd38935e00d73763750ec36e18da91enat;
    let n = lemma_square(b, m, n, x, 0x43573f80dab10ab4e68a5a2a43a2633fe26bce9701c8caced694213a78cd0a93nat, y);
    let x = y;
    let y = 0x672315bde95b3660335e8a5dcace029b6404f0331eae7401fa8c8374cd50438dnat;
    let n = lemma_multiply(b, m, n, x, 0xf7f1b5e3351309df4eac88717bb9f2b47c5dd7deb5051651edfefac85cf0db5nat, y);
    let x = y;
}

/// Seven to the power `(r - 1) / 859267`.
pub proof fn lemma_seven_to_quotient_by_859267()
    ensures
        has_residue(7, 0x8d78125d75c79835b9d4a08c8b4df9daa6ac02e94e9bce6edd500000000nat, order(), 0x672315bde95b3660335e8a5dcace029b6404f0331eae7401fa8c8374cd50438dnat),
{
    lemma_seven_to_quotient_by_125527_859267();
    lemma_chain_to_859267();
    lemma_power_chain(
        7,
        order(),
        0x49dbef9b2f0ac434caa70e82eea8aec6243950294eaa5b300000000nat,
        0x6a2e1cb31c7aa6e2f8ec3b202ef053e4e83c19837988d9b68252c23aaf1827cfnat,
        0x1ea57nat,
        0x672315bde95b3660335e8a5dcace029b6404f0331eae7401fa8c8374cd50438dnat,
        0x8d78125d75c79835b9d4a08c8b4df9daa6ac02e94e9bce6edd500000000nat,
    );
}

/// Towards the power `107861208709` of that residue: the first 22 bits of the
/// exponent.
proof fn lemma_chain_to_2_11_19_10177_906349_part_1()
    ensures
        has_residue(0x29e2e8419099c605303232d171dff57887c58134466f3bc76bdae76aaa9433eenat, 0x323a0enat, order(), 0x36c201b72ba5ac5d5ce3b0cda82bd3095eb87b779dbafd6766ae83af71c6d763nat),
{
    let m = 0x73eda753299d7d483339d80809a1d80553bda402fffe5bfeffffffff00000001nat;
    let b = 0x29e2e8419099c605303232d171dff57887c58134466f3bc76bdae76aaa9433eenat;
    lemma_zeroth_power(b, m);
    let n = 0nat;
    let x = 1nat;
    let y = 1nat;
    let n = lemma_square(b, m, n, x, 0nat, y);
    let x = y;
    let y = 0x29e2e8419099c605303232d171dff57887c58134466f3bc76bdae76aaa9433eenat;
    let n = lemma_multiply(b, m, n, x, 0nat, y);
    let x = y;
    let y = 0x48da32ea46a5f5f79030b7742989ff53655a6ef80caa01609faefad84dc6b861nat;
    let n = lemma_square(b, m, n, x, 0xf22520821c2cb143dd37e8490aa80a2f25fdde96f839587cfb6ade6dff1f8e3nat, y);
    let x = y;
    let y = 0x7f8c14fb40c4bc1bde32e62be8d14540b03c3e9cd85da056bc031e769c1ef61nat;
    let n = lemma_multiply(b, m, n, x, 0x1a528ccd0fcb1629448122a36805d7fdf7c17b3f2b550c911da7b4f97dcccdcdnat, y);
    let x = y;
    let y = 0x2b5c8efb52d960cf6a5214b9475d206edc83b06ba0451b0dae981b0e62bbd324nat;
    let n = lemma_square(b, m, n, x, 0x8c549ef586c5e6fd748c694d4fe249624e4f239d1abfecbd9620e4ff5c6f9dnat, y);
    let x = y;
    let y = 0x725f3e1a3bfa310586b3854b2e824fec418b1055fe22c5046d4a8f1aed5d20fdnat;
    let n = lemma_square(b, m, n, x, 0x103806be37b7bf38be702d0bbd26639017458463c6f6fcc695fdb45dc75f3c13nat, y);
    let x = y;
    let y = 0x1437c1e217310b9e0efb28eccd680bdecc9c9fd2b9b94e1280bfd9abe3dce607nat;
    let n = lemma_square(b, m, n, x, 0x70d62e19846493c54b5a2b903322b3d2bed21c008277bc78ab9464af8a355402nat, y);
    let x = y;
    let y = 0x5c7c2d654c986f278f403c3e98c38228a43eedd15539121c68f5302a7629a063nat;
    let n = lemma_multiply(b, m, n, x, 0x74e10da8df3c6cebe18b105556501195ce6034733b0914fff86078305139f1fnat, y);
    let x = y;
    let y = 0x5b9c70e9b2b5734d854df94c4b4595693120ee41324f25ac56a9c492b62e4301nat;
    let n = lemma_square(b, m, n, x, 0x49c854fa6ae7e85793dff23f251038ffe75f2543b0dd966d013005d15203a348nat, y);
    let x = y;
    let y = 0x3661f8480d91833409e5c3d659ce398bf979cc792c5df797905ff0aac2bcdec5nat;
    let n = lemma_square(b, m, n, x, 0x486508f32cec94c4c32c7efe5ff0179297e4b0317b7a8777871e7b56cf28a73cnat, y);
    let x = y;
    let y = 0x24673bd8591a1fbc1a3dddde8be58c901ecb76808de4e3410d2c858007aa18e1nat;
    let n = lemma_square(b, m, n, x, 0x1982e1b63b32d4a9315e5cfe79bce019a1cda5e778d96b87c13dafd67f882ab8nat, y);
    let x = y;
    let y = 0xda6a52552dab43411714c63811b058feda8eb23f03d7e7adbbd0ebcc849c912nat;
    let n = lemma_square(b, m, n, x, 0xb6e6181457b8f30310db32a87a667a07442fb5148742ac786bd875392f52cafnat, y);
    let x = y;
    let y = 0x4f39ac171628b15d66be6b952dfbd67ecf29ec209e6e48a51d94793fd9b83d64nat;
    let n = lemma_multiply(b, m, n, x, 0x4eea8b1b277b41649b0bfd8860ccc54dd6993e032bfb6ae3aeb672340574758nat, y);
    let x = y;
    let y = 0x535a713980849203281caffccb9b629e888e40d770da3e4d5c9f0d98bf7a1818nat;
    let n = lemma_square(b, m, n, x, 0x362478539c15d614071267de414f0a966452683752bfe78269e0454316feb6f8nat, y);
    let x = y;
    let y = 0x35766a2fe70fed03ad1b94f38e3c7039c626d3edb16eeb999ebbabcf0c657ab7nat;
    let n = lemma_multiply(b, m, n, x, 0x1e1dd8901a2784b3c91740905dbd6e72e36d29e314799d8aa0d3827727c9b399nat, y);
    let x = y;
    let y = 0x373afa78d001d36bc13ecbcff2ff0c4144e1cb784997a91ed537749fc1ff32ecnat;
    let n = lemma_square(b, m, n, x, 0x18a7c02b85319410dd7e8b538f24ae9ae3b273f7f8dcf2366a02e0f27539bbe5nat, y);
    let x = y;
    let y = 0x31293412ff06f162751d4cb23fa6d8f423fc19e231afb03fd94fb1040affae0fnat;
    let n = lemma_multiply(b, m, n, x, 0x13f496f3429458e43543e13b24d7f834da09b33ab282a693db16e5934fd6ad59nat, y);
    let x = y;
    let y = 0x2070df04dc0078a46cf3f689e9937cf04898f78c11bf66588eaeb71e3aa1b44enat;
    let n = lemma_square(b, m, n, x, 0x14d8ec39eba9176b9deebc33654e112d531ebd353c16b8a75d5320e22998b093nat, y);
    let x = y;
    let y = 0xe27f355991ed5ee724c23091a84d4883726388c32b9df20e47799d9095d1d16nat;
    let n = lemma_square(b, m, n, x, 0x91400280331652240ca0c55caac7a0b54c7491fc9ce375e506882f497bcaaaenat, y);
    let x = y;
    let y = 0x2b5322438bf8facacf091401896d4f988a48d838ef5b803a04cd2463c13e9381nat;
    let n = lemma_multiply(b, m, n, x, 0x51d60edbd5f32f651629d863ba159cf5d63a20f8a33bf73111a1d74ecd5d8f3nat, y);
    let x = y;
    let y = 0x44ef5376390df5773055aadbd98b9b3465362b4cfbdb73309753fda37a32d3dcnat;
    let n = lemma_square(b, m, n, x, 0x1030fa9d63825d6dad7e1e0c56c44ca6adf2521105adaf711e4e5cfbcf469325nat, y);
    let x = y;
    let y = 0x3a08668ee559666affcdd0a2638cbcd04c4fb98b5a50d4c6474f88567e55481fnat;
    let n = lemma_square(b, m, n, x, 0x28fdb0cd61abf632cd0a0f3470da86046e9798e0d37534429216b2c7a2ef1cf1nat, y);
    let x = y;
    let y = 0x399d3a5c372b7856b755564a97aa628cf183ff5fd9003f208b507dc4747a7befnat;
    let n = lemma_square(b, m, n, x, 0x1d0cff641a1c7bb5a05cd8fb489a9092d4c31b56d7556105ee83ee49086cf7d2nat, y);
    let x = y;
    let y = 0x56e9e6151fdeecfd59a81ba680d75f70afb3c642e243a34c46d10b77e6277e06nat;
    let n = lemma_square(b, m, n, x, 0x1ca215c73c5e7e5b2256723db16f696f501380de060df7b9f3c766860da40b1bnat, y);
    let x = y;
    let y = 0x400afc229210a8de10953200168363af4bd273addf893fdbc7320523981cd67nat;
    let n = lemma_square(b, m, n, x, 0x41292b9a8ee07c278309e499d424455ee16ac36beda6a22eb02ba489325c1abdnat, y);
    let x = y;
    let y = 0x4c850f86039ffaaaf56594cffa89dbc57308d003fcef075ca00641d1add9f76bnat;
    let n = lemma_square(b, m, n, x, 0x23612b5014f471f3f1542b6c56a1d63f3d8926209e84cf60b24b78d6c22806nat, y);
    let x = y;
    let y = 0x5bbfa105cea3ee48964e4f156eb54cc1d11047d649f4e01a1b06aa1bfefd158dnat;
    let n = lemma_multiply(b, m, n, x, 0x1ba5c5c20041cb38aff3b30e642f927d5946ae2b13eb910a6effcd0125cd40ednat, y);
    let x = y;
    let y = 0x67493dc764be279b3d98fb179953ec776ae362776c8640e2c812dcf6b29df27bnat;
    let n = lemma_square(b, m, n, x, 0x489cb0c0407a78fdfe2ac6b107eb4ca7874d3e7b3b31fdfc946aa0ecb3e47d2enat, y);
    let x = y;
    let y = 0x7b6ff7c9d052e1df199f7d830224b5cfc8a51aea093ad880e508df24f681ce8nat;
    let n = lemma_multiply(b, m, n, x, 0x25518d10700f21f165d35377d3d424966b4027e574714fbbbb4561b313d9d272nat, y);
    let x = y;
    let y = 0x6d402a64a47cdae78146ffda6c4c03e81291ed2593203812e64984420dddb27anat;
    let n = lemma_square(b, m, n, x, 0x836ecbe9b98aeb39686ed7836376be72e06fc616c8999415ebfe52a1e5dfc6nat, y);
    let x = y;
    let y = 0x5971cfd1e3a306bdea78429864654b858111134f3b96ef459c8a55fe8382562bnat;
    let n = lemma_multiply(b, m, n, x, 0x27793f73c9046f4792dafb0445b4fc58f044731dc25c0b7af5f8e6a2bdafe541nat, y);
    let x = y;
    let y = 0x36c201b72ba5ac5d5ce3b0cda82bd3095eb87b779dbafd6766ae83af71c6d763nat;
    let n = lemma_square(b, m, n, x, 0x4502d21927a0efb15a2c072493ff1ba342aea41dfcce4f89dffdc20630e613d6nat, y);
    let x = y;
}

/// The power `107861208709` of that residue.
proof fn lemma_chain_to_2_11_19_10177_906349()
    ensures
        has_residue(0x29e2e8419099c605303232d171dff57887c58134466f3bc76bdae76aaa9433eenat, 0x191d076e85nat, order(), 0x6ea700d6020da9614fb741d54916a3cf8bf331f474c09c6b96aa067345f98aaenat),
{
    let m = 0x73eda753299d7d483339d80809a1d80553bda402fffe5bfeffffffff00000001nat;
    let b = 0x29e2e8419099c605303232d171dff57887c58134466f3bc76bdae76aaa9433eenat;
    lemma_chain_to_2_11_19_10177_906349_part_1();
    let n = 0x323a0enat;
    let x = 0x36c201b72ba5ac5d5ce3b0cda82bd3095eb87b779dbafd6766ae83af71c6d763nat;
    let y = 0x6c98dd6aabf844f403f69458844f875cb53b05598971a2f63d2228236f4df962nat;
    let n = lemma_square(b, m, n, x, 0x19dd4ba07f441c16c108a91fb6d8521383319ed0048632ed8b5a3eb4d90d76e7nat, y);
    let x = y;
    let y = 0x322569811272544fe207e9b0ee558d7689539af1fa6273497d566e6832ab694dnat;
    let n = lemma_multiply(b, m, n, x, 0x273ccccec4cd87f30065cd9c3f95e1910b206beab57fd5bab9bdb8c81128f5cfnat, y);
    let x = y;
    let y = 0x107032e67389bbea362f5a0702e0d8ae0f5c9c1da17b3a0553b146f52c7455a7nat;
    let n = lemma_square(b, m, n, x, 0x15b0f893f4c7b5dac9fbc9c88aec135b223ea3220e9c225fe18fc704bfb9eb82nat, y);
    let x = y;
    let y = 0xc5558ca9dc938fdcf7322adec62d374897f7152f1ff13f4e0bf0efebb9ce28fnat;
    let n = lemma_multiply(b, m, n, x, 0x5f0798f58d8f9a8636f10e6898163d2e1a0fedf15a9c2116348e0c7302703b3nat, y);
    let x = y;
    let y = 0x36bbfcef581ade4861de8198668fc63caa256e7ef53882037c2a4bd73c38a48dnat;
    let n = lemma_square(b, m, n, x, 0x14fe764dbb5f875e3104a88e9e344961547137e341f90dd675fa66294902754nat, y);
    let x = y;
    let y = 0x5755498fd0d5ac7980cca1f46afed22711af56e1a053a040433a8197b6086e05nat;
    let n = lemma_square(b, m, n, x, 0x19d79c636116e691e2219bca9ae2e74874ed07e605631d7c822fa28cc96c87a4nat, y);
    let x = y;
    let y = 0x4bc88b499c28381a2505e58b2859186c351db02dece42c1184aba1f958c93fbcnat;
    let n = lemma_multiply(b, m, n, x, 0x1f8df7a80f0b2efc343e1f51c1a0c219baaaf46c0df20a3d8e0301407ddc07eanat, y);
    let x = y;
    let y = 0x6679e0952d61b39820b10d281747566aba1e2692a3e6353269580983b151fc41nat;
    let n = lemma_square(b, m, n, x, 0x318a4e90b9251a2e316ddd03a4e69c64546ff1881857c8be48077a09b3c415cfnat, y);
    let x = y;
    let y = 0x2672621d3d06baa48d4fc2157ac0719981e5d5a68123e6efd6e5bde50c43cd30nat;
    let n = lemma_multiply(b, m, n, x, 0x2506a0b81ed6a92843850f028b5d4fa6ec8b7b7a2574839d1a700fee22c9aa3enat, y);
    let x = y;
    let y = 0x61254305e147ef9270377ea7bec6afae82b1d94df052c76947b82f335da5e6c6nat;
    let n = lemma_square(b, m, n, x, 0xcc0281562ed4b4316b9561143065f0e32d6d85abdc947ed4cf438182df0023anat, y);
    let x = y;
    let y = 0x65707e05a29523fbbbc3f3b8344e1a819fc9d72928b8ed6071b62c0e68b083c1nat;
    let n = lemma_multiply(b, m, n, x, 0x2319933f1ed7b65731bc99db6e6cab3adaf11268e535d02dae56f2d29afd7a53nat, y);
    let x = y;
    let y = 0xac399f227ec923ea1776d4e4e3cc936908d208efc7c2a3f9052ff2f2f732cf0nat;
    let n = lemma_square(b, m, n, x, 0x58c2e86ed8cb3aa933fb1f07f7fba73ed01cfdd851970469813d91400dbbea91nat, y);
    let x = y;
    let y = 0x1109771e455023139cd8b61bdc5ade2f195dbd580028d14ef6eafe60997767a8nat;
    let n = lemma_square(b, m, n, x, 0xffdc48a81e467fff99aeb13ee3c88252cad8cbf85e8122a97d1968ee0bf958nat, y);
    let x = y;
    let y = 0x51e6715dad616a68fb780e6428c2f72e12a8ade6e074ecbaca053dcbc3bf563fnat;
    let n = lemma_multiply(b, m, n, x, 0x627da1894d04edcca7380f854b33f246b8da3bc5a80fe9fc1f585f430097ff1nat, y);
    let x = y;
    let y = 0x64ad8157c45b6f8e5fbfe3b58876f13e5a653f2b6cde768c2f8e6745558cdc62nat;
    let n = lemma_square(b, m, n, x, 0x39dc3683eb69b53fa1f8057ef358409dbed922a5c0e8b95644a4fa297383871fnat, y);
    let x = y;
    let y = 0x6b60292b67eea62eaae408ffa3c944a0dcec29fe1c2e66d09c221b66eb022881nat;
    let n = lemma_square(b, m, n, x, 0x576ef45ee0b39e4d4e3e89d0bde7d729f02207a0ca1aa67c6258d24af1e66d03nat, y);
    let x = y;
    let y = 0x50ee65094b82556faedbb42d07588880f9e84e29a3189a7a2d5021b0fd1fd44cnat;
    let n = lemma_square(b, m, n, x, 0x6374331a325e27e36e99ab45ed13a69fc3143d0cbee2aeeee0410e31814cbcb5nat, y);
    let x = y;
    let y = 0x537e5f4deb743c692658b69d7307514b017a43f3d74fb8294b403fe52f364efdnat;
    let n = lemma_square(b, m, n, x, 0x387fcecc068ded7dbb1d5e48febc71e232d2277ba53039c17a46d5c1233fa793nat, y);
    let x = y;
    let y = 0x4ba50dfafd1bad7c236327c7a9002077d62ad1407fdbcf2f0bacbb7717d834fcnat;
    let n = lemma_square(b, m, n, x, 0x3c2233ad2c70efb971188e03001adc153d18091fe500838024d508be3942f10dnat, y);
    let x = y;
    let y = 0x70defa6d44d7906cdfc89924ee2a605666fd32a8512946407facff51007e1490nat;
    let n = lemma_multiply(b, m, n, x, 0x1b54d618a280c2af73b764231d2a3a5bd5857ab80eb98840dba0156536c161b8nat, y);
    let x = y;
    let y = 0x6e7b536625e910a0d8fdbe219a01c4e499f758f0bb9e00c807822d34db2ea801nat;
    let n = lemma_square(b, m, n, x, 0x6de4f1a976357157512915221e1efd7df7cdfa8e8133e3a85af61d02643828ffnat, y);
    let x = y;
    let y = 0x35211bbd31a507092a0705d58efcef16ac58b1c4d1900b293f82e8c7e73abb4anat;
    let n = lemma_square(b, m, n, x, 0x694a81bfac9f26f37899ed6b131329d4a317dab1e82931f23a9122499d6294b7nat, y);
    let x = y;
    let y = 0x6ea700d6020da9614fb741d54916a3cf8bf331f474c09c6b96aa067345f98aaenat;
    let n = lemma_multiply(b, m, n, x, 0x1332401f364bbb6eaf61c7b29c990aa4fba1b862e37992bed596898bd0b8521enat, y);
    let x = y;
}

/// Seven to the power `(r - 1) / (2 * 11 * 19 * 10177 * 906349)`.
proof fn lemma_seven_to_quotient_by_2_11_19_10177_906349()
    ensures
        has_residue(7, 0x210f43809859d1f6a274a26fb149dfb069d1b81308e93580000000nat, order(), 0x6ea700d6020da9614fb741d54916a3cf8bf331f474c09c6b96aa067345f98aaenat),
{
    lemma_seven_to_quotient_by_2_11_19_10177_125527_859267_906349();
    lemma_chain_to_2_11_19_10177_906349();
    lemma_power_chain(
        7,
        order(),
        0x1510081a7faa2682d56c6eac0b30b598e741780000000nat,
        0x29e2e8419099c605303232d171dff57887c58134466f3bc76bdae76aaa9433eenat,
        0x191d076e85nat,
        0x6ea700d6020da9614fb741d54916a3cf8bf331f474c09c6b96aa067345f98aaenat,
        0x210f43809859d1f6a274a26fb149dfb069d1b81308e93580000000nat,
    );
}

/// The power `4253986` of that residue.
proof fn lemma_chain_to_906349()
    ensures
        has_residue(0x6ea700d6020da9614fb741d54916a3cf8bf331f474c09c6b96aa067345f98aaenat, 0x40e922nat, order(), 0x67ee5d1f3b069511cd89744d5897256537cb1d8475a21d7924a57ba2b69a4d76nat),
{
    let m = 0x73eda753299d7d483339d80809a1d80553bda402fffe5bfeffffffff00000001nat;
    let b = 0x6ea700d6020da9614fb741d54916a3cf8bf331f474c09c6b96aa067345f98aaenat;
    lemma_zeroth_power(b, m);
    let n = 0nat;
    let x = 1nat;
    let y = 1nat;
    let n = lemma_square(b, m, n, x, 0nat, y);
    let x = y;
    let y = 0x6ea700d6020da9614fb741d54916a3cf8bf331f474c09c6b96aa067345f98aaenat;
    let n = lemma_multiply(b, m, n, x, 0nat, y);
    let x = y;
    let y = 0x6e4890af45f4fca61f6c6484fa71344b67b0f1fd504a5197d6a1b12e65f81d01nat;
    let n = lemma_square(b, m, n, x, 0x699dd26ab7d55936f6e79187562b35188be96f6276f9faa85bed786977a3f143nat, y);
    let x = y;
    let y = 0x645284064cf52a0e6fbbf847ab6f23564ac40afa97af9fe8b4da9d5ac7e19a4nat;
    let n = lemma_square(b, m, n, x, 0x68e9d7979f648eb9eef830ea101bf523d4f031221a04d3c6d492fc3e52bb205dnat, y);
    let x = y;
    let y = 0x65a64fc8f8c226d529656335c3264fe151d765265ca3a0ee418c150b29b435d3nat;
    let n = lemma_square(b, m, n, x, 0x56d131b47e69ce79777aab5773369fdde261e9b9202534b55409ab764d3b3dnat, y);
    let x = y;
    let y = 0x695e91fb3da222c49f8f413d2b4b856ff4db73f306abc8ba190cf66b6b9bc19nat;
    let n = lemma_square(b, m, n, x, 0x5921310299f31792a8d343d5060a2535532151ce67a494012ba2f6a49b4f4fd0nat, y);
    let x = y;
    let y = 0x5dddbc6882bab1da18a19ab683c893d83dfb8df114ac35407b670911855ed1f9nat;
    let n = lemma_square(b, m, n, x, 0x5fc5b005c72a5ef497c20323b8bec9e74480771a15d2267c4fcf876cf7e878nat, y);
    let x = y;
    let y = 0x5bd75a7f30487e3b853f145a3c6268b7a6208fab8941066be20d470137f638fcnat;
    let n = lemma_square(b, m, n, x, 0x4c00aaa400d3aa97f518073d46e726f0003cde53110d0e8062461291611e4b35nat, y);
    let x = y;
    let y = 0x1d49863cb5602127df2d3f0698cbb224aae14855ef232af266b0e26d462f8070nat;
    let n = lemma_square(b, m, n, x, 0x48c243005db5ed147578d6ce3af0b740edf582f9cd816078f57ac87892cfb7a0nat, y);
    let x = y;
    let y = 0x10e934f4291f956f68218a990113ba742793d953a9c4124f37ebee828b0f1c0cnat;
    let n = lemma_multiply(b, m, n, x, 0x1bf44e9095fb910cedd9774f64fa5356a611b6b52bc9331d0eb0d3cee1669014nat, y);
    let x = y;
    let y = 0x41c1b08682e67aa34a7b0212a5acac766f9851613ae1a64530e95f38183c48b4nat;
    let n = lemma_square(b, m, n, x, 0x277851f0ab65b5e9e605b35b33baa78334be825312e981850652e2d3c3e57dcnat, y);
    let x = y;
    let y = 0x2e56e012022a6829bb16c8d53ba2acf592653dea2c635dafffc8d0765688ec7enat;
    let n = lemma_multiply(b, m, n, x, 0x3ec393a9bbc9be8da1ff7595125d88871402fadeb8b48b84b1485dabdcb585danat, y);
    let x = y;
    let y = 0x64307e5fc74635e075d0290beb4f28b654b07dfa75cb7c6d699f657bcd99e011nat;
    let n = lemma_square(b, m, n, x, 0x1285e0be0b35c891387e8a32cca2776589fcb643ffa392f07dc654bffabeadf3nat, y);
    let x = y;
    let y = 0x51c537491c4398ed6273865c5dc7a235907e66dfb4ec7bfc5ff9642e21d49f0anat;
    let n = lemma_multiply(b, m, n, x, 0x5fa1368fd1065e8997ec804c7ae397574e28eeb8fc48073f38a5ab031513d684nat, y);
    let x = y;
    let y = 0x4320b8a352308d5afe2a3ec1300fa6e7ebb7203898aac4bdb4dbe617db247344nat;
    let n = lemma_square(b, m, n, x, 0x39ad4d6ab79dacaff5cf2a1b5b84a496d46767f7c623a8afe5f28c388438f920nat, y);
    let x = y;
    let y = 0x7184bc8dcccff8c54af70d08f338d706b51b508a46988cb8fcc37b871abc74eenat;
    let n = lemma_square(b, m, n, x, 0x26debdb13fc4c46b500da388393f63ea4bc81179166ad77e51208239dc49b522nat, y);
    let x = y;
    let y = 0x52a56ca8197edf68f4400700733acbaec04437993d5a369f622550bf30726647nat;
    let n = lemma_multiply(b, m, n, x, 0x6c5a299a4410969f5eedab84e055d63c91575f328b3ca375578ac0b7742b5f7dnat, y);
    let x = y;
    let y = 0x4be2917a3dbb8b49214cd453163c649f6e4d3a957f09cabe8a52a44be8e2afacnat;
    let n = lemma_square(b, m, n, x, 0x3aeb49d59833dc7fde665ce9b9076c3afabe1060334a710e2d356b24f735f805nat, y);
    let x = y;
    let y = 0x6b048cd30a6643dfbb6bfec637d56c5b4f94fd8cce88e807b26305a046b4e945nat;
    let n = lemma_square(b, m, n, x, 0x31ac5aac1032bb6ced823047a28f68c190ac5abcff909bab1f17a2951d87b24bnat, y);
    let x = y;
    let y = 0x515dcbff0fafbcf6e6f914dccb53bf37ce86f3456c8a25a87c90ad00bf8713e2nat;
    let n = lemma_square(b, m, n, x, 0x62cac73cc3498b1b533bef95ce84d88afbe615802e220fa143a4a360da0f98b7nat, y);
    let x = y;
    let y = 0x6c90af536731f4ba527e332915bf1babff951bf233cd2e41e231ee07e4669af0nat;
    let n = lemma_multiply(b, m, n, x, 0x4da9d18b8d9c7cbc251a49e4493d520b7c1cf7a7761923ba6debb9a95af2bcacnat, y);
    let x = y;
    let y = 0x6b9b040a1c7aa8add0a52d75b48fc1c65002fb76b94730d2176ae06a981fba3fnat;
    let n = lemma_square(b, m, n, x, 0x65ab707f0ad37ca56e784c556b0f603a5f2ed0cf84ce3a24c6d4ac91bce5e6c1nat, y);
    let x = y;
    let y = 0x1ef1dbc9bca4b8046d877bb7e72d34c3cf23ab849c35d9d0df682b7d844098a9nat;
    let n = lemma_square(b, m, n, x, 0x63e15794bd2f45b925f61edfe8bc35e9d19c76f50e02215a77df049fee8102d8nat, y);
    let x = y;
    let y = 0x36e1d178588326e282faac0d04533c9b13a740d1518a1f3976ca30f593459d93nat;
    let n = lemma_square(b, m, n, x, 0x842951598a2b468067af7613f0e4413b1751086faffef9c8379d9cd644381fenat, y);
    let x = y;
    let y = 0x2c4f717c3dc713032e3fa375d1858522660b4defb7b9de3fed0db2bba9918446nat;
    let n = lemma_multiply(b, m, n, x, 0x346266c171ffaff678ef56b6cbe3d1640f860de013140f8a0793066dd9abd3a4nat, y);
    let x = y;
    let y = 0x2fe16fda93a61c862efeb7976ddbacef1716aa85c0e309e259e671b28de02a31nat;
    let n = lemma_square(b, m, n, x, 0x10efb5d0b1f47e4436a2ee360bf96d5e3617a2fe57a8177531d3b0dff9c418f3nat, y);
    let x = y;
    let y = 0x723ea52a1fca517f960b5b214a608eb458534f5b5f3108f9d8c621bcc57e9114nat;
    let n = lemma_square(b, m, n, x, 0x13c68e2292e38cbeaf939144602176c0786f9a2561ecbd3a9a160b7811358c4dnat, y);
    let x = y;
    let y = 0x290478446adbfb4cbba5f024f602ad1c4d2948328432ea7f418520e153d8532bnat;
    let n = lemma_square(b, m, n, x, 0x7095e571e3a533fb021bf71cfd34aa10615e960343656044cb227cbf960f5665nat, y);
    let x = y;
    let y = 0x261c1ea455e91c87a5bc5a0caaba6012a236bd169ac190d1b2149b72275fceafnat;
    let n = lemma_square(b, m, n, x, 0xe833faefa41dec61f8792dd0db1341f145068711ab694174f516d682e351a8anat, y);
    let x = y;
    let y = 0x3f9686d1551dd05c69a9fb8146ab07a8f48a87e3f25d8a3c15e3a8f2b97905denat;
    let n = lemma_multiply(b, m, n, x, 0x24601cac4d1b3766d3248c29c54e613856aef9a45d9f82d5a1ed6473e246cb14nat, y);
    let x = y;
    let y = 0x67ee5d1f3b069511cd89744d5897256537cb1d8475a21d7924a57ba2b69a4d76nat;
    let n = lemma_square(b, m, n, x, 0x22e0f471597e39003276135fd7dcc278f9e673752cc691a267553ed4b1641f0enat, y);
    let x = y;
}

/// Seven to the power `(r - 1) / 906349`.
pub proof fn lemma_seven_to_quotient_by_906349()
    ensures
        has_residue(7, 0x861ec289d183279aff9c657418da9b481ba2bf325fff0d0aa9b00000000nat, order(), 0x67ee5d1f3b069511cd89744d5897256537cb1d8475a21d7924a57ba2b69a4d76nat),
{
    lemma_seven_to_quotient_by_2_11_19_10177_906349();
    lemma_chain_to_906349();
    lemma_power_chain(
        7,
        order(),
        0x210f43809859d1f6a274a26fb149dfb069d1b81308e93580000000nat,
        0x6ea700d6020da9614fb741d54916a3cf8bf331f474c09c6b96aa067345f98aaenat,
        0x40e922nat,
        0x67ee5d1f3b069511cd89744d5897256537cb1d8475a21d7924a57ba2b69a4d76nat,
        0x861ec289d183279aff9c657418da9b481ba2bf325fff0d0aa9b00000000nat,
    );
}

/// The power `906349` of that residue.
proof fn lemma_chain_to_2_11_19_10177()
    ensures
        has_residue(0x6ea700d6020da9614fb741d54916a3cf8bf331f474c09c6b96aa067345f98aaenat, 0xdd46dnat, order(), 0x56c30084924e923105e44916ce393a8b0ae1bead61ec12aacb2687b0b47df91bnat),
{
    let m = 0x73eda753299d7d483339d80809a1d80553bda402fffe5bfeffffffff00000001nat;
    let b = 0x6ea700d6020da9614fb741d54916a3cf8bf331f474c09c6b96aa067345f98aaenat;
    lemma_zeroth_power(b, m);
    let n = 0nat;
    let x = 1nat;
    let y = 1nat;
    let n = lemma_square(b, m, n, x, 0nat, y);
    let x = y;
    let y = 0x6ea700d6020da9614fb741d54916a3cf8bf331f474c09c6b96aa067345f98aaenat;
    let n = lemma_multiply(b, m, n, x, 0nat, y);
    let x = y;
    let y = 0x6e4890af45f4fca61f6c6484fa71344b67b0f1fd504a5197d6a1b12e65f81d01nat;
    let n = lemma_square(b, m, n, x, 0x699dd26ab7d55936f6e79187562b35188be96f6276f9faa85bed786977a3f143nat, y);
    let x = y;
    let y = 0x316890ce5e8c6ba9aad32138912c2679eb1b6a09e8641f76fba8e5c9e9716335nat;
    let n = lemma_multiply(b, m, n, x, 0x6943ae89ecb8be63c8b7a5df9abcf28721dcc682743eee20fef883c89fcddd79nat, y);
    let x = y;
    let y = 0xb7baa165382fc43a12fb61ec9fc53965523c817e1667afe25857910b14e7d2dnat;
    let n = lemma_square(b, m, n, x, 0x150ecc1775525184400c3ae4aed0a9ae36939f3eb543eaafc66246c483ed8bccnat, y);
    let x = y;
    let y = 0x6c727bc74f278e8d97b3e6b2d57695405357807f7b9adbdc36f9ab368eb63438nat;
    let n = lemma_square(b, m, n, x, 0x1232ed5fa3425a0adef89ffd2d107280efd38811c1036d3e2a4eb432feac5b1nat, y);
    let x = y;
    let y = 0x61b0b277e5b8efcb43092e7c188c050f76df03b8dddd314414ee6d861849fbnat;
    let n = lemma_multiply(b, m, n, x, 0x6782fe6e034b495647eb52eb0e9857c5dd66bc61928a7e295f10ee1e945d6415nat, y);
    let x = y;
    let y = 0xf3fe10585811d6a8fb93d23b54d06906255ef7d3160b0ff4e0f5c20ec58bf1enat;
    let n = lemma_square(b, m, n, x, 0x52524587b2ce0547ddc9fa27c923732af274b7cefbb405bc2458cc185cfbnat, y);
    let x = y;
    let y = 0xf1e58dff62398ec5dba93e1fb10210af730427da7d1903c475cea38cf9c3304nat;
    let n = lemma_multiply(b, m, n, x, 0xe8e35f5e37348f192c9112893f8372755de7913f82cc18beea5af3ea5e9df60nat, y);
    let x = y;
    let y = 0x3f7648cbbae2b712c03c3b76cfb8c2fe03570112fb9f24037051d8cf4e6b38anat;
    let n = lemma_square(b, m, n, x, 0x1f8be33a7ad8709747cc8bbc0b6ae7e534d7f031eba5b636ff66287ba23e486nat, y);
    let x = y;
    let y = 0x2e7ab88c141adc63ffe42d0cd77a13e53b9a4bd3b277140cee931c45be74ea7cnat;
    let n = lemma_multiply(b, m, n, x, 0x3c92e7a2c90758c4269bf61fe1fc35e6cb081917b8419495cc8bca3e65b8150nat, y);
    let x = y;
    let y = 0xad82ad06aa75d72a48565f5b239d1f27ef2de87409ec88e5131605635642a81nat;
    let n = lemma_square(b, m, n, x, 0x12a293f1ef679eb2de6d4883da63d59ae0c5619fb5ea0d1486fca98631c2c18fnat, y);
    let x = y;
    let y = 0x627e7b964ac6d1663a7c49e8c719623ebd6b5b0fd71fa66bf9c7e36346a1d472nat;
    let n = lemma_square(b, m, n, x, 0x103b1a11c80b05cf5500106a8973f561e3932c9b2edd232571ecca25f34c08fnat, y);
    let x = y;
    let y = 0x54bd7521be645587d3c4fba6e4c8149f687e6225a68409b707cc32011de0d5nat;
    let n = lemma_multiply(b, m, n, x, 0x5e02f4521ad9c449742277ef9ee0d74e65596649b5d8b817bcaaaae29a47f8a7nat, y);
    let x = y;
    let y = 0x2ad319cdf4d29a59b43a285a7ff8339862eeaabc9a3981175df4c3cf96e4fb1nat;
    let n = lemma_square(b, m, n, x, 0x3df14119ad449c3e16414daa3fe436bea6bebd1f02ccd0105fbd66492188nat, y);
    let x = y;
    let y = 0x6bf33e9c05027fbc0f63f482e1f23b0b4113fb36d2997d1d0f793f9b370cee3dnat;
    let n = lemma_square(b, m, n, x, 0xfd1d593c3425b3658cea20a7e23890f83f0088d548c3e9ed0c40fafddca24nat, y);
    let x = y;
    let y = 0x4775d9e4e0e8ea8bb31b7010f104f0ea72621fa9422faacf2b83c72c0bb1c530nat;
    let n = lemma_multiply(b, m, n, x, 0x67098bb018cb40d17c59423760823d033e0ecb08761663cae5bea57781da0a46nat, y);
    let x = y;
    let y = 0x635a6dc3dc2ef9f2bd9518fb5ead17b1b44df9dec84c8ace8c5e82bad99eaae4nat;
    let n = lemma_square(b, m, n, x, 0x2c0caa8443d5ee69bee114951266748769f8c87ff4d05f23539ae6458aa43e1cnat, y);
    let x = y;
    let y = 0x3efccf36629cc2070e9261fa41b7a6f928093692810c022fc7a40def6d32fa6anat;
    let n = lemma_square(b, m, n, x, 0x5525e34dfece23b493f811686f08be9c4acdb6fb99084c4faf3ad6147e50a0a6nat, y);
    let x = y;
    let y = 0x8233dbc944d9d1f2622e6e5e2aad1197e9b8a5e221a3712cc5c550f1c0d6189nat;
    let n = lemma_square(b, m, n, x, 0x22391eabcb84524e94670bd58053ff97825cdd15ca22247706f4469cee4dd25bnat, y);
    let x = y;
    let y = 0x1d03d0205bd5a560a50b3511bedd6f1703aa387a77de4d47d1061a2737a63f16nat;
    let n = lemma_square(b, m, n, x, 0x923c0152086b9279be49ef02edfda721059944c69a8ef79e48182acd6cdc3bnat, y);
    let x = y;
    let y = 0x53e7b4d483ec2a02f50da0cbcbc277a213bd5ffc721ae734ded340d917c58bbcnat;
    let n = lemma_multiply(b, m, n, x, 0x1bb1c4a48cc4a7622a2e20d273016de10fb88bfd889dcf93d0f6a59ca3a13138nat, y);
    let x = y;
    let y = 0x2781db32adbd777bad464a64bdc3df3b3a3c670e79ba04cf53e7f64f7311def5nat;
    let n = lemma_square(b, m, n, x, 0x3cba4d7be17c6106da2f095b4c882ca297b516a3eed311b5d985d90fb08bd31bnat, y);
    let x = y;
    let y = 0x3961875af02d08ca1b4b3cede4605c87815275d2bb29490e76429954cf3a2a72nat;
    let n = lemma_multiply(b, m, n, x, 0x25b59155d1fa1062103059c21761032f76f03499d8c6bec940d3ba4fee687214nat, y);
    let x = y;
    let y = 0x2c7af06c658b9b68f656bcfd79021ce627f3052ba66c0b8fb563a655afebb5dcnat;
    let n = lemma_square(b, m, n, x, 0x1c66ddcc181c738d9977c044b96486b067c220dfea6891f960d17b3deec5e4e8nat, y);
    let x = y;
    let y = 0x5bd3021bae134d5e4b9b9b51a0a61ef89ad42c00132962e25ccc3f24174964f5nat;
    let n = lemma_square(b, m, n, x, 0x1111062a298e76b8623acbe88a6b423d4359b66890b46a05726f60b913cf701bnat, y);
    let x = y;
    let y = 0x543bf2a9f72ca0c0a77eeb1d1502f7dde3641d0e968a636dd2dc9dda7f2f3905nat;
    let n = lemma_multiply(b, m, n, x, 0x57a5302cf75d1dd20b30b8c7fae8ba6dcaa3097528302f1465d5bf64206c7781nat, y);
    let x = y;
    let y = 0xcd37002feab45d13e72fde0cf0041170234e670acd6a7dac6949782ce526f5bnat;
    let n = lemma_square(b, m, n, x, 0x3d347bfa336ce6efb260b658e22c42c1bb8b0af80905696059c755082436cabenat, y);
    let x = y;
    let y = 0x65ae5888e19df032db2c89581b5185e1cacd4ecac1aa794851373b3df15bd816nat;
    let n = lemma_multiply(b, m, n, x, 0xc3e018cbaa508ab9da4319853b45bdca7127165a765dbf0d49336b99135e5c4nat, y);
    let x = y;
    let y = 0x3b1e0b056a66c5cc603b95e1d6028823714f67e7bae3969a6db3c8c7beeb2822nat;
    let n = lemma_square(b, m, n, x, 0x592f486a035a3c8806f7a1d19652f49684c8d75b83fdd13c99cb5d43031df9c2nat, y);
    let x = y;
    let y = 0x212ca16031576e57df2d6c3846941c1df058bd3d4971130f929b58859ad194f9nat;
    let n = lemma_square(b, m, n, x, 0x1e2590f85df31e5282ca72a619cd0f7a6e2142ff4f1b400ae185237691e50f8bnat, y);
    let x = y;
    let y = 0x56c30084924e923105e44916ce393a8b0ae1bead61ec12aacb2687b0b47df91bnat;
    let n = lemma_multiply(b, m, n, x, 0x1faa1ffc91e088d25e9030c5fdba84dd47bbe2faf0892ecc8147ff9283748223nat, y);
    let x = y;
}

/// Seven to the power `(r - 1) / (2 * 11 * 19 * 10177)`.
proof fn lemma_seven_to_quotient_by_2_11_19_10177()
    ensures
        has_residue(7, 0x1c93524edf87ae9a4e47801d9a92005a7b56513b29753a319c780000000nat, order(), 0x56c30084924e923105e44916ce393a8b0ae1bead61ec12aacb2687b0b47df91bnat),
{
    lemma_seven_to_quotient_by_2_11_19_10177_906349();
    lemma_chain_to_2_11_19_10177();
    lemma_power_chain(
        7,
        order(),
        0x210f43809859d1f6a274a26fb149dfb069d1b81308e93580000000nat,
        0x6ea700d6020da9614fb741d54916a3cf8bf331f474c09c6b96aa067345f98aaenat,
        0xdd46dnat,
        0x56c30084924e923105e44916ce393a8b0ae1bead61ec12aacb2687b0b47df91bnat,
        0x1c93524edf87ae9a4e47801d9a92005a7b56513b29753a319c780000000nat,
    );
}

/// The power `10177` of that residue.
proof fn lemma_chain_to_2_11_19()
    ensures
        has_residue(0x56c30084924e923105e44916ce393a8b0ae1bead61ec12aacb2687b0b47df91bnat, 0x27c1nat, order(), 0x471591b4aec46c35a87570ee2af17765d776e31561cd1631c87fd7977b4e6675nat),
{
    let m = 0x73eda753299d7d483339d80809a1d80553bda402fffe5bfeffffffff00000001nat;
    let b = 0x56c30084924e923105e44916ce393a8b0ae1bead61ec12aacb2687b0b47df91bnat;
    lemma_zeroth_power(b, m);
    let n = 0nat;
    let x = 1nat;
    let y = 1nat;
    let n = lemma_square(b, m, n, x, 0nat, y);
    let x = y;
    let y = 0x56c30084924e923105e44916ce393a8b0ae1bead61ec12aacb2687b0b47df91bnat;
    let n = lemma_multiply(b, m, n, x, 0nat, y);
    let x = y;
    let y = 0x1180a13b94032226fd6fbe030cde2189babf1cf0ce1d0b1f06218f46cbd5242bnat;
    let n = lemma_square(b, m, n, x, 0x40eee5e7b198ccde50d181e7e5ec90f3d506b7c85ac1e509ac0338d262ee64aenat, y);
    let x = y;
    let y = 0x9d92fa8ee5b9a4acb1d642ea91d205f7320231fe3bf6c3da611769a2bf9daf4nat;
    let n = lemma_square(b, m, n, x, 0x2a478549371048b92708fdad9b4b3871b3eefa452618e6324f858003ab04445nat, y);
    let x = y;
    let y = 0x5d6fe4ee739c5ab0f41562a6b5eb73624c50fdebb17022a77e32a217fd723a4enat;
    let n = lemma_square(b, m, n, x, 0xd62e40562d7c2f00d515845238d33006ece5a5903cd58cf0b1dd23a47a3e42nat, y);
    let x = y;
    let y = 0x223a4f2b06e0a6de220c567624b3907431cf8fd309bf8718e032ba9de53390a6nat;
    let n = lemma_multiply(b, m, n, x, 0x45edd8e1502b6495a2bbdb142e65a1895fe9a9329d78751ff038706740a47394nat, y);
    let x = y;
    let y = 0x27b2ff1926408771c9310c3f6d56752925544f41080e1d1b8ef262fea8177458nat;
    let n = lemma_square(b, m, n, x, 0xa1b1106019b9800d1740ec00e9a10c830293e8d1d85581e9653431547c7b74cnat, y);
    let x = y;
    let y = 0x1101b2781a88c9a900e27f66a9e9e78c53509e971ffe3403e2747e3160809d01nat;
    let n = lemma_multiply(b, m, n, x, 0x1db61221a2ddad45968a962156fe7c819adc792bbab8d5412c92da31d91a4047nat, y);
    let x = y;
    let y = 0x46afb412a98bd042853032ab74be674af84ef13d0c6eefc116878624673b5175nat;
    let n = lemma_square(b, m, n, x, 0x27eaf6acf3889e134941152b3b17078b0d51e629bde1c4160992f27ba0ee88cnat, y);
    let x = y;
    let y = 0x8886542e53efa59723e0244065855f68c6fc0f5322bc1648c4e134daa0e2766nat;
    let n = lemma_multiply(b, m, n, x, 0x34e6f9767f6d78dd319ddbfc48a9a076abb546888407e470d27c888ff58f3cf1nat, y);
    let x = y;
    let y = 0x6e7f93cde6baa830b2c0e1104af43cc52f51a153352af9199e5fc0d569f114dfnat;
    let n = lemma_square(b, m, n, x, 0xa0c7c5e26a4f92d95b3470eeba46cc846fd7521740bc482e630b67634727c5nat, y);
    let x = y;
    let y = 0x5bfb4e1f632b992f200b61fc518e89fa231835671f87c70ee4d1a0caaee69234nat;
    let n = lemma_multiply(b, m, n, x, 0x52b2a84d5e9a1e60723f8f64928c47d9c0e271dea7f60d23061a01c7f7b68851nat, y);
    let x = y;
    let y = 0x25e169408ba7556f262a0fff2c0ec86a0e062c27fd23c435cc02c634b800dabcnat;
    let n = lemma_square(b, m, n, x, 0x48fb44d1d8d038fcfe79c88f2e31e93ef996d3f8e84b57673ff1b21900ee7fd4nat, y);
    let x = y;
    let y = 0x30075d4ca30b5966f1756baaadfd621dc1554988e5f0aadb82ebfaf1841b6f16nat;
    let n = lemma_multiply(b, m, n, x, 0x1c599f765ccdbb0daa6941fb0826369e2cf16460b5ef5333c3a6a9cbb6887ebenat, y);
    let x = y;
    let y = 0x6d7d1646141b9f8d65021d7329b660087a68bd80d3fc0ed1727ff2653cab7c95nat;
    let n = lemma_square(b, m, n, x, 0x13e5eeea79995753e70134e38acff0d61211ffdcfbdb83067edb13d5122c994fnat, y);
    let x = y;
    let y = 0x35806f43661ee99bb2bd1fec080d671eb9f962477bf7e4646f7f3e914fdc6ffenat;
    let n = lemma_square(b, m, n, x, 0x676818c61ff52820896b4b1a854fe26b9309ddc6252130793963d70133d23ebbnat, y);
    let x = y;
    let y = 0x4f8595bfad88e703da41f961bafad4801a85ddf89d4bda8fbd8874e2c79d3393nat;
    let n = lemma_square(b, m, n, x, 0x18b0fee74590a99fcbce8e114840ce915eaa38728cebe78aa54c4839a9f10c71nat, y);
    let x = y;
    let y = 0x242d3e202303622c0774fb822155f67b1ecd40854ebaf3c7f49349eb46d3c217nat;
    let n = lemma_square(b, m, n, x, 0x368c6be9c5599d841b81668884b5aaba4ba91a7232cf1e66f96ce8a98fde2452nat, y);
    let x = y;
    let y = 0x14e2a842ac5a35eeaf481239a1c06d5096f7d7f4edc22bc77d0abdfe072b04c5nat;
    let n = lemma_square(b, m, n, x, 0xb4a12f38b37f0f1d4ba1e8bd2e81411fafdda0a16a3dbe934550cd611e5d94cnat, y);
    let x = y;
    let y = 0x624aa12ae518761f93d78d1f7127f207bc58bff80e5a4c51a9446633b552903enat;
    let n = lemma_square(b, m, n, x, 0x3c33dcae37b5a020664d19e7804a317ddbee86e80dfef8c81ad8390aaf22f5bnat, y);
    let x = y;
    let y = 0x471591b4aec46c35a87570ee2af17765d776e31561cd1631c87fd7977b4e6675nat;
    let n = lemma_multiply(b, m, n, x, 0x498febaba935e3af74bae908c3b5efdd4a518714398a910a9addccaaf8f91e15nat, y);
    let x = y;
}

/// Seven to the power `(r - 1) / (2 * 11 * 19)`.
proof fn lemma_seven_to_quotient_by_2_11_19()
    ensures
        has_residue(7, 0x46ffc9b118430e42441e86c18ddc6200d01227340eb1d3e6e3d3e780000000nat, order(), 0x471591b4aec46c35a87570ee2af17765d776e31561cd1631c87fd7977b4e6675nat),
{
    lemma_seven_to_quotient_by_2_11_19_10177();
    lemma_chain_to_2_11_19();
    lemma_power_chain(
        7,
        order(),
        0x1c93524edf87ae9a4e47801d9a92005a7b56513b29753a319c780000000nat,
        0x56c30084924e923105e44916ce393a8b0ae1bead61ec12aacb2687b0b47df91bnat,
        0x27c1nat,
        0x471591b4aec46c35a87570ee2af17765d776e31561cd1631c87fd7977b4e6675nat,
        0x46ffc9b118430e42441e86c18ddc6200d01227340eb1d3e6e3d3e780000000nat,
    );
}

/// The power `22` of that residue.
proof fn lemma_chain_to_19()
    ensures
        has_residue(0x471591b4aec46c35a87570ee2af17765d776e31561cd1631c87fd7977b4e6675nat, 0x16nat, order(), 0x4b11569521af839931a5fb948d45c34bf87b7fc14f41215b554781951820e40enat),
{
    let m = 0x73eda753299d7d483339d80809a1d80553bda402fffe5bfeffffffff00000001nat;
    let b = 0x471591b4aec46c35a87570ee2af17765d776e31561cd1631c87fd7977b4e6675nat;
    lemma_zeroth_power(b, m);
    let n = 0nat;
    let x = 1nat;
    let y = 1nat;
    let n = lemma_square(b, m, n, x, 0nat, y);
    let x = y;
    let y = 0x471591b4aec46c35a87570ee2af17765d776e31561cd1631c87fd7977b4e6675nat;
    let n = lemma_multiply(b, m, n, x, 0nat, y);
    let x = y;
    let y = 0x52617b77baa2100e10ef9a6348da7e68adcf1ca3d39fa331a3973a50112f195fnat;
    let n = lemma_square(b, m, n, x, 0x2b96474a0a5d4d3cba2ece28aebf243ad3a6965ed328449a2b96f046f51e581anat, y);
    let x = y;
    let y = 0x1cf9a0947d5200f23d98ce5d4a7f1ef8451ddfbe446e1957f4c6f556e02c2b06nat;
    let n = lemma_square(b, m, n, x, 0x3a8a922e33ca365f08d1c30a7ea534f4db4289cfc1964c411a9ac24d1139863bnat, y);
    let x = y;
    let y = 0x361b13ee44032eb5f91eca488aaf7ec092bfc4f37bf88d4be89c839afe5aea19nat;
    let n = lemma_multiply(b, m, n, x, 0x11c44c0d46b1a6634bdce85a041df26a1777dd2adcef8a7d21364ebb0ccd23a5nat, y);
    let x = y;
    let y = 0x54fc13e779d3c7aaf5485bd011670a6f2a8d14c77a9e918402d725777a2fd74cnat;
    let n = lemma_square(b, m, n, x, 0x19408a0eb849a28dc880db3071914160333b98ec0eddfa1e3ac67e949175df25nat, y);
    let x = y;
    let y = 0x35c863db3f476e3502ff5b6b6497ac1cc8caadd17c8c5c9fdb30cbf00bc3ecf8nat;
    let n = lemma_multiply(b, m, n, x, 0x341c438b8f623020dea5b712f7fa8371c228c61fdb5a2fb263f3b7f6f909c0c4nat, y);
    let x = y;
    let y = 0x4b11569521af839931a5fb948d45c34bf87b7fc14f41215b554781951820e40enat;
    let n = lemma_square(b, m, n, x, 0x18f396049add3c1a57d860ca2cca5adc909d693d6cd2db7bb679d7ed15094c32nat, y);
    let x = y;
}

/// Seven to the power `(r - 1) / 19`.
pub proof fn lemma_seven_to_quotient_by_19()
    ensures
        has_residue(7, 0x619fb553815c339b1da9f94a230f06c11e18f5e79434835d79435e500000000nat, order(), 0x4b11569521af839931a5fb948d45c34bf87b7fc14f41215b554781951820e40enat),
{
    lemma_seven_to_quotient_by_2_11_19();
    lemma_chain_to_19();
    lemma_power_chain(
        7,
        order(),
        0x46ffc9b118430e42441e86c18ddc6200d01227340eb1d3e6e3d3e780000000nat,
        0x471591b4aec46c35a87570ee2af17765d776e31561cd1631c87fd7977b4e6675nat,
        0x16nat,
        0x4b11569521af839931a5fb948d45c34bf87b7fc14f41215b554781951820e40enat,
        0x619fb553815c339b1da9f94a230f06c11e18f5e79434835d79435e500000000nat,
    );
}

/// The power `19` of that residue.
proof fn lemma_chain_to_2_11()
    ensures
        has_residue(0x471591b4aec46c35a87570ee2af17765d776e31561cd1631c87fd7977b4e6675nat, 0x13nat, order(), 0xd393e17f689c8a7a877a467aadbc945f107c964171189c510a8c8c7b6a87be0nat),
{
    let m = 0x73eda753299d7d483339d80809a1d80553bda402fffe5bfeffffffff00000001nat;
    let b = 0x471591b4aec46c35a87570ee2af17765d776e31561cd1631c87fd7977b4e6675nat;
    lemma_zeroth_power(b, m);
    let n = 0nat;
    let x = 1nat;
    let y = 1nat;
    let n = lemma_square(b, m, n, x, 0nat, y);
    let x = y;
    let y = 0x471591b4aec46c35a87570ee2af17765d776e31561cd1631c87fd7977b4e6675nat;
    let n = lemma_multiply(b, m, n, x, 0nat, y);
    let x = y;
    let y = 0x52617b77baa2100e10ef9a6348da7e68adcf1ca3d39fa331a3973a50112f195fnat;
    let n = lemma_square(b, m, n, x, 0x2b96474a0a5d4d3cba2ece28aebf243ad3a6965ed328449a2b96f046f51e581anat, y);
    let x = y;
    let y = 0x1cf9a0947d5200f23d98ce5d4a7f1ef8451ddfbe446e1957f4c6f556e02c2b06nat;
    let n = lemma_square(b, m, n, x, 0x3a8a922e33ca365f08d1c30a7ea534f4db4289cfc1964c411a9ac24d1139863bnat, y);
    let x = y;
    let y = 0x516fff6cd3bd316684ac432d4f063ed0e5f94bdf56150b585b49d388440d675enat;
    let n = lemma_square(b, m, n, x, 0x73df5dc179353649bfaae2170f1ae9afeb76d289857b0969b8f802f0d3d9cc6nat, y);
    let x = y;
    let y = 0x6a9d3ba554b0ab2c178332ca85a5eb9c225c31baf694d23965f639d4404318b7nat;
    let n = lemma_multiply(b, m, n, x, 0x31ef73e3cdbd24906798a58e7d3506ea67bd7ff5b2748dd5a0516f00d9b0993fnat, y);
    let x = y;
    let y = 0x542182719455cbe3832d2b2c56c8b54f39482ae3443841079b08b9de9e3d5b4fnat;
    let n = lemma_square(b, m, n, x, 0x620c62ddde8955ec06c0b2da8e78408fd6631011945d2bb17edec8acd3ef7782nat, y);
    let x = y;
    let y = 0xd393e17f689c8a7a877a467aadbc945f107c964171189c510a8c8c7b6a87be0nat;
    let n = lemma_multiply(b, m, n, x, 0x33963e54c88ad5fe1876d22a7f9ac01cb1f4aec48865f32d93257c67d4d5b93bnat, y);
    let x = y;
}

/// Seven to the power `(r - 1) / (2 * 11)`.
proof fn lemma_seven_to_quotient_by_2_11()
    ensures
        has_residue(7, 0x544fbf824ccfa0eeb0e44005d875b460f7158e8dd1732ba22e8ba2e80000000nat, order(), 0xd393e17f689c8a7a877a467aadbc945f107c964171189c510a8c8c7b6a87be0nat),
{
    lemma_seven_to_quotient_by_2_11_19();
    lemma_chain_to_2_11();
    lemma_power_chain(
        7,
        order(),
        0x46ffc9b118430e42441e86c18ddc6200d01227340eb1d3e6e3d3e780000000nat,
        0x471591b4aec46c35a87570ee2af17765d776e31561cd1631c87fd7977b4e6675nat,
        0x13nat,
        0xd393e17f689c8a7a877a467aadbc945f107c964171189c510a8c8c7b6a87be0nat,
        0x544fbf824ccfa0eeb0e44005d875b460f7158e8dd1732ba22e8ba2e80000000nat,
    );
}

/// The power `11` of that residue.
proof fn lemma_chain_to_2()
    ensures
        has_residue(0xd393e17f689c8a7a877a467aadbc945f107c964171189c510a8c8c7b6a87be0nat, 0xbnat, order(), 0x73eda753299d7d483339d80809a1d80553bda402fffe5bfeffffffff00000000nat),
{
    let m = 0x73eda753299d7d483339d80809a1d80553bda402fffe5bfeffffffff00000001nat;
    let b = 0xd393e17f689c8a7a877a467aadbc945f107c964171189c510a8c8c7b6a87be0nat;
    lemma_zeroth_power(b, m);
    let n = 0nat;
    let x = 1nat;
    let y = 1nat;
    let n = lemma_square(b, m, n, x, 0nat, y);
    let x = y;
    let y = 0xd393e17f689c8a7a877a467aadbc945f107c964171189c510a8c8c7b6a87be0nat;
    let n = lemma_multiply(b, m, n, x, 0nat, y);
    let x = y;
    let y = 0x32e3ee16442ae00d0ade6607de0a05957900e657e09c952e618a16c99985bcdanat;
    let n = lemma_square(b, m, n, x, 0x1822507bb07a10619298e8d9f8df224d0da0d77c54eac2caab3c5a1b86b4726nat, y);
    let x = y;
    let y = 0x21fe9e75dba3cee5a2b775e06a836b5d31431557f2f74bdf5f99c9686e3114cfnat;
    let n = lemma_square(b, m, n, x, 0x165703f752b049696221a43a91550d28f5c351c966c2f51ac79b335aeba3d4d5nat, y);
    let x = y;
    let y = 0x6e5bb221b45995a6588d4d6806600446351a5d21892620dba94e8fa183001a4enat;
    let n = lemma_multiply(b, m, n, x, 0x3e0ae9f702ccede3ad39a6ce50dae1b77c77d1edee493f332f0826c4ec98fd2nat, y);
    let x = y;
    let y = 0x491a039427d1737bf2a989ba1a5ad1e2fd05ce9170c2f7625d2a7e328d9def46nat;
    let n = lemma_square(b, m, n, x, 0x690e40b3c991635cc30c880609147ff9a0193f3e9102e6ee1600d7534916007enat, y);
    let x = y;
    let y = 0x73eda753299d7d483339d80809a1d80553bda402fffe5bfeffffffff00000000nat;
    let n = lemma_multiply(b, m, n, x, 0x856a707ff8c6eec89a04a7edc133b953606a745ff664fca26679cb29617ff40nat, y);
    let x = y;
}

/// Seven to the power `(r - 1) / 2`.
pub proof fn lemma_seven_to_quotient_by_2()
    ensures
        has_residue(7, 0x39f6d3a994cebea4199cec0404d0ec02a9ded2017fff2dff7fffffff80000000nat, order(), 0x73eda753299d7d483339d80809a1d80553bda402fffe5bfeffffffff00000000nat),
{
    lemma_seven_to_quotient_by_2_11();
    lemma_chain_to_2();
    lemma_power_chain(
        7,
        order(),
        0x544fbf824ccfa0eeb0e44005d875b460f7158e8dd1732ba22e8ba2e80000000nat,
        0xd393e17f689c8a7a877a467aadbc945f107c964171189c510a8c8c7b6a87be0nat,
        0xbnat,
        0x73eda753299d7d483339d80809a1d80553bda402fffe5bfeffffffff00000000nat,
        0x39f6d3a994cebea4199cec0404d0ec02a9ded2017fff2dff7fffffff80000000nat,
    );
}

/// The power `2` of that residue.
proof fn lemma_chain_to_11()
    ensures
        has_residue(0xd393e17f689c8a7a877a467aadbc945f107c964171189c510a8c8c7b6a87be0nat, 2nat, order(), 0x32e3ee16442ae00d0ade6607de0a05957900e657e09c952e618a16c99985bcdanat),
{
    let m = 0x73eda753299d7d483339d80809a1d80553bda402fffe5bfeffffffff00000001nat;
    let b = 0xd393e17f689c8a7a877a467aadbc945f107c964171189c510a8c8c7b6a87be0nat;
    lemma_zeroth_power(b, m);
    let n = 0nat;
    let x = 1nat;
    let y = 1nat;
    let n = lemma_square(b, m, n, x, 0nat, y);
    let x = y;
    let y = 0xd393e17f689c8a7a877a467aadbc945f107c964171189c510a8c8c7b6a87be0nat;
    let n = lemma_multiply(b, m, n, x, 0nat, y);
    let x = y;
    let y = 0x32e3ee16442ae00d0ade6607de0a05957900e657e09c952e618a16c99985bcdanat;
    let n = lemma_square(b, m, n, x, 0x1822507bb07a10619298e8d9f8df224d0da0d77c54eac2caab3c5a1b86b4726nat, y);
    let x = y;
}

/// Seven to the power `(r - 1) / 11`.
pub proof fn lemma_seven_to_quotient_by_11()
    ensures
        has_residue(7, 0xa89f7f04999f41dd61c8800bb0eb68c1ee2b1d1ba2e657445d1745d00000000nat, order(), 0x32e3ee16442ae00d0ade6607de0a05957900e657e09c952e618a16c99985bcdanat),
{
    lemma_seven_to_quotient_by_2_11();
    lemma_chain_to_11();
    lemma_power_chain(
        7,
        order(),
        0x544fbf824ccfa0eeb0e44005d875b460f7158e8dd1732ba22e8ba2e80000000nat,
        0xd393e17f689c8a7a877a467aadbc945f107c964171189c510a8c8c7b6a87be0nat,
        2nat,
        0x32e3ee16442ae00d0ade6607de0a05957900e657e09c952e618a16c99985bcdanat,
        0xa89f7f04999f41dd61c8800bb0eb68c1ee2b1d1ba2e657445d1745d00000000nat,
    );
}

/// The power `418` of that residue.
proof fn lemma_chain_to_10177()
    ensures
        has_residue(0x56c30084924e923105e44916ce393a8b0ae1bead61ec12aacb2687b0b47df91bnat, 0x1a2nat, order(), 0x1cba928b731970571e9595239f325fced6538e1240ff7965553667549739ebb9nat),
{
    let m = 0x73eda753299d7d483339d80809a1d80553bda402fffe5bfeffffffff00000001nat;
    let b = 0x56c30084924e923105e44916ce393a8b0ae1bead61ec12aacb2687b0b47df91bnat;
    lemma_zeroth_power(b, m);
    let n = 0nat;
    let x = 1nat;
    let y = 1nat;
    let n = lemma_square(b, m, n, x, 0nat, y);
    let x = y;
    let y = 0x56c30084924e923105e44916ce393a8b0ae1bead61ec12aacb2687b0b47df91bnat;
    let n = lemma_multiply(b, m, n, x, 0nat, y);
    let x = y;
    let y = 0x1180a13b94032226fd6fbe030cde2189babf1cf0ce1d0b1f06218f46cbd5242bnat;
    let n = lemma_square(b, m, n, x, 0x40eee5e7b198ccde50d181e7e5ec90f3d506b7c85ac1e509ac0338d262ee64aenat, y);
    let x = y;
    let y = 0x697757a4d2b127c95b80a8de7ae9d621f6777be4696196f3f6cf857db017187dnat;
    let n = lemma_multiply(b, m, n, x, 0xd19572b33b4d4f27c62c4a9d5dd5e5a5424d6465baba7d71487ed5904908b0cnat, y);
    let x = y;
    let y = 0x569a2e59023536d3bd47c134a18fdd00095cd045f1cac68ec8f084b23b9dd93enat;
    let n = lemma_square(b, m, n, x, 0x5ff2bd6ce62653a49d5ca1f15277e2ce96a8117246f2f08d8984deec0d2fd3cbnat, y);
    let x = y;
    let y = 0x287144f3ad5013ba1f177b41d31e43b295316c99eb11ceb1e9615bef17df73ecnat;
    let n = lemma_square(b, m, n, x, 0x40b1da4a8203520eec4d8a889ddd66b740549889e7c96effb2d188d7aa86b718nat, y);
    let x = y;
    let y = 0x10c72cba6470e86a2d2ae2c80ca71c756b9f399bd7fb064a32019475c7b66448nat;
    let n = lemma_multiply(b, m, n, x, 0x1e4478fd5ceef95837cadf5b03708ce8aef2be997caa1f7d55d6f9739ed7619cnat, y);
    let x = y;
    let y = 0x66a78ab52498cebcb2406f5239137ce26b3dd42968245b9dfb1bd1e11c6b5c9fnat;
    let n = lemma_square(b, m, n, x, 0x26da1550ba77f9adc7fd242c86a94ac716cfa25d2e26ec18b29216a913cf7a1nat, y);
    let x = y;
    let y = 0x2799e6991af2909e74818db3f1018809ffd8630f9fa870430919c661e7d498e3nat;
    let n = lemma_square(b, m, n, x, 0x5ae6842471f7dc96aa62f92293c7da1888ec35d715ecbd83fe2462436e9811denat, y);
    let x = y;
    let y = 0x4f82d8a474cdd98bc30349d4a9f0b8a3785814c913df805ef74bf3ee72a8ea18nat;
    let n = lemma_square(b, m, n, x, 0xd871c9e34f98a252a1e96183bc1299dc8308bb74284a3b80333d7bfca9d6f31nat, y);
    let x = y;
    let y = 0x717b662ea56fb72e9edb963dae72907f05a76883d617e3b29432ae685f0854afnat;
    let n = lemma_square(b, m, n, x, 0x3688aa1ee6d3d7183b672fd8bd65069ab74510e72e49b9b20e3c93ba16878d91nat, y);
    let x = y;
    let y = 0x2d5fd3da3bd89cbe4e70dd83283d37a79a5dc9e1c223f8bcc7b7202f641c275dnat;
    let n = lemma_multiply(b, m, n, x, 0x54ee4ed870e286ab530f0bbeaaa6c7933f3cd4583d2fd874e3ff8b462195fe18nat, y);
    let x = y;
    let y = 0x1cba928b731970571e9595239f325fced6538e1240ff7965553667549739ebb9nat;
    let n = lemma_square(b, m, n, x, 0x11c26eb9f07cf964c9fe80de5959cc3b011b411914b1f53d2e3edabab32b8c10nat, y);
    let x = y;
}

/// Seven to the power `(r - 1) / 10177`.
pub proof fn lemma_seven_to_quotient_by_10177()
    ensures
        has_residue(7, 0x2ea88c64c8fb8b17f3d0bf3056626493bd62f0a299b16905017bf00000000nat, order(), 0x1cba928b731970571e9595239f325fced6538e1240ff7965553667549739ebb9nat),
{
    lemma_seven_to_quotient_by_2_11_19_10177();
    lemma_chain_to_10177();
    lemma_power_chain(
        7,
        order(),
        0x1c93524edf87ae9a4e47801d9a92005a7b56513b29753a319c780000000nat,
        0x56c30084924e923105e44916ce393a8b0ae1bead61ec12aacb2687b0b47df91bnat,
        0x1a2nat,
        0x1cba928b731970571e9595239f325fced6538e1240ff7965553667549739ebb9nat,
        0x2ea88c64c8fb8b17f3d0bf3056626493bd62f0a299b16905017bf00000000nat,
    );
}

/// Seven to the power `r - 1` is congruent to one: the order passes the
/// test of Fermat.
pub proof fn lemma_seven_to_order_minus_one()
    ensures
        has_residue(7, 0x73eda753299d7d483339d80809a1d80553bda402fffe5bfeffffffff00000000nat, order(), 1),
{
    lemma_seven_to_quotient_by_2();
    let n = lemma_square(
        7,
        order(),
        0x39f6d3a994cebea4199cec0404d0ec02a9ded2017fff2dff7fffffff80000000nat,
        0x73eda753299d7d483339d80809a1d80553bda402fffe5bfeffffffff00000000nat,
        0x73eda753299d7d483339d80809a1d80553bda402fffe5bfefffffffeffffffffnat,
        1,
    );
}

} // verus!
