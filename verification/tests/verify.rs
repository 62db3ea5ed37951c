use certified_reply::codec::decode_certificate;
use certified_reply::lookup::Field;
use certified_reply::lookup::LookupResult;
use certified_reply::root_key::{RootKeyError, DER_PREFIX, IC_ROOT_KEY};
use certified_reply::tree::HashTree;
use certified_reply::verify::{decide, Certificate, ValidityWindow, Verifier, VerifyError};

fn hex(text: &str) -> Vec<u8> {
    let digits: Vec<u8> = text
        .bytes()
        .map(|c| match c {
            b'0'..=b'9' => c - b'0',
            b'a'..=b'f' => c - b'a' + 10,
            _ => panic!("not a hex digit"),
        })
        .collect();
    digits.chunks(2).map(|pair| pair[0] * 16 + pair[1]).collect()
}

/// A certificate that the root key of the Internet Computer signed: the
/// delegation that a subnet was given in February 2022.
fn root_signed_certificate() -> Vec<u8> {
    hex(&[
        "d9d9f7a26474726565830182045820ae023f28c3b9d966c8fb09f9ed755c828aadb5152e00aaf700b18c9c06",
        "7294b483018302467375626e6574830182045820e83bb025f6574c8f31233dc0fe289ff546dfa1e49bd6116d",
        "d6e8896d90a4946e830182045820e782619092d69d5bebf0924138bd4116b0156b5a95e25c358ea8cf7e7161",
        "a661830183018204582062513fa926c9a9ef803ac284d620f303189588e1d3904349ab63b6470856fc488301",
        "8204582060e9a344ced2c9c4a96a0197fd585f2d259dbd193e4eada56239cac26087f9c58302581dd77b2a2f",
        "7199b9a8aec93fe6fb588661358cf12223e9a3af7b4ebac402830183024f63616e69737465725f72616e6765",
        "738203581bd9d9f781824a000000000020000001014a00000000002fffff010183024a7075626c69635f6b65",
        "7982035885308182301d060d2b0601040182dc7c0503010201060c2b0601040182dc7c050302010361009933",
        "e1f89e8a3c4d7fdcccdbd518089e2bd4d8180a261f18d9c247a52768ebce98dc7328a39814a8f911086a1dd5",
        "0cbe015e2a53b7bf78b55288893daa15c346640e8831d72a12bdedd979d28470c34823b8d1c3f4795d9c3984",
        "a247132e94fe82045820996f17bb926be3315745dea7282005a793b58e76afeb5d43d1a28ce29d2d15858302",
        "4474696d6582034995b8aac0e4eda2ea16697369676e61747572655830ace9fcdd9bc977e05d6328f889dc4e",
        "7c99114c737a494653cb27a1f55c06f4555e0f160980af5ead098acc195010b2f7",
    ]
    .concat())
}

/// A certificate that the subnet of that delegation signed, for a request
/// that was rejected.
fn subnet_signed_certificate() -> Vec<u8> {
    hex(&[
        "a264747265658301830182045820250f5e26868d9c1ea7ab29cbe9c15bf1c47c0d7605e803e39e375a7fe09c",
        "6ebb830183024e726571756573745f7374617475738301820458204b268227774ec77ff2b37ecb12157329d5",
        "4cf376694bdd59ded7803efd82386f83025820edad510eaaa08ed2acd4781324e6446269da6753ec17760f20",
        "6bbe81c465ff528301830183024b72656a6563745f636f64658203410383024e72656a6563745f6d65737361",
        "67658203584443616e69737465722069766733372d71696161612d61616161622d61616167612d6361692068",
        "6173206e6f20757064617465206d6574686f6420277265676973746572278302467374617475738203487265",
        "6a65637465648204582097232f31f6ab7ca4fe53eb6568fc3e02bc22fe94ab31d010e5fb3c642301f1608301",
        "820458203a48d1fc213d49307103104f7d72c2b5930edba8787b90631f343b3aa68a5f0a83024474696d6582",
        "0349e2dc939091c696eb16697369676e6174757265583089a2be21b5fa8ac9fab1527e041327ce899d7da971",
        "436a1f2165393947b4d942365bfe5488710e61a619ba48388a21b1",
    ]
    .concat())
}

/// The public key of that subnet, in DER.
fn subnet_key() -> Vec<u8> {
    hex(&[
        "308182301d060d2b0601040182dc7c0503010201060c2b0601040182dc7c050302010361009933e1f89e8a3c",
        "4d7fdcccdbd518089e2bd4d8180a261f18d9c247a52768ebce98dc7328a39814a8f911086a1dd50cbe015e2a",
        "53b7bf78b55288893daa15c346640e8831d72a12bdedd979d28470c34823b8d1c3f4795d9c3984a247132e94",
        "fe",
    ]
    .concat())
}

fn leaf(value: &[u8]) -> HashTree {
    HashTree::Leaf(value.to_vec())
}

fn labeled(label: &[u8], sub: HashTree) -> HashTree {
    HashTree::Labeled(label.to_vec(), Box::new(sub))
}

fn fork(left: HashTree, right: HashTree) -> HashTree {
    HashTree::Fork(Box::new(left), Box::new(right))
}

/// A key pair made for these tests.
fn test_key() -> ic_verify_bls_signature::PrivateKey {
    let mut bytes = [0u8; 32];
    bytes[31] = 42;
    ic_verify_bls_signature::PrivateKey::deserialize(&bytes).unwrap()
}

fn test_key_der() -> Vec<u8> {
    let mut der = DER_PREFIX.to_vec();
    der.extend_from_slice(&test_key().public_key().serialize());
    der
}

/// Signs a tree as the state root is signed.
fn sign(tree: &HashTree) -> Vec<u8> {
    let mut message = b"\x0Dic-state-root".to_vec();
    message.extend_from_slice(&tree.digest());
    test_key().sign(&message).serialize().to_vec()
}

fn tree_at(time: &[u8]) -> HashTree {
    fork(labeled(b"request_status", HashTree::Pruned([1u8; 32])), labeled(b"time", leaf(time)))
}

fn signed(tree: HashTree) -> Certificate {
    let signature = sign(&tree);
    Certificate { tree, signature }
}

#[test]
fn a_signed_tree_is_accepted() {
    let verifier = Verifier::with_root_key(&test_key_der()).unwrap();
    let certificate = signed(tree_at(&[0x80, 0x01]));
    assert_eq!(verifier.verify(&certificate, b"anyone"), Ok(()));
}

#[test]
fn the_signer_does_not_enter_the_verdict() {
    let verifier = Verifier::with_root_key(&test_key_der()).unwrap();
    let certificate = signed(tree_at(&[0x80, 0x01]));
    assert_eq!(verifier.verify(&certificate, b""), Ok(()));
    assert_eq!(verifier.verify(&certificate, &[0, 0, 0, 0, 0, 0, 0, 1, 1, 1]), Ok(()));
}

#[test]
fn a_tampered_tree_fails_against_the_genuine_signature() {
    let verifier = Verifier::with_root_key(&test_key_der()).unwrap();
    let genuine = signed(tree_at(&[0x80, 0x01]));
    let tampered = Certificate { tree: tree_at(&[0x80, 0x02]), signature: genuine.signature };
    assert_eq!(verifier.verify(&tampered, b"anyone"), Err(VerifyError::SignatureInvalid));
    let hidden = Certificate {
        tree: fork(
            labeled(b"request_status", HashTree::Pruned([2u8; 32])),
            labeled(b"time", leaf(&[0x80, 0x01])),
        ),
        signature: sign(&tree_at(&[0x80, 0x01])),
    };
    assert_eq!(verifier.verify(&hidden, b"anyone"), Err(VerifyError::SignatureInvalid));
}

#[test]
fn a_tampered_signature_fails() {
    let verifier = Verifier::with_root_key(&test_key_der()).unwrap();
    let mut certificate = signed(tree_at(&[0x80, 0x01]));
    let last = certificate.signature.len() - 1;
    certificate.signature[last] ^= 1;
    assert_eq!(verifier.verify(&certificate, b"anyone"), Err(VerifyError::SignatureInvalid));
    certificate.signature = Vec::new();
    assert_eq!(verifier.verify(&certificate, b"anyone"), Err(VerifyError::SignatureInvalid));
}

#[test]
fn another_key_does_not_accept() {
    let verifier = Verifier::new().unwrap();
    let certificate = signed(tree_at(&[0x80, 0x01]));
    assert_eq!(verifier.verify(&certificate, b"anyone"), Err(VerifyError::SignatureInvalid));
}

#[test]
fn a_corrupted_root_key_does_not_accept() {
    let certificate = decode_certificate(&root_signed_certificate()).unwrap();
    let mut corrupt = IC_ROOT_KEY.to_vec();
    let last = corrupt.len() - 1;
    corrupt[last] = 0;
    let verifier = Verifier::with_root_key(&corrupt).unwrap();
    assert_eq!(verifier.verify(&certificate, b"anyone"), Err(VerifyError::SignatureInvalid));
}

#[test]
fn the_root_key_accepts_what_it_signed() {
    let certificate = decode_certificate(&root_signed_certificate()).unwrap();
    let verifier = Verifier::new().unwrap();
    assert_eq!(verifier.verify(&certificate, b"anyone"), Ok(()));
    assert_eq!(
        certificate.tree.digest().to_vec(),
        hex("e6c01e909b4923345ce5970962bcfe3004bfd8474a21dae28f50692502f46d90")
    );
}

#[test]
fn the_subnet_key_accepts_what_the_subnet_signed() {
    let certificate = decode_certificate(&subnet_signed_certificate()).unwrap();
    let verifier = Verifier::with_root_key(&subnet_key()).unwrap();
    assert_eq!(verifier.verify(&certificate, b"anyone"), Ok(()));
    let root = Verifier::new().unwrap();
    assert_eq!(root.verify(&certificate, b"anyone"), Err(VerifyError::SignatureInvalid));
}

#[test]
fn the_window_is_held_against_the_timestamp() {
    let certificate = decode_certificate(&root_signed_certificate()).unwrap();
    let time: u64 = 1645093069668391957;
    let inside = ValidityWindow { earliest: time, latest: time };
    let before = ValidityWindow { earliest: time + 1, latest: u64::MAX };
    let after = ValidityWindow { earliest: 0, latest: time - 1 };
    let every = ValidityWindow { earliest: 0, latest: u64::MAX };
    assert_eq!(Verifier::new().unwrap().with_window(inside).verify(&certificate, b""), Ok(()));
    assert_eq!(Verifier::new().unwrap().with_window(every).verify(&certificate, b""), Ok(()));
    assert_eq!(
        Verifier::new().unwrap().with_window(before).verify(&certificate, b""),
        Err(VerifyError::ExpiredCertificate)
    );
    assert_eq!(
        Verifier::new().unwrap().with_window(after).verify(&certificate, b""),
        Err(VerifyError::ExpiredCertificate)
    );
}

#[test]
fn an_invalid_signature_decides_before_the_window() {
    let window = ValidityWindow { earliest: 0, latest: 0 };
    let verifier = Verifier::with_root_key(&test_key_der()).unwrap().with_window(window);
    let certificate = Certificate { tree: tree_at(&[0x05]), signature: vec![0u8; 48] };
    assert_eq!(verifier.verify(&certificate, b""), Err(VerifyError::SignatureInvalid));
}

#[test]
fn with_a_window_the_time_must_be_there() {
    let window = ValidityWindow { earliest: 0, latest: u64::MAX };
    let verifier = Verifier::with_root_key(&test_key_der()).unwrap().with_window(window);
    let without = signed(labeled(b"request_status", leaf(b"x")));
    assert_eq!(verifier.verify(&without, b""), Err(VerifyError::MissingField(Field::Time)));
    let hidden = signed(fork(labeled(b"request_status", leaf(b"x")), HashTree::Pruned([0u8; 32])));
    assert_eq!(verifier.verify(&hidden, b""), Err(VerifyError::LookupUnknown(Field::Time)));
    let inner = signed(labeled(b"time", labeled(b"deeper", leaf(b"x"))));
    assert_eq!(verifier.verify(&inner, b""), Err(VerifyError::TreeMalformed(Field::Time)));
    let no_number = signed(labeled(b"time", leaf(&[0x80])));
    assert_eq!(verifier.verify(&no_number, b""), Err(VerifyError::MalformedTime));
}

#[test]
fn without_a_window_the_time_is_not_read() {
    let verifier = Verifier::with_root_key(&test_key_der()).unwrap();
    let without = signed(labeled(b"request_status", leaf(b"x")));
    assert_eq!(verifier.verify(&without, b""), Ok(()));
}

#[test]
fn decide_follows_the_order_of_the_checks() {
    let window = ValidityWindow { earliest: 10, latest: 20 };
    let at_15 = LookupResult::Found(vec![15]);
    let at_21 = LookupResult::Found(vec![21]);
    let at_9 = LookupResult::Found(vec![9]);
    assert_eq!(decide(true, Some(window), &at_15), Ok(()));
    assert_eq!(decide(true, Some(window), &LookupResult::Found(vec![10])), Ok(()));
    assert_eq!(decide(true, Some(window), &LookupResult::Found(vec![20])), Ok(()));
    assert_eq!(decide(true, Some(window), &at_21), Err(VerifyError::ExpiredCertificate));
    assert_eq!(decide(true, Some(window), &at_9), Err(VerifyError::ExpiredCertificate));
    assert_eq!(decide(false, Some(window), &at_15), Err(VerifyError::SignatureInvalid));
    assert_eq!(decide(false, None, &at_15), Err(VerifyError::SignatureInvalid));
    assert_eq!(decide(true, None, &LookupResult::Absent), Ok(()));
    assert_eq!(
        decide(true, Some(window), &LookupResult::Absent),
        Err(VerifyError::MissingField(Field::Time))
    );
    assert_eq!(
        decide(true, Some(window), &LookupResult::Unknown),
        Err(VerifyError::LookupUnknown(Field::Time))
    );
    assert_eq!(
        decide(true, Some(window), &LookupResult::Error),
        Err(VerifyError::TreeMalformed(Field::Time))
    );
    assert_eq!(
        decide(true, Some(window), &LookupResult::Found(vec![])),
        Err(VerifyError::MalformedTime)
    );
}

#[test]
fn a_key_must_be_a_der_key() {
    assert_eq!(Verifier::with_root_key(&[]).err(), Some(RootKeyError::WrongLength));
    let mut wrong = test_key_der();
    wrong[0] ^= 1;
    assert_eq!(Verifier::with_root_key(&wrong).err(), Some(RootKeyError::WrongPrefix));
}
