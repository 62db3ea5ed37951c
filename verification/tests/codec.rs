use certified_reply::codec::{certificate_of, decode_certificate, encode_certificate, DecodeError};
use certified_reply::tree::HashTree;
use certified_reply::verify::Certificate;

fn hex(text: &str) -> Vec<u8> {
    let digits: Vec<u8> = text
        .bytes()
        .map(|c| match c {
            b'0'..=b'9' => c - b'0',
            b'a'..=b'f' => c - b'a' + 10,
            _ => panic!("not a hex digit"),
        })
        .collect();
    digits.chunks(2).map(|pair| pair[0] * 16 + pair[1]).collect()
}

/// A certificate that the root key of the Internet Computer signed: the
/// delegation that a subnet was given in February 2022.
fn root_signed_certificate() -> Vec<u8> {
    hex(&[
        "d9d9f7a26474726565830182045820ae023f28c3b9d966c8fb09f9ed755c828aadb5152e00aaf700b18c9c06",
        "7294b483018302467375626e6574830182045820e83bb025f6574c8f31233dc0fe289ff546dfa1e49bd6116d",
        "d6e8896d90a4946e830182045820e782619092d69d5bebf0924138bd4116b0156b5a95e25c358ea8cf7e7161",
        "a661830183018204582062513fa926c9a9ef803ac284d620f303189588e1d3904349ab63b6470856fc488301",
        "8204582060e9a344ced2c9c4a96a0197fd585f2d259dbd193e4eada56239cac26087f9c58302581dd77b2a2f",
        "7199b9a8aec93fe6fb588661358cf12223e9a3af7b4ebac402830183024f63616e69737465725f72616e6765",
        "738203581bd9d9f781824a000000000020000001014a00000000002fffff010183024a7075626c69635f6b65",
        "7982035885308182301d060d2b0601040182dc7c0503010201060c2b0601040182dc7c050302010361009933",
        "e1f89e8a3c4d7fdcccdbd518089e2bd4d8180a261f18d9c247a52768ebce98dc7328a39814a8f911086a1dd5",
        "0cbe015e2a53b7bf78b55288893daa15c346640e8831d72a12bdedd979d28470c34823b8d1c3f4795d9c3984",
        "a247132e94fe82045820996f17bb926be3315745dea7282005a793b58e76afeb5d43d1a28ce29d2d15858302",
        "4474696d6582034995b8aac0e4eda2ea16697369676e61747572655830ace9fcdd9bc977e05d6328f889dc4e",
        "7c99114c737a494653cb27a1f55c06f4555e0f160980af5ead098acc195010b2f7",
    ]
    .concat())
}

/// A certificate that the subnet of that delegation signed, for a request
/// that was rejected.
fn subnet_signed_certificate() -> Vec<u8> {
    hex(&[
        "a264747265658301830182045820250f5e26868d9c1ea7ab29cbe9c15bf1c47c0d7605e803e39e375a7fe09c",
        "6ebb830183024e726571756573745f7374617475738301820458204b268227774ec77ff2b37ecb12157329d5",
        "4cf376694bdd59ded7803efd82386f83025820edad510eaaa08ed2acd4781324e6446269da6753ec17760f20",
        "6bbe81c465ff528301830183024b72656a6563745f636f64658203410383024e72656a6563745f6d65737361",
        "67658203584443616e69737465722069766733372d71696161612d61616161622d61616167612d6361692068",
        "6173206e6f20757064617465206d6574686f6420277265676973746572278302467374617475738203487265",
        "6a65637465648204582097232f31f6ab7ca4fe53eb6568fc3e02bc22fe94ab31d010e5fb3c642301f1608301",
        "820458203a48d1fc213d49307103104f7d72c2b5930edba8787b90631f343b3aa68a5f0a83024474696d6582",
        "0349e2dc939091c696eb16697369676e6174757265583089a2be21b5fa8ac9fab1527e041327ce899d7da971",
        "436a1f2165393947b4d942365bfe5488710e61a619ba48388a21b1",
    ]
    .concat())
}

/// The public key of that subnet, in DER.
fn subnet_key() -> Vec<u8> {
    hex(&[
        "308182301d060d2b0601040182dc7c0503010201060c2b0601040182dc7c050302010361009933e1f89e8a3c",
        "4d7fdcccdbd518089e2bd4d8180a261f18d9c247a52768ebce98dc7328a39814a8f911086a1dd50cbe015e2a",
        "53b7bf78b55288893daa15c346640e8831d72a12bdedd979d28470c34823b8d1c3f4795d9c3984a247132e94",
        "fe",
    ]
    .concat())
}

fn leaf(value: &[u8]) -> HashTree {
    HashTree::Leaf(value.to_vec())
}

fn labeled(label: &[u8], sub: HashTree) -> HashTree {
    HashTree::Labeled(label.to_vec(), Box::new(sub))
}

fn fork(left: HashTree, right: HashTree) -> HashTree {
    HashTree::Fork(Box::new(left), Box::new(right))
}

fn sample() -> Certificate {
    Certificate {
        tree: fork(
            fork(labeled(b"a", leaf(b"1")), HashTree::Empty),
            fork(HashTree::Pruned([0x5au8; 32]), labeled(b"", labeled(b"deep", leaf(b"")))),
        ),
        signature: vec![1, 2, 3, 4],
    }
}

#[test]
fn decoding_gives_back_what_was_encoded() {
    let bytes = encode_certificate(&sample()).unwrap();
    assert_eq!(decode_certificate(&bytes), Ok(sample()));
}

#[test]
fn every_kind_of_node_alone_comes_back() {
    let trees = vec![
        HashTree::Empty,
        leaf(b"value"),
        HashTree::Pruned([0u8; 32]),
        labeled(b"label", HashTree::Empty),
        fork(HashTree::Empty, HashTree::Empty),
    ];
    for tree in trees {
        let certificate = Certificate { tree, signature: Vec::new() };
        let bytes = encode_certificate(&certificate).unwrap();
        assert_eq!(decode_certificate(&bytes), Ok(certificate));
    }
}

#[test]
fn encoding_gives_back_what_was_decoded() {
    let certificate = decode_certificate(&subnet_signed_certificate()).unwrap();
    let bytes = encode_certificate(&certificate).unwrap();
    assert_eq!(decode_certificate(&bytes), Ok(certificate));
}

#[test]
fn a_persisted_certificate_is_read() {
    let certificate = decode_certificate(&root_signed_certificate()).unwrap();
    assert_eq!(certificate.signature.len(), 48);
    assert_eq!(
        certificate.tree.lookup_path(&vec![b"time".to_vec()]),
        certified_reply::lookup::LookupResult::Found(hex("95b8aac0e4eda2ea16"))
    );
}

#[test]
fn the_encoding_is_the_one_of_the_outside_crate() {
    let outside = ic_certification::Certificate {
        tree: ic_certification::fork(
            ic_certification::labeled(b"a".to_vec(), ic_certification::leaf(b"1".to_vec())),
            ic_certification::pruned([7u8; 32]),
        ),
        signature: vec![9, 9],
        delegation: None,
    };
    let ours = Certificate {
        tree: fork(labeled(b"a", leaf(b"1")), HashTree::Pruned([7u8; 32])),
        signature: vec![9, 9],
    };
    assert_eq!(encode_certificate(&ours), Some(serde_cbor::to_vec(&outside).unwrap()));
}

#[test]
fn bytes_that_are_no_certificate() {
    assert_eq!(decode_certificate(&[]), Err(DecodeError::Malformed));
    assert_eq!(decode_certificate(&[0xff, 0x00]), Err(DecodeError::Malformed));
    let mut cut = encode_certificate(&sample()).unwrap();
    cut.pop();
    assert_eq!(decode_certificate(&cut), Err(DecodeError::Malformed));
    let mut longer = encode_certificate(&sample()).unwrap();
    longer.push(0);
    assert_eq!(decode_certificate(&longer), Err(DecodeError::Malformed));
}

#[test]
fn a_certificate_with_a_delegation_is_not_taken() {
    let outside = ic_certification::Certificate {
        tree: ic_certification::leaf(b"1".to_vec()),
        signature: vec![9, 9],
        delegation: Some(ic_certification::Delegation {
            subnet_id: vec![1],
            certificate: vec![2],
        }),
    };
    let bytes = serde_cbor::to_vec(&outside).unwrap();
    assert_eq!(decode_certificate(&bytes), Err(DecodeError::Delegated));
}

#[test]
fn a_certificate_of_decoded_parts() {
    assert_eq!(
        certificate_of(leaf(b"1"), vec![9], false),
        Ok(Certificate { tree: leaf(b"1"), signature: vec![9] })
    );
    assert_eq!(certificate_of(leaf(b"1"), vec![9], true), Err(DecodeError::Delegated));
}

#[test]
fn what_is_encoded_was_read_back() {
    let bytes = encode_certificate(&sample()).unwrap();
    let read = decode_certificate(&bytes).unwrap();
    assert!(read.tree.same_as(&sample().tree));
    assert_eq!(read.signature, sample().signature);
}

#[test]
fn the_same_tree() {
    let trees = || {
        vec![
            HashTree::Empty,
            leaf(b""),
            leaf(b"1"),
            HashTree::Pruned([0u8; 32]),
            HashTree::Pruned([1u8; 32]),
            labeled(b"a", leaf(b"1")),
            labeled(b"a", leaf(b"2")),
            labeled(b"b", leaf(b"1")),
            fork(leaf(b"1"), leaf(b"2")),
            fork(leaf(b"2"), leaf(b"1")),
            fork(fork(leaf(b"1"), leaf(b"2")), HashTree::Empty),
        ]
    };
    for (i, a) in trees().iter().enumerate() {
        for (j, b) in trees().iter().enumerate() {
            assert_eq!(a.same_as(b), i == j);
            assert_eq!(a.same_as(b), a == b);
        }
    }
}
