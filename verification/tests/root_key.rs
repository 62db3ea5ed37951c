use certified_reply::root_key::{
    confirm_root_key, extract_bls_key, root_key, RootKeyError, DER_PREFIX, IC_ROOT_KEY,
    IC_ROOT_KEY_BASE64, KEY_LENGTH,
};

#[test]
fn the_two_forms_agree() {
    assert_eq!(root_key(), Ok(IC_ROOT_KEY.to_vec()));
}

#[test]
fn the_text_decodes_to_the_key() {
    #[allow(deprecated)]
    let decoded = base64::decode(IC_ROOT_KEY_BASE64).unwrap();
    assert_eq!(decoded, IC_ROOT_KEY.to_vec());
    assert_eq!(decoded.len(), 133);
}

#[test]
fn a_text_that_does_not_decode() {
    assert_eq!(confirm_root_key(None), Err(RootKeyError::NotBase64));
}

#[test]
fn a_text_that_decodes_to_other_bytes() {
    let mut other = IC_ROOT_KEY.to_vec();
    other[132] = 0;
    assert_eq!(confirm_root_key(Some(other)), Err(RootKeyError::Mismatch));
    assert_eq!(confirm_root_key(Some(Vec::new())), Err(RootKeyError::Mismatch));
    assert_eq!(confirm_root_key(Some(IC_ROOT_KEY[..132].to_vec())), Err(RootKeyError::Mismatch));
    assert_eq!(confirm_root_key(Some(IC_ROOT_KEY.to_vec())), Ok(IC_ROOT_KEY.to_vec()));
}

#[test]
fn the_key_proper_follows_the_header() {
    assert_eq!(DER_PREFIX.len() + KEY_LENGTH, IC_ROOT_KEY.len());
    assert_eq!(IC_ROOT_KEY[..37], DER_PREFIX);
    assert_eq!(extract_bls_key(&IC_ROOT_KEY), Ok(IC_ROOT_KEY[37..].to_vec()));
}

#[test]
fn a_key_of_another_length() {
    assert_eq!(extract_bls_key(&[]), Err(RootKeyError::WrongLength));
    assert_eq!(extract_bls_key(&IC_ROOT_KEY[..132]), Err(RootKeyError::WrongLength));
    let mut longer = IC_ROOT_KEY.to_vec();
    longer.push(0);
    assert_eq!(extract_bls_key(&longer), Err(RootKeyError::WrongLength));
}

#[test]
fn a_key_with_another_header() {
    let mut other = IC_ROOT_KEY.to_vec();
    other[36] ^= 1;
    assert_eq!(extract_bls_key(&other), Err(RootKeyError::WrongPrefix));
    let mut in_the_key = IC_ROOT_KEY.to_vec();
    in_the_key[37] ^= 1;
    assert_eq!(extract_bls_key(&in_the_key), Ok(in_the_key[37..].to_vec()));
}
