//! The trust anchor: the one public key against which certificates are
//! checked, embedded twice so that a single corrupted constant is noticed.

use vstd::prelude::*;
use crate::bytes::{bytes_eq, copy_bytes};

verus! {

/// The trust anchor's public key, in DER.
pub const IC_ROOT_KEY: [u8; 133] = [
    0x30, 0x81, 0x82, 0x30, 0x1d, 0x06, 0x0d, 0x2b, 0x06, 0x01, 0x04, 0x01,
    0x82, 0xdc, 0x7c, 0x05, 0x03, 0x01, 0x02, 0x01, 0x06, 0x0c, 0x2b, 0x06,
    0x01, 0x04, 0x01, 0x82, 0xdc, 0x7c, 0x05, 0x03, 0x02, 0x01, 0x03, 0x61,
    0x00, 0x81, 0x4c, 0x0e, 0x6e, 0xc7, 0x1f, 0xab, 0x58, 0x3b, 0x08, 0xbd,
    0x81, 0x37, 0x3c, 0x25, 0x5c, 0x3c, 0x37, 0x1b, 0x2e, 0x84, 0x86, 0x3c,
    0x98, 0xa4, 0xf1, 0xe0, 0x8b, 0x74, 0x23, 0x5d, 0x14, 0xfb, 0x5d, 0x9c,
    0x0c, 0xd5, 0x46, 0xd9, 0x68, 0x5f, 0x91, 0x3a, 0x0c, 0x0b, 0x2c, 0xc5,
    0x34, 0x15, 0x83, 0xbf, 0x4b, 0x43, 0x92, 0xe4, 0x67, 0xdb, 0x96, 0xd6,
    0x5b, 0x9b, 0xb4, 0xcb, 0x71, 0x71, 0x12, 0xf8, 0x47, 0x2e, 0x0d, 0x5a,
    0x4d, 0x14, 0x50, 0x5f, 0xfd, 0x74, 0x84, 0xb0, 0x12, 0x91, 0x09, 0x1c,
    0x5f, 0x87, 0xb9, 0x88, 0x83, 0x46, 0x3f, 0x98, 0x09, 0x1a, 0x0b, 0xaa,
    0xae,
];

/// The same key as text, in base 64.
pub const IC_ROOT_KEY_BASE64: &'static str =
    "MIGCMB0GDSsGAQQBgtx8BQMBAgEGDCsGAQQBgtx8BQMCAQNhAIFMDm7HH6tYOwi9gTc8JVw8NxsuhIY8mKTx4It0I10U+12cDNVG2WhfkToMCyzFNBWDv0tDkuRn25bWW5u0y3FxEvhHLg1aTRRQX/10hLASkQkcX4e5iINGP5gJGguqrg==";

/// What stands before the key proper in DER: the header of a BLS12-381 public
/// key of 96 bytes.
pub const DER_PREFIX: [u8; 37] = [
    0x30, 0x81, 0x82, 0x30, 0x1d, 0x06, 0x0d, 0x2b, 0x06, 0x01, 0x04, 0x01,
    0x82, 0xdc, 0x7c, 0x05, 0x03, 0x01, 0x02, 0x01, 0x06, 0x0c, 0x2b, 0x06,
    0x01, 0x04, 0x01, 0x82, 0xdc, 0x7c, 0x05, 0x03, 0x02, 0x01, 0x03, 0x61,
    0x00,
];

/// Number of bytes of the key proper.
pub const KEY_LENGTH: usize = 96;

/// What is wrong with a key.
#[derive(Debug, Clone, Copy, PartialEq, Eq, Structural)]
pub enum RootKeyError {
    /// The text is not base 64.
    NotBase64,
    /// The text does not decode to the embedded bytes.
    Mismatch,
    /// The key does not have the length of a DER-encoded BLS12-381 key.
    WrongLength,
    /// The key does not begin with the header of a BLS12-381 key.
    WrongPrefix,
}

/// The bytes that `base64::decode` makes of a text, where it accepts it.
pub uninterp spec fn base64_decoded(text: Seq<char>) -> Option<Seq<u8>>;

/// The model of a byte string that may be missing.
pub open spec fn bytes_model(bytes: Option<Vec<u8>>) -> Option<Seq<u8>> {
    match bytes {
        Some(b) => Some(b@),
        None => None,
    }
}

/// Calls `base64::decode`, which decodes the standard alphabet with padding.
/// The contract names the result; there is none where the crate reports an
/// error.
#[verifier::external_body]
fn decode_base64(text: &str) -> (out: Option<Vec<u8>>)
    ensures
        bytes_model(out) == base64_decoded(text@),
{
    #[allow(deprecated)]
    base64::decode(text).ok()
}

/// The key that a decoded text confirms: the embedded key, where the text
/// decodes to exactly its bytes.
pub open spec fn confirmed(decoded: Option<Seq<u8>>) -> Result<Seq<u8>, RootKeyError> {
    match decoded {
        None => Err(RootKeyError::NotBase64),
        Some(bytes) => if bytes == IC_ROOT_KEY@ {
            Ok(bytes)
        } else {
            Err(RootKeyError::Mismatch)
        },
    }
}

/// The model of a key or of what is wrong with it.
pub open spec fn key_model(r: Result<Vec<u8>, RootKeyError>) -> Result<Seq<u8>, RootKeyError> {
    match r {
        Ok(key) => Ok(key@),
        Err(e) => Err(e),
    }
}

/// Holds what the text decoded to against the embedded key.
pub fn confirm_root_key(decoded: Option<Vec<u8>>) -> (out: Result<Vec<u8>, RootKeyError>)
    ensures
        key_model(out) == confirmed(bytes_model(decoded)),
{
    match decoded {
        None => Err(RootKeyError::NotBase64),
        Some(bytes) => {
            if bytes_eq(bytes.as_slice(), IC_ROOT_KEY.as_slice()) {
                Ok(bytes)
            } else {
                Err(RootKeyError::Mismatch)
            }
        },
    }
}

/// The trust anchor's key in DER, handed out only where its two embedded
/// forms agree.
pub fn root_key() -> (out: Result<Vec<u8>, RootKeyError>)
    ensures
        key_model(out) == confirmed(base64_decoded(IC_ROOT_KEY_BASE64@)),
{
    confirm_root_key(decode_base64(IC_ROOT_KEY_BASE64))
}

/// The key proper inside a DER-encoded key: what follows the header, where
/// the length and the header are right.
pub open spec fn bls_key_of(der: Seq<u8>) -> Result<Seq<u8>, RootKeyError> {
    if der.len() != 133 {
        Err(RootKeyError::WrongLength)
    } else if der.subrange(0, 37) != DER_PREFIX@ {
        Err(RootKeyError::WrongPrefix)
    } else {
        Ok(der.subrange(37, 133))
    }
}

/// Takes the key proper out of a DER-encoded key.
pub fn extract_bls_key(der: &[u8]) -> (out: Result<Vec<u8>, RootKeyError>)
    ensures
        key_model(out) == bls_key_of(der@),
{
    if der.len() != 133 {
        return Err(RootKeyError::WrongLength);
    }
    let head = vstd::slice::slice_subrange(der, 0, 37);
    if !bytes_eq(head, DER_PREFIX.as_slice()) {
        return Err(RootKeyError::WrongPrefix);
    }
    let key = copy_bytes(vstd::slice::slice_subrange(der, 37, 133));
    Ok(key)
}

/// The key proper of the trust anchor.
pub open spec fn root_bls_key() -> Seq<u8> {
    IC_ROOT_KEY@.subrange(37, 133)
}

/// The embedded key begins with the header, and what follows it is the key
/// proper, of 96 bytes.
pub proof fn lemma_root_key_is_der()
    ensures
        bls_key_of(IC_ROOT_KEY@) == Ok::<Seq<u8>, RootKeyError>(root_bls_key()),
        root_bls_key().len() == KEY_LENGTH,
{
    assert(IC_ROOT_KEY@.subrange(0, 37) =~= DER_PREFIX@);
}

} // verus!
