//! The cryptographic hash function underlying every tree digest.

use vstd::prelude::*;

verus! {

/// The SHA-256 digest of a byte string, as computed by `sha2::Sha256`.
pub uninterp spec fn sha256(data: Seq<u8>) -> [u8; 32];

/// Calls `sha2::Sha256::digest` on `data`. The contract names the result
/// `sha256(data@)`; that a SHA-256 digest has 32 bytes is carried by the
/// array type.
#[verifier::external_body]
pub(crate) fn sha256_bytes(data: &[u8]) -> (out: [u8; 32])
    ensures
        out == sha256(data@),
{
    <sha2::Sha256 as sha2::Digest>::digest(data).into()
}

} // verus!
