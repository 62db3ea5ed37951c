//! The persisted form of a certificate: the CBOR that `serde_cbor` writes and
//! reads for a certificate of `ic_certification`.

use vstd::prelude::*;
use crate::bytes::bytes_eq;
use crate::outside::{
    from_outside, outside_node, outside_tree, to_outside, OutsideNode, OutsideTree,
};
use crate::root_key::bytes_model;
use crate::tree::{HashTree, Tree};
use crate::verify::{Certificate, CertificateModel};

verus! {

/// Why bytes are not taken for a certificate.
#[derive(Debug, Clone, Copy, PartialEq, Eq, Structural)]
pub enum DecodeError {
    /// The bytes are not the CBOR of a certificate.
    Malformed,
    /// The certificate carries a delegation, which this library does not
    /// follow.
    Delegated,
}

/// Model of what the bytes of a certificate decode to.
pub struct DecodedModel {
    /// The hash tree.
    pub tree: Tree,
    /// The signature over the tree's digest.
    pub signature: Seq<u8>,
    /// Whether the certificate carries a delegation.
    pub delegated: bool,
}

/// What the bytes of a certificate decode to, the tree still in the form of
/// `ic_certification`.
pub struct Decoded {
    /// The root of the hash tree.
    pub tree: OutsideNode,
    /// The signature over the tree's digest.
    pub signature: Vec<u8>,
    /// Whether the certificate carries a delegation.
    pub delegated: bool,
}

impl Decoded {
    /// The model of the decoded parts.
    pub open spec fn model(self) -> DecodedModel {
        DecodedModel {
            tree: outside_node(self.tree),
            signature: self.signature@,
            delegated: self.delegated,
        }
    }
}

/// The model of decoded parts that may be missing.
pub open spec fn decoded_model(parts: Option<Decoded>) -> Option<DecodedModel> {
    match parts {
        Some(p) => Some(p.model()),
        None => None,
    }
}

/// The bytes that `serde_cbor::to_vec` writes for a certificate of
/// `ic_certification` with this tree and signature and without a delegation,
/// where it writes any.
pub uninterp spec fn cbor_encoded(tree: Tree, signature: Seq<u8>) -> Option<Seq<u8>>;

/// What `serde_cbor::from_slice` reads from bytes as a certificate of
/// `ic_certification`, where it reads one.
pub uninterp spec fn cbor_decoded(bytes: Seq<u8>) -> Option<DecodedModel>;

/// Calls `serde_cbor::to_vec` on a certificate of `ic_certification` made of
/// the tree and the signature, without a delegation. The contract names the
/// bytes; there are none where the crate reports an error.
#[verifier::external_body]
fn outside_encode(tree: OutsideTree, signature: &Vec<u8>) -> (out: Option<Vec<u8>>)
    ensures
        bytes_model(out) == cbor_encoded(outside_tree(tree), signature@),
{
    let certificate = ic_certification::Certificate {
        tree: tree.inner,
        signature: signature.clone(),
        delegation: None,
    };
    serde_cbor::to_vec(&certificate).ok()
}

/// Calls `serde_cbor::from_slice` for a certificate of `ic_certification` and
/// hands out its parts. The contract names them; there are none where the
/// crate reports an error.
#[verifier::external_body]
fn outside_decode(bytes: &[u8]) -> (out: Option<Decoded>)
    ensures
        decoded_model(out) == cbor_decoded(bytes@),
{
    match serde_cbor::from_slice::<ic_certification::Certificate>(bytes) {
        Ok(certificate) => Some(
            Decoded {
                tree: OutsideNode { inner: certificate.tree.into() },
                signature: certificate.signature,
                delegated: certificate.delegation.is_some(),
            },
        ),
        Err(_) => None,
    }
}

/// The certificate that a tree and a signature make, if they make one: with
/// a delegation beside them they make none.
pub open spec fn certificate_from(tree: Tree, signature: Seq<u8>, delegated: bool) -> Result<
    CertificateModel,
    DecodeError,
> {
    if delegated {
        Err(DecodeError::Delegated)
    } else {
        Ok(CertificateModel { tree, signature })
    }
}

/// The certificate that decoded parts make, if they make one.
pub open spec fn decoding(parts: Option<DecodedModel>) -> Result<CertificateModel, DecodeError> {
    match parts {
        None => Err(DecodeError::Malformed),
        Some(p) => certificate_from(p.tree, p.signature, p.delegated),
    }
}

/// The model of a decoding's outcome.
pub open spec fn certificate_model(r: Result<Certificate, DecodeError>) -> Result<
    CertificateModel,
    DecodeError,
> {
    match r {
        Ok(c) => Ok(c@),
        Err(e) => Err(e),
    }
}

/// Makes a certificate of a tree and a signature that were decoded;
/// `delegated` says whether a delegation stood beside them.
pub fn certificate_of(tree: HashTree, signature: Vec<u8>, delegated: bool) -> (out: Result<
    Certificate,
    DecodeError,
>)
    ensures
        certificate_model(out) == certificate_from(tree@, signature@, delegated),
{
    if delegated {
        Err(DecodeError::Delegated)
    } else {
        Ok(Certificate { tree, signature })
    }
}

/// Reads a certificate from its persisted form.
pub fn decode_certificate(bytes: &[u8]) -> (out: Result<Certificate, DecodeError>)
    ensures
        certificate_model(out) == decoding(cbor_decoded(bytes@)),
{
    match outside_decode(bytes) {
        None => Err(DecodeError::Malformed),
        Some(parts) => {
            let delegated = parts.delegated;
            let signature = parts.signature;
            certificate_of(from_outside(parts.tree), signature, delegated)
        },
    }
}

/// The persisted form of a certificate: the bytes that the encoder writes for
/// it, where it writes any and they decode to the same certificate.
pub open spec fn persisted(cert: CertificateModel) -> Option<Seq<u8>> {
    match cbor_encoded(cert.tree, cert.signature) {
        Some(bytes) => if decoding(cbor_decoded(bytes)) == Ok::<CertificateModel, DecodeError>(
            cert,
        ) {
            Some(bytes)
        } else {
            None
        },
        None => None,
    }
}

/// Tells whether bytes decode to the certificate given.
fn decodes_to(bytes: &[u8], certificate: &Certificate) -> (out: bool)
    ensures
        out == (decoding(cbor_decoded(bytes@)) == Ok::<CertificateModel, DecodeError>(
            certificate@,
        )),
{
    match decode_certificate(bytes) {
        Ok(read) => {
            read.tree.same_as(&certificate.tree) && bytes_eq(
                read.signature.as_slice(),
                certificate.signature.as_slice(),
            )
        },
        Err(_) => false,
    }
}

/// Writes a certificate in its persisted form, and hands the bytes out only
/// after reading them back: there are none where the encoder reports an
/// error, and none where the bytes do not decode to the same certificate.
pub fn encode_certificate(certificate: &Certificate) -> (out: Option<Vec<u8>>)
    ensures
        bytes_model(out) == persisted(certificate@),
{
    match outside_encode(to_outside(&certificate.tree), &certificate.signature) {
        Some(bytes) => {
            if decodes_to(bytes.as_slice(), certificate) {
                Some(bytes)
            } else {
                None
            }
        },
        None => None,
    }
}

/// Decoding gives back what was encoded: the persisted form of a certificate
/// decodes to that certificate.
pub proof fn law_decoding_gives_back_what_was_encoded(cert: CertificateModel, bytes: Seq<u8>)
    requires
        persisted(cert) == Some(bytes),
    ensures
        decoding(cbor_decoded(bytes)) == Ok::<CertificateModel, DecodeError>(cert),
{
}

} // verus!
