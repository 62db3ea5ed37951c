//! Verification of a certificate against the trust anchor.

use vstd::prelude::*;
use crate::bytes::{append_bytes, copy_bytes};
use crate::digest::tree_digest;
use crate::lookup::{path_lookup, Field, Lookup, LookupResult, TIME_LABEL};
use crate::root_key::{
    base64_decoded, bls_key_of, confirmed, extract_bls_key, lemma_root_key_is_der, root_bls_key,
    root_key, RootKeyError, IC_ROOT_KEY_BASE64,
};
use crate::timestamp::{decode_leb128, leb128_unsigned};
use crate::tree::{HashTree, Tree};

verus! {

/// What stands before the digest in the message that is signed: the length
/// byte 13, then `ic-state-root`.
pub const STATE_ROOT_TAG: [u8; 14] = [
    13, 0x69, 0x63, 0x2d, 0x73, 0x74, 0x61, 0x74, 0x65, 0x2d, 0x72, 0x6f, 0x6f, 0x74,
];

/// Model of a certificate.
pub struct CertificateModel {
    /// The hash tree.
    pub tree: Tree,
    /// The signature over the tree's digest.
    pub signature: Seq<u8>,
}

/// A signed digest over a hash tree.
#[derive(Debug, PartialEq, Eq)]
pub struct Certificate {
    /// The hash tree.
    pub tree: HashTree,
    /// The signature over the tree's digest.
    pub signature: Vec<u8>,
}

impl View for Certificate {
    type V = CertificateModel;

    open spec fn view(&self) -> CertificateModel {
        CertificateModel { tree: self.tree@, signature: self.signature@ }
    }
}

/// The timestamps, in nanoseconds, that a verifier accepts: those from
/// `earliest` to `latest`, both included.
#[derive(Debug, Clone, Copy, PartialEq, Eq, Structural)]
pub struct ValidityWindow {
    /// The first timestamp accepted.
    pub earliest: u64,
    /// The last timestamp accepted.
    pub latest: u64,
}

/// Why a certificate is not accepted.
#[derive(Debug, Clone, Copy, PartialEq, Eq, Structural)]
pub enum VerifyError {
    /// The signature does not validate against the trust anchor.
    SignatureInvalid,
    /// The certificate's timestamp lies outside the accepted window.
    ExpiredCertificate,
    /// The tree proves that the field is not there.
    MissingField(Field),
    /// A pruned branch hides the field.
    LookupUnknown(Field),
    /// The path to the field ends at a node that holds no value.
    TreeMalformed(Field),
    /// The leaf `time` does not hold a number.
    MalformedTime,
}

/// Whether `ic_verify_bls_signature` accepts `signature` as a signature of
/// `message` under the key `key`.
pub uninterp spec fn bls_accepts(signature: Seq<u8>, message: Seq<u8>, key: Seq<u8>) -> bool;

/// Calls `ic_verify_bls_signature::verify_bls_signature` and tells whether it
/// returned `Ok`. The contract names the answer.
#[verifier::external_body]
fn bls_verify(signature: &[u8], message: &[u8], key: &[u8]) -> (out: bool)
    ensures
        out == bls_accepts(signature@, message@, key@),
{
    ic_verify_bls_signature::verify_bls_signature(signature, message, key).is_ok()
}

/// The message that is signed for a tree with the digest `digest`.
pub open spec fn signed_message(digest: Seq<u8>) -> Seq<u8> {
    STATE_ROOT_TAG@ + digest
}

/// The verdict on a timestamp leaf under a window.
pub open spec fn time_verdict(window: ValidityWindow, time: Lookup) -> Result<(), VerifyError> {
    match time {
        Lookup::Found(bytes) => match leb128_unsigned(bytes) {
            Some(t) => if window.earliest <= t <= window.latest {
                Ok(())
            } else {
                Err(VerifyError::ExpiredCertificate)
            },
            None => Err(VerifyError::MalformedTime),
        },
        Lookup::Absent => Err(VerifyError::MissingField(Field::Time)),
        Lookup::Unknown => Err(VerifyError::LookupUnknown(Field::Time)),
        Lookup::Error => Err(VerifyError::TreeMalformed(Field::Time)),
    }
}

/// The verdict on a certificate, from whether its signature validates and
/// from what the lookup of `time` gave. An invalid signature decides alone;
/// without a window the timestamp is not read.
pub open spec fn verdict(signature_valid: bool, window: Option<ValidityWindow>, time: Lookup) -> Result<
    (),
    VerifyError,
> {
    if !signature_valid {
        Err(VerifyError::SignatureInvalid)
    } else {
        match window {
            None => Ok(()),
            Some(w) => time_verdict(w, time),
        }
    }
}

/// Decides on a certificate, given whether its signature validates and what
/// the lookup of `time` gave.
pub fn decide(signature_valid: bool, window: Option<ValidityWindow>, time: &LookupResult) -> (out:
    Result<(), VerifyError>)
    ensures
        out == verdict(signature_valid, window, time@),
{
    if !signature_valid {
        return Err(VerifyError::SignatureInvalid);
    }
    let w = match window {
        None => {
            return Ok(());
        },
        Some(w) => w,
    };
    match time {
        LookupResult::Found(bytes) => match decode_leb128(bytes.as_slice()) {
            Some(t) => {
                if w.earliest <= t && t <= w.latest {
                    Ok(())
                } else {
                    Err(VerifyError::ExpiredCertificate)
                }
            },
            None => Err(VerifyError::MalformedTime),
        },
        LookupResult::Absent => Err(VerifyError::MissingField(Field::Time)),
        LookupResult::Unknown => Err(VerifyError::LookupUnknown(Field::Time)),
        LookupResult::Error => Err(VerifyError::TreeMalformed(Field::Time)),
    }
}

/// Checks certificates against one trust anchor.
pub struct Verifier {
    key: Vec<u8>,
    window: Option<ValidityWindow>,
}

/// The verdict of a verifier with the key `key` and the window `window` on a
/// certificate.
pub open spec fn verification(key: Seq<u8>, window: Option<ValidityWindow>, cert: CertificateModel) -> Result<
    (),
    VerifyError,
> {
    verdict(
        bls_accepts(cert.signature, signed_message(tree_digest(cert.tree)), key),
        window,
        path_lookup(cert.tree, seq![TIME_LABEL@]),
    )
}

impl Verifier {
    /// The key proper of the trust anchor.
    pub closed spec fn key(&self) -> Seq<u8> {
        self.key@
    }

    /// The window of accepted timestamps, if one is set.
    pub closed spec fn window(&self) -> Option<ValidityWindow> {
        self.window
    }

    /// A verifier for the embedded trust anchor, made only where the key's
    /// two embedded forms agree. It accepts every timestamp.
    pub fn new() -> (out: Result<Verifier, RootKeyError>)
        ensures
            match out {
                Ok(v) => confirmed(base64_decoded(IC_ROOT_KEY_BASE64@)) is Ok && v.key()
                    == root_bls_key() && v.window() is None,
                Err(e) => confirmed(base64_decoded(IC_ROOT_KEY_BASE64@)) == Err::<
                    Seq<u8>,
                    RootKeyError,
                >(e),
            },
    {
        match root_key() {
            Ok(der) => {
                proof {
                    lemma_root_key_is_der();
                }
                Verifier::with_root_key(der.as_slice())
            },
            Err(e) => Err(e),
        }
    }

    /// A verifier for the trust anchor given in DER. It accepts every
    /// timestamp.
    pub fn with_root_key(der: &[u8]) -> (out: Result<Verifier, RootKeyError>)
        ensures
            match out {
                Ok(v) => bls_key_of(der@) == Ok::<Seq<u8>, RootKeyError>(v.key()) && v.window()
                    is None,
                Err(e) => bls_key_of(der@) == Err::<Seq<u8>, RootKeyError>(e),
            },
    {
        match extract_bls_key(der) {
            Ok(key) => Ok(Verifier { key, window: None }),
            Err(e) => Err(e),
        }
    }

    /// The same verifier with a window of accepted timestamps.
    pub fn with_window(self, window: ValidityWindow) -> (out: Verifier)
        ensures
            out.key() == self.key(),
            out.window() == Some(window),
    {
        Verifier { key: self.key, window: Some(window) }
    }

    /// Verifies a certificate: its tree's digest must be signed by the trust
    /// anchor itself, and, where a window is set, the leaf `time` must hold a
    /// timestamp inside it. A certificate that the trust anchor signed speaks
    /// for every signer, so `expected_signer` does not enter the verdict.
    pub fn verify(&self, certificate: &Certificate, expected_signer: &[u8]) -> (out: Result<
        (),
        VerifyError,
    >)
        ensures
            out == verification(self.key(), self.window(), certificate@),
    {
        let digest = certificate.tree.digest();
        let mut message: Vec<u8> = copy_bytes(STATE_ROOT_TAG.as_slice());
        append_bytes(&mut message, digest.as_slice());
        let valid = bls_verify(
            certificate.signature.as_slice(),
            message.as_slice(),
            self.key.as_slice(),
        );
        if !valid {
            return Err(VerifyError::SignatureInvalid);
        }
        if self.window.is_none() {
            return Ok(());
        }
        let mut path: Vec<Vec<u8>> = Vec::new();
        path.push(copy_bytes(TIME_LABEL.as_slice()));
        assert(path@[0].deep_view() =~= TIME_LABEL@);
        assert(path.deep_view() =~= seq![TIME_LABEL@]);
        let time = certificate.tree.lookup_path(&path);
        decide(valid, self.window, &time)
    }
}

/// One signature validates under one key for two different messages.
pub open spec fn signature_serves_twice(signature: Seq<u8>, key: Seq<u8>) -> bool {
    exists|m1: Seq<u8>, m2: Seq<u8>|
        m1 != m2 && bls_accepts(signature, m1, key) && bls_accepts(signature, m2, key)
}

/// Tampering is noticed: where one verifier accepts two certificates with the
/// same signature, their trees agree, unless the hash function collides or
/// the signature validates for two different messages.
pub proof fn law_tampering_is_noticed(
    key: Seq<u8>,
    window: Option<ValidityWindow>,
    genuine: CertificateModel,
    tampered: CertificateModel,
)
    requires
        genuine.tree.well_formed(),
        tampered.tree.well_formed(),
        genuine.signature == tampered.signature,
        verification(key, window, genuine) is Ok,
        verification(key, window, tampered) is Ok,
    ensures
        crate::digest::agree(genuine.tree, tampered.tree) || crate::digest::hash_collides()
            || signature_serves_twice(genuine.signature, key),
{
    let d1 = tree_digest(genuine.tree);
    let d2 = tree_digest(tampered.tree);
    if d1 == d2 {
        crate::digest::law_equal_digests_agree(genuine.tree, tampered.tree);
    } else {
        let m1 = signed_message(d1);
        let m2 = signed_message(d2);
        assert(m1 != m2) by {
            crate::digest::lemma_digest_len(genuine.tree);
            crate::digest::lemma_digest_len(tampered.tree);
            assert(d1 =~= m1.subrange(14, 46));
            assert(d2 =~= m2.subrange(14, 46));
        }
        assert(bls_accepts(genuine.signature, m1, key));
        assert(bls_accepts(genuine.signature, m2, key));
    }
}

} // verus!
