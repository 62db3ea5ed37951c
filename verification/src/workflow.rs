//! The offline half of the workflow: a certificate that was fetched and
//! persisted earlier is verified against the trust anchor, and the text that
//! the canister replied is taken out of it.

use vstd::prelude::*;
use crate::request_status::{
    extraction, ExtractError, ExtractFailure, RequestStatus, RequestStatusModel,
};
use crate::root_key::{
    base64_decoded, confirmed, root_bls_key, RootKeyError, IC_ROOT_KEY_BASE64,
};
use crate::verify::{
    verification, Certificate, CertificateModel, ValidityWindow, Verifier, VerifyError,
};

verus! {

/// The identity of the canister whose reply is expected, as raw bytes: the
/// principal `rrkah-fqaaa-aaaaa-aaaaq-cai`.
pub const GOVERNANCE_CANISTER: [u8; 10] = [0, 0, 0, 0, 0, 0, 0, 1, 1, 1];

/// Model of the stage at which a certificate fails.
pub enum ProposalFailure {
    /// The trust anchor's two embedded forms disagree.
    RootKey(RootKeyError),
    /// The certificate is not accepted.
    Verify(VerifyError),
    /// The tree does not show one request's status.
    Extract(ExtractFailure),
    /// The reply is not the encoding of one text.
    Payload,
}

/// The stage at which a certificate fails.
#[derive(Debug, PartialEq, Eq)]
pub enum ProposalError {
    /// The trust anchor's two embedded forms disagree.
    RootKey(RootKeyError),
    /// The certificate is not accepted.
    Verify(VerifyError),
    /// The tree does not show one request's status.
    Extract(ExtractError),
    /// The reply is not the encoding of one text.
    Payload,
}

impl View for ProposalError {
    type V = ProposalFailure;

    open spec fn view(&self) -> ProposalFailure {
        match self {
            ProposalError::RootKey(e) => ProposalFailure::RootKey(*e),
            ProposalError::Verify(e) => ProposalFailure::Verify(*e),
            ProposalError::Extract(e) => ProposalFailure::Extract(e@),
            ProposalError::Payload => ProposalFailure::Payload,
        }
    }
}

/// Calls `candid::decode_args` for a tuple of one `String`, and hands out the
/// text where the crate read one. Whether it reads one depends on the bytes
/// and on the stack that is left to the calling thread, so the contract says
/// nothing of the result.
#[verifier::external_body]
fn decode_text(bytes: &[u8]) -> (out: Option<String>) {
    match candid::decode_args::<(String,)>(bytes) {
        Ok(args) => Some(args.0),
        Err(_) => None,
    }
}

/// The window that accepts every timestamp.
pub open spec fn every_time() -> ValidityWindow {
    ValidityWindow { earliest: 0, latest: u64::MAX }
}

/// The status whose reply is handed to the decoder: the status itself, where
/// it is `replied`.
pub open spec fn replied_status(status: RequestStatusModel) -> Result<
    RequestStatusModel,
    ProposalFailure,
> {
    if status.status != "replied"@ {
        Err(ProposalFailure::Extract(ExtractFailure::UnexpectedStatus(status.status)))
    } else {
        Ok(status)
    }
}

/// What a persisted certificate yields before its reply is decoded. The
/// stages fail in this order: the trust anchor's self-check, the signature
/// and the timestamp, the extraction, the status.
pub open spec fn before_payload(cert: CertificateModel) -> Result<
    RequestStatusModel,
    ProposalFailure,
> {
    match confirmed(base64_decoded(IC_ROOT_KEY_BASE64@)) {
        Err(e) => Err(ProposalFailure::RootKey(e)),
        Ok(_) => match verification(root_bls_key(), Some(every_time()), cert) {
            Err(e) => Err(ProposalFailure::Verify(e)),
            Ok(_) => match extraction(cert.tree) {
                Err(e) => Err(ProposalFailure::Extract(e)),
                Ok(status) => replied_status(status),
            },
        },
    }
}

/// The outcomes that the stages before the decoder leave open: the failure
/// of the first stage that fails, and, where none fails, a text or the
/// failure of the payload.
pub open spec fn allowed(
    stages: Result<RequestStatusModel, ProposalFailure>,
    outcome: Result<Seq<char>, ProposalFailure>,
) -> bool {
    match stages {
        Err(e) => outcome == Err::<Seq<char>, ProposalFailure>(e),
        Ok(_) => outcome is Ok || outcome == Err::<Seq<char>, ProposalFailure>(
            ProposalFailure::Payload,
        ),
    }
}

/// The model of the workflow's outcome.
pub open spec fn proposal_model(r: Result<String, ProposalError>) -> Result<
    Seq<char>,
    ProposalFailure,
> {
    match r {
        Ok(text) => Ok(text@),
        Err(e) => Err(e@),
    }
}

/// The outcome for what the decoder gave: its text, or the failure of the
/// payload where it gave none.
pub fn payload_outcome(decoded: Option<String>) -> (out: Result<String, ProposalError>)
    ensures
        match decoded {
            Some(text) => out == Ok::<String, ProposalError>(text),
            None => out == Err::<String, ProposalError>(ProposalError::Payload),
        },
{
    match decoded {
        Some(text) => Ok(text),
        None => Err(ProposalError::Payload),
    }
}

/// Decodes the reply of a request that was replied to. With another status
/// nothing is decoded, and the result names that status.
pub fn decode_reply(status: RequestStatus) -> (out: Result<String, ProposalError>)
    ensures
        allowed(replied_status(status@), proposal_model(out)),
{
    match status.reply_payload() {
        Err(e) => Err(ProposalError::Extract(e)),
        Ok(reply) => payload_outcome(decode_text(reply.as_slice())),
    }
}

/// Verifies a persisted certificate against the embedded trust anchor, with
/// every timestamp accepted, and hands out the text that the canister
/// replied. Nothing is extracted from a certificate that was not accepted,
/// and nothing is decoded but the reply of a request that was replied to.
pub fn verify_signed_proposal(certificate: &Certificate) -> (out: Result<String, ProposalError>)
    ensures
        allowed(before_payload(certificate@), proposal_model(out)),
{
    let verifier = match Verifier::new() {
        Ok(v) => v,
        Err(e) => {
            return Err(ProposalError::RootKey(e));
        },
    };
    let verifier = verifier.with_window(ValidityWindow { earliest: 0, latest: u64::MAX });
    match verifier.verify(certificate, GOVERNANCE_CANISTER.as_slice()) {
        Ok(_) => {},
        Err(e) => {
            return Err(ProposalError::Verify(e));
        },
    }
    match RequestStatus::try_from_tree(&certificate.tree) {
        Err(e) => Err(ProposalError::Extract(e)),
        Ok(status) => decode_reply(status),
    }
}

/// A text comes only out of a certificate that was accepted and that shows
/// a request that was replied to: where the outcome is a text, the two forms
/// of the trust anchor agree, the certificate verifies, and the status that
/// is extracted is `replied`.
pub proof fn law_text_only_from_accepted_certificate(
    cert: CertificateModel,
    outcome: Result<Seq<char>, ProposalFailure>,
)
    requires
        allowed(before_payload(cert), outcome),
        outcome is Ok,
    ensures
        confirmed(base64_decoded(IC_ROOT_KEY_BASE64@)) is Ok,
        verification(root_bls_key(), Some(every_time()), cert) is Ok,
        extraction(cert.tree) matches Ok(status) && status.status == "replied"@,
{
}

} // verus!
