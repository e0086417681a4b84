//! The verdict on an encoded attestation document.

use crate::binding::{binding_user_data, BindingView, NitroBinding};
use crate::chain::verify_certificate_chain;
use crate::claims::verify_claims;
use crate::cose::{decode_sign1, Sign1};
use crate::crypto::ecdsa_p384_verify;
use crate::document::{parse_document, AttestationDoc, AttestationDocView};
use crate::error::NitroError;
use crate::policy::{NitroPolicy, PolicyView};
use crate::time::SystemTime;
use vstd::prelude::*;

verus! {

/// The most bytes that an encoded document may have.
pub const MAX_DOCUMENT_LEN: usize = 16 * 1024;

/// SHA-256 fingerprint of AWS Nitro Enclaves Root-G1, published by AWS.
pub const AWS_NITRO_ROOT_G1_SHA256: [u8; 32] = [
    0x64, 0x1a, 0x03, 0x21, 0xa3, 0xe2, 0x44, 0xef, 0xe4, 0x56, 0x46, 0x31, 0x95, 0xd6, 0x06, 0x31,
    0x7e, 0xd7, 0xcd, 0xcc, 0x3c, 0x17, 0x56, 0xe0, 0x98, 0x93, 0xf3, 0xc6, 0x8f, 0x79, 0xbb, 0x5b,
];

/// The document inside an encoded one that is well-formed and authentic at `now`: its chain leads
/// to the trust anchor, and the key at the end of that chain signed it. Otherwise why it is not.
pub open spec fn authentic_document(
    encoded: Seq<u8>,
    now: int,
    trust_anchor: Seq<u8>,
) -> Result<AttestationDocView, NitroError> {
    match crate::cose::cose_sign1(encoded) {
        None => Err(NitroError::MalformedCose),
        Some(sign1) => match sign1.payload {
            None => Err(NitroError::MissingPayload),
            Some(payload) => match crate::document::attestation_document(payload) {
                None => Err(NitroError::MalformedDocument),
                Some(document) => match crate::chain::document_chain_outcome(
                    document,
                    now,
                    trust_anchor,
                ) {
                    Err(error) => Err(error),
                    Ok(key) => if crate::crypto::ecdsa_p384_valid(
                        key,
                        sign1.signed,
                        sign1.signature,
                    ) {
                        Ok(document)
                    } else {
                        Err(NitroError::InvalidCoseSignature)
                    },
                },
            },
        },
    }
}

/// The verdict on an encoded document: the document, or why it is refused.
pub open spec fn document_outcome(
    encoded: Seq<u8>,
    policy: PolicyView,
    binding: BindingView,
    now: int,
    trust_anchor: Seq<u8>,
) -> Result<AttestationDocView, NitroError> {
    if !crate::policy::is_complete(policy.pcrs) {
        Err(NitroError::IncompletePolicy)
    } else if encoded.len() > MAX_DOCUMENT_LEN {
        Err(NitroError::DocumentTooLarge)
    } else {
        match authentic_document(encoded, now, trust_anchor) {
            Err(error) => Err(error),
            Ok(document) => match crate::claims::claims_outcome(
                document,
                policy,
                binding,
                crate::binding::bound_user_data(binding),
                now,
            ) {
                Err(error) => Err(error),
                Ok(()) => Ok(document),
            },
        }
    }
}

/// The view of a verdict that may be a document.
pub open spec fn document_view(outcome: Result<AttestationDoc, NitroError>) -> Result<
    AttestationDocView,
    NitroError,
> {
    match outcome {
        Ok(document) => Ok(document@),
        Err(error) => Err(error),
    }
}

/// What is found on the way from an encoded document to its signature.
#[derive(Debug)]
pub struct DocumentEvidence {
    /// The COSE_Sign1 structure, if there is one.
    pub sign1: Option<Sign1>,
    /// The document in its payload, if there is one.
    pub document: Option<AttestationDoc>,
    /// The bits of the key at the end of the document's chain, or why the chain is refused.
    pub key: Result<Vec<u8>, NitroError>,
    /// Whether that key signed the structure.
    pub signature_valid: bool,
}

/// The verdict on the authenticity of a document. The first thing that is missing decides.
pub fn judge_document(evidence: DocumentEvidence) -> (outcome: Result<AttestationDoc, NitroError>)
    ensures
        match (evidence.sign1, evidence.document, evidence.key) {
            (None, _, _) => outcome == Err::<AttestationDoc, NitroError>(NitroError::MalformedCose),
            (Some(sign1), _, _) if sign1.payload is None => outcome == Err::<
                AttestationDoc,
                NitroError,
            >(NitroError::MissingPayload),
            (_, None, _) => outcome == Err::<AttestationDoc, NitroError>(
                NitroError::MalformedDocument,
            ),
            (_, _, Err(error)) => outcome == Err::<AttestationDoc, NitroError>(error),
            (_, Some(document), Ok(_)) => if evidence.signature_valid {
                outcome == Ok::<AttestationDoc, NitroError>(document)
            } else {
                outcome == Err::<AttestationDoc, NitroError>(NitroError::InvalidCoseSignature)
            },
        },
{
    match evidence.sign1 {
        None => return Err(NitroError::MalformedCose),
        Some(sign1) => if sign1.payload.is_none() {
            return Err(NitroError::MissingPayload);
        },
    }
    match (evidence.document, evidence.key) {
        (None, _) => Err(NitroError::MalformedDocument),
        (Some(_), Err(error)) => Err(error),
        (Some(document), Ok(_)) => if evidence.signature_valid {
            Ok(document)
        } else {
            Err(NitroError::InvalidCoseSignature)
        },
    }
}

/// Whether the tag byte at the head of an encoding, if there is one, has no say in what is found.
/// Unless the encoding is no COSE structure at all, the bytes after the tag give the same result.
pub open spec fn tag_has_no_say(
    encoded: Seq<u8>,
    verdict: Result<AttestationDocView, NitroError>,
    untagged_verdict: Result<AttestationDocView, NitroError>,
) -> bool {
    encoded.len() > 0 && encoded[0] == crate::cose::SIGN1_TAG && crate::cose::cose_sign1(encoded)
        is Some ==> verdict == untagged_verdict
}

/// Decodes a document and verifies that it is authentic.
pub fn authenticate_document(
    encoded: &[u8],
    now: SystemTime,
    trust_anchor_fingerprint: [u8; 32],
) -> (outcome: Result<AttestationDoc, NitroError>)
    requires
        encoded@.len() <= MAX_DOCUMENT_LEN,
    ensures
        document_view(outcome) == authentic_document(
            encoded@,
            now.unix_nanos(),
            trust_anchor_fingerprint@,
        ),
        tag_has_no_say(
            encoded@,
            document_view(outcome),
            authentic_document(encoded@.skip(1), now.unix_nanos(), trust_anchor_fingerprint@),
        ),
{
    let sign1 = decode_sign1(encoded);
    let document = match &sign1 {
        Some(Sign1 { payload: Some(payload), .. }) => parse_document(payload.as_slice()),
        _ => None,
    };
    let key = match &document {
        Some(document) => verify_certificate_chain(document, now, trust_anchor_fingerprint),
        None => Err(NitroError::MalformedDocument),
    };
    let signature_valid = match (&sign1, &key) {
        (Some(sign1), Ok(key)) => ecdsa_p384_verify(
            key.as_slice(),
            sign1.signed.as_slice(),
            sign1.signature.as_slice(),
        ),
        _ => false,
    };
    judge_document(DocumentEvidence { sign1, document, key, signature_valid })
}

/// Verifies a document against a trust anchor of the caller's choice, which is the SHA-256
/// fingerprint of a root certificate.
pub fn verify_document_with_trust_anchor(
    encoded: &[u8],
    policy: &NitroPolicy,
    binding: NitroBinding<'_>,
    now: SystemTime,
    trust_anchor_fingerprint: [u8; 32],
) -> (outcome: Result<AttestationDoc, NitroError>)
    ensures
        document_view(outcome) == document_outcome(
            encoded@,
            policy@,
            binding@,
            now.unix_nanos(),
            trust_anchor_fingerprint@,
        ),
        encoded@.len() <= MAX_DOCUMENT_LEN ==> tag_has_no_say(
            encoded@,
            document_view(outcome),
            document_outcome(
                encoded@.skip(1),
                policy@,
                binding@,
                now.unix_nanos(),
                trust_anchor_fingerprint@,
            ),
        ),
{
    match policy.validate() {
        Err(error) => return Err(error),
        Ok(()) => {},
    }
    if encoded.len() > MAX_DOCUMENT_LEN {
        return Err(NitroError::DocumentTooLarge);
    }
    let document = match authenticate_document(encoded, now, trust_anchor_fingerprint) {
        Err(error) => return Err(error),
        Ok(document) => document,
    };
    let user_data = binding_user_data(binding.clone());
    match verify_claims(&document, policy, &binding, user_data.as_slice(), now) {
        Err(error) => Err(error),
        Ok(()) => Ok(document),
    }
}

/// Verify AWS's COSE signature, certificate chain, complete PCR policy, fresh client nonce, and
/// the SPKI/user-data channel bindings.
pub fn verify_document(
    encoded: &[u8],
    policy: &NitroPolicy,
    binding: NitroBinding<'_>,
    now: SystemTime,
) -> (outcome: Result<AttestationDoc, NitroError>)
    ensures
        document_view(outcome) == document_outcome(
            encoded@,
            policy@,
            binding@,
            now.unix_nanos(),
            AWS_NITRO_ROOT_G1_SHA256@,
        ),
        encoded@.len() <= MAX_DOCUMENT_LEN ==> tag_has_no_say(
            encoded@,
            document_view(outcome),
            document_outcome(
                encoded@.skip(1),
                policy@,
                binding@,
                now.unix_nanos(),
                AWS_NITRO_ROOT_G1_SHA256@,
            ),
        ),
{
    verify_document_with_trust_anchor(encoded, policy, binding, now, AWS_NITRO_ROOT_G1_SHA256)
}

} // verus!
