//! Why evidence is refused, or cannot be produced.

use crate::text::push_decimal;
use vstd::prelude::*;

verus! {

/// Why an attestation document is refused, or could not be issued.
#[derive(Debug, PartialEq, Eq)]
pub enum NitroError {
    /// The policy allows no value for some PCR, or names no PCR at all.
    IncompletePolicy,
    /// The encoded document is longer than the protocol allows.
    DocumentTooLarge,
    /// The evidence is no COSE_Sign1 structure.
    MalformedCose,
    /// The COSE_Sign1 structure has no payload.
    MissingPayload,
    /// The payload is no attestation document.
    MalformedDocument,
    /// The COSE signature was not made by the attested key.
    InvalidCoseSignature,
    /// The document is for another nonce, or for none.
    NonceMismatch,
    /// The nonce is too short to be fresh.
    NonceTooShort,
    /// The document is for another TLS key, or for none.
    SpkiMismatch,
    /// The document's user data does not bind protocol, nonce and TLS key.
    UserDataMismatch,
    /// The document comes from another module than the policy names.
    ModuleIdMismatch,
    /// A point in time cannot be placed on the clock.
    TimestampInvalid,
    /// The document was made after the present.
    TimestampInFuture,
    /// The document is older than the policy allows.
    Stale,
    /// The document and the policy name different PCRs.
    PcrSetMismatch,
    /// The value of this PCR is not one that the policy allows.
    PcrMismatch(usize),
    /// The document carries no CA bundle.
    MissingCaBundle,
    /// The CA bundle does not start with the trust anchor.
    UntrustedRoot,
    /// The certificates do not form a valid chain.
    InvalidCertificateChain,
    /// No key, certificate or TLS configuration could be made.
    CertificateGeneration,
    /// The attester gave no document; the text says why.
    AttestationGeneration(String),
}

impl NitroError {
    /// The sentence that describes this error.
    pub open spec fn text(self) -> Seq<char> {
        match self {
            NitroError::IncompletePolicy =>
                "Nitro PCR policy must explicitly allow at least one value for every PCR"@,
            NitroError::DocumentTooLarge =>
                "Nitro attestation document exceeds the 16 KiB protocol limit"@,
            NitroError::MalformedCose => "malformed COSE_Sign1 attestation document"@,
            NitroError::MissingPayload => "COSE_Sign1 is missing its attestation payload"@,
            NitroError::MalformedDocument => "malformed Nitro attestation payload"@,
            NitroError::InvalidCoseSignature => "Nitro COSE signature is invalid"@,
            NitroError::NonceMismatch =>
                "Nitro attestation nonce does not match this TLS connection"@,
            NitroError::NonceTooShort => "Nitro attestation nonce must have at least 32 bytes"@,
            NitroError::SpkiMismatch =>
                "Nitro attestation public key does not match the TLS certificate SPKI"@,
            NitroError::UserDataMismatch =>
                "Nitro attestation user_data does not bind the protocol, nonce, and SPKI"@,
            NitroError::ModuleIdMismatch => "Nitro attestation module ID does not match policy"@,
            NitroError::TimestampInvalid => "Nitro attestation timestamp is invalid"@,
            NitroError::TimestampInFuture => "Nitro attestation timestamp is in the future"@,
            NitroError::Stale => "Nitro attestation is stale"@,
            NitroError::PcrSetMismatch =>
                "Nitro attestation PCR set differs from the complete policy"@,
            NitroError::PcrMismatch(index) => "Nitro attestation PCR "@ + crate::text::decimal(
                index as nat,
            ) + " is not approved"@,
            NitroError::MissingCaBundle => "Nitro attestation did not include an AWS CA bundle"@,
            NitroError::UntrustedRoot =>
                "Nitro attestation does not chain to AWS Nitro Root-G1"@,
            NitroError::InvalidCertificateChain =>
                "Nitro attestation certificate chain is invalid"@,
            NitroError::CertificateGeneration =>
                "could not generate the Nitro-attested TLS certificate"@,
            NitroError::AttestationGeneration(reason) =>
                "Nitro attestation generation failed: "@ + reason@,
        }
    }

    /// The sentence that describes this error.
    pub fn message(&self) -> (message: String)
        ensures
            message@ == self.text(),
    {
        let fixed: &str = match self {
            NitroError::IncompletePolicy =>
                "Nitro PCR policy must explicitly allow at least one value for every PCR",
            NitroError::DocumentTooLarge =>
                "Nitro attestation document exceeds the 16 KiB protocol limit",
            NitroError::MalformedCose => "malformed COSE_Sign1 attestation document",
            NitroError::MissingPayload => "COSE_Sign1 is missing its attestation payload",
            NitroError::MalformedDocument => "malformed Nitro attestation payload",
            NitroError::InvalidCoseSignature => "Nitro COSE signature is invalid",
            NitroError::NonceMismatch =>
                "Nitro attestation nonce does not match this TLS connection",
            NitroError::NonceTooShort => "Nitro attestation nonce must have at least 32 bytes",
            NitroError::SpkiMismatch =>
                "Nitro attestation public key does not match the TLS certificate SPKI",
            NitroError::UserDataMismatch =>
                "Nitro attestation user_data does not bind the protocol, nonce, and SPKI",
            NitroError::ModuleIdMismatch => "Nitro attestation module ID does not match policy",
            NitroError::TimestampInvalid => "Nitro attestation timestamp is invalid",
            NitroError::TimestampInFuture => "Nitro attestation timestamp is in the future",
            NitroError::Stale => "Nitro attestation is stale",
            NitroError::PcrSetMismatch =>
                "Nitro attestation PCR set differs from the complete policy",
            NitroError::PcrMismatch(index) => {
                let mut message = "Nitro attestation PCR ".to_owned();
                push_decimal(&mut message, *index);
                message.append(" is not approved");
                return message;
            },
            NitroError::MissingCaBundle => "Nitro attestation did not include an AWS CA bundle",
            NitroError::UntrustedRoot => "Nitro attestation does not chain to AWS Nitro Root-G1",
            NitroError::InvalidCertificateChain =>
                "Nitro attestation certificate chain is invalid",
            NitroError::CertificateGeneration =>
                "could not generate the Nitro-attested TLS certificate",
            NitroError::AttestationGeneration(reason) => {
                let mut message = "Nitro attestation generation failed: ".to_owned();
                message.append(reason.as_str());
                return message;
            },
        };
        fixed.to_owned()
    }
}

} // verus!
