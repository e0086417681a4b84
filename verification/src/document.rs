//! The attestation document of a Nitro Security Module.

use aws_nitro_enclaves_nsm_api::api::{AttestationDoc as NsmDocument, Digest as NsmDigest};
use std::collections::BTreeMap;
use vstd::prelude::*;

verus! {

/// The hash that PCR values are made with.
#[derive(Clone, Copy, Debug, PartialEq, Eq, Structural)]
pub enum Digest {
    SHA256,
    SHA384,
    SHA512,
}

/// What a Nitro Security Module attests.
#[derive(Debug, PartialEq)]
pub struct AttestationDoc {
    /// The module that issued the document.
    pub module_id: String,
    /// The hash that the PCR values are made with.
    pub digest: Digest,
    /// When the document was made, in milliseconds since the Unix epoch.
    pub timestamp: u64,
    /// All locked PCRs.
    pub pcrs: BTreeMap<usize, Vec<u8>>,
    /// The certificate of the key that signed the document, in DER.
    pub certificate: Vec<u8>,
    /// The authorities behind that certificate, in DER, from the root down.
    pub cabundle: Vec<Vec<u8>>,
    /// The public key that the document was requested for.
    pub public_key: Option<Vec<u8>>,
    /// The application data that the document was requested for.
    pub user_data: Option<Vec<u8>>,
    /// The nonce that the document was requested for.
    pub nonce: Option<Vec<u8>>,
}

/// An attestation document as plain values.
#[verifier::ext_equal]
pub struct AttestationDocView {
    pub module_id: Seq<char>,
    pub digest: Digest,
    pub timestamp: u64,
    pub pcrs: Map<usize, Seq<u8>>,
    pub certificate: Seq<u8>,
    pub cabundle: Seq<Seq<u8>>,
    pub public_key: Option<Seq<u8>>,
    pub user_data: Option<Seq<u8>>,
    pub nonce: Option<Seq<u8>>,
}

/// The PCR values behind a map of byte vectors.
pub open spec fn measured_values(pcrs: Map<usize, Vec<u8>>) -> Map<usize, Seq<u8>> {
    pcrs.map_values(|value: Vec<u8>| value@)
}

/// The bytes behind an optional byte vector.
pub open spec fn optional_bytes(bytes: Option<Vec<u8>>) -> Option<Seq<u8>> {
    match bytes {
        Some(bytes) => Some(bytes@),
        None => None,
    }
}

impl View for AttestationDoc {
    type V = AttestationDocView;

    open spec fn view(&self) -> AttestationDocView {
        AttestationDocView {
            module_id: self.module_id@,
            digest: self.digest,
            timestamp: self.timestamp,
            pcrs: measured_values(self.pcrs@),
            certificate: self.certificate@,
            cabundle: crate::bytes::byte_strings(self.cabundle@),
            public_key: optional_bytes(self.public_key),
            user_data: optional_bytes(self.user_data),
            nonce: optional_bytes(self.nonce),
        }
    }
}

impl Clone for AttestationDoc {
    /// The same document.
    fn clone(&self) -> (copy: AttestationDoc)
        ensures
            copy@ == self@,
    {
        AttestationDoc {
            module_id: self.module_id.clone(),
            digest: self.digest,
            timestamp: self.timestamp,
            pcrs: self.pcrs.clone(),
            certificate: self.certificate.clone(),
            cabundle: self.cabundle.clone(),
            public_key: self.public_key.clone(),
            user_data: self.user_data.clone(),
            nonce: self.nonce.clone(),
        }
    }
}

/// The attestation document that `payload` encodes, if it encodes one.
pub uninterp spec fn attestation_document(payload: Seq<u8>) -> Option<AttestationDocView>;

/// `aws_nitro_enclaves_nsm_api::api::AttestationDoc::from_binary`, with the fields of the result
/// taken over one for one. Claimed of it: whether the payload is a document, and which, is a
/// function of its bytes.
#[verifier::external_body]
pub(crate) fn parse_document(payload: &[u8]) -> (document: Option<AttestationDoc>)
    ensures
        document is Some <==> attestation_document(payload@) is Some,
        document matches Some(d) ==> Some(d@) == attestation_document(payload@),
{
    let document = NsmDocument::from_binary(payload).ok()?;
    let NsmDocument { module_id, digest, timestamp, pcrs, certificate, cabundle, public_key, user_data, nonce } = document;
    let digest = match digest {
        NsmDigest::SHA256 => Digest::SHA256,
        NsmDigest::SHA384 => Digest::SHA384,
        NsmDigest::SHA512 => Digest::SHA512,
    };
    let pcrs = pcrs.into_iter().map(|(i, v)| (i, v.into_vec())).collect();
    let cabundle = cabundle.into_iter().map(|c| c.into_vec()).collect();
    let certificate = certificate.into_vec();
    let [public_key, user_data, nonce] =
        [public_key, user_data, nonce].map(|b| b.map(|b| b.into_vec()));
    Some(AttestationDoc {
        module_id, digest, timestamp, pcrs, certificate, cabundle, public_key, user_data, nonce,
    })
}

} // verus!
