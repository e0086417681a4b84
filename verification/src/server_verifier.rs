//! The client's side of the handshake: when a server's certificate is accepted.

use crate::binding::{BindingView, NitroBinding};
use crate::error::NitroError;
use crate::policy::{NitroPolicy, PolicyView};
use crate::time::SystemTime;
use crate::tls::{check_server_name, read_host_name};
use crate::verify::{verify_document_with_trust_anchor, AWS_NITRO_ROOT_G1_SHA256};
use crate::x509::{
    find_extension,
    read_certificate,
    verify_signature,
    Certificate,
    CertificateView,
    ExtensionLookup,
    ExtensionLookupView,
};
use rustls::crypto::CryptoProvider;
use std::sync::Arc;
use vstd::prelude::*;

verus! {

/// Private X.509 extension carrying the raw, COSE_Sign1-encoded Nitro document.
///
/// This is a deployment-owned private enterprise arc. The extension is non-critical: clients
/// that do not implement attested TLS reject the self-signed leaf in the usual way, while
/// attested clients require this extension.
pub const NITRO_ATTESTATION_OID: &'static [u64; 9] = &[1, 3, 6, 1, 4, 1, 57264, 1, 1];

/// The fewest bytes that a nonce may have.
pub const MIN_NONCE_LEN: usize = 32;

/// Why a server's certificate is refused.
#[derive(Debug)]
pub enum ServerCertError {
    /// The server sent more than its own certificate.
    NotAlone,
    /// The certificate cannot be read.
    Unreadable,
    /// The certificate is not issued and signed by its own key.
    NotSelfSigned,
    /// The certificate is not within its validity period.
    NotCurrentlyValid,
    /// The text that the client gave as the server's name is none.
    InvalidServerName,
    /// The certificate is not for this server. The TLS library says why.
    ServerName(rustls::Error),
    /// The identifier of the attestation extension is none.
    InvalidOid,
    /// The certificate carries more than one attestation.
    DuplicateExtension,
    /// The certificate carries no attestation.
    MissingExtension,
    /// The attestation is refused.
    Attestation(NitroError),
}

impl ServerCertError {
    /// The sentence that describes this error, unless it is one of the TLS library's own.
    pub open spec fn text(self) -> Option<Seq<char>> {
        match self {
            ServerCertError::NotAlone => Some("Nitro attested TLS leaf must be self-signed"@),
            ServerCertError::Unreadable => Some("invalid TLS certificate"@),
            ServerCertError::NotSelfSigned => Some("invalid self-signed TLS certificate"@),
            ServerCertError::NotCurrentlyValid => Some("TLS certificate is not currently valid"@),
            ServerCertError::InvalidServerName => Some("invalid server name"@),
            ServerCertError::ServerName(_) => None,
            ServerCertError::InvalidOid => Some("invalid Nitro attestation OID"@),
            ServerCertError::DuplicateExtension => Some(
                "duplicate Nitro attestation extension"@,
            ),
            ServerCertError::MissingExtension => Some("missing Nitro attestation extension"@),
            ServerCertError::Attestation(error) => Some(
                "Nitro attestation verification failed: "@ + error.text(),
            ),
        }
    }

    /// The sentence that describes this error, unless it is one of the TLS library's own.
    pub fn message(&self) -> (message: Option<String>)
        ensures
            match self.text() {
                Some(text) => message matches Some(m) && m@ == text,
                None => message is None,
            },
    {
        let fixed: &str = match self {
            ServerCertError::NotAlone => "Nitro attested TLS leaf must be self-signed",
            ServerCertError::Unreadable => "invalid TLS certificate",
            ServerCertError::NotSelfSigned => "invalid self-signed TLS certificate",
            ServerCertError::NotCurrentlyValid => "TLS certificate is not currently valid",
            ServerCertError::InvalidServerName => "invalid server name",
            ServerCertError::ServerName(_) => return None,
            ServerCertError::InvalidOid => "invalid Nitro attestation OID",
            ServerCertError::DuplicateExtension => "duplicate Nitro attestation extension",
            ServerCertError::MissingExtension => "missing Nitro attestation extension",
            ServerCertError::Attestation(error) => {
                let mut message = "Nitro attestation verification failed: ".to_owned();
                message.append(error.message().as_str());
                return Some(message);
            },
        };
        Some(fixed.to_owned())
    }
}

/// All that the verdict on a server's own certificate depends on, but for the document in it.
#[derive(Debug)]
pub struct LeafEvidence {
    /// The certificate, if it can be read.
    pub certificate: Option<Certificate>,
    /// Whether it is signed with its own key.
    pub self_signed: bool,
    /// Whether it is for the server that the client asked for.
    pub name: Result<(), ServerCertError>,
    /// The document that it carries, or why there is none.
    pub extension: Result<Vec<u8>, ServerCertError>,
}

/// The evidence on a server's certificate as plain values.
#[verifier::ext_equal]
pub struct LeafEvidenceView {
    pub certificate: Option<CertificateView>,
    pub self_signed: bool,
    pub name: Result<(), ServerCertError>,
    pub extension: Result<Seq<u8>, ServerCertError>,
}

impl View for LeafEvidence {
    type V = LeafEvidenceView;

    open spec fn view(&self) -> LeafEvidenceView {
        LeafEvidenceView {
            certificate: crate::x509::optional_certificate(self.certificate),
            self_signed: self.self_signed,
            name: self.name,
            extension: match self.extension {
                Ok(value) => Ok(value@),
                Err(error) => Err(error),
            },
        }
    }
}

/// A certificate that carries an attestation, and the key that the attestation must name.
#[derive(Debug)]
pub struct AttestedLeaf {
    /// The encoded document.
    pub evidence: Vec<u8>,
    /// The certificate's subject public key info, in DER.
    pub tls_spki: Vec<u8>,
}

/// An attested certificate as plain values.
#[verifier::ext_equal]
pub struct AttestedLeafView {
    pub evidence: Seq<u8>,
    pub tls_spki: Seq<u8>,
}

impl View for AttestedLeaf {
    type V = AttestedLeafView;

    open spec fn view(&self) -> AttestedLeafView {
        AttestedLeafView { evidence: self.evidence@, tls_spki: self.tls_spki@ }
    }
}

/// The view of a verdict that may be an attested certificate.
pub open spec fn leaf_view(outcome: Result<AttestedLeaf, ServerCertError>) -> Result<
    AttestedLeafView,
    ServerCertError,
> {
    match outcome {
        Ok(leaf) => Ok(leaf@),
        Err(error) => Err(error),
    }
}

/// A 64-bit number of seconds read as a signed one.
pub open spec fn signed_secs(secs: u64) -> int {
    if secs <= i64::MAX {
        secs as int
    } else {
        secs - u64::MAX - 1
    }
}

/// The value of the attestation extension, or why there is none.
pub open spec fn extension_outcome(found: ExtensionLookupView) -> Result<
    Seq<u8>,
    ServerCertError,
> {
    match found {
        ExtensionLookupView::InvalidOid => Err(ServerCertError::InvalidOid),
        ExtensionLookupView::Duplicate => Err(ServerCertError::DuplicateExtension),
        ExtensionLookupView::Missing => Err(ServerCertError::MissingExtension),
        ExtensionLookupView::Found { value, .. } => Ok(value),
    }
}

/// The verdict on a server's own certificate, before the document in it is looked at.
pub open spec fn leaf_outcome(alone: bool, evidence: LeafEvidenceView, now: u64) -> Result<
    AttestedLeafView,
    ServerCertError,
> {
    match evidence.certificate {
        _ if !alone => Err(ServerCertError::NotAlone),
        None => Err(ServerCertError::Unreadable),
        Some(certificate) => if !certificate.self_issued || !evidence.self_signed {
            Err(ServerCertError::NotSelfSigned)
        } else if !crate::chain::valid_at(certificate, signed_secs(now)) {
            Err(ServerCertError::NotCurrentlyValid)
        } else {
            match (evidence.name, evidence.extension) {
                (Err(error), _) => Err(error),
                (Ok(()), Err(error)) => Err(error),
                (Ok(()), Ok(value)) => Ok(
                    AttestedLeafView { evidence: value, tls_spki: certificate.spki },
                ),
            }
        },
    }
}

/// The verdict on whether the certificate in `der` is for the server `name`.
pub open spec fn name_outcome(der: Seq<u8>, name: Seq<char>) -> Result<(), ServerCertError> {
    if crate::tls::host_name(name) is None {
        Err(ServerCertError::InvalidServerName)
    } else {
        match crate::tls::server_name_verdict(der, name) {
            Ok(()) => Ok(()),
            Err(error) => Err(ServerCertError::ServerName(error)),
        }
    }
}

/// The evidence that the certificate in `der` presents to a client that asked for the server
/// `name`.
pub open spec fn leaf_evidence(der: Seq<u8>, name: Seq<char>) -> LeafEvidenceView {
    LeafEvidenceView {
        certificate: crate::x509::x509_certificate(der),
        self_signed: crate::x509::x509_signature_valid(der, None),
        name: name_outcome(der, name),
        extension: extension_outcome(crate::x509::x509_extension(der, NITRO_ATTESTATION_OID@)),
    }
}

/// Verifies that a TLS certificate is within its validity period, at `now` seconds after the
/// Unix epoch.
pub fn verify_cert_unix_time(certificate: &Certificate, now: u64) -> (outcome: Result<
    (),
    ServerCertError,
>)
    ensures
        outcome == (if crate::chain::valid_at(certificate@, signed_secs(now)) {
            Ok::<(), ServerCertError>(())
        } else {
            Err(ServerCertError::NotCurrentlyValid)
        }),
{
    let secs: i64 = if now <= i64::MAX as u64 {
        now as i64
    } else {
        -1 - (u64::MAX - now) as i64
    };
    if secs < certificate.not_before || secs > certificate.not_after {
        return Err(ServerCertError::NotCurrentlyValid);
    }
    Ok(())
}

/// Verifies that the certificate in `der` is for the server that the client asked for.
pub fn verify_name(der: &[u8], name: &str) -> (outcome: Result<(), ServerCertError>)
    ensures
        outcome == name_outcome(der@, name@),
{
    if read_host_name(name).is_none() {
        return Err(ServerCertError::InvalidServerName);
    }
    match check_server_name(der, name) {
        Err(error) => Err(ServerCertError::ServerName(error)),
        Ok(()) => Ok(()),
    }
}

/// The value of the attestation extension, or why there is none.
pub fn judge_extension(found: ExtensionLookup) -> (outcome: Result<Vec<u8>, ServerCertError>)
    ensures
        match extension_outcome(found@) {
            Ok(value) => outcome matches Ok(v) && v@ == value,
            Err(error) => outcome == Err::<Vec<u8>, ServerCertError>(error),
        },
{
    match found {
        ExtensionLookup::InvalidOid => Err(ServerCertError::InvalidOid),
        ExtensionLookup::Duplicate => Err(ServerCertError::DuplicateExtension),
        ExtensionLookup::Missing => Err(ServerCertError::MissingExtension),
        ExtensionLookup::Found { value, .. } => Ok(value),
    }
}

/// The verdict on a server's own certificate, before the document in it is looked at. `alone`
/// says that the server sent no other certificate.
pub fn judge_leaf(alone: bool, evidence: LeafEvidence, now: u64) -> (outcome: Result<
    AttestedLeaf,
    ServerCertError,
>)
    ensures
        leaf_view(outcome) == leaf_outcome(alone, evidence@, now),
{
    if !alone {
        return Err(ServerCertError::NotAlone);
    }
    let certificate = match evidence.certificate {
        None => return Err(ServerCertError::Unreadable),
        Some(certificate) => certificate,
    };
    if !certificate.self_issued || !evidence.self_signed {
        return Err(ServerCertError::NotSelfSigned);
    }
    match verify_cert_unix_time(&certificate, now) {
        Err(error) => return Err(error),
        Ok(()) => {},
    }
    match evidence.name {
        Err(error) => return Err(error),
        Ok(()) => {},
    }
    match evidence.extension {
        Err(error) => Err(error),
        Ok(value) => Ok(AttestedLeaf { evidence: value, tls_spki: certificate.spki }),
    }
}

/// Reads a server's certificate and verifies all but the document in it.
pub fn verify_leaf(
    end_entity: &[u8],
    intermediates: &[&[u8]],
    server_name: &str,
    now: u64,
) -> (outcome: Result<AttestedLeaf, ServerCertError>)
    ensures
        leaf_view(outcome) == leaf_outcome(
            intermediates@.len() == 0,
            leaf_evidence(end_entity@, server_name@),
            now,
        ),
        !(outcome matches Err(ServerCertError::InvalidOid)),
{
    let evidence = LeafEvidence {
        certificate: read_certificate(end_entity),
        self_signed: verify_signature(end_entity, None),
        name: verify_name(end_entity, server_name),
        extension: NitroServerVerifier::certificate_extension(end_entity),
    };
    assert(evidence@ =~= leaf_evidence(end_entity@, server_name@));
    judge_leaf(intermediates.len() == 0, evidence, now)
}

/// Verifier for a single-use Nitro-attested self-signed certificate.
#[derive(Debug)]
pub struct NitroServerVerifier {
    /// What is accepted as evidence.
    pub policy: NitroPolicy,
    /// Application-owned domain separation and protocol identity.
    pub context: Vec<u8>,
    /// The nonce that the client chose for this connection.
    pub nonce: Vec<u8>,
    /// The cryptography for the handshake's own signatures.
    pub provider: Arc<CryptoProvider>,
    /// The SHA-256 fingerprint of the root that documents must chain to.
    pub trust_anchor_fingerprint: [u8; 32],
}

/// A verifier as plain values.
#[verifier::ext_equal]
pub struct VerifierView {
    pub policy: PolicyView,
    pub context: Seq<u8>,
    pub nonce: Seq<u8>,
    pub trust_anchor: Seq<u8>,
}

impl View for NitroServerVerifier {
    type V = VerifierView;

    open spec fn view(&self) -> VerifierView {
        VerifierView {
            policy: self.policy@,
            context: self.context@,
            nonce: self.nonce@,
            trust_anchor: self.trust_anchor_fingerprint@,
        }
    }
}

/// Whether a verifier can tell a fresh, measured server from any other: its policy is complete
/// and its nonce long enough.
pub open spec fn is_sound(verifier: VerifierView) -> bool {
    crate::policy::is_complete(verifier.policy.pcrs) && verifier.nonce.len() >= MIN_NONCE_LEN
}

/// The verdict on a server's certificate, from the verdict on all but the document in it.
pub open spec fn server_cert_outcome(
    verifier: VerifierView,
    leaf: Result<AttestedLeafView, ServerCertError>,
    now: u64,
) -> Result<(), ServerCertError> {
    match leaf {
        Err(error) => Err(error),
        Ok(leaf) => match crate::verify::document_outcome(
            leaf.evidence,
            verifier.policy,
            BindingView {
                context: verifier.context,
                nonce: verifier.nonce,
                tls_spki: leaf.tls_spki,
            },
            now * 1_000_000_000,
            verifier.trust_anchor,
        ) {
            Err(error) => Err(ServerCertError::Attestation(error)),
            Ok(_) => Ok(()),
        },
    }
}

/// The verdict on a server's certificate, if the clock can read the time at which the document in
/// it must be judged.
pub open spec fn checked_outcome(
    verifier: VerifierView,
    leaf: Result<AttestedLeafView, ServerCertError>,
    now: u64,
) -> Option<Result<(), ServerCertError>> {
    if leaf is Ok && now > i64::MAX {
        None
    } else {
        Some(server_cert_outcome(verifier, leaf, now))
    }
}

impl NitroServerVerifier {
    /// A verifier for one connection, which trusts AWS Nitro Enclaves Root-G1.
    pub fn new(
        policy: NitroPolicy,
        context: Vec<u8>,
        nonce: Vec<u8>,
        provider: Arc<CryptoProvider>,
    ) -> (outcome: Result<NitroServerVerifier, NitroError>)
        ensures
            if !crate::policy::is_complete(policy@.pcrs) {
                outcome == Err::<NitroServerVerifier, NitroError>(NitroError::IncompletePolicy)
            } else if nonce@.len() < MIN_NONCE_LEN {
                outcome == Err::<NitroServerVerifier, NitroError>(NitroError::NonceTooShort)
            } else {
                outcome == Ok::<NitroServerVerifier, NitroError>(
                    NitroServerVerifier {
                        policy,
                        context,
                        nonce,
                        provider,
                        trust_anchor_fingerprint: AWS_NITRO_ROOT_G1_SHA256,
                    },
                )
            },
            outcome matches Ok(verifier) ==> is_sound(verifier@),
    {
        match policy.validate() {
            Err(error) => return Err(error),
            Ok(()) => {},
        }
        if nonce.len() < MIN_NONCE_LEN {
            return Err(NitroError::NonceTooShort);
        }
        Ok(
            NitroServerVerifier {
                policy,
                context,
                nonce,
                provider,
                trust_anchor_fingerprint: AWS_NITRO_ROOT_G1_SHA256,
            },
        )
    }

    /// The document that the certificate in `der` carries, or why there is none.
    pub fn certificate_extension(der: &[u8]) -> (outcome: Result<Vec<u8>, ServerCertError>)
        ensures
            match extension_outcome(crate::x509::x509_extension(der@, NITRO_ATTESTATION_OID@)) {
                Ok(value) => outcome matches Ok(v) && v@ == value,
                Err(error) => outcome == Err::<Vec<u8>, ServerCertError>(error),
            },
            !(outcome matches Err(ServerCertError::InvalidOid)),
    {
        judge_extension(find_extension(der, NITRO_ATTESTATION_OID.as_slice()))
    }

    /// Verifies the document in a certificate that has passed all other tests, at `now` seconds
    /// after the Unix epoch.
    pub fn verify_attested_leaf(
        &self,
        leaf: Result<AttestedLeaf, ServerCertError>,
        now: u64,
    ) -> (outcome: Result<(), ServerCertError>)
        requires
            leaf is Ok ==> now <= i64::MAX,
        ensures
            outcome == server_cert_outcome(
                self@,
                leaf_view(leaf),
                now,
            ),
    {
        let leaf = match leaf {
            Err(error) => return Err(error),
            Ok(leaf) => leaf,
        };
        let binding = NitroBinding {
            context: self.context.as_slice(),
            nonce: self.nonce.as_slice(),
            tls_spki: leaf.tls_spki.as_slice(),
        };
        match verify_document_with_trust_anchor(
            leaf.evidence.as_slice(),
            &self.policy,
            binding,
            SystemTime::from_unix_secs(now as i64),
            self.trust_anchor_fingerprint,
        ) {
            Err(error) => Err(ServerCertError::Attestation(error)),
            Ok(_) => Ok(()),
        }
    }

    /// Verifies a server's certificate, at `now` seconds after the Unix epoch. A stapled OCSP
    /// response has no say in it: nobody but the server itself has issued the certificate.
    pub fn verify_server_cert(
        &self,
        end_entity: &[u8],
        intermediates: &[&[u8]],
        server_name: &str,
        _ocsp_response: &[u8],
        now: u64,
    ) -> (outcome: Result<(), ServerCertError>)
        requires
            now <= i64::MAX,
        ensures
            outcome == server_cert_outcome(
                self@,
                leaf_outcome(
                    intermediates@.len() == 0,
                    leaf_evidence(end_entity@, server_name@),
                    now,
                ),
                now,
            ),
    {
        let leaf = verify_leaf(end_entity, intermediates, server_name, now);
        self.verify_attested_leaf(leaf, now)
    }

    /// Verifies a server's certificate, at any number of seconds after the Unix epoch. `None` if
    /// all depends on the document, and the clock cannot read that time.
    pub fn checked_verify_server_cert(
        &self,
        end_entity: &[u8],
        intermediates: &[&[u8]],
        server_name: &str,
        _ocsp_response: &[u8],
        now: u64,
    ) -> (outcome: Option<Result<(), ServerCertError>>)
        ensures
            outcome == checked_outcome(
                self@,
                leaf_outcome(
                    intermediates@.len() == 0,
                    leaf_evidence(end_entity@, server_name@),
                    now,
                ),
                now,
            ),
    {
        let leaf = verify_leaf(end_entity, intermediates, server_name, now);
        if leaf.is_ok() && now > i64::MAX as u64 {
            return None;
        }
        Some(self.verify_attested_leaf(leaf, now))
    }
}

} // verus!
