//! The certificate chain behind a document, from the trust anchor to the signing key.

use crate::bytes::bytes_equal;
use crate::crypto::sha256_digest;
use crate::document::{AttestationDoc, AttestationDocView};
use crate::error::NitroError;
use crate::time::SystemTime;
use crate::x509::{read_certificate, verify_signature, Certificate, CertificateView};
use vstd::prelude::*;

verus! {

/// An authority of the bundle, as it presents itself.
#[derive(Debug)]
pub struct Authority {
    /// Its certificate, if that can be read.
    pub certificate: Option<Certificate>,
    /// Whether its certificate is signed by the authority above it; for a root, by itself.
    pub signed: bool,
}

/// The authority at the head of the bundle.
#[derive(Debug)]
pub struct Root {
    /// The SHA-256 digest of its certificate.
    pub digest: [u8; 32],
    /// The authority.
    pub authority: Authority,
}

/// All that the verdict on a chain depends on.
#[derive(Debug)]
pub struct ChainEvidence {
    /// The certificate of the signing key, if it can be read.
    pub leaf: Option<Certificate>,
    /// Whether the leaf is signed by the lowest authority.
    pub leaf_signed: bool,
    /// The root, if there is a bundle.
    pub root: Option<Root>,
    /// The other authorities of the bundle.
    pub intermediates: Vec<Authority>,
}

/// An authority as plain values.
#[verifier::ext_equal]
pub struct AuthorityView {
    pub certificate: Option<CertificateView>,
    pub signed: bool,
}

/// A root as plain values.
#[verifier::ext_equal]
pub struct RootView {
    pub digest: Seq<u8>,
    pub authority: AuthorityView,
}

/// The evidence for a chain as plain values.
#[verifier::ext_equal]
pub struct ChainEvidenceView {
    pub leaf: Option<CertificateView>,
    pub leaf_signed: bool,
    pub root: Option<RootView>,
    pub intermediates: Seq<AuthorityView>,
}

impl View for Authority {
    type V = AuthorityView;

    open spec fn view(&self) -> AuthorityView {
        AuthorityView {
            certificate: crate::x509::optional_certificate(self.certificate),
            signed: self.signed,
        }
    }
}

impl View for Root {
    type V = RootView;

    open spec fn view(&self) -> RootView {
        RootView { digest: self.digest@, authority: self.authority@ }
    }
}

impl View for ChainEvidence {
    type V = ChainEvidenceView;

    open spec fn view(&self) -> ChainEvidenceView {
        ChainEvidenceView {
            leaf: crate::x509::optional_certificate(self.leaf),
            leaf_signed: self.leaf_signed,
            root: match self.root {
                Some(root) => Some(root@),
                None => None,
            },
            intermediates: Seq::new(self.intermediates@.len(), |i: int| self.intermediates@[i]@),
        }
    }
}

/// Whether a certificate is within its validity period at `secs` seconds after the Unix epoch.
pub open spec fn valid_at(certificate: CertificateView, secs: int) -> bool {
    certificate.not_before <= secs <= certificate.not_after
}

/// Whether an authority may vouch for the certificate below it.
pub open spec fn authority_holds(authority: AuthorityView, secs: int) -> bool {
    &&& authority.certificate matches Some(certificate)
    &&& valid_at(certificate, secs)
    &&& certificate.is_ca
    &&& authority.signed
}

/// The verdict on a chain at `now`, a number of nanoseconds after the Unix epoch: the signing
/// key's bits, or why the chain is refused.
pub open spec fn chain_outcome(
    evidence: ChainEvidenceView,
    now: int,
    trust_anchor: Seq<u8>,
) -> Result<Seq<u8>, NitroError> {
    let secs = now / 1_000_000_000;
    match (evidence.leaf, evidence.root) {
        (None, _) => Err(NitroError::InvalidCertificateChain),
        (Some(_), _) if now < 0 => Err(NitroError::TimestampInvalid),
        (Some(leaf), _) if !valid_at(leaf, secs) => Err(NitroError::InvalidCertificateChain),
        (Some(_), None) => Err(NitroError::MissingCaBundle),
        (Some(_), Some(root)) if root.digest != trust_anchor => Err(NitroError::UntrustedRoot),
        (Some(leaf), Some(root)) => if {
            &&& authority_holds(root.authority, secs)
            &&& forall|i: int|
                0 <= i < evidence.intermediates.len() ==> authority_holds(
                    #[trigger] evidence.intermediates[i],
                    secs,
                )
            &&& evidence.leaf_signed
        } {
            Ok(leaf.public_key)
        } else {
            Err(NitroError::InvalidCertificateChain)
        },
    }
}

/// The evidence that a leaf and a CA bundle present. The bundle is a path `[root, i1, .., in]`:
/// each certificate after the root must be signed by the one before it, and the leaf by the last.
pub open spec fn chain_evidence(
    certificate: Seq<u8>,
    cabundle: Seq<Seq<u8>>,
) -> ChainEvidenceView {
    ChainEvidenceView {
        leaf: crate::x509::x509_certificate(certificate),
        leaf_signed: cabundle.len() > 0 && crate::x509::x509_signature_valid(
            certificate,
            Some(cabundle.last()),
        ),
        root: if cabundle.len() > 0 {
            Some(
                RootView {
                    digest: crate::crypto::sha256(cabundle[0]),
                    authority: AuthorityView {
                        certificate: crate::x509::x509_certificate(cabundle[0]),
                        signed: crate::x509::x509_signature_valid(cabundle[0], None),
                    },
                },
            )
        } else {
            None
        },
        intermediates: if cabundle.len() > 0 {
            Seq::new(
                (cabundle.len() - 1) as nat,
                |i: int|
                    AuthorityView {
                        certificate: crate::x509::x509_certificate(cabundle[i + 1]),
                        signed: crate::x509::x509_signature_valid(
                            cabundle[i + 1],
                            Some(cabundle[i]),
                        ),
                    },
            )
        } else {
            Seq::empty()
        },
    }
}

/// The verdict on a document's own chain.
pub open spec fn document_chain_outcome(
    document: AttestationDocView,
    now: int,
    trust_anchor: Seq<u8>,
) -> Result<Seq<u8>, NitroError> {
    chain_outcome(chain_evidence(document.certificate, document.cabundle), now, trust_anchor)
}

/// Reads a certificate of the chain.
pub fn parse_certificate(der: &[u8]) -> (outcome: Result<Certificate, NitroError>)
    ensures
        match crate::x509::x509_certificate(der@) {
            Some(certificate) => outcome matches Ok(c) && c@ == certificate,
            None => outcome == Err::<Certificate, NitroError>(NitroError::InvalidCertificateChain),
        },
{
    match read_certificate(der) {
        Some(certificate) => Ok(certificate),
        None => Err(NitroError::InvalidCertificateChain),
    }
}

/// Whether a certificate is within its validity period.
pub fn verify_validity(certificate: &Certificate, now: SystemTime) -> (outcome: Result<
    (),
    NitroError,
>)
    ensures
        outcome == (if now.unix_nanos() < 0 {
            Err::<(), NitroError>(NitroError::TimestampInvalid)
        } else if !valid_at(certificate@, now.unix_nanos() / 1_000_000_000) {
            Err(NitroError::InvalidCertificateChain)
        } else {
            Ok(())
        }),
{
    match now.unix_secs() {
        None => Err(NitroError::TimestampInvalid),
        Some(secs) => if secs < certificate.not_before || secs > certificate.not_after {
            Err(NitroError::InvalidCertificateChain)
        } else {
            Ok(())
        },
    }
}

/// Whether an authority may vouch for the certificate below it.
pub fn verify_authority(authority: &Authority, now: SystemTime) -> (outcome: Result<
    (),
    NitroError,
>)
    ensures
        outcome == (if authority.certificate is Some && now.unix_nanos() < 0 {
            Err::<(), NitroError>(NitroError::TimestampInvalid)
        } else if !authority_holds(authority@, now.unix_nanos() / 1_000_000_000) {
            Err(NitroError::InvalidCertificateChain)
        } else {
            Ok(())
        }),
{
    match &authority.certificate {
        None => Err(NitroError::InvalidCertificateChain),
        Some(certificate) => {
            match verify_validity(certificate, now) {
                Err(error) => Err(error),
                Ok(()) => if !certificate.is_ca || !authority.signed {
                    Err(NitroError::InvalidCertificateChain)
                } else {
                    Ok(())
                },
            }
        },
    }
}

/// The verdict on a chain: the signing key's bits, or why the chain is refused.
#[verifier::loop_isolation(false)]
pub fn judge_chain(
    evidence: ChainEvidence,
    now: SystemTime,
    trust_anchor_fingerprint: [u8; 32],
) -> (outcome: Result<Vec<u8>, NitroError>)
    ensures
        match chain_outcome(evidence@, now.unix_nanos(), trust_anchor_fingerprint@) {
            Ok(key) => outcome matches Ok(k) && k@ == key,
            Err(error) => outcome == Err::<Vec<u8>, NitroError>(error),
        },
{
    let leaf = match evidence.leaf {
        None => return Err(NitroError::InvalidCertificateChain),
        Some(leaf) => leaf,
    };
    match verify_validity(&leaf, now) {
        Err(error) => return Err(error),
        Ok(()) => {},
    }
    let root = match evidence.root {
        None => return Err(NitroError::MissingCaBundle),
        Some(root) => root,
    };
    if !bytes_equal(root.digest.as_slice(), trust_anchor_fingerprint.as_slice()) {
        return Err(NitroError::UntrustedRoot);
    }
    match verify_authority(&root.authority, now) {
        Err(error) => return Err(error),
        Ok(()) => {},
    }
    let mut i: usize = 0;
    while i < evidence.intermediates.len()
        invariant
            i <= evidence.intermediates@.len(),
            forall|j: int|
                0 <= j < i ==> authority_holds(
                    #[trigger] evidence@.intermediates[j],
                    now.unix_nanos() / 1_000_000_000,
                ),
        decreases evidence.intermediates@.len() - i,
    {
        match verify_authority(&evidence.intermediates[i], now) {
            Err(error) => {
                assert(!authority_holds(
                    evidence@.intermediates[i as int],
                    now.unix_nanos() / 1_000_000_000,
                ));
                return Err(error);
            },
            Ok(()) => {},
        }
        i = i + 1;
    }
    if !evidence.leaf_signed {
        return Err(NitroError::InvalidCertificateChain);
    }
    Ok(leaf.public_key)
}

/// An authority and the certificate that must have signed it: `None` for itself.
fn present_authority(der: &[u8], issuer: Option<&[u8]>) -> (authority: Authority)
    ensures
        authority@.certificate == crate::x509::x509_certificate(der@),
        authority@.signed == crate::x509::x509_signature_valid(
            der@,
            crate::x509::optional_slice(issuer),
        ),
{
    Authority { certificate: read_certificate(der), signed: verify_signature(der, issuer) }
}

/// Collects what the verdict on the chain from `cabundle` to `certificate` depends on.
pub fn present_chain(certificate: &[u8], cabundle: &Vec<Vec<u8>>) -> (evidence: ChainEvidence)
    ensures
        evidence@ == chain_evidence(certificate@, crate::bytes::byte_strings(cabundle@)),
{
    let leaf = read_certificate(certificate);
    if cabundle.len() == 0 {
        let evidence = ChainEvidence {
            leaf,
            leaf_signed: false,
            root: None,
            intermediates: Vec::new(),
        };
        assert(evidence@ =~= chain_evidence(certificate@, crate::bytes::byte_strings(cabundle@)));
        return evidence;
    }
    let root = Root {
        digest: sha256_digest(cabundle[0].as_slice()),
        authority: present_authority(cabundle[0].as_slice(), None),
    };
    let mut intermediates: Vec<Authority> = Vec::new();
    let mut i: usize = 1;
    while i < cabundle.len()
        invariant
            1 <= i <= cabundle@.len(),
            intermediates@.len() == i - 1,
            forall|j: int|
                0 <= j < i - 1 ==> (#[trigger] intermediates@[j])@ == chain_evidence(
                    certificate@,
                    crate::bytes::byte_strings(cabundle@),
                ).intermediates[j],
        decreases cabundle@.len() - i,
    {
        intermediates.push(
            present_authority(cabundle[i].as_slice(), Some(cabundle[i - 1].as_slice())),
        );
        i = i + 1;
    }
    let last: usize = cabundle.len() - 1;
    let leaf_signed = verify_signature(certificate, Some(cabundle[last].as_slice()));
    let evidence = ChainEvidence { leaf, leaf_signed, root: Some(root), intermediates };
    assert(evidence@ =~= chain_evidence(certificate@, crate::bytes::byte_strings(cabundle@)));
    evidence
}

/// Verifies the chain behind a document, up to the trust anchor, and gives the bits of the key
/// that the document must be signed with.
pub fn verify_certificate_chain(
    document: &AttestationDoc,
    now: SystemTime,
    trust_anchor_fingerprint: [u8; 32],
) -> (outcome: Result<Vec<u8>, NitroError>)
    ensures
        match document_chain_outcome(document@, now.unix_nanos(), trust_anchor_fingerprint@) {
            Ok(key) => outcome matches Ok(k) && k@ == key,
            Err(error) => outcome == Err::<Vec<u8>, NitroError>(error),
        },
{
    let evidence = present_chain(document.certificate.as_slice(), &document.cabundle);
    judge_chain(evidence, now, trust_anchor_fingerprint)
}

} // verus!
