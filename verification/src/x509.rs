//! X.509 certificates, as far as evidence depends on them.

use vstd::prelude::*;
use x509_parser::oid_registry::Oid;
use x509_parser::parse_x509_certificate;

verus! {

/// What a certificate says.
#[derive(Debug)]
pub struct Certificate {
    /// Whether subject and issuer are the same name.
    pub self_issued: bool,
    /// The first second of the validity period, counted from the Unix epoch.
    pub not_before: i64,
    /// The last second of the validity period, counted from the Unix epoch.
    pub not_after: i64,
    /// Whether the basic constraints name a certificate authority.
    pub is_ca: bool,
    /// The subject public key info, in DER.
    pub spki: Vec<u8>,
    /// The bits of the subject public key.
    pub public_key: Vec<u8>,
}

/// A certificate as plain values.
#[verifier::ext_equal]
pub struct CertificateView {
    pub self_issued: bool,
    pub not_before: i64,
    pub not_after: i64,
    pub is_ca: bool,
    pub spki: Seq<u8>,
    pub public_key: Seq<u8>,
}

impl View for Certificate {
    type V = CertificateView;

    open spec fn view(&self) -> CertificateView {
        CertificateView {
            self_issued: self.self_issued,
            not_before: self.not_before,
            not_after: self.not_after,
            is_ca: self.is_ca,
            spki: self.spki@,
            public_key: self.public_key@,
        }
    }
}

/// The view of a certificate that may be missing.
pub open spec fn optional_certificate(certificate: Option<Certificate>) -> Option<CertificateView> {
    match certificate {
        Some(certificate) => Some(certificate@),
        None => None,
    }
}

/// The certificate at the start of `der`, if there is one.
pub uninterp spec fn x509_certificate(der: Seq<u8>) -> Option<CertificateView>;

/// `x509_parser::parse_x509_certificate`, and of the certificate that it reads: whether
/// `subject()` equals `issuer()`, the timestamps in `validity()`, `is_ca()`, the raw
/// `public_key()` and the bits in it. Claimed of it: all of them are a function of the bytes.
#[verifier::external_body]
pub(crate) fn read_certificate(der: &[u8]) -> (certificate: Option<Certificate>)
    ensures
        optional_certificate(certificate) == x509_certificate(der@),
{
    let (_, parsed) = parse_x509_certificate(der).ok()?;
    Some(Certificate {
        self_issued: parsed.subject() == parsed.issuer(),
        not_before: parsed.validity().not_before.timestamp(),
        not_after: parsed.validity().not_after.timestamp(),
        is_ca: parsed.is_ca(),
        spki: parsed.public_key().raw.to_vec(),
        public_key: parsed.public_key().subject_public_key.data.to_vec(),
    })
}

/// Whether the certificate in `der` is signed with the key of the certificate in `issuer`, or
/// with its own key where no issuer is given. False where either is no certificate.
pub uninterp spec fn x509_signature_valid(der: Seq<u8>, issuer: Option<Seq<u8>>) -> bool;

/// The bytes behind an optional slice.
pub open spec fn optional_slice(bytes: Option<&[u8]>) -> Option<Seq<u8>> {
    match bytes {
        Some(bytes) => Some(bytes@),
        None => None,
    }
}

/// `x509_parser::certificate::X509Certificate::verify_signature`, on the certificate in `der` and
/// the public key of the certificate in `issuer`. Claimed of it: whether it succeeds is a
/// function of the bytes of both.
#[verifier::external_body]
pub(crate) fn verify_signature(der: &[u8], issuer: Option<&[u8]>) -> (valid: bool)
    ensures
        valid == x509_signature_valid(der@, optional_slice(issuer)),
{
    match (parse_x509_certificate(der), issuer.map(parse_x509_certificate)) {
        (Ok((_, subject)), None) => subject.verify_signature(None).is_ok(),
        (Ok((_, subject)), Some(Ok((_, issuer)))) =>
            subject.verify_signature(Some(issuer.public_key())).is_ok(),
        _ => false,
    }
}

/// What a search for one extension of a certificate finds.
#[derive(Debug)]
pub enum ExtensionLookup {
    /// The object identifier that was asked for is none.
    InvalidOid,
    /// There is no such extension.
    Missing,
    /// There is more than one such extension.
    Duplicate,
    /// There is one such extension.
    Found {
        /// Whether a reader that does not know the extension must refuse the certificate.
        critical: bool,
        /// The value of the extension.
        value: Vec<u8>,
    },
}

/// The result of a search as plain values.
#[verifier::ext_equal]
pub enum ExtensionLookupView {
    InvalidOid,
    Missing,
    Duplicate,
    Found { critical: bool, value: Seq<u8> },
}

impl View for ExtensionLookup {
    type V = ExtensionLookupView;

    open spec fn view(&self) -> ExtensionLookupView {
        match self {
            ExtensionLookup::InvalidOid => ExtensionLookupView::InvalidOid,
            ExtensionLookup::Missing => ExtensionLookupView::Missing,
            ExtensionLookup::Duplicate => ExtensionLookupView::Duplicate,
            ExtensionLookup::Found { critical, value } => ExtensionLookupView::Found {
                critical: *critical,
                value: value@,
            },
        }
    }
}

/// What the certificate in `der` holds under the object identifier `oid`. `Missing` where `der`
/// is no certificate.
pub uninterp spec fn x509_extension(der: Seq<u8>, oid: Seq<u64>) -> ExtensionLookupView;

/// `x509_parser::certificate::TbsCertificate::get_extension_unique`, on the certificate in `der`
/// and the identifier that `Oid::from` makes of `oid`. Claimed of it: what it finds is a function
/// of the bytes and the identifier, and an identifier is refused only if it has fewer than two
/// arcs, a first arc above 6 or a second one above 39.
#[verifier::external_body]
pub(crate) fn find_extension(der: &[u8], oid: &[u64]) -> (found: ExtensionLookup)
    ensures
        found@ == x509_extension(der@, oid@),
        found is InvalidOid ==> oid@.len() < 2 || oid@[0] >= 7 || oid@[1] >= 40,
{
    match (Oid::from(oid), parse_x509_certificate(der)) {
        (Err(_), _) => ExtensionLookup::InvalidOid,
        (_, Err(_)) => ExtensionLookup::Missing,
        (Ok(oid), Ok((_, certificate))) => match certificate.get_extension_unique(&oid) {
            Err(_) => ExtensionLookup::Duplicate,
            Ok(None) => ExtensionLookup::Missing,
            Ok(Some(found)) =>
                ExtensionLookup::Found { critical: found.critical, value: found.value.to_vec() },
        },
    }
}

} // verus!
