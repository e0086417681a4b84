//! The server's side of the handshake: a single-use certificate that carries its own evidence.

use crate::binding::{binding_user_data, BindingView, NitroBinding};
use crate::error::NitroError;
use crate::server_verifier::{MIN_NONCE_LEN, NITRO_ATTESTATION_OID};
use crate::tls::HostNameView;
use crate::verify::MAX_DOCUMENT_LEN;
use rcgen::{CertificateParams, CustomExtension, KeyPair, PublicKeyData, PKCS_ECDSA_P256_SHA256};
use rustls::crypto::CryptoProvider;
use rustls::pki_types::{CertificateDer, PrivateKeyDer, PrivatePkcs8KeyDer};
use std::sync::Arc;
use vstd::prelude::*;

verus! {

/// Enclave-side source of a Nitro document. Implementations must call the NSM only after the
/// client nonce and newly-generated TLS public key are known.
pub trait NitroAttester: Send + Sync + 'static {
    /// A signed document for this nonce, this TLS key and this user data.
    fn attest(&self, nonce: &[u8], tls_spki: &[u8], user_data: &[u8]) -> Result<
        Vec<u8>,
        NitroError,
    >;
}

/// The configuration of a TLS server.
#[verifier::external_type_specification]
#[verifier::external_body]
pub struct ExServerConfig(rustls::ServerConfig);

/// The subject public key info, in DER, of the P-256 key pair that the PKCS #8 document `pkcs8`
/// holds, if it holds one.
pub uninterp spec fn p256_spki(pkcs8: Seq<u8>) -> Option<Seq<u8>>;

/// `rcgen::KeyPair::generate_for` P-256, and `serialize_der` of the pair. Claimed of it: what it
/// gives holds a key pair. Which pair it is rests on chance, and so does failure.
#[verifier::external_body]
pub(crate) fn generate_key() -> (pkcs8: Option<Vec<u8>>)
    ensures
        pkcs8 matches Some(p) ==> p256_spki(p@) is Some,
{
    KeyPair::generate_for(&PKCS_ECDSA_P256_SHA256).ok().map(|pair| pair.serialize_der())
}

/// `rcgen::PublicKeyData::subject_public_key_info` of the pair that
/// `rcgen::KeyPair::from_pkcs8_der_and_sign_algo` reads for P-256. Claimed of it: a key that is
/// read is a function of the PKCS #8 document. Whether one is read also rests on chance, since
/// the reader draws random numbers.
#[verifier::external_body]
pub(crate) fn subject_public_key_info(pkcs8: &[u8]) -> (spki: Option<Vec<u8>>)
    ensures
        spki matches Some(s) ==> p256_spki(pkcs8@) == Some(s@),
{
    let pkcs8 = PrivatePkcs8KeyDer::from(pkcs8);
    let pair = KeyPair::from_pkcs8_der_and_sign_algo(&pkcs8, &PKCS_ECDSA_P256_SHA256).ok()?;
    Some(pair.subject_public_key_info())
}

/// Whether a text holds ASCII characters only.
pub open spec fn ascii(text: Seq<char>) -> bool {
    forall|i: int| 0 <= i < text.len() ==> (#[trigger] text[i]) as u32 <= 127
}

/// The first second at which a certificate that is issued is valid: the start of 1975.
pub const ISSUED_NOT_BEFORE: i64 = 157_766_400;

/// The last second at which a certificate that is issued is valid: the start of 4096.
pub const ISSUED_NOT_AFTER: i64 = 67_090_118_400;

/// The longest subject for which an issued certificate is sure to be readable.
pub const READABLE_SUBJECT_LEN: usize = 0x4000_0000;

/// Whether a certificate, if it can be read, names itself as issuer, is signed with its own key,
/// has `tls_spki` as that key, has the validity period of an issued certificate, and carries
/// `document` once, in an extension that is not critical.
pub open spec fn presents(der: Seq<u8>, tls_spki: Seq<u8>, document: Seq<u8>) -> bool {
    crate::x509::x509_certificate(der) matches Some(certificate) ==> {
        &&& certificate.self_issued
        &&& crate::x509::x509_signature_valid(der, None)
        &&& certificate.spki == tls_spki
        &&& certificate.not_before == ISSUED_NOT_BEFORE
        &&& certificate.not_after == ISSUED_NOT_AFTER
        &&& crate::x509::x509_extension(der, NITRO_ATTESTATION_OID@)
            == crate::x509::ExtensionLookupView::Found { critical: false, value: document }
    }
}

/// The subject alternative names of the certificate in `der`, in order.
pub uninterp spec fn alternative_names(der: Seq<u8>) -> Seq<HostNameView>;

/// The alternative name that is made of a subject: its octets if it is an address, and the very
/// text otherwise.
pub open spec fn subject_name(subject: Seq<char>) -> HostNameView {
    match crate::tls::host_name(subject) {
        Some(HostNameView::Address(octets)) => HostNameView::Address(octets),
        _ => HostNameView::Dns(subject),
    }
}

/// Whether a certificate is accepted for exactly the servers that `subject` covers.
pub open spec fn names_subject(der: Seq<u8>, subject: Seq<char>) -> bool {
    forall|name: Seq<char>|
        (#[trigger] crate::tls::host_name(name)) matches Some(asked) ==> (
        crate::tls::server_name_verdict(der, name) is Ok <==> crate::tls::covers(subject, asked))
}

/// Whether a certificate was issued for this subject, key and document.
pub open spec fn is_issued(
    der: Seq<u8>,
    subject: Seq<char>,
    tls_spki: Seq<u8>,
    document: Seq<u8>,
) -> bool {
    &&& ascii(subject)
    &&& names_subject(der, subject)
    &&& subject.len() <= READABLE_SUBJECT_LEN ==> crate::x509::x509_certificate(der) is Some
    &&& presents(der, tls_spki, document)
}

/// `rcgen::CertificateParams::self_signed`, with `subject` as the only alternative name and
/// `document` as the value of a non-critical extension under `oid`. Claimed of it: a certificate
/// is made only for an ASCII subject and for a PKCS #8 document that holds a key pair. The subject
/// is its only alternative name, and `rustls` accepts it for exactly the servers that this name
/// covers. It can be read back, unless the subject is longer than the reader's own limit. What is
/// read back is self-signed with the key given, has the default validity period of
/// `CertificateParams`, and carries `document` once. The signature rests on chance, and so does
/// whether signing succeeds.
#[verifier::external_body]
pub(crate) fn issue_certificate(
    pkcs8: &[u8],
    subject: &str,
    oid: &[u64],
    document: &[u8],
) -> (der: Option<Vec<u8>>)
    requires
        oid@ == NITRO_ATTESTATION_OID@,
        document@.len() <= MAX_DOCUMENT_LEN,
    ensures
        der matches Some(d) ==> alternative_names(d@) == seq![subject_name(subject@)],
        der matches Some(d) ==> (p256_spki(pkcs8@) matches Some(spki) && is_issued(
            d@,
            subject@,
            spki,
            document@,
        )),
{
    let pkcs8 = PrivatePkcs8KeyDer::from(pkcs8);
    let pair = KeyPair::from_pkcs8_der_and_sign_algo(&pkcs8, &PKCS_ECDSA_P256_SHA256).ok()?;
    let mut parameters = CertificateParams::new(vec![subject.to_owned()]).ok()?;
    let extension = CustomExtension::from_oid_content(oid, document.to_vec());
    parameters.custom_extensions.push(extension);
    Some(parameters.self_signed(&pair).ok()?.der().to_vec())
}

/// Whether the certificate in `der`, if it can be read, is for the key pair in `pkcs8`.
pub open spec fn certifies_key(der: Seq<u8>, pkcs8: Seq<u8>) -> bool {
    crate::x509::x509_certificate(der) matches Some(certificate) ==> p256_spki(pkcs8) == Some(
        certificate.spki,
    )
}

/// The certificates that a server with this configuration presents, its own first.
pub uninterp spec fn presented_chain(config: rustls::ServerConfig) -> Seq<Seq<u8>>;

/// The versions of TLS that a server with this configuration negotiates, by their numbers on the
/// wire.
pub uninterp spec fn negotiated_versions(config: rustls::ServerConfig) -> Set<u16>;

/// Whether a server with this configuration asks the client for a certificate.
pub uninterp spec fn asks_for_client_certificate(config: rustls::ServerConfig) -> bool;

/// The cryptography that a server with this configuration uses.
pub uninterp spec fn config_provider(config: rustls::ServerConfig) -> Arc<CryptoProvider>;

/// The number of TLS 1.3 on the wire.
pub const TLS13_VERSION: u16 = 0x0304;

/// Whether a server with this configuration presents this certificate and no other, negotiates
/// TLS 1.3 alone, asks for no client certificate and uses this provider.
pub open spec fn is_configured(
    config: rustls::ServerConfig,
    certificate: Seq<u8>,
    provider: Arc<CryptoProvider>,
) -> bool {
    &&& presented_chain(config) == seq![certificate]
    &&& negotiated_versions(config) == set![TLS13_VERSION]
    &&& !asks_for_client_certificate(config)
    &&& config_provider(config) == provider
}

/// `rustls::ServerConfig::builder_with_provider` for TLS 1.3 alone, without client
/// authentication and `with_single_cert` for this certificate and key, which must belong
/// together. Claimed of it: a server with the configuration presents this certificate and no
/// other, negotiates TLS 1.3 alone, asks for no client certificate and uses the provider given.
/// Whether there is a configuration rests on the provider, which cannot be looked into.
#[verifier::external_body]
pub(crate) fn tls13_server_config(
    provider: Arc<CryptoProvider>,
    certificate: Vec<u8>,
    pkcs8: Vec<u8>,
) -> (config: Result<rustls::ServerConfig, rustls::Error>)
    requires
        certifies_key(certificate@, pkcs8@),
    ensures
        config matches Ok(c) ==> presented_chain(c) == seq![certificate@],
        config matches Ok(c) ==> negotiated_versions(c) == set![TLS13_VERSION],
        config matches Ok(c) ==> !asks_for_client_certificate(c),
        config matches Ok(c) ==> config_provider(c) == provider,
{
    let certificate = CertificateDer::from(certificate);
    let private_key = PrivateKeyDer::Pkcs8(PrivatePkcs8KeyDer::from(pkcs8));
    rustls::ServerConfig::builder_with_provider(provider)
        .with_protocol_versions(&[&rustls::version::TLS13])?
        .with_no_client_auth()
        .with_single_cert(vec![certificate], private_key)
}

/// A single-use TLS key, and the certificate that carries the evidence for it.
pub struct AttestedIdentity {
    /// The key pair, as a PKCS #8 document.
    pub key: Vec<u8>,
    /// The key's subject public key info, in DER.
    pub tls_spki: Vec<u8>,
    /// The encoded document.
    pub document: Vec<u8>,
    /// The certificate, in DER.
    pub certificate: Vec<u8>,
}

/// Whether `identity` is fit to be presented for this context, nonce and subject: the document
/// answers a request for exactly this nonce, the identity's own key and the user data that binds
/// both to the context; it keeps to the size limit; and the certificate is for that subject and
/// that key and carries that document.
pub open spec fn is_attested<A: NitroAttester + ?Sized>(
    attester: &A,
    context: &[u8],
    nonce: &[u8],
    subject: Seq<char>,
    identity: AttestedIdentity,
) -> bool {
    &&& answers(
        attester,
        context,
        nonce,
        identity.tls_spki@,
        Ok(identity.document),
    )
    &&& identity.document@.len() <= MAX_DOCUMENT_LEN
    &&& p256_spki(identity.key@) == Some(identity.tls_spki@)
    &&& alternative_names(identity.certificate@) == seq![subject_name(subject)]
    &&& is_issued(
        identity.certificate@,
        subject,
        identity.tls_spki@,
        identity.document@,
    )
}

/// Whether the attester can answer `reply` when asked for this nonce, this key and the user data
/// that binds both to the context.
pub open spec fn answers<A: NitroAttester + ?Sized>(
    attester: &A,
    context: &[u8],
    nonce: &[u8],
    tls_spki: Seq<u8>,
    reply: Result<Vec<u8>, NitroError>,
) -> bool {
    exists|spki: &[u8], user_data: &[u8]|
        {
            &&& spki@ == tls_spki
            &&& user_data@ == crate::binding::bound_user_data(
                BindingView { context: context@, nonce: nonce@, tls_spki },
            )
            &&& #[trigger] call_ensures(A::attest, (attester, nonce, spki, user_data), reply)
        }
}

/// The document in an attester's reply, if it keeps to the protocol limit.
pub fn accept_reply(reply: Result<Vec<u8>, NitroError>) -> (outcome: Result<Vec<u8>, NitroError>)
    ensures
        match reply {
            Ok(document) if document@.len() > MAX_DOCUMENT_LEN => outcome == Err::<
                Vec<u8>,
                NitroError,
            >(NitroError::DocumentTooLarge),
            _ => outcome == reply,
        },
{
    match reply {
        Err(error) => Err(error),
        Ok(document) => if document.len() > MAX_DOCUMENT_LEN {
            Err(NitroError::DocumentTooLarge)
        } else {
            Ok(document)
        },
    }
}

/// Whether the generator can give this as a key pair.
pub closed spec fn is_drawn(drawn: Option<Vec<u8>>) -> bool {
    call_ensures(generate_key, (), drawn)
}

/// Whether the reader of `key` can give this as its public key.
pub closed spec fn is_read(key: Seq<u8>, tls_spki: Option<Vec<u8>>) -> bool {
    exists|pkcs8: &[u8]|
        pkcs8@ == key && #[trigger] call_ensures(subject_public_key_info, (pkcs8,), tls_spki)
}

/// Whether the issuer can give this when asked for a certificate for this key and subject that
/// carries this document.
pub closed spec fn is_signed(
    key: Seq<u8>,
    subject: Seq<char>,
    document: Seq<u8>,
    certificate: Option<Vec<u8>>,
) -> bool {
    exists|pkcs8: &[u8], name: &str, oid: &[u64], value: &[u8]|
        {
            &&& pkcs8@ == key
            &&& name@ == subject
            &&& oid@ == NITRO_ATTESTATION_OID@
            &&& value@ == document
            &&& #[trigger] call_ensures(issue_certificate, (pkcs8, name, oid, value), certificate)
        }
}

/// Whether the TLS library can give this when asked for a configuration with this provider,
/// certificate and key.
pub closed spec fn is_built(
    provider: Arc<CryptoProvider>,
    certificate: Seq<u8>,
    key: Seq<u8>,
    built: Result<rustls::ServerConfig, rustls::Error>,
) -> bool {
    exists|der: Vec<u8>, pkcs8: Vec<u8>|
        {
            &&& der@ == certificate
            &&& pkcs8@ == key
            &&& #[trigger] call_ensures(tls13_server_config, (provider, der, pkcs8), built)
        }
}

/// What the words above mean: each is a call of an outside function.
pub(crate) proof fn lemma_outside_calls_for_key()
    ensures
        forall|drawn: Option<Vec<u8>>| #[trigger]
            is_drawn(drawn) <==> call_ensures(generate_key, (), drawn),
        forall|key: Seq<u8>, tls_spki: Option<Vec<u8>>| #[trigger]
            is_read(key, tls_spki) <==> exists|pkcs8: &[u8]|
                pkcs8@ == key && #[trigger] call_ensures(
                    subject_public_key_info,
                    (pkcs8,),
                    tls_spki,
                ),
{
}

/// What the words above mean: each is a call of an outside function.
pub(crate) proof fn lemma_outside_calls_for_certificate()
    ensures
        forall|
            key: Seq<u8>,
            subject: Seq<char>,
            document: Seq<u8>,
            certificate: Option<Vec<u8>>,
        | #[trigger]
            is_signed(key, subject, document, certificate) ==> exists|
                pkcs8: &[u8],
                name: &str,
                oid: &[u64],
                value: &[u8],
            |
                {
                    &&& pkcs8@ == key
                    &&& name@ == subject
                    &&& oid@ == NITRO_ATTESTATION_OID@
                    &&& value@ == document
                    &&& #[trigger] call_ensures(
                        issue_certificate,
                        (pkcs8, name, oid, value),
                        certificate,
                    )
                },
        forall|
            provider: Arc<CryptoProvider>,
            certificate: Seq<u8>,
            key: Seq<u8>,
            built: Result<rustls::ServerConfig, rustls::Error>,
        | #[trigger]
            is_built(provider, certificate, key, built) ==> exists|der: Vec<u8>, pkcs8: Vec<u8>|
                {
                    &&& der@ == certificate
                    &&& pkcs8@ == key
                    &&& #[trigger] call_ensures(
                        tls13_server_config,
                        (provider, der, pkcs8),
                        built,
                    )
                },
{
}

/// Whether the TLS library can refuse to make such a configuration.
pub open spec fn is_unbuilt(
    provider: Arc<CryptoProvider>,
    certificate: Seq<u8>,
    key: Seq<u8>,
) -> bool {
    exists|refusal: rustls::Error| #[trigger] is_built(provider, certificate, key, Err(refusal))
}

/// Whether `outcome` is what becomes of a document that the attester gave for this context, nonce,
/// subject and key: an identity with that key and that document, or that no certificate could be
/// made.
pub open spec fn is_certified_outcome<A: NitroAttester + ?Sized>(
    attester: &A,
    context: &[u8],
    nonce: &[u8],
    subject: Seq<char>,
    key: Vec<u8>,
    tls_spki: Vec<u8>,
    document: Vec<u8>,
    outcome: Result<AttestedIdentity, NitroError>,
) -> bool {
    exists|certificate: Option<Vec<u8>>|
        {
            &&& #[trigger] is_signed(key@, subject, document@, certificate)
            &&& match outcome {
                Ok(identity) => {
                    &&& identity.key == key
                    &&& identity.tls_spki == tls_spki
                    &&& identity.document == document
                    &&& certificate == Some(identity.certificate)
                    &&& is_attested(attester, context, nonce, subject, identity)
                },
                Err(error) => error == NitroError::CertificateGeneration && certificate is None,
            }
        }
}

/// Whether `outcome` is what becomes of a request for this context, nonce, subject and key: the
/// attester's own error, or that its document is too large, or an identity with that key and that
/// document, or that no certificate could be made.
pub open spec fn is_identity_outcome<A: NitroAttester + ?Sized>(
    attester: &A,
    context: &[u8],
    nonce: &[u8],
    subject: Seq<char>,
    key: Vec<u8>,
    tls_spki: Vec<u8>,
    outcome: Result<AttestedIdentity, NitroError>,
) -> bool {
    exists|reply: Result<Vec<u8>, NitroError>|
        {
            &&& #[trigger] answers(attester, context, nonce, tls_spki@, reply)
            &&& match reply {
                Err(error) => outcome == Err::<AttestedIdentity, NitroError>(error),
                Ok(document) => if document@.len() > MAX_DOCUMENT_LEN {
                    outcome == Err::<AttestedIdentity, NitroError>(NitroError::DocumentTooLarge)
                } else {
                    is_certified_outcome(
                        attester,
                        context,
                        nonce,
                        subject,
                        key,
                        tls_spki,
                        document,
                        outcome,
                    )
                },
            }
        }
}

/// Asks the attester for a document that binds this key, and makes a self-signed certificate with
/// that document in its extension.
pub fn identity_for_key<A: NitroAttester + ?Sized>(
    attester: &A,
    context: &[u8],
    nonce: &[u8],
    subject: &str,
    key: Vec<u8>,
    tls_spki: Vec<u8>,
) -> (outcome: Result<AttestedIdentity, NitroError>)
    requires
        p256_spki(key@) == Some(tls_spki@),
    ensures
        is_identity_outcome(attester, context, nonce, subject@, key, tls_spki, outcome),
{
    let user_data = binding_user_data(
        NitroBinding { context, nonce, tls_spki: tls_spki.as_slice() },
    );
    let reply = attester.attest(nonce, tls_spki.as_slice(), user_data.as_slice());
    assert(answers(attester, context, nonce, tls_spki@, reply));
    let document = match accept_reply(reply) {
        Err(error) => return Err(error),
        Ok(document) => document,
    };
    let certificate = issue_certificate(
        key.as_slice(),
        subject,
        NITRO_ATTESTATION_OID.as_slice(),
        document.as_slice(),
    );
    assert(is_signed(key@, subject@, document@, certificate));
    match certificate {
        None => Err(NitroError::CertificateGeneration),
        Some(certificate) => Ok(AttestedIdentity { key, tls_spki, document, certificate }),
    }
}

/// Whether `outcome` is what becomes of a request for a configuration with this context, nonce,
/// subject, provider and key: what becomes of the identity, and then a TLS 1.3 configuration with
/// that provider that presents the identity's certificate alone, or that none could be made.
pub open spec fn is_config_outcome<A: NitroAttester + ?Sized>(
    attester: &A,
    context: &[u8],
    nonce: &[u8],
    subject: Seq<char>,
    provider: Arc<CryptoProvider>,
    key: Vec<u8>,
    tls_spki: Vec<u8>,
    outcome: Result<rustls::ServerConfig, NitroError>,
) -> bool {
    exists|identity: Result<AttestedIdentity, NitroError>|
        {
            &&& #[trigger] is_identity_outcome(
                attester,
                context,
                nonce,
                subject,
                key,
                tls_spki,
                identity,
            )
            &&& match (identity, outcome) {
                (Err(error), _) => outcome == Err::<rustls::ServerConfig, NitroError>(error),
                (Ok(i), Ok(config)) => {
                    &&& is_built(provider, i.certificate@, i.key@, Ok(config))
                    &&& is_configured(config, i.certificate@, provider)
                },
                (Ok(i), Err(error)) => {
                    &&& error == NitroError::CertificateGeneration
                    &&& is_unbuilt(provider, i.certificate@, i.key@)
                },
            }
        }
}

/// Makes a TLS configuration for this key, with a certificate that carries the attester's
/// document for it.
pub fn server_config_for_key<A: NitroAttester + ?Sized>(
    attester: &A,
    context: &[u8],
    nonce: &[u8],
    subject: &str,
    provider: Arc<CryptoProvider>,
    key: Vec<u8>,
    tls_spki: Vec<u8>,
) -> (outcome: Result<rustls::ServerConfig, NitroError>)
    requires
        p256_spki(key@) == Some(tls_spki@),
    ensures
        is_config_outcome(attester, context, nonce, subject@, provider, key, tls_spki, outcome),
        exists|identity: Result<AttestedIdentity, NitroError>|
            {
                &&& #[trigger] call_ensures(
                    identity_for_key::<A>,
                    (attester, context, nonce, subject, key, tls_spki),
                    identity,
                )
                &&& match (identity, outcome) {
                    (Err(error), _) => outcome == Err::<rustls::ServerConfig, NitroError>(error),
                    (Ok(i), Ok(config)) => is_built(
                        provider,
                        i.certificate@,
                        i.key@,
                        Ok(config),
                    ),
                    (Ok(i), Err(error)) => {
                        &&& error == NitroError::CertificateGeneration
                        &&& is_unbuilt(provider, i.certificate@, i.key@)
                    },
                }
            },
{
    let ghost (drawn_key, drawn_spki) = (key, tls_spki);
    let identity = identity_for_key(attester, context, nonce, subject, key, tls_spki);
    assert(call_ensures(
        identity_for_key::<A>,
        (attester, context, nonce, subject, drawn_key, drawn_spki),
        identity,
    ));
    assert(is_identity_outcome(
        attester,
        context,
        nonce,
        subject@,
        drawn_key,
        drawn_spki,
        identity,
    ));
    let identity = match identity {
        Err(error) => return Err(error),
        Ok(identity) => identity,
    };
    let ghost (certificate, pkcs8) = (identity.certificate@, identity.key@);
    let built = tls13_server_config(provider, identity.certificate, identity.key);
    assert(is_built(provider, certificate, pkcs8, built));
    match built {
        Err(_) => Err(NitroError::CertificateGeneration),
        Ok(config) => Ok(config),
    }
}

/// Whether `outcome` is what becomes of a key that was drawn: the key with its public key, or an
/// error if the public key cannot be read.
pub open spec fn is_key_outcome(
    key: Vec<u8>,
    outcome: Result<(Vec<u8>, Vec<u8>), NitroError>,
) -> bool {
    exists|tls_spki: Option<Vec<u8>>|
        {
            &&& #[trigger] is_read(key@, tls_spki)
            &&& match tls_spki {
                None => outcome is Err,
                Some(tls_spki) => outcome == Ok::<(Vec<u8>, Vec<u8>), NitroError>((key, tls_spki)),
            }
        }
}

/// Draws a P-256 key for a connection with this nonce: the key pair as a PKCS #8 document, and
/// its subject public key info.
pub fn key_for_nonce(nonce: &[u8]) -> (outcome: Result<(Vec<u8>, Vec<u8>), NitroError>)
    ensures
        match outcome {
            Ok((key, tls_spki)) => nonce@.len() >= MIN_NONCE_LEN && p256_spki(key@) == Some(
                tls_spki@,
            ),
            Err(error) => error == if nonce@.len() < MIN_NONCE_LEN {
                NitroError::NonceTooShort
            } else {
                NitroError::CertificateGeneration
            },
        },
        nonce@.len() >= MIN_NONCE_LEN ==> exists|drawn: Option<Vec<u8>>|
            {
                &&& #[trigger] is_drawn(drawn)
                &&& match drawn {
                    None => outcome is Err,
                    Some(key) => is_key_outcome(key, outcome),
                }
            },
{
    if nonce.len() < MIN_NONCE_LEN {
        return Err(NitroError::NonceTooShort);
    }
    let drawn = generate_key();
    assert(is_drawn(drawn));
    let key = match drawn {
        None => return Err(NitroError::CertificateGeneration),
        Some(key) => key,
    };
    let tls_spki = subject_public_key_info(key.as_slice());
    assert(is_read(key@, tls_spki));
    match tls_spki {
        None => Err(NitroError::CertificateGeneration),
        Some(tls_spki) => Ok((key, tls_spki)),
    }
}

/// Generates an enclave-held P-256 TLS key and a single-use self-signed certificate with a Nitro
/// document in its extension. If no key can be drawn, that is `CertificateGeneration`.
pub fn attested_identity<A: NitroAttester + ?Sized>(
    attester: &A,
    context: &[u8],
    nonce: &[u8],
    subject: &str,
) -> (outcome: Result<AttestedIdentity, NitroError>)
    ensures
        nonce@.len() < MIN_NONCE_LEN ==> outcome == Err::<AttestedIdentity, NitroError>(
            NitroError::NonceTooShort,
        ),
        nonce@.len() >= MIN_NONCE_LEN ==> {
            ||| outcome == Err::<AttestedIdentity, NitroError>(NitroError::CertificateGeneration)
            ||| exists|key: Vec<u8>, tls_spki: Vec<u8>|
                p256_spki(key@) == Some(tls_spki@) && #[trigger] is_identity_outcome(
                    attester,
                    context,
                    nonce,
                    subject@,
                    key,
                    tls_spki,
                    outcome,
                )
        },
        exists|drawn: Result<(Vec<u8>, Vec<u8>), NitroError>|
            {
                &&& #[trigger] call_ensures(key_for_nonce, (nonce,), drawn)
                &&& match drawn {
                    Err(error) => outcome == Err::<AttestedIdentity, NitroError>(error),
                    Ok((key, tls_spki)) => call_ensures(
                        identity_for_key::<A>,
                        (attester, context, nonce, subject, key, tls_spki),
                        outcome,
                    ),
                }
            },
{
    let drawn = key_for_nonce(nonce);
    assert(call_ensures(key_for_nonce, (nonce,), drawn));
    match drawn {
        Err(error) => Err(error),
        Ok((key, tls_spki)) => identity_for_key(attester, context, nonce, subject, key, tls_spki),
    }
}

/// Generate an enclave-held P-256 TLS key and a single-use self-signed certificate with a Nitro
/// document in its extension. If no key can be drawn, that is `CertificateGeneration`.
///
/// This must be called once for each nonce preface; reusing certificates would weaken freshness
/// to certificate lifetime.
pub fn server_config_for_nonce<A: NitroAttester + ?Sized>(
    attester: &A,
    context: &[u8],
    nonce: &[u8],
    subject: &str,
    provider: Arc<CryptoProvider>,
) -> (outcome: Result<rustls::ServerConfig, NitroError>)
    ensures
        nonce@.len() < MIN_NONCE_LEN ==> outcome == Err::<rustls::ServerConfig, NitroError>(
            NitroError::NonceTooShort,
        ),
        nonce@.len() >= MIN_NONCE_LEN ==> {
            ||| outcome == Err::<rustls::ServerConfig, NitroError>(
                NitroError::CertificateGeneration,
            )
            ||| exists|key: Vec<u8>, tls_spki: Vec<u8>|
                p256_spki(key@) == Some(tls_spki@) && #[trigger] is_config_outcome(
                    attester,
                    context,
                    nonce,
                    subject@,
                    provider,
                    key,
                    tls_spki,
                    outcome,
                )
        },
        outcome matches Ok(config) ==> exists|identity: AttestedIdentity|
            #[trigger] is_attested(attester, context, nonce, subject@, identity)
                && is_configured(config, identity.certificate@, provider),
        exists|drawn: Result<(Vec<u8>, Vec<u8>), NitroError>|
            {
                &&& #[trigger] call_ensures(key_for_nonce, (nonce,), drawn)
                &&& match drawn {
                    Err(error) => outcome == Err::<rustls::ServerConfig, NitroError>(error),
                    Ok((key, tls_spki)) => call_ensures(
                        server_config_for_key::<A>,
                        (attester, context, nonce, subject, provider, key, tls_spki),
                        outcome,
                    ),
                }
            },
{
    let drawn = key_for_nonce(nonce);
    assert(call_ensures(key_for_nonce, (nonce,), drawn));
    match drawn {
        Err(error) => Err(error),
        Ok((key, tls_spki)) => server_config_for_key(
            attester,
            context,
            nonce,
            subject,
            provider,
            key,
            tls_spki,
        ),
    }
}

} // verus!
