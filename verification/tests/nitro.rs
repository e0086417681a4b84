use attested_tls::chain::parse_certificate;
use attested_tls::issue::TLS13_VERSION;
use attested_tls::time::Duration;
use attested_tls::{
    binding_user_data, server_config_for_nonce, NitroAttester, NitroBinding, NitroError,
    NitroPolicy, NitroServerVerifier, ServerCertError, NITRO_ATTESTATION_OID,
};
use aws_nitro_enclaves_nsm_api::api::{AttestationDoc, Digest as NitroDigest};
use coset::{CoseSign1, CoseSign1Builder, TaggedCborSerializable};
use rcgen::{
    BasicConstraints, CertificateParams, CertifiedIssuer, CustomExtension, IsCa, KeyPair,
    PublicKeyData, PKCS_ECDSA_P256_SHA256, PKCS_ECDSA_P384_SHA384,
};
use ring::rand::SystemRandom;
use ring::signature::{
    EcdsaKeyPair, KeyPair as RingKeyPair, UnparsedPublicKey, ECDSA_P384_SHA384_FIXED,
    ECDSA_P384_SHA384_FIXED_SIGNING,
};
use rustls::client::danger::{
    HandshakeSignatureValid, ServerCertVerified, ServerCertVerifier,
};
use rustls::client::ResolvesClientCert;
use rustls::pki_types::{CertificateDer, PrivatePkcs8KeyDer, ServerName, UnixTime};
use rustls::sign::CertifiedKey;
use rustls::{DigitallySignedStruct, SignatureScheme};
use sha2::{Digest, Sha256};
use std::collections::BTreeMap;
use std::io::{Read, Write};
use std::sync::{Arc, Mutex};
use std::time::SystemTime;

const SERVER: &str = "tempo-zone-prover.invalid";

struct Fixture {
    certificate: Vec<u8>,
    context: Vec<u8>,
    nonce: Vec<u8>,
    policy: NitroPolicy,
    root_fingerprint: [u8; 32],
    now: u64,
}

struct TestAttester {
    signer: Mutex<EcdsaKeyPair>,
    certificate: Vec<u8>,
    cabundle: Vec<Vec<u8>>,
    pcrs: BTreeMap<usize, Vec<u8>>,
}

impl NitroAttester for TestAttester {
    fn attest(
        &self,
        nonce: &[u8],
        tls_spki: &[u8],
        user_data: &[u8],
    ) -> Result<Vec<u8>, NitroError> {
        let document = AttestationDoc::new(
            "test-nitro-module".into(),
            NitroDigest::SHA256,
            now_secs() * 1_000,
            self.pcrs.clone(),
            self.certificate.clone(),
            self.cabundle.clone(),
            Some(user_data.to_vec()),
            Some(nonce.to_vec()),
            Some(tls_spki.to_vec()),
        );
        let rng = SystemRandom::new();
        let signer = self
            .signer
            .lock()
            .map_err(|_| NitroError::AttestationGeneration("test signer lock poisoned".into()))?;
        CoseSign1Builder::new()
            .payload(document.to_binary())
            .create_signature(&[], |input| signer.sign(&rng, input).unwrap().as_ref().to_vec())
            .build()
            .to_tagged_vec()
            .map_err(|error| NitroError::AttestationGeneration(error.to_string()))
    }
}

fn now_secs() -> u64 {
    SystemTime::now().duration_since(SystemTime::UNIX_EPOCH).unwrap().as_secs()
}

fn p384_key(pkcs8: &[u8]) -> KeyPair {
    KeyPair::from_pkcs8_der_and_sign_algo(&PrivatePkcs8KeyDer::from(pkcs8), &PKCS_ECDSA_P384_SHA384)
        .unwrap()
}

fn test_attester() -> (TestAttester, NitroPolicy, [u8; 32]) {
    let rng = SystemRandom::new();
    let root_pkcs8 = EcdsaKeyPair::generate_pkcs8(&ECDSA_P384_SHA384_FIXED_SIGNING, &rng).unwrap();
    let mut root_params = CertificateParams::default();
    root_params.is_ca = IsCa::Ca(BasicConstraints::Unconstrained);
    let root = CertifiedIssuer::self_signed(root_params, p384_key(root_pkcs8.as_ref())).unwrap();

    let signer_pkcs8 =
        EcdsaKeyPair::generate_pkcs8(&ECDSA_P384_SHA384_FIXED_SIGNING, &rng).unwrap();
    let signer =
        EcdsaKeyPair::from_pkcs8(&ECDSA_P384_SHA384_FIXED_SIGNING, signer_pkcs8.as_ref(), &rng)
            .unwrap();
    let signer_params = CertificateParams::new(vec!["nitro-attester.invalid".into()]).unwrap();
    let signer_certificate =
        signer_params.signed_by(&p384_key(signer_pkcs8.as_ref()), &root).unwrap();
    let pcrs = BTreeMap::from([(0, vec![0x11; 48]), (1, vec![0x22; 48])]);
    (
        TestAttester {
            signer: Mutex::new(signer),
            certificate: signer_certificate.der().to_vec(),
            cabundle: vec![root.der().to_vec()],
            pcrs: pcrs.clone(),
        },
        policy_for(pcrs),
        Sha256::digest(root.der()).into(),
    )
}

fn policy_for(pcrs: BTreeMap<usize, Vec<u8>>) -> NitroPolicy {
    NitroPolicy {
        pcrs: pcrs.into_iter().map(|(index, value)| (index, vec![value])).collect(),
        max_age: Duration::from_secs(60),
        module_id: Some("test-nitro-module".into()),
    }
}

fn fixture(document_timestamp: u64, document_spki: Option<Vec<u8>>) -> Fixture {
    let rng = SystemRandom::new();
    let root_pkcs8 = EcdsaKeyPair::generate_pkcs8(&ECDSA_P384_SHA384_FIXED_SIGNING, &rng).unwrap();
    let mut root_params = CertificateParams::default();
    root_params.is_ca = IsCa::Ca(BasicConstraints::Unconstrained);
    let root = CertifiedIssuer::self_signed(root_params, p384_key(root_pkcs8.as_ref())).unwrap();

    let signer_pkcs8 =
        EcdsaKeyPair::generate_pkcs8(&ECDSA_P384_SHA384_FIXED_SIGNING, &rng).unwrap();
    let signer =
        EcdsaKeyPair::from_pkcs8(&ECDSA_P384_SHA384_FIXED_SIGNING, signer_pkcs8.as_ref(), &rng)
            .unwrap();
    let signer_params = CertificateParams::new(vec!["nitro-attester.invalid".into()]).unwrap();
    let signer_certificate =
        signer_params.signed_by(&p384_key(signer_pkcs8.as_ref()), &root).unwrap();
    let parsed_signer = parse_certificate(signer_certificate.der().as_ref()).unwrap();
    assert_eq!(parsed_signer.public_key, signer.public_key().as_ref());

    let tls_key = KeyPair::generate_for(&PKCS_ECDSA_P256_SHA256).unwrap();
    let tls_spki = tls_key.subject_public_key_info();
    let context = b"example-attested-transport/1".to_vec();
    let nonce = vec![7_u8; 32];
    let pcrs = BTreeMap::from([(0, vec![0x11; 48]), (1, vec![0x22; 48])]);
    let bound_spki = document_spki.unwrap_or_else(|| tls_spki.clone());
    let document = AttestationDoc::new(
        "test-nitro-module".into(),
        NitroDigest::SHA256,
        document_timestamp * 1_000,
        pcrs.clone(),
        signer_certificate.der().to_vec(),
        vec![root.der().to_vec()],
        Some(
            binding_user_data(NitroBinding {
                context: &context,
                nonce: &nonce,
                tls_spki: &bound_spki,
            })
            .to_vec(),
        ),
        Some(nonce.clone()),
        Some(bound_spki),
    );
    let evidence = CoseSign1Builder::new()
        .payload(document.to_binary())
        .create_signature(&[], |input| signer.sign(&rng, input).unwrap().as_ref().to_vec())
        .build()
        .to_tagged_vec()
        .unwrap();
    let cose = CoseSign1::from_tagged_slice(&evidence).unwrap();
    cose.verify_signature(&[], |signature, data| {
        UnparsedPublicKey::new(&ECDSA_P384_SHA384_FIXED, signer.public_key())
            .verify(data, signature)
            .map_err(|_| ())
    })
    .unwrap();

    let mut tls_params = CertificateParams::new(vec![SERVER.into()]).unwrap();
    tls_params
        .custom_extensions
        .push(CustomExtension::from_oid_content(NITRO_ATTESTATION_OID, evidence));
    Fixture {
        certificate: tls_params.self_signed(&tls_key).unwrap().der().to_vec(),
        context,
        nonce,
        policy: policy_for(pcrs),
        root_fingerprint: Sha256::digest(root.der()).into(),
        now: document_timestamp,
    }
}

fn verifier_for(fixture: &Fixture) -> NitroServerVerifier {
    NitroServerVerifier {
        policy: fixture.policy.clone(),
        context: fixture.context.clone(),
        nonce: fixture.nonce.clone(),
        provider: Arc::new(rustls::crypto::ring::default_provider()),
        trust_anchor_fingerprint: fixture.root_fingerprint,
    }
}

fn verify(fixture: &Fixture, verifier: NitroServerVerifier) -> Result<(), ServerCertError> {
    verifier.verify_server_cert(&fixture.certificate, &[], SERVER, &[], fixture.now)
}

#[test]
fn authenticates_a_certificate_bound_nitro_document() {
    let fixture = fixture(now_secs(), None);
    let result = verify(&fixture, verifier_for(&fixture));
    assert!(result.is_ok(), "{result:?}");
}

#[test]
fn rejects_invalid_pcr_after_authenticating_the_document() {
    let fixture = fixture(now_secs(), None);
    let mut verifier = verifier_for(&fixture);
    verifier.policy.pcrs.get_mut(&0).unwrap()[0][0] ^= 0xff;
    assert!(verify(&fixture, verifier)
        .unwrap_err()
        .message()
        .unwrap()
        .contains("PCR 0 is not approved"));
}

#[test]
fn rejects_a_replayed_document_for_a_new_nonce() {
    let fixture = fixture(now_secs(), None);
    let mut verifier = verifier_for(&fixture);
    verifier.nonce[0] ^= 0xff;
    assert!(verify(&fixture, verifier)
        .unwrap_err()
        .message()
        .unwrap()
        .contains("nonce does not match"));
}

#[test]
fn rejects_a_document_bound_to_a_different_tls_spki() {
    let fixture = fixture(now_secs(), Some(vec![0x42; 91]));
    assert!(verify(&fixture, verifier_for(&fixture))
        .unwrap_err()
        .message()
        .unwrap()
        .contains("public key does not match"));
}

#[test]
fn rejects_stale_attestation_evidence() {
    let now = now_secs();
    let fixture = fixture(now.checked_sub(61).unwrap(), None);
    let verifier = verifier_for(&fixture);
    let error = verifier.verify_server_cert(
        &fixture.certificate,
        &[],
        "tempo-zone-prover.invalid",
        &[],
        now,
    );
    assert!(error.unwrap_err().message().unwrap().contains("is stale"));
}

#[derive(Debug)]
struct TlsVerifier(NitroServerVerifier);

impl ServerCertVerifier for TlsVerifier {
    fn verify_server_cert(
        &self,
        end_entity: &CertificateDer<'_>,
        intermediates: &[CertificateDer<'_>],
        server_name: &ServerName<'_>,
        ocsp_response: &[u8],
        now: UnixTime,
    ) -> Result<ServerCertVerified, rustls::Error> {
        let intermediates: Vec<&[u8]> = intermediates.iter().map(|c| c.as_ref()).collect();
        let (name, now) = (server_name.to_str(), now.as_secs());
        self.0
            .verify_server_cert(end_entity, &intermediates, &name, ocsp_response, now)
            .map(|()| ServerCertVerified::assertion())
            .map_err(|error| rustls::Error::General(format!("{error:?}")))
    }

    fn verify_tls12_signature(
        &self,
        message: &[u8],
        cert: &CertificateDer<'_>,
        dss: &DigitallySignedStruct,
    ) -> Result<HandshakeSignatureValid, rustls::Error> {
        rustls::crypto::verify_tls12_signature(
            message,
            cert,
            dss,
            &self.0.provider.signature_verification_algorithms,
        )
    }

    fn verify_tls13_signature(
        &self,
        message: &[u8],
        cert: &CertificateDer<'_>,
        dss: &DigitallySignedStruct,
    ) -> Result<HandshakeSignatureValid, rustls::Error> {
        rustls::crypto::verify_tls13_signature(
            message,
            cert,
            dss,
            &self.0.provider.signature_verification_algorithms,
        )
    }

    fn supported_verify_schemes(&self) -> Vec<SignatureScheme> {
        self.0.provider.signature_verification_algorithms.supported_schemes()
    }
}

/// Carries what one endpoint has to say to the other, until both are done with the handshake.
fn shake_hands(
    client: &mut rustls::ClientConnection,
    server: &mut rustls::ServerConnection,
) -> Result<(), rustls::Error> {
    while client.is_handshaking() || server.is_handshaking() {
        let mut to_server = Vec::new();
        while client.wants_write() {
            client.write_tls(&mut to_server).unwrap();
        }
        let mut to_server = to_server.as_slice();
        while !to_server.is_empty() {
            server.read_tls(&mut to_server).unwrap();
            server.process_new_packets()?;
        }
        let mut to_client = Vec::new();
        while server.wants_write() {
            server.write_tls(&mut to_client).unwrap();
        }
        let mut to_client = to_client.as_slice();
        while !to_client.is_empty() {
            client.read_tls(&mut to_client).unwrap();
            client.process_new_packets()?;
        }
    }
    Ok(())
}

fn connect(
    verifier: NitroServerVerifier,
    server_config: rustls::ServerConfig,
) -> (rustls::ClientConnection, rustls::ServerConnection) {
    let provider = verifier.provider.clone();
    let client_config = rustls::ClientConfig::builder_with_provider(provider)
        .with_protocol_versions(&[&rustls::version::TLS13])
        .unwrap()
        .dangerous()
        .with_custom_certificate_verifier(Arc::new(TlsVerifier(verifier)))
        .with_no_client_auth();
    let name = ServerName::try_from(SERVER).unwrap();
    (
        rustls::ClientConnection::new(Arc::new(client_config), name).unwrap(),
        rustls::ServerConnection::new(Arc::new(server_config)).unwrap(),
    )
}

#[test]
fn establishes_an_encrypted_tls_stream_after_attestation() {
    let (attester, policy, root_fingerprint) = test_attester();
    let context = b"example-attested-transport/1".to_vec();
    let nonce = vec![9_u8; 32];
    let provider = Arc::new(rustls::crypto::ring::default_provider());
    let server_config = server_config_for_nonce(
        &attester,
        &context,
        &nonce,
        "tempo-zone-prover.invalid",
        provider.clone(),
    )
    .unwrap();
    let verifier = NitroServerVerifier {
        policy,
        context,
        nonce,
        provider,
        trust_anchor_fingerprint: root_fingerprint,
    };
    let (mut client, mut server) = connect(verifier, server_config);
    shake_hands(&mut client, &mut server).unwrap();
    client.writer().write_all(b"prover-frame").unwrap();
    let mut wire = Vec::new();
    while client.wants_write() {
        client.write_tls(&mut wire).unwrap();
    }
    assert!(!wire.windows(12).any(|bytes| bytes == b"prover-frame"));
    let mut wire = wire.as_slice();
    while !wire.is_empty() {
        server.read_tls(&mut wire).unwrap();
        server.process_new_packets().unwrap();
    }
    let mut frame = [0_u8; 12];
    server.reader().read_exact(&mut frame).unwrap();
    assert_eq!(&frame, b"prover-frame");
}

#[test]
fn breaks_off_the_handshake_where_the_nonce_is_another() {
    let (attester, policy, root_fingerprint) = test_attester();
    let context = b"example-attested-transport/1".to_vec();
    let provider = Arc::new(rustls::crypto::ring::default_provider());
    let server_config =
        server_config_for_nonce(&attester, &context, &[9; 32], SERVER, provider.clone()).unwrap();
    let verifier = NitroServerVerifier {
        policy,
        context,
        nonce: vec![8; 32],
        provider,
        trust_anchor_fingerprint: root_fingerprint,
    };
    let (mut client, mut server) = connect(verifier, server_config);
    let error = shake_hands(&mut client, &mut server).unwrap_err();
    assert!(error.to_string().contains("NonceMismatch"));
}

#[test]
fn neither_a_stapled_response_nor_the_provider_has_a_say() {
    let good = fixture(now_secs(), None);
    let bad = fixture(now_secs(), Some(vec![0x42; 91]));
    for fixture in [good, bad] {
        let mut other = verifier_for(&fixture);
        let mut provider = rustls::crypto::ring::default_provider();
        provider.cipher_suites.clear();
        other.provider = Arc::new(provider);
        for name in [SERVER, "another.invalid"] {
            let one = verifier_for(&fixture)
                .verify_server_cert(&fixture.certificate, &[], name, &[], fixture.now);
            let two = other
                .verify_server_cert(&fixture.certificate, &[], name, b"response", fixture.now);
            assert_eq!(format!("{one:?}"), format!("{two:?}"));
        }
    }
}

/// A client certificate resolver that remembers whether it was asked.
#[derive(Debug, Default)]
struct Asked(Mutex<bool>);

impl ResolvesClientCert for Asked {
    fn resolve(
        &self,
        _root_hint_subjects: &[&[u8]],
        _sigschemes: &[SignatureScheme],
    ) -> Option<Arc<CertifiedKey>> {
        *self.0.lock().unwrap() = true;
        None
    }

    fn has_certs(&self) -> bool {
        true
    }
}

#[test]
fn a_configuration_is_for_tls13_alone_without_client_certificates() {
    let (attester, policy, root_fingerprint) = test_attester();
    let context = b"example-attested-transport/1".to_vec();
    let provider = Arc::new(rustls::crypto::ring::default_provider());
    let server_config =
        server_config_for_nonce(&attester, &context, &[9; 32], SERVER, provider.clone()).unwrap();
    assert!(Arc::ptr_eq(server_config.crypto_provider(), &provider));
    let server_config = Arc::new(server_config);
    let verifier_made = Arc::new(TlsVerifier(NitroServerVerifier {
        policy,
        context,
        nonce: vec![9; 32],
        provider: provider.clone(),
        trust_anchor_fingerprint: root_fingerprint,
    }));
    let handshake = |versions: &[&'static rustls::SupportedProtocolVersion]| {
        let asked = Arc::new(Asked::default());
        let client_config = rustls::ClientConfig::builder_with_provider(provider.clone())
            .with_protocol_versions(versions)
            .unwrap()
            .dangerous()
            .with_custom_certificate_verifier(verifier_made.clone())
            .with_client_cert_resolver(asked.clone());
        let name = ServerName::try_from(SERVER).unwrap();
        let mut client = rustls::ClientConnection::new(Arc::new(client_config), name).unwrap();
        let mut server = rustls::ServerConnection::new(server_config.clone()).unwrap();
        let outcome = shake_hands(&mut client, &mut server);
        let asked = *asked.0.lock().unwrap();
        let sent = client.peer_certificates().map(|certificates| certificates.len());
        (outcome.is_ok(), client.protocol_version(), sent, asked)
    };
    let tls13 = Some(rustls::ProtocolVersion::TLSv1_3);
    let both = [&rustls::version::TLS12, &rustls::version::TLS13];
    assert_eq!(handshake(&both), (true, tls13, Some(1), false));
    assert!(!handshake(&[&rustls::version::TLS12]).0);
    assert_eq!(u16::from(rustls::ProtocolVersion::TLSv1_3), TLS13_VERSION);
}
