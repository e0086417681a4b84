use attested_tls::cose::SIGN1_TAG;
use attested_tls::document::Digest;
use attested_tls::time::{Duration, SystemTime};
use attested_tls::verify::{
    authenticate_document, judge_document, verify_document_with_trust_anchor, DocumentEvidence,
    AWS_NITRO_ROOT_G1_SHA256, MAX_DOCUMENT_LEN,
};
use attested_tls::{
    binding_user_data, verify_document, AttestationDoc, NitroBinding, NitroError, NitroPolicy,
};
use aws_nitro_enclaves_nsm_api::api::{AttestationDoc as NsmDocument, Digest as NsmDigest};
use coset::{CborSerializable, CoseSign1, CoseSign1Builder, TaggedCborSerializable};
use rcgen::{
    BasicConstraints, CertificateParams, CertifiedIssuer, IsCa, KeyPair, PKCS_ECDSA_P384_SHA384,
};
use ring::rand::SystemRandom;
use ring::signature::{EcdsaKeyPair, ECDSA_P384_SHA384_FIXED_SIGNING};
use rustls::pki_types::PrivatePkcs8KeyDer;
use sha2::Digest as Sha2Digest;
use std::collections::BTreeMap;

const CONTEXT: &[u8] = b"example-attested-transport/1";
const NONCE: &[u8] = &[7; 32];
const SPKI: &[u8] = &[0x42; 91];
const MADE: i64 = 1_700_000_000;

/// A security module with a key of its own, under a root of its own.
struct Module {
    signer: EcdsaKeyPair,
    certificate: Vec<u8>,
    cabundle: Vec<Vec<u8>>,
}

fn p384() -> (Vec<u8>, KeyPair) {
    let rng = SystemRandom::new();
    let pkcs8 = EcdsaKeyPair::generate_pkcs8(&ECDSA_P384_SHA384_FIXED_SIGNING, &rng).unwrap();
    let pair = KeyPair::from_pkcs8_der_and_sign_algo(
        &PrivatePkcs8KeyDer::from(pkcs8.as_ref()),
        &PKCS_ECDSA_P384_SHA384,
    )
    .unwrap();
    (pkcs8.as_ref().to_vec(), pair)
}

impl Module {
    fn new() -> Module {
        let mut root_params = CertificateParams::default();
        root_params.is_ca = IsCa::Ca(BasicConstraints::Unconstrained);
        let root = CertifiedIssuer::self_signed(root_params, p384().1).unwrap();
        let (pkcs8, pair) = p384();
        let params = CertificateParams::new(vec!["nitro-attester.invalid".into()]).unwrap();
        let rng = SystemRandom::new();
        Module {
            signer: EcdsaKeyPair::from_pkcs8(&ECDSA_P384_SHA384_FIXED_SIGNING, &pkcs8, &rng)
                .unwrap(),
            certificate: params.signed_by(&pair, &root).unwrap().der().to_vec(),
            cabundle: vec![root.der().to_vec()],
        }
    }

    fn anchor(&self) -> [u8; 32] {
        sha2::Sha256::digest(&self.cabundle[0]).into()
    }

    fn document(&self) -> NsmDocument {
        NsmDocument::new(
            "test-nitro-module".into(),
            NsmDigest::SHA384,
            MADE as u64 * 1_000,
            BTreeMap::from([(0, vec![0x11; 48]), (1, vec![0x22; 48])]),
            self.certificate.clone(),
            self.cabundle.clone(),
            Some(user_data(CONTEXT, NONCE, SPKI)),
            Some(NONCE.to_vec()),
            Some(SPKI.to_vec()),
        )
    }

    fn seal(&self, payload: Vec<u8>) -> CoseSign1 {
        let rng = SystemRandom::new();
        CoseSign1Builder::new()
            .payload(payload)
            .create_signature(&[], |input| self.signer.sign(&rng, input).unwrap().as_ref().to_vec())
            .build()
    }

    fn encode(&self, document: NsmDocument) -> Vec<u8> {
        self.seal(document.to_binary()).to_tagged_vec().unwrap()
    }

    fn verify(&self, encoded: &[u8], policy: &NitroPolicy) -> Result<AttestationDoc, NitroError> {
        self.verify_at(encoded, policy, SystemTime::from_unix_secs(MADE))
    }

    fn verify_at(
        &self,
        encoded: &[u8],
        policy: &NitroPolicy,
        now: SystemTime,
    ) -> Result<AttestationDoc, NitroError> {
        verify_document_with_trust_anchor(encoded, policy, binding(), now, self.anchor())
    }
}

fn user_data(context: &[u8], nonce: &[u8], tls_spki: &[u8]) -> Vec<u8> {
    binding_user_data(NitroBinding { context, nonce, tls_spki }).to_vec()
}

fn binding() -> NitroBinding<'static> {
    NitroBinding { context: CONTEXT, nonce: NONCE, tls_spki: SPKI }
}

fn policy() -> NitroPolicy {
    NitroPolicy {
        pcrs: BTreeMap::from([(0, vec![vec![0x11; 48]]), (1, vec![vec![0x22; 48]])]),
        max_age: Duration::from_secs(60),
        module_id: Some("test-nitro-module".into()),
    }
}

#[test]
fn an_accepted_document_is_returned_field_for_field() {
    let module = Module::new();
    let document = module.verify(&module.encode(module.document()), &policy()).unwrap();
    assert_eq!(document.module_id, "test-nitro-module");
    assert_eq!(document.digest, Digest::SHA384);
    assert_eq!(document.timestamp, MADE as u64 * 1_000);
    assert_eq!(document.pcrs, BTreeMap::from([(0, vec![0x11; 48]), (1, vec![0x22; 48])]));
    assert_eq!(document.certificate, module.certificate);
    assert_eq!(document.cabundle, module.cabundle);
    assert_eq!(document.public_key.as_deref(), Some(SPKI));
    assert_eq!(document.user_data, Some(user_data(CONTEXT, NONCE, SPKI)));
    assert_eq!(document.nonce.as_deref(), Some(NONCE));
    let mut copy = document.clone();
    assert_eq!(copy, document);
    copy.timestamp += 1;
    assert_ne!(copy, document);
}

#[test]
fn each_digest_is_told_apart() {
    let module = Module::new();
    for (sent, received) in [
        (NsmDigest::SHA256, Digest::SHA256),
        (NsmDigest::SHA384, Digest::SHA384),
        (NsmDigest::SHA512, Digest::SHA512),
    ] {
        let mut document = module.document();
        document.digest = sent;
        assert_eq!(module.verify(&module.encode(document), &policy()).unwrap().digest, received);
    }
}

#[test]
fn the_structure_may_come_without_its_tag() {
    let module = Module::new();
    let untagged = module.seal(module.document().to_binary()).to_vec().unwrap();
    assert!(module.verify(&untagged, &policy()).is_ok());
}

#[test]
fn with_its_tag_or_without_an_encoding_gets_one_verdict() {
    let module = Module::new();
    let mut unsigned = module.seal(module.document().to_binary());
    unsigned.signature[0] ^= 0xff;
    let mut empty = module.seal(vec![]);
    empty.payload = None;
    for sign1 in [module.seal(module.document().to_binary()), unsigned, empty] {
        let untagged = sign1.to_vec().unwrap();
        let mut tagged = vec![SIGN1_TAG];
        tagged.extend_from_slice(&untagged);
        assert_eq!(
            format!("{:?}", module.verify(&tagged, &policy())),
            format!("{:?}", module.verify(&untagged, &policy()))
        );
        tagged.insert(0, SIGN1_TAG);
        assert_eq!(module.verify(&tagged, &policy()).unwrap_err(), NitroError::MalformedCose);
    }
}

#[test]
fn a_path_with_intermediates_leads_to_the_signer() {
    let authority = || {
        let mut params = CertificateParams::default();
        params.is_ca = IsCa::Ca(BasicConstraints::Unconstrained);
        params
    };
    let root = CertifiedIssuer::self_signed(authority(), p384().1).unwrap();
    let upper = CertifiedIssuer::signed_by(authority(), p384().1, &root).unwrap();
    let lower = CertifiedIssuer::signed_by(authority(), p384().1, &upper).unwrap();
    let (pkcs8, pair) = p384();
    let params = CertificateParams::new(vec!["nitro-attester.invalid".into()]).unwrap();
    let rng = SystemRandom::new();
    let module = Module {
        signer: EcdsaKeyPair::from_pkcs8(&ECDSA_P384_SHA384_FIXED_SIGNING, &pkcs8, &rng).unwrap(),
        certificate: params.signed_by(&pair, &lower).unwrap().der().to_vec(),
        cabundle: vec![root.der().to_vec(), upper.der().to_vec(), lower.der().to_vec()],
    };
    assert!(module.verify(&module.encode(module.document()), &policy()).is_ok());
}

#[test]
fn an_incomplete_policy_refuses_before_anything_is_read() {
    let module = Module::new();
    let mut incomplete = policy();
    incomplete.pcrs.insert(2, vec![]);
    assert_eq!(module.verify(b"", &incomplete).unwrap_err(), NitroError::IncompletePolicy);
    assert_eq!(
        module.verify(b"", &NitroPolicy::default()).unwrap_err(),
        NitroError::IncompletePolicy
    );
    let encoded = module.encode(module.document());
    assert_eq!(module.verify(&encoded, &incomplete).unwrap_err(), NitroError::IncompletePolicy);
}

#[test]
fn a_document_over_the_limit_is_refused_unread() {
    let module = Module::new();
    assert_eq!(MAX_DOCUMENT_LEN, 16_384);
    assert_eq!(
        module.verify(&[0; 16_385], &policy()).unwrap_err(),
        NitroError::DocumentTooLarge
    );
    assert_eq!(module.verify(&[0; 16_384], &policy()).unwrap_err(), NitroError::MalformedCose);
}

#[test]
fn what_is_no_cose_structure_is_malformed() {
    let module = Module::new();
    assert_eq!(module.verify(b"", &policy()).unwrap_err(), NitroError::MalformedCose);
    let mut encoded = module.encode(module.document());
    encoded.pop();
    assert_eq!(module.verify(&encoded, &policy()).unwrap_err(), NitroError::MalformedCose);
}

#[test]
fn a_structure_without_a_payload_is_refused() {
    let module = Module::new();
    let mut sign1 = module.seal(module.document().to_binary());
    sign1.payload = None;
    let encoded = sign1.to_tagged_vec().unwrap();
    assert_eq!(module.verify(&encoded, &policy()).unwrap_err(), NitroError::MissingPayload);
}

#[test]
fn a_payload_that_is_no_document_is_malformed() {
    let module = Module::new();
    let encoded = module.seal(b"not a document".to_vec()).to_tagged_vec().unwrap();
    assert_eq!(module.verify(&encoded, &policy()).unwrap_err(), NitroError::MalformedDocument);
}

#[test]
fn a_changed_payload_breaks_the_signature() {
    let module = Module::new();
    let mut sign1 = module.seal(module.document().to_binary());
    let mut document = module.document();
    document.timestamp += 1;
    sign1.payload = Some(document.to_binary());
    let encoded = sign1.to_tagged_vec().unwrap();
    assert_eq!(module.verify(&encoded, &policy()).unwrap_err(), NitroError::InvalidCoseSignature);
}

#[test]
fn another_module_cannot_sign_for_this_one() {
    let module = Module::new();
    let encoded = Module::new().encode(module.document());
    assert_eq!(module.verify(&encoded, &policy()).unwrap_err(), NitroError::InvalidCoseSignature);
}

#[test]
fn a_document_must_carry_the_nonce() {
    let module = Module::new();
    let mut document = module.document();
    document.nonce = None;
    let refused = module.verify(&module.encode(document), &policy());
    assert_eq!(refused.unwrap_err(), NitroError::NonceMismatch);

    let encoded = module.encode(module.document());
    let other = NitroBinding { nonce: &[8; 32], ..binding() };
    let refused = verify_document_with_trust_anchor(
        &encoded,
        &policy(),
        other,
        SystemTime::from_unix_secs(MADE),
        module.anchor(),
    );
    assert_eq!(refused.unwrap_err(), NitroError::NonceMismatch);
}

#[test]
fn a_document_must_carry_the_tls_key() {
    let module = Module::new();
    let mut document = module.document();
    document.public_key = None;
    let refused = module.verify(&module.encode(document), &policy());
    assert_eq!(refused.unwrap_err(), NitroError::SpkiMismatch);

    let encoded = module.encode(module.document());
    let other = NitroBinding { tls_spki: &[0x42; 90], ..binding() };
    let refused = verify_document_with_trust_anchor(
        &encoded,
        &policy(),
        other,
        SystemTime::from_unix_secs(MADE),
        module.anchor(),
    );
    assert_eq!(refused.unwrap_err(), NitroError::SpkiMismatch);
}

#[test]
fn a_document_must_bind_the_context() {
    let module = Module::new();
    let encoded = module.encode(module.document());
    let other = NitroBinding { context: b"example-attested-transport/2", ..binding() };
    let refused = verify_document_with_trust_anchor(
        &encoded,
        &policy(),
        other,
        SystemTime::from_unix_secs(MADE),
        module.anchor(),
    );
    assert_eq!(refused.unwrap_err(), NitroError::UserDataMismatch);

    let mut document = module.document();
    document.user_data = None;
    let refused = module.verify(&module.encode(document), &policy());
    assert_eq!(refused.unwrap_err(), NitroError::UserDataMismatch);
}

#[test]
fn the_module_must_be_the_expected_one() {
    let module = Module::new();
    let encoded = module.encode(module.document());
    let mut other = policy();
    other.module_id = Some("another-module".into());
    assert_eq!(module.verify(&encoded, &other).unwrap_err(), NitroError::ModuleIdMismatch);
    other.module_id = None;
    assert!(module.verify(&encoded, &other).is_ok());
}

#[test]
fn a_document_is_fresh_up_to_its_maximum_age() {
    let module = Module::new();
    let encoded = module.encode(module.document());
    let at = |secs: i64, nanos: u32| {
        module.verify_at(&encoded, &policy(), SystemTime::new(secs, nanos).unwrap())
    };
    assert_eq!(at(MADE - 1, 999_999_999).unwrap_err(), NitroError::TimestampInFuture);
    assert!(at(MADE, 0).is_ok());
    assert!(at(MADE + 60, 0).is_ok());
    assert_eq!(at(MADE + 60, 1).unwrap_err(), NitroError::Stale);
}

#[test]
fn before_the_epoch_nothing_is_valid() {
    let module = Module::new();
    let encoded = module.encode(module.document());
    let refused = module.verify_at(&encoded, &policy(), SystemTime::from_unix_secs(-1));
    assert_eq!(refused.unwrap_err(), NitroError::TimestampInvalid);
}

#[test]
fn the_measured_set_must_be_the_named_one() {
    let module = Module::new();
    let encoded = module.encode(module.document());

    let mut fewer = policy();
    fewer.pcrs.remove(&1);
    assert_eq!(module.verify(&encoded, &fewer).unwrap_err(), NitroError::PcrSetMismatch);

    let mut more = policy();
    more.pcrs.insert(2, vec![vec![0x33; 48]]);
    assert_eq!(module.verify(&encoded, &more).unwrap_err(), NitroError::PcrSetMismatch);

    let mut others = fewer;
    others.pcrs.insert(2, vec![vec![0x22; 48]]);
    assert_eq!(module.verify(&encoded, &others).unwrap_err(), NitroError::PcrSetMismatch);
}

#[test]
fn the_lowest_unapproved_pcr_is_reported() {
    let module = Module::new();
    let encoded = module.encode(module.document());
    let mut wrong = policy();
    wrong.pcrs.insert(1, vec![vec![0x23; 48]]);
    assert_eq!(module.verify(&encoded, &wrong).unwrap_err(), NitroError::PcrMismatch(1));
    wrong.pcrs.insert(0, vec![vec![0x12; 48], vec![0x11; 47]]);
    assert_eq!(module.verify(&encoded, &wrong).unwrap_err(), NitroError::PcrMismatch(0));
}

#[test]
fn a_rollout_may_allow_more_than_one_value() {
    let module = Module::new();
    let encoded = module.encode(module.document());
    let mut wider = policy();
    wider.pcrs.insert(0, vec![vec![0x10; 48], vec![0x11; 48]]);
    assert!(module.verify(&encoded, &wider).is_ok());
}

#[test]
fn only_the_published_root_is_trusted_by_default() {
    let module = Module::new();
    let encoded = module.encode(module.document());
    let now = SystemTime::from_unix_secs(MADE);
    let refused = verify_document(&encoded, &policy(), binding(), now);
    assert_eq!(refused.unwrap_err(), NitroError::UntrustedRoot);
    let refused = verify_document_with_trust_anchor(
        &encoded,
        &policy(),
        binding(),
        now,
        AWS_NITRO_ROOT_G1_SHA256,
    );
    assert_eq!(refused.unwrap_err(), NitroError::UntrustedRoot);
}

#[test]
fn authenticity_is_judged_without_a_policy() {
    let module = Module::new();
    let mut document = module.document();
    document.nonce = None;
    let encoded = module.encode(document);
    let now = SystemTime::from_unix_secs(MADE + 1_000_000);
    let document = authenticate_document(&encoded, now, module.anchor()).unwrap();
    assert_eq!(document.nonce, None);
}

#[test]
fn the_first_thing_missing_decides_on_authenticity() {
    let nothing = |key| DocumentEvidence {
        sign1: None,
        document: None,
        key,
        signature_valid: true,
    };
    assert_eq!(judge_document(nothing(Ok(vec![4]))).unwrap_err(), NitroError::MalformedCose);
    assert_eq!(
        judge_document(nothing(Err(NitroError::UntrustedRoot))).unwrap_err(),
        NitroError::MalformedCose
    );
}
