use attested_tls::chain::{
    judge_chain, parse_certificate, present_chain, verify_certificate_chain, ChainEvidence,
};
use attested_tls::document::{AttestationDoc, Digest};
use attested_tls::time::SystemTime;
use attested_tls::NitroError;
use rcgen::{
    date_time_ymd, BasicConstraints, Certificate, CertificateParams, CertifiedIssuer, IsCa,
    KeyPair, PublicKeyData, PKCS_ECDSA_P384_SHA384,
};
use sha2::Digest as Sha2Digest;
use std::collections::BTreeMap;

const NOW: i64 = 1_700_000_000;

fn authority() -> CertificateParams {
    let mut params = CertificateParams::default();
    params.is_ca = IsCa::Ca(BasicConstraints::Unconstrained);
    params
}

fn expired(mut params: CertificateParams) -> CertificateParams {
    params.not_after = date_time_ymd(2020, 1, 1);
    params
}

fn key() -> KeyPair {
    KeyPair::generate_for(&PKCS_ECDSA_P384_SHA384).unwrap()
}

fn root(params: CertificateParams) -> CertifiedIssuer<'static, KeyPair> {
    CertifiedIssuer::self_signed(params, key()).unwrap()
}

fn below(
    params: CertificateParams,
    issuer: &CertifiedIssuer<'static, KeyPair>,
) -> CertifiedIssuer<'static, KeyPair> {
    CertifiedIssuer::signed_by(params, key(), issuer).unwrap()
}

fn leaf(issuer: &CertifiedIssuer<'static, KeyPair>) -> (KeyPair, Certificate) {
    let pair = key();
    let params = CertificateParams::new(vec!["nitro-attester.invalid".into()]).unwrap();
    let certificate = params.signed_by(&pair, issuer).unwrap();
    (pair, certificate)
}

fn document(certificate: &[u8], cabundle: &[&CertifiedIssuer<'static, KeyPair>]) -> AttestationDoc {
    AttestationDoc {
        module_id: String::new(),
        digest: Digest::SHA384,
        timestamp: 0,
        pcrs: BTreeMap::new(),
        certificate: certificate.to_vec(),
        cabundle: cabundle.iter().map(|c| c.der().to_vec()).collect(),
        public_key: None,
        user_data: None,
        nonce: None,
    }
}

fn anchor(root: &CertifiedIssuer<'static, KeyPair>) -> [u8; 32] {
    sha2::Sha256::digest(root.der()).into()
}

fn verify(document: &AttestationDoc, anchor: [u8; 32]) -> Result<Vec<u8>, NitroError> {
    verify_certificate_chain(document, SystemTime::from_unix_secs(NOW), anchor)
}

#[test]
fn a_leaf_under_the_root_gives_its_key() {
    let root = root(authority());
    let (pair, leaf) = leaf(&root);
    let document = document(leaf.der(), &[&root]);
    assert_eq!(verify(&document, anchor(&root)), Ok(pair.der_bytes().to_vec()));
}

#[test]
fn a_bundle_is_a_path_from_the_root_down() {
    let root = root(authority());
    let upper = below(authority(), &root);
    let lower = below(authority(), &upper);
    let (pair, leaf) = leaf(&lower);
    let path = document(leaf.der(), &[&root, &upper, &lower]);
    assert_eq!(verify(&path, anchor(&root)), Ok(pair.der_bytes().to_vec()));
    let other_way = document(leaf.der(), &[&root, &lower, &upper]);
    assert_eq!(verify(&other_way, anchor(&root)), Err(NitroError::InvalidCertificateChain));
    let gap = document(leaf.der(), &[&root, &lower]);
    assert_eq!(verify(&gap, anchor(&root)), Err(NitroError::InvalidCertificateChain));
    let lowest_missing = document(leaf.der(), &[&root, &upper]);
    assert_eq!(verify(&lowest_missing, anchor(&root)), Err(NitroError::InvalidCertificateChain));
}

#[test]
fn every_link_of_a_long_path_is_looked_at() {
    let root = root(authority());
    let first = below(authority(), &root);
    let second = below(authority(), &first);
    let third = below(authority(), &second);
    let (pair, leaf) = leaf(&third);
    let path = document(leaf.der(), &[&root, &first, &second, &third]);
    assert_eq!(verify(&path, anchor(&root)), Ok(pair.der_bytes().to_vec()));
    let stranger = below(authority(), &root);
    let broken = document(leaf.der(), &[&root, &first, &stranger, &third]);
    assert_eq!(verify(&broken, anchor(&root)), Err(NitroError::InvalidCertificateChain));
}

#[test]
fn one_intermediate_has_one_place() {
    let root = root(authority());
    let middle = below(authority(), &root);
    let (pair, leaf) = leaf(&middle);
    let document = document(leaf.der(), &[&root, &middle]);
    assert_eq!(verify(&document, anchor(&root)), Ok(pair.der_bytes().to_vec()));
}

#[test]
fn a_bundle_is_needed() {
    let root = root(authority());
    let (_, leaf) = leaf(&root);
    let document = document(leaf.der(), &[]);
    assert_eq!(verify(&document, anchor(&root)), Err(NitroError::MissingCaBundle));
}

#[test]
fn the_bundle_must_start_at_the_anchor() {
    let root = root(authority());
    let (_, leaf) = leaf(&root);
    let document = document(leaf.der(), &[&root]);
    assert_eq!(verify(&document, [0; 32]), Err(NitroError::UntrustedRoot));
}

#[test]
fn an_anchor_that_is_no_certificate_is_refused() {
    let root = root(authority());
    let (_, leaf) = leaf(&root);
    let mut document = document(leaf.der(), &[]);
    document.cabundle.push(b"no certificate".to_vec());
    let anchor: [u8; 32] = sha2::Sha256::digest(b"no certificate").into();
    assert_eq!(verify(&document, anchor), Err(NitroError::InvalidCertificateChain));
}

#[test]
fn a_leaf_that_is_no_certificate_is_refused() {
    let root = root(authority());
    let document = document(b"", &[&root]);
    assert_eq!(verify(&document, anchor(&root)), Err(NitroError::InvalidCertificateChain));
    assert_eq!(parse_certificate(b"").unwrap_err(), NitroError::InvalidCertificateChain);
}

#[test]
fn a_leaf_signed_by_another_is_refused() {
    let trusted = root(authority());
    let (_, leaf) = leaf(&root(authority()));
    let document = document(leaf.der(), &[&trusted]);
    assert_eq!(verify(&document, anchor(&trusted)), Err(NitroError::InvalidCertificateChain));
}

#[test]
fn an_authority_must_be_one() {
    let plain_root = root(CertificateParams::default());
    let (_, under_plain) = leaf(&plain_root);
    let no_authority = document(under_plain.der(), &[&plain_root]);
    assert_eq!(
        verify(&no_authority, anchor(&plain_root)),
        Err(NitroError::InvalidCertificateChain)
    );

    let root = root(authority());
    let plain = below(CertificateParams::default(), &root);
    let (_, under_plain) = leaf(&plain);
    let no_authority = document(under_plain.der(), &[&root, &plain]);
    assert_eq!(verify(&no_authority, anchor(&root)), Err(NitroError::InvalidCertificateChain));
}

#[test]
fn every_certificate_must_be_valid_now() {
    let old_root = root(expired(authority()));
    let (_, under_old) = leaf(&old_root);
    let expired_root = document(under_old.der(), &[&old_root]);
    assert_eq!(verify(&expired_root, anchor(&old_root)), Err(NitroError::InvalidCertificateChain));

    let root = root(authority());
    let old_middle = below(expired(authority()), &root);
    let (_, under_old) = leaf(&old_middle);
    let expired_middle = document(under_old.der(), &[&root, &old_middle]);
    assert_eq!(verify(&expired_middle, anchor(&root)), Err(NitroError::InvalidCertificateChain));

    let pair = key();
    let old_leaf = expired(CertificateParams::default()).signed_by(&pair, &root).unwrap();
    let expired_leaf = document(old_leaf.der(), &[&root]);
    assert_eq!(verify(&expired_leaf, anchor(&root)), Err(NitroError::InvalidCertificateChain));
    let then = SystemTime::from_unix_secs(1_500_000_000);
    assert_eq!(
        verify_certificate_chain(&expired_leaf, then, anchor(&root)),
        Ok(pair.der_bytes().to_vec())
    );
}

#[test]
fn a_validity_period_holds_both_its_ends() {
    let root = root(authority());
    let old_leaf = expired(CertificateParams::default()).signed_by(&key(), &root).unwrap();
    let parsed = parse_certificate(old_leaf.der()).unwrap();
    assert_eq!(parsed.not_before, 157_766_400);
    assert_eq!(parsed.not_after, 1_577_836_800);
    let document = document(old_leaf.der(), &[&root]);
    let at = |secs: i64, nanos: u32| {
        let now = SystemTime::new(secs, nanos).unwrap();
        verify_certificate_chain(&document, now, anchor(&root)).is_ok()
    };
    assert!(!at(157_766_399, 999_999_999));
    assert!(at(157_766_400, 0));
    assert!(at(1_577_836_800, 999_999_999));
    assert!(!at(1_577_836_801, 0));
}

#[test]
fn the_present_must_not_be_before_the_epoch() {
    let root = root(authority());
    let (_, leaf) = leaf(&root);
    let document = document(leaf.der(), &[&root]);
    let now = SystemTime::new(-1, 999_999_999).unwrap();
    assert_eq!(
        verify_certificate_chain(&document, now, anchor(&root)),
        Err(NitroError::TimestampInvalid)
    );
}

#[test]
fn evidence_says_what_the_certificates_say() {
    let root = root(authority());
    let middle = below(authority(), &root);
    let (pair, leaf) = leaf(&middle);
    let bundle = vec![root.der().to_vec(), middle.der().to_vec()];
    let evidence = present_chain(leaf.der(), &bundle);
    assert!(evidence.leaf_signed);
    let certificate = evidence.leaf.unwrap();
    assert_eq!(certificate.public_key, pair.der_bytes());
    assert_eq!(certificate.spki, pair.subject_public_key_info());
    assert!(!certificate.is_ca);
    let head = evidence.root.unwrap();
    assert_eq!(head.digest, anchor(&root));
    assert!(head.authority.signed);
    assert!(head.authority.certificate.unwrap().is_ca);
    assert_eq!(evidence.intermediates.len(), 1);
    assert!(evidence.intermediates[0].signed);
}

#[test]
fn no_evidence_gives_no_key() {
    let nothing = ChainEvidence {
        leaf: None,
        leaf_signed: true,
        root: None,
        intermediates: vec![],
    };
    let now = SystemTime::from_unix_secs(NOW);
    assert_eq!(judge_chain(nothing, now, [0; 32]), Err(NitroError::InvalidCertificateChain));
}
