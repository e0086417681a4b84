use attested_tls::binding::encode_binding;
use attested_tls::bytes::{bytes_equal, is_exactly, push_u64};
use attested_tls::claims::verify_age;
use attested_tls::text::push_decimal;
use attested_tls::time::{Duration, SystemTime};
use attested_tls::{binding_user_data, NitroBinding, NitroError, NitroPolicy};
use std::collections::BTreeMap;

#[test]
fn user_data_is_the_digest_of_the_framed_binding() {
    let binding = NitroBinding {
        context: b"example-attested-transport/1",
        nonce: &[7; 32],
        tls_spki: &[0x42; 91],
    };
    assert_eq!(
        binding_user_data(binding),
        [
            0xbf, 0x6e, 0xd3, 0x2c, 0xac, 0x10, 0xb7, 0xbf, 0xb7, 0xe9, 0x86, 0xf6, 0x13, 0x27,
            0xce, 0xd9, 0xca, 0x76, 0x26, 0x59, 0xbc, 0xa8, 0xc9, 0x6f, 0x1e, 0xfc, 0x23, 0x25,
            0x44, 0x27, 0x9b, 0x89,
        ]
    );
    let nothing = NitroBinding { context: b"", nonce: b"", tls_spki: b"" };
    assert_eq!(
        binding_user_data(nothing.clone()),
        [
            0x9d, 0x90, 0x8e, 0xcf, 0xb6, 0xb2, 0x56, 0xde, 0xf8, 0xb4, 0x9a, 0x7c, 0x50, 0x4e,
            0x6c, 0x88, 0x9c, 0x4b, 0x0e, 0x41, 0xfe, 0x6c, 0xe3, 0xe0, 0x18, 0x63, 0xdd, 0x7b,
            0x61, 0xa2, 0x0a, 0xa0,
        ]
    );
    assert_eq!(encode_binding(&nothing), vec![0; 24]);
}

#[test]
fn no_bytes_move_between_the_parts_of_a_binding() {
    let one = NitroBinding { context: b"ab", nonce: b"c", tls_spki: b"" };
    let other = NitroBinding { context: b"a", nonce: b"bc", tls_spki: b"" };
    assert_eq!(
        encode_binding(&one),
        b"\0\0\0\0\0\0\0\x02ab\0\0\0\0\0\0\0\x01c\0\0\0\0\0\0\0\0".to_vec()
    );
    assert_ne!(encode_binding(&one), encode_binding(&other));
    assert_ne!(binding_user_data(one), binding_user_data(other));
}

#[test]
fn numbers_are_written_big_endian() {
    let mut out = vec![0xff];
    push_u64(&mut out, 0x0102_0304_0506_0708);
    push_u64(&mut out, u64::MAX);
    assert_eq!(out[..9], [0xff, 1, 2, 3, 4, 5, 6, 7, 8]);
    assert_eq!(out[9..], [0xff; 8]);
}

#[test]
fn byte_strings_compare_by_length_and_content() {
    assert!(bytes_equal(b"", b""));
    assert!(bytes_equal(b"ab", b"ab"));
    assert!(!bytes_equal(b"ab", b"ac"));
    assert!(!bytes_equal(b"ab", b"abc"));
    assert!(is_exactly(&Some(vec![1]), &[1]));
    assert!(!is_exactly(&Some(vec![1]), &[]));
    assert!(!is_exactly(&None, &[]));
}

#[test]
fn numbers_are_written_in_decimal() {
    let mut out = String::from("PCR ");
    push_decimal(&mut out, 0);
    push_decimal(&mut out, 9_870_654_321);
    assert_eq!(out, "PCR 09870654321");
}

#[test]
fn every_error_has_its_sentence() {
    for (error, sentence) in [
        (
            NitroError::IncompletePolicy,
            "Nitro PCR policy must explicitly allow at least one value for every PCR",
        ),
        (
            NitroError::DocumentTooLarge,
            "Nitro attestation document exceeds the 16 KiB protocol limit",
        ),
        (NitroError::MalformedCose, "malformed COSE_Sign1 attestation document"),
        (NitroError::MissingPayload, "COSE_Sign1 is missing its attestation payload"),
        (NitroError::MalformedDocument, "malformed Nitro attestation payload"),
        (NitroError::InvalidCoseSignature, "Nitro COSE signature is invalid"),
        (NitroError::NonceMismatch, "Nitro attestation nonce does not match this TLS connection"),
        (NitroError::NonceTooShort, "Nitro attestation nonce must have at least 32 bytes"),
        (
            NitroError::SpkiMismatch,
            "Nitro attestation public key does not match the TLS certificate SPKI",
        ),
        (
            NitroError::UserDataMismatch,
            "Nitro attestation user_data does not bind the protocol, nonce, and SPKI",
        ),
        (NitroError::ModuleIdMismatch, "Nitro attestation module ID does not match policy"),
        (NitroError::TimestampInvalid, "Nitro attestation timestamp is invalid"),
        (NitroError::TimestampInFuture, "Nitro attestation timestamp is in the future"),
        (NitroError::Stale, "Nitro attestation is stale"),
        (
            NitroError::PcrSetMismatch,
            "Nitro attestation PCR set differs from the complete policy",
        ),
        (NitroError::PcrMismatch(15), "Nitro attestation PCR 15 is not approved"),
        (NitroError::MissingCaBundle, "Nitro attestation did not include an AWS CA bundle"),
        (NitroError::UntrustedRoot, "Nitro attestation does not chain to AWS Nitro Root-G1"),
        (NitroError::InvalidCertificateChain, "Nitro attestation certificate chain is invalid"),
        (
            NitroError::CertificateGeneration,
            "could not generate the Nitro-attested TLS certificate",
        ),
        (
            NitroError::AttestationGeneration("no module".into()),
            "Nitro attestation generation failed: no module",
        ),
    ] {
        assert_eq!(error.message(), sentence);
    }
}

#[test]
fn a_policy_must_name_a_value_for_each_pcr() {
    let policy = |pcrs: BTreeMap<usize, Vec<Vec<u8>>>| NitroPolicy { pcrs, ..Default::default() };
    assert_eq!(NitroPolicy::default().validate(), Err(NitroError::IncompletePolicy));
    let whole = policy(BTreeMap::from([(0, vec![vec![]]), (7, vec![vec![1], vec![2]])]));
    assert_eq!(whole.validate(), Ok(()));
    assert_eq!(whole.clone().pcrs, whole.pcrs);
    let gap = policy(BTreeMap::from([(0, vec![vec![1]]), (7, vec![])]));
    assert_eq!(gap.validate(), Err(NitroError::IncompletePolicy));
}

#[test]
fn age_is_counted_to_the_nanosecond() {
    let at = |secs: i64, nanos: u32| SystemTime::new(secs, nanos).unwrap();
    let max_age = Duration::new(60, 5).unwrap();
    assert_eq!(verify_age(1_500, max_age, at(1, 499_999_999)), Err(NitroError::TimestampInFuture));
    assert_eq!(verify_age(1_500, max_age, at(1, 500_000_000)), Ok(()));
    assert_eq!(verify_age(1_500, max_age, at(61, 500_000_005)), Ok(()));
    assert_eq!(verify_age(1_500, max_age, at(61, 500_000_006)), Err(NitroError::Stale));
    assert_eq!(
        verify_age(u64::MAX, max_age, at(i64::MAX, 0)),
        Err(NitroError::Stale)
    );
    assert_eq!(verify_age(0, max_age, at(-1, 0)), Err(NitroError::TimestampInFuture));
}

#[test]
fn points_in_time_and_spans_add_up() {
    let epoch = SystemTime::from_unix_secs(0);
    let later = epoch.checked_add(Duration::from_millis(1_234)).unwrap();
    assert_eq!(later, SystemTime::new(1, 234_000_000).unwrap());
    assert_eq!(later.duration_since(epoch), Duration::new(1, 234_000_000));
    assert_eq!(epoch.duration_since(later), None);
    assert_eq!(
        SystemTime::new(2, 100).unwrap().duration_since(later),
        Duration::new(0, 766_000_100)
    );
    let before = SystemTime::new(-2, 500_000_000).unwrap();
    assert_eq!(epoch.duration_since(before), Duration::new(1, 500_000_000));
    assert_eq!(before.unix_secs(), None);
    assert_eq!(later.unix_secs(), Some(1));
    assert_eq!(epoch.checked_sub(Duration::new(1, 500_000_000).unwrap()), Some(before));
    assert_eq!(later.checked_sub(Duration::from_millis(1_234)), Some(epoch));
    let start = SystemTime::from_unix_secs(i64::MIN);
    assert_eq!(start.checked_sub(Duration::new(0, 1).unwrap()), None);
    assert_eq!(epoch.checked_sub(Duration::from_secs(1 << 63)), Some(start));
    let end = SystemTime::new(i64::MAX, 999_999_999).unwrap();
    assert_eq!(end.checked_add(Duration::new(0, 1).unwrap()), None);
    assert_eq!(end.checked_add(Duration::default()), Some(end));
    assert_eq!(SystemTime::new(0, 1_000_000_000), None);
    assert_eq!(Duration::new(0, 1_000_000_000), None);
    assert!(Duration::new(1, 1).unwrap().exceeds(Duration::from_secs(1)));
    assert!(!Duration::from_secs(1).exceeds(Duration::from_secs(1)));
    assert!(!Duration::from_secs(1).exceeds(Duration::new(1, 1).unwrap()));
}
