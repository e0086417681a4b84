//! What the operations of the handshake do, in terms of their inputs and results alone.
//!
//! Each law speaks of what a call of the operation can give, and of what other crates find in the
//! bytes. None goes through the functions by which the operations themselves are described.

use crate::binding::{encode_binding, NitroBinding};
use crate::document::AttestationDoc;
use crate::error::NitroError;
use crate::issue::{
    accept_reply,
    attested_identity,
    generate_key,
    identity_for_key,
    issue_certificate,
    key_for_nonce,
    server_config_for_key,
    server_config_for_nonce,
    subject_public_key_info,
    tls13_server_config,
    AttestedIdentity,
    NitroAttester,
};
use crate::policy::NitroPolicy;
use crate::server_verifier::{
    judge_extension,
    judge_leaf,
    verify_cert_unix_time,
    verify_leaf,
    verify_name,
    AttestedLeaf,
    LeafEvidence,
    NitroServerVerifier,
    ServerCertError,
};
use crate::time::SystemTime;
use crate::tls::HostName;
use crate::verify::verify_document_with_trust_anchor;
use crate::x509::{Certificate, ExtensionLookup, ExtensionLookupView};
use rustls::crypto::CryptoProvider;
use std::sync::Arc;
use vstd::prelude::*;

verus! {

// The certificate of a server.

/// The seconds of a clock that counts 64 bits, read as a signed number.
pub open spec fn signed(now: u64) -> int {
    if now < 0x8000_0000_0000_0000 {
        now as int
    } else {
        now - 0x1_0000_0000_0000_0000
    }
}

/// A server's certificate is valid from the first second of its period to the last.
pub proof fn server_validity_is_a_period(
    certificate: &Certificate,
    now: u64,
    outcome: Result<(), ServerCertError>,
)
    requires
        call_ensures(verify_cert_unix_time, (certificate, now), outcome),
    ensures
        outcome is Ok <==> certificate.not_before <= signed(now) && signed(now)
            <= certificate.not_after,
        outcome matches Err(error) ==> error == ServerCertError::NotCurrentlyValid,
{
}

/// A name must name a server, and the TLS library decides whether the certificate is for it.
pub proof fn name_is_for_the_tls_library_to_judge(
    der: &[u8],
    name: &str,
    outcome: Result<(), ServerCertError>,
)
    requires
        call_ensures(verify_name, (der, name), outcome),
    ensures
        crate::tls::host_name(name@) is None ==> outcome == Err::<(), ServerCertError>(
            ServerCertError::InvalidServerName,
        ),
        crate::tls::host_name(name@) is Some ==> match crate::tls::server_name_verdict(
            der@,
            name@,
        ) {
            Ok(()) => outcome == Ok::<(), ServerCertError>(()),
            Err(error) => outcome == Err::<(), ServerCertError>(ServerCertError::ServerName(error)),
        },
{
}

/// A search for the attestation gives its value if there is one, and says what else is found.
pub proof fn search_gives_the_value(
    found: ExtensionLookup,
    outcome: Result<Vec<u8>, ServerCertError>,
)
    requires
        call_ensures(judge_extension, (found,), outcome),
    ensures
        match found {
            ExtensionLookup::Found { value, .. } => outcome matches Ok(v) && v@ == value@,
            ExtensionLookup::Missing => outcome == Err::<Vec<u8>, ServerCertError>(
                ServerCertError::MissingExtension,
            ),
            ExtensionLookup::Duplicate => outcome == Err::<Vec<u8>, ServerCertError>(
                ServerCertError::DuplicateExtension,
            ),
            ExtensionLookup::InvalidOid => outcome == Err::<Vec<u8>, ServerCertError>(
                ServerCertError::InvalidOid,
            ),
        },
{
}

/// The attestation is the value of the one extension under 1.3.6.1.4.1.57264.1.1, critical or not.
pub proof fn attestation_is_under_its_identifier(
    der: &[u8],
    outcome: Result<Vec<u8>, ServerCertError>,
)
    requires
        call_ensures(NitroServerVerifier::certificate_extension, (der,), outcome),
    ensures
        match crate::x509::x509_extension(der@, seq![1u64, 3, 6, 1, 4, 1, 57264, 1, 1]) {
            ExtensionLookupView::Found { value, .. } => outcome matches Ok(v) && v@ == value,
            ExtensionLookupView::Missing => outcome == Err::<Vec<u8>, ServerCertError>(
                ServerCertError::MissingExtension,
            ),
            ExtensionLookupView::Duplicate => outcome == Err::<Vec<u8>, ServerCertError>(
                ServerCertError::DuplicateExtension,
            ),
            ExtensionLookupView::InvalidOid => false,
        },
{
    assert(crate::server_verifier::NITRO_ATTESTATION_OID@ =~= seq![
        1u64,
        3,
        6,
        1,
        4,
        1,
        57264,
        1,
        1,
    ]);
}

/// Of the evidence on a server's certificate, the first flaw decides.
pub proof fn first_flaw_decides(
    alone: bool,
    evidence: LeafEvidence,
    now: u64,
    outcome: Result<AttestedLeaf, ServerCertError>,
)
    requires
        call_ensures(judge_leaf, (alone, evidence, now), outcome),
    ensures
        !alone ==> outcome == Err::<AttestedLeaf, ServerCertError>(ServerCertError::NotAlone),
        alone && evidence.certificate is None ==> outcome == Err::<AttestedLeaf, ServerCertError>(
            ServerCertError::Unreadable,
        ),
        alone ==> (evidence.certificate matches Some(certificate) ==> {
            let self_signed = certificate.self_issued && evidence.self_signed;
            let valid = certificate.not_before <= signed(now) && signed(now)
                <= certificate.not_after;
            &&& !self_signed ==> outcome == Err::<AttestedLeaf, ServerCertError>(
                ServerCertError::NotSelfSigned,
            )
            &&& self_signed && !valid ==> outcome == Err::<AttestedLeaf, ServerCertError>(
                ServerCertError::NotCurrentlyValid,
            )
            &&& self_signed && valid ==> match (evidence.name, evidence.extension) {
                (Err(error), _) => outcome == Err::<AttestedLeaf, ServerCertError>(error),
                (Ok(()), Err(error)) => outcome == Err::<AttestedLeaf, ServerCertError>(error),
                (Ok(()), Ok(value)) => outcome matches Ok(leaf) && leaf.evidence@ == value@
                    && leaf.tls_spki@ == certificate.spki@,
            }
        }),
{
}

/// A server's certificate must come alone, be readable, be issued and signed by its own key, be
/// valid, be for the server asked for, and carry one document. The first of these that fails
/// decides; otherwise the document is given, with the certificate's own key.
pub proof fn certificate_is_looked_at_step_by_step(
    end_entity: &[u8],
    intermediates: &[&[u8]],
    server_name: &str,
    now: u64,
    name: Result<(), ServerCertError>,
    extension: Result<Vec<u8>, ServerCertError>,
    outcome: Result<AttestedLeaf, ServerCertError>,
)
    requires
        call_ensures(verify_leaf, (end_entity, intermediates, server_name, now), outcome),
        call_ensures(verify_name, (end_entity, server_name), name),
        call_ensures(NitroServerVerifier::certificate_extension, (end_entity,), extension),
    ensures
        intermediates@.len() > 0 ==> outcome == Err::<AttestedLeaf, ServerCertError>(
            ServerCertError::NotAlone,
        ),
        intermediates@.len() == 0 ==> match crate::x509::x509_certificate(end_entity@) {
            None => outcome == Err::<AttestedLeaf, ServerCertError>(ServerCertError::Unreadable),
            Some(certificate) => {
                let self_signed = certificate.self_issued && crate::x509::x509_signature_valid(
                    end_entity@,
                    None,
                );
                let valid = certificate.not_before <= signed(now) && signed(now)
                    <= certificate.not_after;
                &&& !self_signed ==> outcome == Err::<AttestedLeaf, ServerCertError>(
                    ServerCertError::NotSelfSigned,
                )
                &&& self_signed && !valid ==> outcome == Err::<AttestedLeaf, ServerCertError>(
                    ServerCertError::NotCurrentlyValid,
                )
                &&& self_signed && valid ==> match (name, extension) {
                    (Err(error), _) => outcome == Err::<AttestedLeaf, ServerCertError>(error),
                    (Ok(()), Err(error)) => outcome == Err::<AttestedLeaf, ServerCertError>(error),
                    (Ok(()), Ok(value)) => outcome matches Ok(leaf) && leaf.evidence@ == value@
                        && leaf.tls_spki@ == certificate.spki,
                }
            },
        },
{
}

// The verifier.

/// A verifier is made if and only if its policy names a value for each of its PCRs, and at least
/// one PCR, and its nonce has at least 32 bytes. It holds what it was given, and trusts AWS Nitro
/// Enclaves Root-G1.
pub proof fn verifier_is_made_iff_it_can_tell(
    policy: NitroPolicy,
    context: Vec<u8>,
    nonce: Vec<u8>,
    provider: Arc<CryptoProvider>,
    outcome: Result<NitroServerVerifier, NitroError>,
)
    requires
        call_ensures(NitroServerVerifier::new, (policy, context, nonce, provider), outcome),
    ensures
        ({
            let complete = policy.pcrs@.dom() != Set::<usize>::empty() && forall|i: usize|
                #[trigger] policy.pcrs@.contains_key(i) ==> policy.pcrs@[i]@.len() > 0;
            &&& outcome is Ok <==> complete && nonce@.len() >= 32
            &&& !complete ==> outcome == Err::<NitroServerVerifier, NitroError>(
                NitroError::IncompletePolicy,
            )
            &&& complete && nonce@.len() < 32 ==> outcome == Err::<NitroServerVerifier, NitroError>(
                NitroError::NonceTooShort,
            )
            &&& outcome matches Ok(made) ==> {
                &&& made.policy == policy
                &&& made.context == context
                &&& made.nonce == nonce
                &&& made.provider == provider
                &&& made.trust_anchor_fingerprint@ == seq![
                    0x64u8, 0x1a, 0x03, 0x21, 0xa3, 0xe2, 0x44, 0xef, 0xe4, 0x56, 0x46, 0x31, 0x95,
                    0xd6, 0x06, 0x31, 0x7e, 0xd7, 0xcd, 0xcc, 0x3c, 0x17, 0x56, 0xe0, 0x98, 0x93,
                    0xf3, 0xc6, 0x8f, 0x79, 0xbb, 0x5b,
                ]
            }
        }),
{
    let allowed = policy@.pcrs;
    assert(allowed.dom() =~= policy.pcrs@.dom());
    assert(forall|i: usize| allowed.contains_key(i) == policy.pcrs@.contains_key(i));
    assert forall|i: usize| #[trigger] policy.pcrs@.contains_key(i) implies allowed[i].len()
        == policy.pcrs@[i]@.len() by {}
    if allowed.dom().is_empty() {
        assert(allowed.dom() =~= Set::<usize>::empty());
    }
    if crate::policy::is_complete(allowed) {
        assert forall|i: usize| #[trigger] policy.pcrs@.contains_key(i) implies policy.pcrs@[
            i
        ]@.len() > 0 by {
            assert(allowed.contains_key(i));
        }
    }
    assert(crate::verify::AWS_NITRO_ROOT_G1_SHA256@ =~= seq![
        0x64u8, 0x1a, 0x03, 0x21, 0xa3, 0xe2, 0x44, 0xef, 0xe4, 0x56, 0x46, 0x31, 0x95, 0xd6, 0x06,
        0x31, 0x7e, 0xd7, 0xcd, 0xcc, 0x3c, 0x17, 0x56, 0xe0, 0x98, 0x93, 0xf3, 0xc6, 0x8f, 0x79,
        0xbb, 0x5b,
    ]);
}

/// The document in a certificate is judged for the verifier's context and nonce and the
/// certificate's own key, under the verifier's policy and anchor, at the time given. A flaw of the
/// certificate comes first.
pub proof fn document_is_judged_for_the_connection(
    verifier: &NitroServerVerifier,
    leaf: Result<AttestedLeaf, ServerCertError>,
    now: u64,
    evidence: &[u8],
    binding: NitroBinding<'_>,
    time: SystemTime,
    document: Result<AttestationDoc, NitroError>,
    outcome: Result<(), ServerCertError>,
)
    requires
        call_ensures(NitroServerVerifier::verify_attested_leaf, (verifier, leaf, now), outcome),
        leaf matches Ok(l) ==> {
            &&& evidence@ == l.evidence@
            &&& binding.tls_spki@ == l.tls_spki@
        },
        binding.context@ == verifier.context@,
        binding.nonce@ == verifier.nonce@,
        time.unix_nanos() == now * 1_000_000_000,
        call_ensures(
            verify_document_with_trust_anchor,
            (
                evidence,
                &verifier.policy,
                binding,
                time,
                verifier.trust_anchor_fingerprint,
            ),
            document,
        ),
    ensures
        match (leaf, document) {
            (Err(error), _) => outcome == Err::<(), ServerCertError>(error),
            (Ok(_), Err(error)) => outcome == Err::<(), ServerCertError>(
                ServerCertError::Attestation(error),
            ),
            (Ok(_), Ok(_)) => outcome == Ok::<(), ServerCertError>(()),
        },
{
    if let Ok(l) = leaf {
        assert(binding@ =~= crate::binding::BindingView {
            context: verifier.context@,
            nonce: verifier.nonce@,
            tls_spki: l.tls_spki@,
        });
    }
}

/// A server's certificate gets the verdict on the certificate itself, and then on the document
/// that it carries.
pub proof fn certificate_is_verified_with_its_document(
    verifier: &NitroServerVerifier,
    end_entity: &[u8],
    intermediates: &[&[u8]],
    server_name: &str,
    ocsp_response: &[u8],
    now: u64,
    leaf: Result<AttestedLeaf, ServerCertError>,
    attested: Result<(), ServerCertError>,
    outcome: Result<(), ServerCertError>,
)
    requires
        call_ensures(
            NitroServerVerifier::verify_server_cert,
            (verifier, end_entity, intermediates, server_name, ocsp_response, now),
            outcome,
        ),
        call_ensures(verify_leaf, (end_entity, intermediates, server_name, now), leaf),
        call_ensures(NitroServerVerifier::verify_attested_leaf, (verifier, leaf, now), attested),
    ensures
        outcome == attested,
{
}

/// At every time that the clock can read, the checked verdict on a certificate is the verdict. At
/// any other time a flaw of the certificate itself is still reported, and a certificate without a
/// flaw gets no verdict.
pub proof fn checked_verdict_is_the_verdict(
    verifier: &NitroServerVerifier,
    end_entity: &[u8],
    intermediates: &[&[u8]],
    server_name: &str,
    ocsp_response: &[u8],
    now: u64,
    leaf: Result<AttestedLeaf, ServerCertError>,
    unchecked: Result<(), ServerCertError>,
    checked: Option<Result<(), ServerCertError>>,
)
    requires
        call_ensures(
            NitroServerVerifier::checked_verify_server_cert,
            (verifier, end_entity, intermediates, server_name, ocsp_response, now),
            checked,
        ),
        call_ensures(
            NitroServerVerifier::verify_server_cert,
            (verifier, end_entity, intermediates, server_name, ocsp_response, now),
            unchecked,
        ),
        call_ensures(verify_leaf, (end_entity, intermediates, server_name, now), leaf),
    ensures
        now < 0x8000_0000_0000_0000 ==> checked == Some(unchecked),
        now >= 0x8000_0000_0000_0000 ==> match leaf {
            Ok(_) => checked is None,
            Err(error) => checked == Some(Err::<(), ServerCertError>(error)),
        },
{
}

/// Only what is attested is accepted: a certificate that came alone, is self-signed and in its
/// period, is for the server asked for, and carries one document, which is accepted for the
/// verifier's nonce and context and for the certificate's own key.
pub proof fn accepted_certificate_is_attested(
    verifier: &NitroServerVerifier,
    end_entity: &[u8],
    intermediates: &[&[u8]],
    server_name: &str,
    ocsp_response: &[u8],
    now: u64,
    evidence: &[u8],
    binding: NitroBinding<'_>,
    time: SystemTime,
    document: Result<AttestationDoc, NitroError>,
    checked: Option<Result<(), ServerCertError>>,
)
    requires
        call_ensures(
            NitroServerVerifier::checked_verify_server_cert,
            (verifier, end_entity, intermediates, server_name, ocsp_response, now),
            checked,
        ),
        crate::x509::x509_extension(
            end_entity@,
            seq![1u64, 3, 6, 1, 4, 1, 57264, 1, 1],
        ) matches ExtensionLookupView::Found { value, .. } ==> evidence@ == value,
        crate::x509::x509_certificate(end_entity@) matches Some(c) ==> binding.tls_spki@ == c.spki,
        binding.context@ == verifier.context@,
        binding.nonce@ == verifier.nonce@,
        time.unix_nanos() == now * 1_000_000_000,
        call_ensures(
            verify_document_with_trust_anchor,
            (
                evidence,
                &verifier.policy,
                binding,
                time,
                verifier.trust_anchor_fingerprint,
            ),
            document,
        ),
    ensures
        checked == Some(Ok::<(), ServerCertError>(())) <==> {
            &&& now < 0x8000_0000_0000_0000
            &&& intermediates@.len() == 0
            &&& crate::x509::x509_certificate(end_entity@) matches Some(c)
            &&& c.self_issued
            &&& crate::x509::x509_signature_valid(end_entity@, None)
            &&& c.not_before <= now
            &&& now <= c.not_after
            &&& crate::tls::host_name(server_name@) is Some
            &&& crate::tls::server_name_verdict(end_entity@, server_name@) is Ok
            &&& crate::x509::x509_extension(
                end_entity@,
                seq![1u64, 3, 6, 1, 4, 1, 57264, 1, 1],
            ) is Found
            &&& document is Ok
        },
        checked == Some(Ok::<(), ServerCertError>(())) ==> {
            &&& document matches Ok(d)
            &&& d.nonce matches Some(nonce)
            &&& nonce@ == verifier.nonce@
        },
{
    assert(crate::server_verifier::NITRO_ATTESTATION_OID@ =~= seq![
        1u64,
        3,
        6,
        1,
        4,
        1,
        57264,
        1,
        1,
    ]);
    if let Some(c) = crate::x509::x509_certificate(end_entity@) {
        assert(binding@ =~= crate::binding::BindingView {
            context: verifier.context@,
            nonce: verifier.nonce@,
            tls_spki: c.spki,
        });
    }
}

/// The sentence on a refused attestation gives the reason.
pub proof fn refusal_gives_its_reason(
    error: NitroError,
    reason: String,
    sentence: Option<String>,
)
    requires
        call_ensures(NitroError::message, (&error,), reason),
        call_ensures(ServerCertError::message, (&ServerCertError::Attestation(error),), sentence),
    ensures
        sentence matches Some(s) && s@ == "Nitro attestation verification failed: "@ + reason@,
{
}

// The issuer.

/// A reply is passed on, unless it is a document of more than 16384 bytes.
pub proof fn reply_is_passed_on_unless_too_large(
    reply: Result<Vec<u8>, NitroError>,
    outcome: Result<Vec<u8>, NitroError>,
)
    requires
        call_ensures(accept_reply, (reply,), outcome),
    ensures
        match reply {
            Err(_) => outcome == reply,
            Ok(document) => if document@.len() <= 16384 {
                outcome == reply
            } else {
                outcome == Err::<Vec<u8>, NitroError>(NitroError::DocumentTooLarge)
            },
        },
{
}

/// A nonce is refused if and only if it has fewer than 32 bytes. For any other, whatever its
/// length and content, a key is drawn, and only the generator or the reader of its key can fail.
pub(crate) proof fn only_the_generator_or_the_reader_fails(
    nonce: &[u8],
    outcome: Result<(Vec<u8>, Vec<u8>), NitroError>,
)
    requires
        call_ensures(key_for_nonce, (nonce,), outcome),
    ensures
        nonce@.len() < 32 <==> outcome == Err::<(Vec<u8>, Vec<u8>), NitroError>(
            NitroError::NonceTooShort,
        ),
        outcome matches Ok((key, tls_spki)) ==> {
            &&& call_ensures(generate_key, (), Some(key))
            &&& exists|pkcs8: &[u8]|
                pkcs8@ == key@ && #[trigger] call_ensures(
                    subject_public_key_info,
                    (pkcs8,),
                    Some(tls_spki),
                )
        },
        outcome is Err && nonce@.len() >= 32 ==> {
            &&& outcome == Err::<(Vec<u8>, Vec<u8>), NitroError>(NitroError::CertificateGeneration)
            &&& {
                ||| call_ensures(generate_key, (), None)
                ||| exists|key: Vec<u8>, pkcs8: &[u8]|
                    {
                        &&& pkcs8@ == key@
                        &&& #[trigger] call_ensures(generate_key, (), Some(key))
                        &&& #[trigger] call_ensures(subject_public_key_info, (pkcs8,), None)
                    }
            }
        },
{
    crate::issue::lemma_outside_calls_for_key();
}

/// The attester is asked about the very nonce and key, with the digest of the message that
/// binds them to the context. Its error is passed on, and a document of more than 16384 bytes is
/// too large. For any other document the issuer is asked, for the key, the subject and the
/// document, under 1.3.6.1.4.1.57264.1.1: what it gives is the certificate, and only if it gives
/// none is there no identity.
pub(crate) proof fn identity_is_what_attester_and_issuer_give<A: NitroAttester + ?Sized>(
    attester: &A,
    context: &[u8],
    nonce: &[u8],
    subject: &str,
    key: Vec<u8>,
    tls_spki: Vec<u8>,
    binding: NitroBinding<'_>,
    message: Vec<u8>,
    outcome: Result<AttestedIdentity, NitroError>,
)
    requires
        call_ensures(
            identity_for_key::<A>,
            (attester, context, nonce, subject, key, tls_spki),
            outcome,
        ),
        binding.context@ == context@,
        binding.nonce@ == nonce@,
        binding.tls_spki@ == tls_spki@,
        call_ensures(encode_binding, (&binding,), message),
    ensures
        exists|spki: &[u8], user_data: &[u8], reply: Result<Vec<u8>, NitroError>|
            {
                &&& #[trigger] call_ensures(A::attest, (attester, nonce, spki, user_data), reply)
                &&& spki@ == tls_spki@
                &&& user_data@ == crate::crypto::sha256(message@)
                &&& match reply {
                    Err(error) => outcome == Err::<AttestedIdentity, NitroError>(error),
                    Ok(document) => {
                        &&& document@.len() > 16384 ==> outcome == Err::<
                            AttestedIdentity,
                            NitroError,
                        >(NitroError::DocumentTooLarge)
                        &&& document@.len() <= 16384 ==> exists|
                            pkcs8: &[u8],
                            name: &str,
                            oid: &[u64],
                            value: &[u8],
                            certificate: Option<Vec<u8>>,
                        |
                            {
                                &&& #[trigger] call_ensures(
                                    issue_certificate,
                                    (pkcs8, name, oid, value),
                                    certificate,
                                )
                                &&& pkcs8@ == key@
                                &&& name@ == subject@
                                &&& oid@ == seq![1u64, 3, 6, 1, 4, 1, 57264, 1, 1]
                                &&& value@ == document@
                                &&& match certificate {
                                    None => outcome == Err::<AttestedIdentity, NitroError>(
                                        NitroError::CertificateGeneration,
                                    ),
                                    Some(certificate) => outcome == Ok::<
                                        AttestedIdentity,
                                        NitroError,
                                    >(
                                        AttestedIdentity { key, tls_spki, document, certificate },
                                    ),
                                }
                            }
                    },
                }
            },
{
    crate::issue::lemma_outside_calls_for_certificate();
    assert(crate::server_verifier::NITRO_ATTESTATION_OID@ =~= seq![
        1u64,
        3,
        6,
        1,
        4,
        1,
        57264,
        1,
        1,
    ]);
    assert(binding@ =~= crate::binding::BindingView {
        context: context@,
        nonce: nonce@,
        tls_spki: tls_spki@,
    });
    assert(crate::issue::is_identity_outcome(
        attester,
        context,
        nonce,
        subject@,
        key,
        tls_spki,
        outcome,
    ));
    let reply = choose|reply: Result<Vec<u8>, NitroError>|
        {
            &&& #[trigger] crate::issue::answers(attester, context, nonce, tls_spki@, reply)
            &&& match reply {
                Err(error) => outcome == Err::<AttestedIdentity, NitroError>(error),
                Ok(document) => if document@.len() > crate::verify::MAX_DOCUMENT_LEN {
                    outcome == Err::<AttestedIdentity, NitroError>(NitroError::DocumentTooLarge)
                } else {
                    crate::issue::is_certified_outcome(
                        attester,
                        context,
                        nonce,
                        subject@,
                        key,
                        tls_spki,
                        document,
                        outcome,
                    )
                },
            }
        };
    let (spki, user_data) = choose|spki: &[u8], user_data: &[u8]|
        {
            &&& spki@ == tls_spki@
            &&& user_data@ == crate::binding::bound_user_data(binding@)
            &&& #[trigger] call_ensures(A::attest, (attester, nonce, spki, user_data), reply)
        };
    assert(call_ensures(A::attest, (attester, nonce, spki, user_data), reply));
    if let Ok(document) = reply {
        if document@.len() <= 16384 {
            let certificate = choose|certificate: Option<Vec<u8>>|
                {
                    &&& #[trigger] crate::issue::is_signed(
                        key@,
                        subject@,
                        document@,
                        certificate,
                    )
                    &&& match outcome {
                        Ok(identity) => {
                            &&& identity.key == key
                            &&& identity.tls_spki == tls_spki
                            &&& identity.document == document
                            &&& certificate == Some(identity.certificate)
                        },
                        Err(error) => error == NitroError::CertificateGeneration && certificate
                            is None,
                    }
                };
            assert(crate::issue::is_signed(key@, subject@, document@, certificate));
            let (pkcs8, name, oid, value) = choose|
                pkcs8: &[u8],
                name: &str,
                oid: &[u64],
                value: &[u8],
            |
                {
                    &&& pkcs8@ == key@
                    &&& name@ == subject@
                    &&& oid@ == crate::server_verifier::NITRO_ATTESTATION_OID@
                    &&& value@ == document@
                    &&& #[trigger] call_ensures(
                        issue_certificate,
                        (pkcs8, name, oid, value),
                        certificate,
                    )
                };
            assert(call_ensures(issue_certificate, (pkcs8, name, oid, value), certificate));
        }
    }
}

/// A configuration is what the TLS library makes of the identity's certificate and key, with the
/// provider given. Only if there is no identity, or the library refuses, is there none.
pub(crate) proof fn configuration_is_what_the_tls_library_makes<A: NitroAttester + ?Sized>(
    attester: &A,
    context: &[u8],
    nonce: &[u8],
    subject: &str,
    provider: Arc<CryptoProvider>,
    key: Vec<u8>,
    tls_spki: Vec<u8>,
    outcome: Result<rustls::ServerConfig, NitroError>,
)
    requires
        call_ensures(
            server_config_for_key::<A>,
            (attester, context, nonce, subject, provider, key, tls_spki),
            outcome,
        ),
    ensures
        exists|identity: Result<AttestedIdentity, NitroError>|
            {
                &&& #[trigger] call_ensures(
                    identity_for_key::<A>,
                    (attester, context, nonce, subject, key, tls_spki),
                    identity,
                )
                &&& match identity {
                    Err(error) => outcome == Err::<rustls::ServerConfig, NitroError>(error),
                    Ok(i) => exists|
                        der: Vec<u8>,
                        pkcs8: Vec<u8>,
                        built: Result<rustls::ServerConfig, rustls::Error>,
                    |
                        {
                            &&& #[trigger] call_ensures(
                                tls13_server_config,
                                (provider, der, pkcs8),
                                built,
                            )
                            &&& der@ == i.certificate@
                            &&& pkcs8@ == i.key@
                            &&& match built {
                                Ok(config) => outcome == Ok::<rustls::ServerConfig, NitroError>(
                                    config,
                                ),
                                Err(_) => outcome == Err::<rustls::ServerConfig, NitroError>(
                                    NitroError::CertificateGeneration,
                                ),
                            }
                        },
                }
            },
{
    crate::issue::lemma_outside_calls_for_certificate();
    let identity = choose|identity: Result<AttestedIdentity, NitroError>|
        {
            &&& #[trigger] call_ensures(
                identity_for_key::<A>,
                (attester, context, nonce, subject, key, tls_spki),
                identity,
            )
            &&& match (identity, outcome) {
                (Err(error), _) => outcome == Err::<rustls::ServerConfig, NitroError>(error),
                (Ok(i), Ok(config)) => crate::issue::is_built(
                    provider,
                    i.certificate@,
                    i.key@,
                    Ok(config),
                ),
                (Ok(i), Err(error)) => {
                    &&& error == NitroError::CertificateGeneration
                    &&& crate::issue::is_unbuilt(provider, i.certificate@, i.key@)
                },
            }
        };
    if let Ok(i) = identity {
        let built = match outcome {
            Ok(config) => Ok(config),
            Err(_) => Err(
                choose|refusal: rustls::Error| #[trigger]
                    crate::issue::is_built(provider, i.certificate@, i.key@, Err(refusal)),
            ),
        };
        assert(crate::issue::is_built(provider, i.certificate@, i.key@, built));
        let (der, pkcs8) = choose|der: Vec<u8>, pkcs8: Vec<u8>|
            {
                &&& der@ == i.certificate@
                &&& pkcs8@ == i.key@
                &&& #[trigger] call_ensures(tls13_server_config, (provider, der, pkcs8), built)
            };
        assert(call_ensures(tls13_server_config, (provider, der, pkcs8), built));
    }
}

/// For a nonce a key is drawn, and the rest is what becomes of that key. Without a key there is
/// the error of the drawing, which is the length of the nonce or the failure of the generator.
pub proof fn outcome_for_a_nonce_is_that_of_the_key_drawn<A: NitroAttester + ?Sized>(
    attester: &A,
    context: &[u8],
    nonce: &[u8],
    subject: &str,
    provider: Arc<CryptoProvider>,
    identity: Result<AttestedIdentity, NitroError>,
    config: Result<rustls::ServerConfig, NitroError>,
)
    requires
        call_ensures(attested_identity::<A>, (attester, context, nonce, subject), identity),
        call_ensures(
            server_config_for_nonce::<A>,
            (attester, context, nonce, subject, provider),
            config,
        ),
    ensures
        nonce@.len() < 32 ==> identity == Err::<AttestedIdentity, NitroError>(
            NitroError::NonceTooShort,
        ) && config == Err::<rustls::ServerConfig, NitroError>(NitroError::NonceTooShort),
        exists|drawn: Result<(Vec<u8>, Vec<u8>), NitroError>|
            {
                &&& #[trigger] call_ensures(key_for_nonce, (nonce,), drawn)
                &&& match drawn {
                    Err(error) => identity == Err::<AttestedIdentity, NitroError>(error),
                    Ok((key, tls_spki)) => call_ensures(
                        identity_for_key::<A>,
                        (attester, context, nonce, subject, key, tls_spki),
                        identity,
                    ),
                }
            },
        exists|drawn: Result<(Vec<u8>, Vec<u8>), NitroError>|
            {
                &&& #[trigger] call_ensures(key_for_nonce, (nonce,), drawn)
                &&& match drawn {
                    Err(error) => config == Err::<rustls::ServerConfig, NitroError>(error),
                    Ok((key, tls_spki)) => call_ensures(
                        server_config_for_key::<A>,
                        (attester, context, nonce, subject, provider, key, tls_spki),
                        config,
                    ),
                }
            },
{
}

/// A configuration presents one certificate, negotiates TLS 1.3 alone, asks for no client
/// certificate and uses the provider given. The certificate has the subject as its only
/// alternative name. If it can be read, it is self-signed and carries, under
/// 1.3.6.1.4.1.57264.1.1 and not critical, a document of at most 16384 bytes that the attester
/// gave for the nonce, the certificate's own key and the digest of the binding.
pub proof fn configuration_presents_the_attested_certificate<A: NitroAttester + ?Sized>(
    attester: &A,
    context: &[u8],
    nonce: &[u8],
    subject: &str,
    provider: Arc<CryptoProvider>,
    config: rustls::ServerConfig,
)
    requires
        call_ensures(
            server_config_for_nonce::<A>,
            (attester, context, nonce, subject, provider),
            Ok(config),
        ),
    ensures
        nonce@.len() >= 32,
        crate::issue::presented_chain(config).len() == 1,
        crate::issue::negotiated_versions(config) == set![0x0304u16],
        !crate::issue::asks_for_client_certificate(config),
        crate::issue::config_provider(config) == provider,
        crate::issue::alternative_names(crate::issue::presented_chain(config)[0]).len() == 1,
        crate::x509::x509_certificate(crate::issue::presented_chain(config)[0]) matches Some(c)
            ==> c.self_issued && crate::x509::x509_signature_valid(
            crate::issue::presented_chain(config)[0],
            None,
        ),
        crate::x509::x509_certificate(crate::issue::presented_chain(config)[0]) matches Some(c)
            ==> exists|document: Vec<u8>, spki: &[u8], user_data: &[u8]|
            {
                &&& #[trigger] call_ensures(
                    A::attest,
                    (attester, nonce, spki, user_data),
                    Ok(document),
                )
                &&& spki@ == c.spki
                &&& document@.len() <= 16384
                &&& crate::x509::x509_extension(
                    crate::issue::presented_chain(config)[0],
                    seq![1u64, 3, 6, 1, 4, 1, 57264, 1, 1],
                ) == (ExtensionLookupView::Found { critical: false, value: document@ })
            },
{
    assert(crate::server_verifier::NITRO_ATTESTATION_OID@ =~= seq![
        1u64,
        3,
        6,
        1,
        4,
        1,
        57264,
        1,
        1,
    ]);
    let identity = choose|identity: AttestedIdentity|
        #[trigger] crate::issue::is_attested(attester, context, nonce, subject@, identity)
            && crate::issue::is_configured(config, identity.certificate@, provider);
    assert(crate::issue::is_attested(attester, context, nonce, subject@, identity));
    assert(crate::issue::answers(
        attester,
        context,
        nonce,
        identity.tls_spki@,
        Ok(identity.document),
    ));
}

// Views.

/// The plain values behind the types of a handshake are what its fields hold.
pub proof fn views_hold_what_the_fields_hold(
    found: ExtensionLookup,
    leaf: AttestedLeaf,
    verifier: NitroServerVerifier,
    name: HostName,
)
    ensures
        match found {
            ExtensionLookup::InvalidOid => found@ == ExtensionLookupView::InvalidOid,
            ExtensionLookup::Missing => found@ == ExtensionLookupView::Missing,
            ExtensionLookup::Duplicate => found@ == ExtensionLookupView::Duplicate,
            ExtensionLookup::Found { critical, value } => found@ == (ExtensionLookupView::Found {
                critical,
                value: value@,
            }),
        },
        leaf@.evidence == leaf.evidence@,
        leaf@.tls_spki == leaf.tls_spki@,
        verifier@.policy == verifier.policy@,
        verifier@.context == verifier.context@,
        verifier@.nonce == verifier.nonce@,
        verifier@.trust_anchor == verifier.trust_anchor_fingerprint@,
        match name {
            HostName::Dns(text) => name@ == crate::tls::HostNameView::Dns(text@),
            HostName::Address(octets) => name@ == crate::tls::HostNameView::Address(octets@),
        },
{
}

} // verus!
