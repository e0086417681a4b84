//! What holds of the library as a whole.

use crate::binding::{BindingView, NitroBinding};
use crate::document::{AttestationDoc, AttestationDocView};
use crate::error::NitroError;
use crate::issue::{AttestedIdentity, NitroAttester};
use crate::policy::{NitroPolicy, PolicyView};
use crate::server_verifier::{
    AttestedLeafView,
    NitroServerVerifier,
    ServerCertError,
    VerifierView,
};
use crate::time::SystemTime;
use rustls::crypto::CryptoProvider;
use std::sync::Arc;
use vstd::prelude::*;

verus! {

/// Any set of machine integers is finite.
proof fn lemma_indices_finite(indices: Set<usize>)
    ensures
        indices.finite(),
{
    let ints = vstd::set_lib::set_int_range(0, usize::MAX + 1);
    vstd::set_lib::lemma_int_range(0, usize::MAX + 1);
    let all = ints.map(|i: int| i as usize);
    ints.lemma_map_finite(|i: int| i as usize);
    assert forall|u: usize| #[trigger] indices.contains(u) implies all.contains(u) by {
        assert(ints.contains(u as int));
        assert((u as int) as usize == u);
    }
    vstd::set_lib::lemma_set_subset_finite(all, indices);
}

/// If a PCR of the allowlist is not approved, then there is a lowest such one.
proof fn lemma_lowest_exists(
    measured: Map<usize, Seq<u8>>,
    allowed: Map<usize, Seq<Seq<u8>>>,
    index: usize,
)
    requires
        allowed.contains_key(index),
        !crate::claims::pcr_approved(measured, allowed, index),
    ensures
        exists|lowest: usize| crate::claims::first_unapproved(measured, allowed, lowest),
    decreases index,
{
    if !crate::claims::first_unapproved(measured, allowed, index) {
        let lower = choose|lower: usize|
            lower < index && #[trigger] allowed.contains_key(lower)
                && !crate::claims::pcr_approved(measured, allowed, lower);
        lemma_lowest_exists(measured, allowed, lower);
    }
}

/// The PCRs pass if and only if the document measures exactly the PCRs that the policy names,
/// each with a value that the policy allows: an omitted PCR is never a wildcard, on either side.
pub proof fn pcrs_pass_iff_complete_match(
    measured: Map<usize, Seq<u8>>,
    allowed: Map<usize, Seq<Seq<u8>>>,
)
    ensures
        crate::claims::pcr_outcome(measured, allowed) is Ok <==> {
            &&& measured.dom() == allowed.dom()
            &&& forall|index: usize| #[trigger]
                allowed.contains_key(index) ==> allowed[index].contains(measured[index])
        },
{
    lemma_indices_finite(measured.dom());
    lemma_indices_finite(allowed.dom());
    if crate::claims::pcr_outcome(measured, allowed) is Ok {
        assert forall|index: usize| #[trigger] allowed.contains_key(
            index,
        ) implies crate::claims::pcr_approved(measured, allowed, index) by {
            if !crate::claims::pcr_approved(measured, allowed, index) {
                lemma_lowest_exists(measured, allowed, index);
            }
        }
        assert(allowed.dom().subset_of(measured.dom()));
        vstd::set_lib::lemma_subset_equality(allowed.dom(), measured.dom());
    }
}

/// Of several PCRs that are not approved, the lowest decides which error is reported.
pub proof fn lowest_unapproved_pcr_decides(
    measured: Map<usize, Seq<u8>>,
    allowed: Map<usize, Seq<Seq<u8>>>,
    index: usize,
)
    requires
        measured.dom().len() == allowed.dom().len(),
        crate::claims::first_unapproved(measured, allowed, index),
    ensures
        crate::claims::pcr_outcome(measured, allowed) == Err::<(), NitroError>(
            if measured.contains_key(index) {
                NitroError::PcrMismatch(index)
            } else {
                NitroError::PcrSetMismatch
            },
        ),
{
    let chosen = choose|i: usize| crate::claims::first_unapproved(measured, allowed, i);
    assert(chosen == index);
}

/// A policy that names no PCR, or no value for one that it names, accepts nothing.
pub proof fn incomplete_policy_accepts_nothing(
    encoded: Seq<u8>,
    policy: PolicyView,
    binding: BindingView,
    now: int,
    trust_anchor: Seq<u8>,
)
    requires
        !crate::policy::is_complete(policy.pcrs),
    ensures
        crate::verify::document_outcome(encoded, policy, binding, now, trust_anchor) == Err::<
            AttestationDocView,
            NitroError,
        >(NitroError::IncompletePolicy),
{
}

/// A document that is accepted measures at least one PCR, measures exactly those that the policy
/// names, and each of them has a value that the policy allows.
pub proof fn accepted_document_is_measured(
    encoded: Seq<u8>,
    policy: PolicyView,
    binding: BindingView,
    now: int,
    trust_anchor: Seq<u8>,
    document: AttestationDocView,
)
    requires
        crate::verify::document_outcome(encoded, policy, binding, now, trust_anchor) == Ok::<
            AttestationDocView,
            NitroError,
        >(document),
    ensures
        !document.pcrs.dom().is_empty(),
        document.pcrs.dom() == policy.pcrs.dom(),
        forall|index: usize| #[trigger]
            document.pcrs.contains_key(index) ==> policy.pcrs[index].contains(document.pcrs[index]),
{
    pcrs_pass_iff_complete_match(document.pcrs, policy.pcrs);
    assert forall|index: usize| #[trigger] document.pcrs.contains_key(
        index,
    ) implies policy.pcrs[index].contains(document.pcrs[index]) by {
        assert(policy.pcrs.contains_key(index));
    }
}

/// A document that is accepted is bound to the connection: it carries the nonce, the TLS key and
/// the user data that binds both to the protocol. It also comes from the module that the policy
/// names, if it names one.
pub proof fn accepted_document_is_bound(
    encoded: Seq<u8>,
    policy: PolicyView,
    binding: BindingView,
    now: int,
    trust_anchor: Seq<u8>,
    document: AttestationDocView,
)
    requires
        crate::verify::document_outcome(encoded, policy, binding, now, trust_anchor) == Ok::<
            AttestationDocView,
            NitroError,
        >(document),
    ensures
        document.nonce == Some(binding.nonce),
        document.public_key == Some(binding.tls_spki),
        document.user_data == Some(crate::binding::bound_user_data(binding)),
        policy.module_id is Some ==> policy.module_id == Some(document.module_id),
{
}

/// A document that was accepted once cannot be replayed for another nonce, whatever the policy.
pub proof fn replay_is_refused(
    encoded: Seq<u8>,
    policy: PolicyView,
    binding: BindingView,
    now: int,
    trust_anchor: Seq<u8>,
    other_policy: PolicyView,
    other: BindingView,
)
    requires
        crate::verify::document_outcome(encoded, policy, binding, now, trust_anchor) is Ok,
        crate::policy::is_complete(other_policy.pcrs),
        other.nonce != binding.nonce,
    ensures
        crate::verify::document_outcome(encoded, other_policy, other, now, trust_anchor) == Err::<
            AttestationDocView,
            NitroError,
        >(NitroError::NonceMismatch),
{
}

/// A document that was accepted for one TLS key cannot be moved to another, whatever the policy.
pub proof fn key_substitution_is_refused(
    encoded: Seq<u8>,
    policy: PolicyView,
    binding: BindingView,
    now: int,
    trust_anchor: Seq<u8>,
    other_policy: PolicyView,
    other: BindingView,
)
    requires
        crate::verify::document_outcome(encoded, policy, binding, now, trust_anchor) is Ok,
        crate::policy::is_complete(other_policy.pcrs),
        other.nonce == binding.nonce,
        other.tls_spki != binding.tls_spki,
    ensures
        crate::verify::document_outcome(encoded, other_policy, other, now, trust_anchor) == Err::<
            AttestationDocView,
            NitroError,
        >(NitroError::SpkiMismatch),
{
}

/// A document that was accepted under one protocol context is refused under another, unless
/// SHA-256 gives the same digest for two different messages.
pub proof fn context_substitution_is_refused(
    encoded: Seq<u8>,
    policy: PolicyView,
    binding: BindingView,
    now: int,
    trust_anchor: Seq<u8>,
    other_policy: PolicyView,
    other: BindingView,
)
    requires
        crate::verify::document_outcome(encoded, policy, binding, now, trust_anchor) is Ok,
        crate::policy::is_complete(other_policy.pcrs),
        other.nonce == binding.nonce,
        other.tls_spki == binding.tls_spki,
        other.context != binding.context,
        binding.context.len() <= u64::MAX,
        binding.nonce.len() <= u64::MAX,
        binding.tls_spki.len() <= u64::MAX,
        other.context.len() <= u64::MAX,
    ensures
        ({
            let a = crate::binding::binding_message(binding);
            let b = crate::binding::binding_message(other);
            a != b && crate::crypto::sha256(a) == crate::crypto::sha256(b)
        }) || crate::verify::document_outcome(encoded, other_policy, other, now, trust_anchor)
            == Err::<AttestationDocView, NitroError>(NitroError::UserDataMismatch),
{
    if crate::binding::bound_user_data(binding) == crate::binding::bound_user_data(other) {
        crate::binding::shared_user_data_is_a_collision(binding, other);
    }
}

/// A document that is accepted is neither from the future nor older than the policy allows.
pub proof fn accepted_document_is_fresh(
    encoded: Seq<u8>,
    policy: PolicyView,
    binding: BindingView,
    now: int,
    trust_anchor: Seq<u8>,
    document: AttestationDocView,
)
    requires
        crate::verify::document_outcome(encoded, policy, binding, now, trust_anchor) == Ok::<
            AttestationDocView,
            NitroError,
        >(document),
    ensures
        0 <= now - document.timestamp * 1_000_000 <= policy.max_age_nanos,
{
}

/// A document that was accepted stays so, as long as its chain holds, until it is older than the
/// policy allows; from then on it is stale.
pub proof fn acceptance_ends_with_max_age(
    encoded: Seq<u8>,
    policy: PolicyView,
    binding: BindingView,
    now: int,
    later: int,
    trust_anchor: Seq<u8>,
    document: AttestationDocView,
)
    requires
        crate::verify::document_outcome(encoded, policy, binding, now, trust_anchor) == Ok::<
            AttestationDocView,
            NitroError,
        >(document),
        now <= later,
        crate::verify::authentic_document(encoded, later, trust_anchor) is Ok,
    ensures
        crate::verify::document_outcome(encoded, policy, binding, later, trust_anchor) == if later
            - document.timestamp * 1_000_000 <= policy.max_age_nanos {
            Ok::<AttestationDocView, NitroError>(document)
        } else {
            Err(NitroError::Stale)
        },
{
}

/// Whether `wider` accepts all that `policy` does: it names the same PCRs, allows at least the
/// same values and the same age, and does not ask for another module.
pub open spec fn is_wider(wider: PolicyView, policy: PolicyView) -> bool {
    &&& wider.pcrs.dom() == policy.pcrs.dom()
    &&& forall|index: usize, value: Seq<u8>|
        policy.pcrs.contains_key(index) && #[trigger] policy.pcrs[index].contains(value)
            ==> wider.pcrs[index].contains(value)
    &&& wider.max_age_nanos >= policy.max_age_nanos
    &&& wider.module_id is Some ==> wider.module_id == policy.module_id
}

/// Allowing more values for the PCRs that a policy names, as in a controlled rollout, keeps every
/// document accepted that was.
pub proof fn wider_policy_keeps_acceptance(
    encoded: Seq<u8>,
    policy: PolicyView,
    wider: PolicyView,
    binding: BindingView,
    now: int,
    trust_anchor: Seq<u8>,
    document: AttestationDocView,
)
    requires
        crate::verify::document_outcome(encoded, policy, binding, now, trust_anchor) == Ok::<
            AttestationDocView,
            NitroError,
        >(document),
        is_wider(wider, policy),
    ensures
        crate::verify::document_outcome(encoded, wider, binding, now, trust_anchor) == Ok::<
            AttestationDocView,
            NitroError,
        >(document),
{
    pcrs_pass_iff_complete_match(document.pcrs, policy.pcrs);
    pcrs_pass_iff_complete_match(document.pcrs, wider.pcrs);
    assert forall|index: usize| #[trigger] wider.pcrs.contains_key(
        index,
    ) implies wider.pcrs[index].contains(document.pcrs[index]) by {
        assert(policy.pcrs.contains_key(index));
        assert(policy.pcrs[index].contains(document.pcrs[index]));
    }
    assert(crate::policy::is_complete(wider.pcrs)) by {
        assert forall|index: usize| #[trigger] wider.pcrs.contains_key(index) implies wider.pcrs[
            index
        ].len() > 0 by {
            assert(wider.pcrs[index].contains(document.pcrs[index]));
        }
    }
}

/// Leaving a PCR out of a policy does not turn it into a wildcard: a document that was accepted
/// is refused by the policy without one of its PCRs.
pub proof fn omitted_pcr_is_no_wildcard(
    encoded: Seq<u8>,
    policy: PolicyView,
    narrower: PolicyView,
    index: usize,
    binding: BindingView,
    now: int,
    trust_anchor: Seq<u8>,
)
    requires
        crate::verify::document_outcome(encoded, policy, binding, now, trust_anchor) is Ok,
        policy.pcrs.contains_key(index),
        narrower == (PolicyView { pcrs: policy.pcrs.remove(index), ..policy }),
    ensures
        crate::verify::document_outcome(encoded, narrower, binding, now, trust_anchor) == Err::<
            AttestationDocView,
            NitroError,
        >(
            if crate::policy::is_complete(narrower.pcrs) {
                NitroError::PcrSetMismatch
            } else {
                NitroError::IncompletePolicy
            },
        ),
{
    lemma_indices_finite(policy.pcrs.dom());
    assert(narrower.pcrs.dom() =~= policy.pcrs.dom().remove(index));
}

/// A longer document than the protocol allows is never accepted.
pub proof fn oversized_document_is_refused(
    encoded: Seq<u8>,
    policy: PolicyView,
    binding: BindingView,
    now: int,
    trust_anchor: Seq<u8>,
)
    requires
        encoded.len() > crate::verify::MAX_DOCUMENT_LEN,
        crate::policy::is_complete(policy.pcrs),
    ensures
        crate::verify::document_outcome(encoded, policy, binding, now, trust_anchor) == Err::<
            AttestationDocView,
            NitroError,
        >(NitroError::DocumentTooLarge),
{
}

/// Whether the certificate at `index` of a bundle may vouch for the one below it: it can be read,
/// is valid at `secs`, is an authority's, and is signed by the one before it or, for the root, by
/// itself.
pub open spec fn vouches(cabundle: Seq<Seq<u8>>, index: int, secs: int) -> bool {
    &&& crate::x509::x509_certificate(cabundle[index]) matches Some(certificate)
    &&& crate::chain::valid_at(certificate, secs)
    &&& certificate.is_ca
    &&& crate::x509::x509_signature_valid(
        cabundle[index],
        if index == 0 {
            None
        } else {
            Some(cabundle[index - 1])
        },
    )
}

/// A chain holds if and only if it starts at the trust anchor, every authority in it may vouch
/// for the one after it, and the last of them signed the leaf, which is itself valid. The key
/// that it leads to is the leaf's.
pub proof fn chain_holds_iff_anchored(
    document: AttestationDocView,
    now: int,
    trust_anchor: Seq<u8>,
    key: Seq<u8>,
)
    ensures
        crate::chain::document_chain_outcome(document, now, trust_anchor) == Ok::<
            Seq<u8>,
            NitroError,
        >(key) <==> {
            &&& now >= 0
            &&& document.cabundle.len() > 0
            &&& crate::crypto::sha256(document.cabundle[0]) == trust_anchor
            &&& forall|i: int|
                0 <= i < document.cabundle.len() ==> #[trigger] vouches(
                    document.cabundle,
                    i,
                    now / 1_000_000_000,
                )
            &&& crate::x509::x509_signature_valid(
                document.certificate,
                Some(document.cabundle.last()),
            )
            &&& crate::x509::x509_certificate(document.certificate) matches Some(leaf)
            &&& crate::chain::valid_at(leaf, now / 1_000_000_000)
            &&& leaf.public_key == key
        },
{
    let bundle = document.cabundle;
    let secs = now / 1_000_000_000;
    let evidence = crate::chain::chain_evidence(document.certificate, bundle);
    if bundle.len() > 0 {
        assert forall|i: int| 1 <= i < bundle.len() implies (#[trigger] vouches(bundle, i, secs)
            <==> crate::chain::authority_holds(evidence.intermediates[i - 1], secs)) by {}
        assert(vouches(bundle, 0, secs) <==> crate::chain::authority_holds(
            evidence.root->0.authority,
            secs,
        ));
        if forall|i: int| 0 <= i < bundle.len() ==> #[trigger] vouches(bundle, i, secs) {
            assert forall|j: int| 0 <= j < evidence.intermediates.len() implies
                crate::chain::authority_holds(#[trigger] evidence.intermediates[j], secs) by {
                assert(vouches(bundle, j + 1, secs));
            }
        }
        if crate::chain::authority_holds(evidence.root->0.authority, secs) && (forall|j: int|
            0 <= j < evidence.intermediates.len() ==> crate::chain::authority_holds(
                #[trigger] evidence.intermediates[j],
                secs,
            )) {
            assert forall|i: int| 0 <= i < bundle.len() implies #[trigger] vouches(
                bundle,
                i,
                secs,
            ) by {
                if i > 0 {
                    assert(crate::chain::authority_holds(evidence.intermediates[i - 1], secs));
                }
            }
        }
    }
}

/// A document that is accepted is the payload of a COSE structure, and that structure is signed
/// with the key at the end of a chain that holds from the trust anchor down.
pub proof fn accepted_document_is_authentic(
    encoded: Seq<u8>,
    policy: PolicyView,
    binding: BindingView,
    now: int,
    trust_anchor: Seq<u8>,
    document: AttestationDocView,
)
    requires
        crate::verify::document_outcome(encoded, policy, binding, now, trust_anchor) == Ok::<
            AttestationDocView,
            NitroError,
        >(document),
    ensures
        ({
            &&& crate::cose::cose_sign1(encoded) matches Some(sign1)
            &&& sign1.payload matches Some(payload)
            &&& crate::document::attestation_document(payload) == Some(document)
            &&& crate::chain::document_chain_outcome(document, now, trust_anchor) matches Ok(key)
            &&& crate::crypto::ecdsa_p384_valid(key, sign1.signed, sign1.signature)
        }),
{
}

/// A document has one trust anchor: one that was accepted is refused under any other.
pub proof fn other_anchor_is_refused(
    encoded: Seq<u8>,
    policy: PolicyView,
    binding: BindingView,
    now: int,
    trust_anchor: Seq<u8>,
    other: Seq<u8>,
)
    requires
        crate::verify::document_outcome(encoded, policy, binding, now, trust_anchor) is Ok,
        other != trust_anchor,
    ensures
        crate::verify::document_outcome(encoded, policy, binding, now, other) == Err::<
            AttestationDocView,
            NitroError,
        >(NitroError::UntrustedRoot),
{
}

/// A server's certificate is accepted if and only if it comes alone, is issued and signed by its
/// own key, is valid, is for the server asked for, and carries one document, which is accepted
/// for the verifier's context and nonce and for the certificate's own key.
pub proof fn certificate_accepted_iff_attested(
    verifier: VerifierView,
    alone: bool,
    der: Seq<u8>,
    name: Seq<char>,
    now: u64,
)
    ensures
        crate::server_verifier::server_cert_outcome(
            verifier,
            crate::server_verifier::leaf_outcome(
                alone,
                crate::server_verifier::leaf_evidence(der, name),
                now,
            ),
            now,
        ) is Ok <==> {
            &&& alone
            &&& crate::tls::host_name(name) is Some
            &&& crate::tls::server_name_verdict(der, name) is Ok
            &&& crate::x509::x509_signature_valid(der, None)
            &&& crate::x509::x509_certificate(der) matches Some(certificate)
            &&& certificate.self_issued
            &&& crate::chain::valid_at(certificate, crate::server_verifier::signed_secs(now))
            &&& crate::x509::x509_extension(
                der,
                crate::server_verifier::NITRO_ATTESTATION_OID@,
            ) matches crate::x509::ExtensionLookupView::Found { value: evidence, .. }
            &&& crate::verify::document_outcome(
                evidence,
                verifier.policy,
                BindingView {
                    context: verifier.context,
                    nonce: verifier.nonce,
                    tls_spki: certificate.spki,
                },
                now * 1_000_000_000,
                verifier.trust_anchor,
            ) is Ok
        },
{
}

/// A verifier with a complete policy never refuses a certificate for the sake of its own policy.
pub proof fn sound_verifier_judges_the_evidence(
    verifier: VerifierView,
    leaf: AttestedLeafView,
    now: u64,
)
    requires
        crate::server_verifier::is_sound(verifier),
    ensures
        crate::server_verifier::server_cert_outcome(verifier, Ok(leaf), now) != Err::<
            (),
            ServerCertError,
        >(ServerCertError::Attestation(NitroError::IncompletePolicy)),
{
}

/// Equal calls give equal results: a verifier keeps no state, and neither a stapled OCSP response
/// nor the provider has a say.
pub proof fn equal_calls_agree(
    a: &NitroServerVerifier,
    b: &NitroServerVerifier,
    end_entity: &[u8],
    intermediates: &[&[u8]],
    server_name: &str,
    ocsp_a: &[u8],
    ocsp_b: &[u8],
    now: u64,
    outcome_a: Result<(), ServerCertError>,
    outcome_b: Result<(), ServerCertError>,
)
    requires
        a@ == b@,
        call_ensures(
            NitroServerVerifier::verify_server_cert,
            (a, end_entity, intermediates, server_name, ocsp_a, now),
            outcome_a,
        ),
        call_ensures(
            NitroServerVerifier::verify_server_cert,
            (b, end_entity, intermediates, server_name, ocsp_b, now),
            outcome_b,
        ),
    ensures
        outcome_a == outcome_b,
{
}

/// With its tag or without, an encoding gives the same document or the same error.
/// The tagged one must be a structure at all, since the tag takes one of the levels to which an
/// encoding may be nested.
pub proof fn tagged_and_untagged_agree(
    tagged: &[u8],
    untagged: &[u8],
    policy: &NitroPolicy,
    binding: NitroBinding<'_>,
    now: SystemTime,
    trust_anchor_fingerprint: [u8; 32],
    tagged_outcome: Result<AttestationDoc, NitroError>,
    untagged_outcome: Result<AttestationDoc, NitroError>,
)
    requires
        tagged@ == seq![crate::cose::SIGN1_TAG] + untagged@,
        tagged@.len() <= crate::verify::MAX_DOCUMENT_LEN,
        crate::cose::cose_sign1(tagged@) is Some,
        call_ensures(
            crate::verify::verify_document_with_trust_anchor,
            (tagged, policy, binding, now, trust_anchor_fingerprint),
            tagged_outcome,
        ),
        call_ensures(
            crate::verify::verify_document_with_trust_anchor,
            (untagged, policy, binding, now, trust_anchor_fingerprint),
            untagged_outcome,
        ),
    ensures
        crate::verify::document_view(tagged_outcome) == crate::verify::document_view(
            untagged_outcome,
        ),
{
    assert(tagged@.skip(1) =~= untagged@);
}

/// A certificate for a server is for a client that asks for that server by the same name, unless
/// the name ends in a dot.
pub proof fn server_covers_itself(subject: Seq<char>, host: crate::tls::HostNameView)
    requires
        crate::tls::host_name(subject) == Some(host),
        !crate::tls::is_absolute(subject),
    ensures
        crate::tls::covers(subject, host),
{
}

/// An issued certificate is for no server but those that its subject covers: a client that asks
/// for any other refuses it.
pub proof fn issued_certificate_is_for_no_other_server<A: NitroAttester + ?Sized>(
    attester: &A,
    context: &[u8],
    nonce: &[u8],
    subject: Seq<char>,
    identity: AttestedIdentity,
    name: Seq<char>,
    now: u64,
)
    requires
        crate::issue::is_attested(attester, context, nonce, subject, identity),
        !(crate::tls::host_name(name) matches Some(asked) && crate::tls::covers(subject, asked)),
    ensures
        crate::server_verifier::leaf_outcome(
            true,
            crate::server_verifier::leaf_evidence(identity.certificate@, name),
            now,
        ) is Err,
{
}

/// What the server issues, the client reads back: of an identity that was issued for a context, a
/// nonce and a server, a client that asks for that server at any time from 1975 to 4096 judges
/// the very document that the attester gave, for the very key that it was asked to bind, and
/// never finds it too large.
pub proof fn issued_identity_is_read_back<A: NitroAttester + ?Sized>(
    attester: &A,
    context: &[u8],
    nonce: &[u8],
    subject: Seq<char>,
    identity: AttestedIdentity,
    name: Seq<char>,
    now: u64,
)
    requires
        crate::issue::is_attested(attester, context, nonce, subject, identity),
        is_for(subject, name),
        crate::issue::ISSUED_NOT_BEFORE <= now <= crate::issue::ISSUED_NOT_AFTER,
    ensures
        crate::server_verifier::leaf_outcome(
            true,
            crate::server_verifier::leaf_evidence(identity.certificate@, name),
            now,
        ) == Ok::<AttestedLeafView, ServerCertError>(
            AttestedLeafView { evidence: identity.document@, tls_spki: identity.tls_spki@ },
        ),
        identity.document@.len() <= crate::verify::MAX_DOCUMENT_LEN,
        crate::issue::answers(
            attester,
            context,
            nonce,
            identity.tls_spki@,
            Ok(identity.document),
        ),
{
}

/// Whether a certificate for `subject` is for the server that a client asks for as `name`.
pub open spec fn is_for(subject: Seq<char>, name: Seq<char>) -> bool {
    &&& subject.len() <= crate::issue::READABLE_SUBJECT_LEN
    &&& crate::tls::host_name(name) matches Some(asked)
    &&& crate::tls::covers(subject, asked)
}

/// Whether a document is what a verifier hopes for from a server with this key: it carries the
/// verifier's nonce, that key, and the user data that binds both to the verifier's context; it is
/// from the module that the policy names, if it names one, fresh, and measures approved code.
pub open spec fn meets(
    document: AttestationDocView,
    verifier: VerifierView,
    tls_spki: Seq<u8>,
    now: u64,
) -> bool {
    &&& document.nonce == Some(verifier.nonce)
    &&& document.public_key == Some(tls_spki)
    &&& document.user_data == Some(
        crate::binding::bound_user_data(
            BindingView { context: verifier.context, nonce: verifier.nonce, tls_spki },
        ),
    )
    &&& verifier.policy.module_id is Some ==> verifier.policy.module_id == Some(document.module_id)
    &&& 0 <= now * 1_000_000_000 - document.timestamp * 1_000_000 <= verifier.policy.max_age_nanos
    &&& document.pcrs.dom() == verifier.policy.pcrs.dom()
    &&& forall|index: usize| #[trigger]
        verifier.policy.pcrs.contains_key(index) ==> verifier.policy.pcrs[index].contains(
            document.pcrs[index],
        )
}

/// Server and client agree. What a server with an issued configuration presents is one
/// certificate, and a verifier with a complete policy and the same context and nonce accepts it,
/// for the server that it was issued for, if the attester's document is authentic, carries what
/// the attester was asked to put in, and meets the policy.
pub proof fn issued_configuration_is_accepted<A: NitroAttester + ?Sized>(
    attester: &A,
    context: &[u8],
    nonce: &[u8],
    subject: Seq<char>,
    provider: Arc<CryptoProvider>,
    config: rustls::ServerConfig,
    identity: AttestedIdentity,
    verifier: VerifierView,
    document: AttestationDocView,
    name: Seq<char>,
    now: u64,
)
    requires
        crate::issue::is_attested(attester, context, nonce, subject, identity),
        crate::issue::is_configured(config, identity.certificate@, provider),
        is_for(subject, name),
        crate::issue::ISSUED_NOT_BEFORE <= now <= crate::issue::ISSUED_NOT_AFTER,
        crate::server_verifier::is_sound(verifier),
        verifier.context == context@,
        verifier.nonce == nonce@,
        crate::verify::authentic_document(
            identity.document@,
            now * 1_000_000_000,
            verifier.trust_anchor,
        ) == Ok::<AttestationDocView, NitroError>(document),
        meets(document, verifier, identity.tls_spki@, now),
    ensures
        crate::issue::presented_chain(config).len() == 1,
        crate::server_verifier::server_cert_outcome(
            verifier,
            crate::server_verifier::leaf_outcome(
                true,
                crate::server_verifier::leaf_evidence(
                    crate::issue::presented_chain(config)[0],
                    name,
                ),
                now,
            ),
            now,
        ) == Ok::<(), ServerCertError>(()),
{
    issued_identity_is_read_back(attester, context, nonce, subject, identity, name, now);
    pcrs_pass_iff_complete_match(document.pcrs, verifier.policy.pcrs);
}

/// An attester that answers a request with an error, and cannot answer otherwise, has that very
/// error reported.
pub proof fn attester_error_is_passed_on<A: NitroAttester + ?Sized>(
    attester: &A,
    context: &[u8],
    nonce: &[u8],
    subject: Seq<char>,
    provider: Arc<CryptoProvider>,
    key: Vec<u8>,
    tls_spki: Vec<u8>,
    error: NitroError,
    outcome: Result<rustls::ServerConfig, NitroError>,
)
    requires
        crate::issue::is_config_outcome(
            attester,
            context,
            nonce,
            subject,
            provider,
            key,
            tls_spki,
            outcome,
        ),
        forall|reply: Result<Vec<u8>, NitroError>| #[trigger]
            crate::issue::answers(attester, context, nonce, tls_spki@, reply) ==> reply == Err::<
                Vec<u8>,
                NitroError,
            >(error),
    ensures
        outcome == Err::<rustls::ServerConfig, NitroError>(error),
{
}

/// An attester that answers a request with documents of one length alone has them refused as too
/// large if and only if that length is over the limit.
pub proof fn document_size_decides<A: NitroAttester + ?Sized>(
    attester: &A,
    context: &[u8],
    nonce: &[u8],
    subject: Seq<char>,
    provider: Arc<CryptoProvider>,
    key: Vec<u8>,
    tls_spki: Vec<u8>,
    len: nat,
    outcome: Result<rustls::ServerConfig, NitroError>,
)
    requires
        crate::issue::is_config_outcome(
            attester,
            context,
            nonce,
            subject,
            provider,
            key,
            tls_spki,
            outcome,
        ),
        forall|reply: Result<Vec<u8>, NitroError>| #[trigger]
            crate::issue::answers(attester, context, nonce, tls_spki@, reply) ==> (
            reply matches Ok(document) && document@.len() == len),
    ensures
        outcome == Err::<rustls::ServerConfig, NitroError>(NitroError::DocumentTooLarge) <==> len
            > crate::verify::MAX_DOCUMENT_LEN,
{
}

} // verus!
