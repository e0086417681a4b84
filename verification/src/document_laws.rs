//! What the operations on documents do, in terms of their inputs and results alone.
//!
//! Each law speaks of what a call of the operation can give, and of what other crates find in the
//! bytes. None goes through the functions by which the operations themselves are described.

use crate::binding::{binding_user_data, encode_binding, NitroBinding};
use crate::chain::{
    judge_chain,
    present_chain,
    verify_authority,
    verify_certificate_chain,
    verify_validity,
    Authority,
    ChainEvidence,
};
use crate::claims::{verify_age, verify_claims, verify_pcrs};
use crate::cose::{decode_sign1, Sign1, Sign1View};
use crate::document::{AttestationDoc, AttestationDocView};
use crate::error::NitroError;
use crate::policy::NitroPolicy;
use crate::time::{Duration, SystemTime};
use crate::verify::{
    authenticate_document,
    judge_document,
    verify_document,
    verify_document_with_trust_anchor,
    DocumentEvidence,
};
use crate::x509::Certificate;
use vstd::prelude::*;

verus! {

// Points in time and spans.

/// A span is as long as its seconds and nanoseconds together, however it is made.
pub proof fn span_is_its_parts(secs: u64, nanos: u32, millis: u64, span: Duration)
    ensures
        call_ensures(Duration::new, (secs, nanos), Some(span)) ==> nanos < 1_000_000_000
            && span.as_nanos() == secs * 1_000_000_000 + nanos,
        call_ensures(Duration::new, (secs, nanos), None) ==> nanos >= 1_000_000_000,
        call_ensures(Duration::from_secs, (secs,), span) ==> span.as_nanos() == secs
            * 1_000_000_000,
        call_ensures(Duration::from_millis, (millis,), span) ==> span.as_nanos() == millis
            * 1_000_000,
{
}

/// A point in time is as far from the Unix epoch as its seconds and nanoseconds together.
pub proof fn point_is_its_parts(secs: i64, nanos: u32, time: SystemTime)
    ensures
        call_ensures(SystemTime::new, (secs, nanos), Some(time)) ==> nanos < 1_000_000_000
            && time.unix_nanos() == secs * 1_000_000_000 + nanos,
        call_ensures(SystemTime::new, (secs, nanos), None) ==> nanos >= 1_000_000_000,
        call_ensures(SystemTime::from_unix_secs, (secs,), time) ==> time.unix_nanos() == secs
            * 1_000_000_000,
{
}

/// Going forward by a span and looking back, or going back by it, undoes the step.
pub proof fn steps_in_time_are_undone(
    start: SystemTime,
    span: Duration,
    later: SystemTime,
    back: Option<SystemTime>,
    between: Option<Duration>,
    behind: Option<Duration>,
)
    requires
        call_ensures(SystemTime::checked_add, (start, span), Some(later)),
        call_ensures(SystemTime::checked_sub, (later, span), back),
        call_ensures(SystemTime::duration_since, (later, start), between),
        call_ensures(SystemTime::duration_since, (start, later), behind),
    ensures
        later.unix_nanos() == start.unix_nanos() + span.as_nanos(),
        back matches Some(b) ==> b.unix_nanos() == start.unix_nanos(),
        between matches Some(b) ==> b.as_nanos() == span.as_nanos(),
        span.as_nanos() >= 0 ==> between is Some,
        span.as_nanos() > 0 ==> behind is None,
{
}

/// The clock counts signed 64-bit seconds: a step fails exactly where it leaves that range.
pub proof fn clock_has_signed_seconds(
    start: SystemTime,
    span: Duration,
    later: Option<SystemTime>,
    earlier: Option<SystemTime>,
)
    requires
        call_ensures(SystemTime::checked_add, (start, span), later),
        call_ensures(SystemTime::checked_sub, (start, span), earlier),
    ensures
        later is Some <==> -0x8000_0000_0000_0000 * 1_000_000_000 <= start.unix_nanos()
            + span.as_nanos() < 0x8000_0000_0000_0000 * 1_000_000_000,
        earlier is Some <==> -0x8000_0000_0000_0000 * 1_000_000_000 <= start.unix_nanos()
            - span.as_nanos() < 0x8000_0000_0000_0000 * 1_000_000_000,
{
}

/// A document of some age is accepted if and only if it was not made after the present and is not
/// older than allowed, counted to the nanosecond.
pub proof fn age_is_counted_in_nanoseconds(
    timestamp_ms: u64,
    max_secs: u64,
    max_nanos: u32,
    max_age: Duration,
    now_secs: i64,
    now_nanos: u32,
    now: SystemTime,
    outcome: Result<(), NitroError>,
)
    requires
        call_ensures(Duration::new, (max_secs, max_nanos), Some(max_age)),
        call_ensures(SystemTime::new, (now_secs, now_nanos), Some(now)),
        call_ensures(verify_age, (timestamp_ms, max_age, now), outcome),
    ensures
        ({
            let age = now_secs * 1_000_000_000 + now_nanos - timestamp_ms * 1_000_000;
            &&& outcome is Ok <==> 0 <= age <= max_secs * 1_000_000_000 + max_nanos
            &&& outcome == Err::<(), NitroError>(NitroError::TimestampInFuture) <==> age < 0
            &&& outcome == Err::<(), NitroError>(NitroError::Stale) <==> age > max_secs
                * 1_000_000_000 + max_nanos && age >= 0
        }),
{
}

// Numbers and texts.

/// The number that the eight bytes at `at` are, the most significant first.
pub open spec fn number_at(bytes: Seq<u8>, at: int) -> int {
    bytes[at] * 0x100_0000_0000_0000 + bytes[at + 1] * 0x1_0000_0000_0000 + bytes[at + 2]
        * 0x100_0000_0000 + bytes[at + 3] * 0x1_0000_0000 + bytes[at + 4] * 0x100_0000 + bytes[at
        + 5] * 0x1_0000 + bytes[at + 6] * 0x100 + bytes[at + 7]
}

/// Eight big-endian bytes read back as the number that they were made of.
pub proof fn number_reads_back(n: u64)
    ensures
        crate::bytes::big_endian(n as nat, 8).len() == 8,
        number_at(crate::bytes::big_endian(n as nat, 8), 0) == n,
{
    reveal_with_fuel(crate::bytes::big_endian, 9);
    let n0 = n as nat;
    let n1 = n0 / 256;
    let n2 = n1 / 256;
    let n3 = n2 / 256;
    let n4 = n3 / 256;
    let n5 = n4 / 256;
    let n6 = n5 / 256;
    let n7 = n6 / 256;
    let bytes = crate::bytes::big_endian(n0, 8);
    crate::bytes::lemma_big_endian_len(n0, 8);
    crate::bytes::lemma_big_endian_len(n1, 7);
    crate::bytes::lemma_big_endian_len(n2, 6);
    crate::bytes::lemma_big_endian_len(n3, 5);
    crate::bytes::lemma_big_endian_len(n4, 4);
    crate::bytes::lemma_big_endian_len(n5, 3);
    crate::bytes::lemma_big_endian_len(n6, 2);
    crate::bytes::lemma_big_endian_len(n7, 1);
    assert(bytes[7] == (n0 % 256) as u8);
    assert(bytes[6] == (n1 % 256) as u8);
    assert(bytes[5] == (n2 % 256) as u8);
    assert(bytes[4] == (n3 % 256) as u8);
    assert(bytes[3] == (n4 % 256) as u8);
    assert(bytes[2] == (n5 % 256) as u8);
    assert(bytes[1] == (n6 % 256) as u8);
    assert(bytes[0] == (n7 % 256) as u8);
    assert(n7 < 256);
}

/// A number stands in eight bytes alone.
proof fn lemma_number_in_part(bytes: Seq<u8>, at: int)
    requires
        0 <= at <= bytes.len() - 8,
    ensures
        number_at(bytes, at) == number_at(bytes.subrange(at, at + 8), 0),
{
}

/// The number that a text of decimal digits is.
pub open spec fn number_of(text: Seq<char>) -> int
    decreases text.len(),
{
    if text.len() == 0 {
        0
    } else {
        number_of(text.drop_last()) * 10 + (text.last() as u32 - '0' as u32)
    }
}

/// A number in decimal reads back: it consists of digits, starts with a zero only if it is zero,
/// and is the number that it was made of.
pub proof fn decimal_reads_back(n: nat)
    ensures
        ({
            let text = crate::text::decimal(n);
            &&& text.len() > 0
            &&& text[0] == '0' ==> n == 0 && text.len() == 1
            &&& forall|i: int| 0 <= i < text.len() ==> '0' as u32 <= (#[trigger] text[i]) as u32
                <= '9' as u32
            &&& number_of(text) == n
        }),
    decreases n,
{
    let text = crate::text::decimal(n);
    reveal_with_fuel(number_of, 2);
    if n < 10 {
        assert(text.drop_last() =~= Seq::<char>::empty());
    } else {
        decimal_reads_back(n / 10);
        assert(text.drop_last() =~= crate::text::decimal(n / 10));
    }
}

/// The sentence on a PCR names that PCR, and the sentence on an attester that failed gives its
/// reason.
pub proof fn sentences_name_what_they_are_about(
    index: usize,
    reason: String,
    on_pcr: String,
    on_attester: String,
)
    requires
        call_ensures(NitroError::message, (&NitroError::PcrMismatch(index),), on_pcr),
        call_ensures(NitroError::message, (&NitroError::AttestationGeneration(reason),), on_attester),
    ensures
        exists|digits: Seq<char>|
            {
                &&& on_pcr@ == "Nitro attestation PCR "@ + digits + " is not approved"@
                &&& #[trigger] number_of(digits) == index
                &&& digits.len() > 0 && (digits[0] == '0' ==> digits.len() == 1)
                &&& forall|i: int| 0 <= i < digits.len() ==> '0' as u32 <= (
                #[trigger] digits[i]) as u32 <= '9' as u32
            },
        on_attester@ == "Nitro attestation generation failed: "@ + reason@,
{
    let digits = crate::text::decimal(index as nat);
    decimal_reads_back(index as nat);
    assert(number_of(digits) == index);
}

// The binding.

/// The message that binds a document to a connection reads back part by part: the context, the
/// nonce and the TLS key, each behind its length, in this order, and nothing else.
pub proof fn binding_reads_back(binding: &NitroBinding<'_>, message: Vec<u8>)
    requires
        call_ensures(encode_binding, (binding,), message),
        binding.context@.len() <= u64::MAX,
        binding.nonce@.len() <= u64::MAX,
        binding.tls_spki@.len() <= u64::MAX,
    ensures
        ({
            let context_at = 8int;
            let nonce_at = context_at + binding.context@.len() + 8;
            let key_at = nonce_at + binding.nonce@.len() + 8;
            &&& message@.len() == key_at + binding.tls_spki@.len()
            &&& number_at(message@, context_at - 8) == binding.context@.len()
            &&& message@.subrange(context_at, context_at + binding.context@.len())
                == binding.context@
            &&& number_at(message@, nonce_at - 8) == binding.nonce@.len()
            &&& message@.subrange(nonce_at, nonce_at + binding.nonce@.len()) == binding.nonce@
            &&& number_at(message@, key_at - 8) == binding.tls_spki@.len()
            &&& message@.subrange(key_at, key_at + binding.tls_spki@.len()) == binding.tls_spki@
        }),
{
    number_reads_back(binding.context@.len() as u64);
    number_reads_back(binding.nonce@.len() as u64);
    number_reads_back(binding.tls_spki@.len() as u64);
    let context_at = 8int;
    let nonce_at = context_at + binding.context@.len() + 8;
    let key_at = nonce_at + binding.nonce@.len() + 8;
    let head = crate::bytes::big_endian(binding.context@.len(), 8);
    let middle = crate::bytes::big_endian(binding.nonce@.len(), 8);
    let tail = crate::bytes::big_endian(binding.tls_spki@.len(), 8);
    assert(message@.subrange(0, 8) =~= head);
    assert(message@.subrange(nonce_at - 8, nonce_at) =~= middle);
    assert(message@.subrange(key_at - 8, key_at) =~= tail);
    lemma_number_in_part(message@, 0);
    lemma_number_in_part(message@, nonce_at - 8);
    lemma_number_in_part(message@, key_at - 8);
    assert(message@.subrange(context_at, context_at + binding.context@.len())
        =~= binding.context@);
    assert(message@.subrange(nonce_at, nonce_at + binding.nonce@.len()) =~= binding.nonce@);
    assert(message@.subrange(key_at, key_at + binding.tls_spki@.len()) =~= binding.tls_spki@);
}

/// The user data is the SHA-256 digest of the message that reads back as the binding.
pub proof fn user_data_is_the_digest_of_the_binding(
    binding: NitroBinding<'_>,
    message: Vec<u8>,
    user_data: [u8; 32],
)
    requires
        call_ensures(encode_binding, (&binding,), message),
        call_ensures(binding_user_data, (binding,), user_data),
    ensures
        user_data@ == crate::crypto::sha256(message@),
{
}

// The policy.

/// A policy is complete if and only if it names a PCR, and a value for each PCR that it names.
pub proof fn policy_is_complete_iff_every_pcr_has_a_value(
    policy: &NitroPolicy,
    outcome: Result<(), NitroError>,
)
    requires
        call_ensures(NitroPolicy::validate, (policy,), outcome),
    ensures
        outcome is Ok <==> policy.pcrs@.dom() != Set::<usize>::empty() && forall|index: usize|
            #[trigger] policy.pcrs@.contains_key(index) ==> policy.pcrs@[index]@.len() > 0,
        outcome matches Err(error) ==> error == NitroError::IncompletePolicy,
{
    let allowed = policy@.pcrs;
    assert(allowed.dom() =~= policy.pcrs@.dom());
    assert forall|index: usize| policy.pcrs@.contains_key(index) implies (
    #[trigger] allowed.contains_key(index)) && allowed[index].len() == policy.pcrs@[index]@.len() by {
    }
    assert(allowed.dom().is_empty() <==> allowed.dom() == Set::<usize>::empty()) by {
        if allowed.dom().is_empty() {
            assert(allowed.dom() =~= Set::<usize>::empty());
        }
    }
    if outcome is Ok {
        assert forall|index: usize| #[trigger] policy.pcrs@.contains_key(
            index,
        ) implies policy.pcrs@[index]@.len() > 0 by {
            assert(allowed.contains_key(index));
        }
    }
}

/// Whether a value is one of those listed.
pub open spec fn is_listed(values: Vec<Vec<u8>>, value: Seq<u8>) -> bool {
    exists|i: int| 0 <= i < values@.len() && (#[trigger] values@[i])@ == value
}

/// The measured PCRs pass if and only if they are the PCRs that the policy names, each with a
/// listed value. If as many are measured as are named, the lowest one that fails is reported: by
/// its number if it was measured.
pub proof fn pcrs_pass_iff_each_is_listed(
    document: &AttestationDoc,
    policy: &NitroPolicy,
    index: usize,
    outcome: Result<(), NitroError>,
)
    requires
        call_ensures(verify_pcrs, (document, policy), outcome),
    ensures
        ({
            let measured = document.pcrs@;
            let allowed = policy.pcrs@;
            &&& outcome is Ok <==> measured.dom() == allowed.dom() && forall|i: usize| #[trigger]
                allowed.contains_key(i) ==> is_listed(allowed[i], measured[i]@)
            &&& outcome == Err::<(), NitroError>(NitroError::PcrMismatch(index)) <==> {
                &&& measured.dom().len() == allowed.dom().len()
                &&& allowed.contains_key(index)
                &&& measured.contains_key(index)
                &&& !is_listed(allowed[index], measured[index]@)
                &&& forall|i: usize|
                    i < index && #[trigger] allowed.contains_key(i) ==> measured.contains_key(i)
                        && is_listed(allowed[i], measured[i]@)
            }
            &&& outcome matches Err(error) ==> error is PcrMismatch || error
                == NitroError::PcrSetMismatch
        }),
{
    let measured = document.pcrs@;
    let allowed = policy.pcrs@;
    let m = document@.pcrs;
    let a = policy@.pcrs;
    assert(m.dom() =~= measured.dom());
    assert(a.dom() =~= allowed.dom());
    assert forall|i: usize| #[trigger] allowed.contains_key(i) implies a[i].contains(m[i])
        == is_listed(allowed[i], m[i]) by {
        let values = allowed[i];
        assert(a[i] == crate::bytes::byte_strings(values@));
        if is_listed(values, m[i]) {
            let j = choose|j: int| 0 <= j < values@.len() && (#[trigger] values@[j])@ == m[i];
            assert(a[i][j] == m[i]);
        }
        if a[i].contains(m[i]) {
            let j = choose|j: int| 0 <= j < a[i].len() && a[i][j] == m[i];
            assert(values@[j]@ == m[i]);
        }
    }
    assert forall|i: usize| #[trigger] measured.contains_key(i) implies m[i] == measured[i]@ by {}
    crate::laws::pcrs_pass_iff_complete_match(m, a);
    assert((forall|i: usize| #[trigger] a.contains_key(i) ==> a[i].contains(m[i])) <==> (forall|
        i: usize,
    | #[trigger]
        allowed.contains_key(i) ==> a[i].contains(m[i]))) by {
        assert(forall|i: usize| a.contains_key(i) == allowed.contains_key(i));
    }
    if measured.dom() == allowed.dom() {
        assert forall|i: usize| #[trigger] allowed.contains_key(i) implies m[i] == measured[i]@ by {
            assert(measured.dom().contains(i));
            assert(measured.contains_key(i));
        }
    }
    let lowest = {
        &&& allowed.contains_key(index)
        &&& measured.contains_key(index)
        &&& !is_listed(allowed[index], measured[index]@)
        &&& forall|i: usize|
            i < index && #[trigger] allowed.contains_key(i) ==> measured.contains_key(i)
                && is_listed(allowed[i], measured[i]@)
    };
    assert(forall|i: usize| a.contains_key(i) == allowed.contains_key(i));
    assert(forall|i: usize| m.contains_key(i) == measured.contains_key(i));
    if lowest && m.dom().len() == a.dom().len() {
        assert(crate::claims::first_unapproved(m, a, index)) by {
            assert forall|lower: usize| lower < index && #[trigger] a.contains_key(
                lower,
            ) implies crate::claims::pcr_approved(m, a, lower) by {
                assert(allowed.contains_key(lower));
            }
        }
        crate::laws::lowest_unapproved_pcr_decides(m, a, index);
    }
    if outcome == Err::<(), NitroError>(NitroError::PcrMismatch(index)) {
        assert(crate::claims::first_unapproved(m, a, index));
        assert forall|i: usize| i < index && #[trigger] allowed.contains_key(
            i,
        ) implies measured.contains_key(i) && is_listed(allowed[i], measured[i]@) by {
            assert(a.contains_key(i));
            assert(crate::claims::pcr_approved(m, a, i));
        }
    }
}

/// The claims of a document are looked at in turn, and the first that fails decides: the nonce, the
/// TLS key, the user data, the module, the age, and at last the PCRs.
pub proof fn first_failing_claim_decides(
    document: &AttestationDoc,
    policy: &NitroPolicy,
    binding: &NitroBinding<'_>,
    user_data: &[u8],
    now: SystemTime,
    age: Result<(), NitroError>,
    pcrs: Result<(), NitroError>,
    outcome: Result<(), NitroError>,
)
    requires
        call_ensures(verify_age, (document.timestamp, policy.max_age, now), age),
        call_ensures(verify_pcrs, (document, policy), pcrs),
        call_ensures(verify_claims, (document, policy, binding, user_data, now), outcome),
    ensures
        ({
            let for_nonce = document.nonce matches Some(nonce) && nonce@ == binding.nonce@;
            let for_key = document.public_key matches Some(key) && key@ == binding.tls_spki@;
            let for_binding = document.user_data matches Some(data) && data@ == user_data@;
            let from_module = policy.module_id matches Some(id) ==> id@ == document.module_id@;
            &&& outcome is Ok <==> for_nonce && for_key && for_binding && from_module && age is Ok
                && pcrs is Ok
            &&& !for_nonce ==> outcome == Err::<(), NitroError>(NitroError::NonceMismatch)
            &&& for_nonce && !for_key ==> outcome == Err::<(), NitroError>(NitroError::SpkiMismatch)
            &&& for_nonce && for_key && !for_binding ==> outcome == Err::<(), NitroError>(
                NitroError::UserDataMismatch,
            )
            &&& for_nonce && for_key && for_binding && !from_module ==> outcome == Err::<
                (),
                NitroError,
            >(NitroError::ModuleIdMismatch)
            &&& for_nonce && for_key && for_binding && from_module && age is Err ==> outcome == age
            &&& for_nonce && for_key && for_binding && from_module && age is Ok ==> outcome == pcrs
        }),
{
}

// The certificate chain.

/// A certificate is valid from the first second of its period to the end of the last, and never
/// before the Unix epoch.
pub proof fn validity_is_a_period(
    certificate: &Certificate,
    now: SystemTime,
    outcome: Result<(), NitroError>,
)
    requires
        call_ensures(verify_validity, (certificate, now), outcome),
    ensures
        outcome is Ok <==> now.unix_nanos() >= 0 && certificate.not_before * 1_000_000_000
            <= now.unix_nanos() < (certificate.not_after + 1) * 1_000_000_000,
        now.unix_nanos() < 0 ==> outcome == Err::<(), NitroError>(NitroError::TimestampInvalid),
        now.unix_nanos() >= 0 && outcome is Err ==> outcome == Err::<(), NitroError>(
            NitroError::InvalidCertificateChain,
        ),
{
}

/// An authority vouches if and only if its certificate can be read, is valid now, is an
/// authority's and is signed by the one above.
pub proof fn authority_is_readable_valid_and_signed(
    authority: &Authority,
    now: SystemTime,
    outcome: Result<(), NitroError>,
)
    requires
        call_ensures(verify_authority, (authority, now), outcome),
    ensures
        outcome is Ok <==> {
            &&& authority.certificate matches Some(certificate)
            &&& now.unix_nanos() >= 0
            &&& certificate.not_before <= now.unix_nanos() / 1_000_000_000
                <= certificate.not_after
            &&& certificate.is_ca
            &&& authority.signed
        },
        authority.certificate is Some && now.unix_nanos() < 0 <==> outcome == Err::<
            (),
            NitroError,
        >(NitroError::TimestampInvalid),
        outcome matches Err(error) ==> error == NitroError::TimestampInvalid || error
            == NitroError::InvalidCertificateChain,
{
}

/// Evidence for a chain is enough if and only if the leaf is valid and signed, the root is the
/// anchor, and every authority vouches. The leaf is looked at first, then whether there is a
/// root, and then whether it is the anchor.
pub proof fn chain_evidence_is_enough_iff_every_link_holds(
    evidence: ChainEvidence,
    now: SystemTime,
    trust_anchor_fingerprint: [u8; 32],
    outcome: Result<Vec<u8>, NitroError>,
)
    requires
        call_ensures(judge_chain, (evidence, now, trust_anchor_fingerprint), outcome),
    ensures
        ({
            let secs = now.unix_nanos() / 1_000_000_000;
            let leaf_valid = evidence.leaf matches Some(leaf) && now.unix_nanos() >= 0
                && leaf.not_before <= secs <= leaf.not_after;
            let anchored = evidence.root matches Some(root) && root.digest@
                == trust_anchor_fingerprint@;
            let links_hold = {
                &&& evidence.root matches Some(root)
                &&& root.authority.signed
                &&& root.authority.certificate matches Some(c)
                &&& c.is_ca && c.not_before <= secs <= c.not_after
                &&& forall|i: int|
                    0 <= i < evidence.intermediates@.len() ==> {
                        &&& (#[trigger] evidence.intermediates@[i]).signed
                        &&& evidence.intermediates@[i].certificate matches Some(c)
                        &&& c.is_ca && c.not_before <= secs <= c.not_after
                    }
                &&& evidence.leaf_signed
            };
            &&& outcome is Ok <==> leaf_valid && anchored && links_hold
            &&& outcome matches Ok(key) ==> key@ == evidence.leaf->0.public_key@
            &&& evidence.leaf is Some && now.unix_nanos() < 0 <==> outcome == Err::<
                Vec<u8>,
                NitroError,
            >(NitroError::TimestampInvalid)
            &&& leaf_valid && evidence.root is None <==> outcome == Err::<Vec<u8>, NitroError>(
                NitroError::MissingCaBundle,
            )
            &&& leaf_valid && evidence.root is Some && !anchored <==> outcome == Err::<
                Vec<u8>,
                NitroError,
            >(NitroError::UntrustedRoot)
            &&& outcome matches Err(error) ==> error == NitroError::TimestampInvalid || error
                == NitroError::MissingCaBundle || error == NitroError::UntrustedRoot || error
                == NitroError::InvalidCertificateChain
        }),
{
    let secs = now.unix_nanos() / 1_000_000_000;
    let shown = evidence@.intermediates;
    assert(shown.len() == evidence.intermediates@.len());
    assert(forall|i: int| 0 <= i < shown.len() ==> #[trigger] shown[i] == evidence.intermediates@[i]@);
    assert forall|i: int| 0 <= i < shown.len() implies (crate::chain::authority_holds(
        #[trigger] shown[i],
        secs,
    ) <==> {
        &&& evidence.intermediates@[i].signed
        &&& evidence.intermediates@[i].certificate matches Some(c)
        &&& c.is_ca && c.not_before <= secs <= c.not_after
    }) by {
        assert(shown[i] == evidence.intermediates@[i]@);
    }
    if outcome is Ok {
        assert forall|i: int| 0 <= i < evidence.intermediates@.len() implies {
            &&& (#[trigger] evidence.intermediates@[i]).signed
            &&& evidence.intermediates@[i].certificate matches Some(c)
            &&& c.is_ca && c.not_before <= secs <= c.not_after
        } by {
            assert(crate::chain::authority_holds(shown[i], secs));
        }
    }
}

/// The evidence that a leaf and a bundle present is what other crates find in their bytes: each
/// certificate after the root is held against the one before it, and the leaf against the last.
pub proof fn chain_evidence_is_what_the_bytes_say(
    certificate: &[u8],
    cabundle: &Vec<Vec<u8>>,
    evidence: ChainEvidence,
)
    requires
        call_ensures(present_chain, (certificate, cabundle), evidence),
    ensures
        evidence.leaf is Some <==> crate::x509::x509_certificate(certificate@) is Some,
        evidence.leaf matches Some(c) ==> crate::x509::x509_certificate(certificate@) == Some(c@),
        cabundle@.len() == 0 ==> evidence.root is None && !evidence.leaf_signed
            && evidence.intermediates@.len() == 0,
        cabundle@.len() > 0 ==> {
            &&& evidence.leaf_signed == crate::x509::x509_signature_valid(
                certificate@,
                Some(cabundle@[cabundle@.len() - 1]@),
            )
            &&& evidence.root matches Some(root)
            &&& root.digest@ == crate::crypto::sha256(cabundle@[0]@)
            &&& root.authority.signed == crate::x509::x509_signature_valid(cabundle@[0]@, None)
            &&& root.authority.certificate is Some <==> crate::x509::x509_certificate(
                cabundle@[0]@,
            ) is Some
            &&& root.authority.certificate matches Some(c) ==> crate::x509::x509_certificate(
                cabundle@[0]@,
            ) == Some(c@)
            &&& evidence.intermediates@.len() == cabundle@.len() - 1
            &&& forall|i: int|
                0 <= i < evidence.intermediates@.len() ==> {
                    let authority = #[trigger] evidence.intermediates@[i];
                    &&& authority.signed == crate::x509::x509_signature_valid(
                        cabundle@[i + 1]@,
                        Some(cabundle@[i]@),
                    )
                    &&& authority.certificate is Some <==> crate::x509::x509_certificate(
                        cabundle@[i + 1]@,
                    ) is Some
                    &&& authority.certificate matches Some(c) ==> crate::x509::x509_certificate(
                        cabundle@[i + 1]@,
                    ) == Some(c@)
                }
        },
{
    let bundle = crate::bytes::byte_strings(cabundle@);
    let shown = crate::chain::chain_evidence(certificate@, bundle);
    assert(evidence@ == shown);
    assert(bundle.len() == cabundle@.len());
    assert(forall|i: int| 0 <= i < bundle.len() ==> #[trigger] bundle[i] == cabundle@[i]@);
    assert(evidence@.intermediates.len() == evidence.intermediates@.len());
    assert forall|i: int| 0 <= i < evidence.intermediates@.len() implies (
    #[trigger] evidence.intermediates@[i])@ == shown.intermediates[i] by {
        assert(evidence@.intermediates[i] == evidence.intermediates@[i]@);
    }
}

/// The chain behind a document holds if and only if every certificate can be read and is valid
/// now, the first one of the bundle is the anchor and signs itself, each one after it is signed by
/// the one before, all of the bundle are authorities', and the last one signs the leaf. The key is
/// then the leaf's. A chain that does not hold is told apart by what is found first: no time, no
/// bundle, another anchor; anything else is an invalid chain.
pub proof fn chain_holds_iff_every_certificate_does(
    document: &AttestationDoc,
    now: SystemTime,
    trust_anchor_fingerprint: [u8; 32],
    outcome: Result<Vec<u8>, NitroError>,
)
    requires
        call_ensures(verify_certificate_chain, (document, now, trust_anchor_fingerprint), outcome),
    ensures
        ({
            let secs = now.unix_nanos() / 1_000_000_000;
            let leaf = crate::x509::x509_certificate(document.certificate@);
            let bundle = document.cabundle@;
            let leaf_valid = leaf matches Some(c) && now.unix_nanos() >= 0 && c.not_before <= secs
                <= c.not_after;
            let anchored = bundle.len() > 0 && crate::crypto::sha256(bundle[0]@)
                == trust_anchor_fingerprint@;
            let links_hold = {
                &&& crate::x509::x509_signature_valid(bundle[0]@, None)
                &&& forall|i: int|
                    0 < i < bundle.len() ==> crate::x509::x509_signature_valid(
                        #[trigger] bundle[i]@,
                        Some(bundle[i - 1]@),
                    )
                &&& forall|i: int|
                    0 <= i < bundle.len() ==> {
                        &&& crate::x509::x509_certificate((#[trigger] bundle[i])@) matches Some(c)
                        &&& c.is_ca && c.not_before <= secs <= c.not_after
                    }
                &&& crate::x509::x509_signature_valid(
                    document.certificate@,
                    Some(bundle[bundle.len() - 1]@),
                )
            };
            &&& outcome is Ok <==> leaf_valid && anchored && links_hold
            &&& outcome matches Ok(key) ==> leaf matches Some(c) && key@ == c.public_key
            &&& leaf is Some && now.unix_nanos() < 0 <==> outcome == Err::<Vec<u8>, NitroError>(
                NitroError::TimestampInvalid,
            )
            &&& leaf_valid && bundle.len() == 0 <==> outcome == Err::<Vec<u8>, NitroError>(
                NitroError::MissingCaBundle,
            )
            &&& leaf_valid && bundle.len() > 0 && !anchored <==> outcome == Err::<
                Vec<u8>,
                NitroError,
            >(NitroError::UntrustedRoot)
            &&& outcome matches Err(error) ==> error == NitroError::TimestampInvalid || error
                == NitroError::MissingCaBundle || error == NitroError::UntrustedRoot || error
                == NitroError::InvalidCertificateChain
        }),
{
    let secs = now.unix_nanos() / 1_000_000_000;
    let bundle = document.cabundle@;
    let strings = document@.cabundle;
    assert(strings.len() == bundle.len());
    assert(forall|i: int| 0 <= i < bundle.len() ==> #[trigger] strings[i] == bundle[i]@);
    let evidence = crate::chain::chain_evidence(document.certificate@, strings);
    if bundle.len() > 0 {
        assert(strings.last() == bundle[bundle.len() - 1]@);
        assert forall|i: int| 1 <= i < bundle.len() implies (crate::chain::authority_holds(
            #[trigger] evidence.intermediates[i - 1],
            secs,
        ) <==> {
            &&& crate::x509::x509_signature_valid(bundle[i]@, Some(bundle[i - 1]@))
            &&& crate::x509::x509_certificate(bundle[i]@) matches Some(c)
            &&& c.is_ca && c.not_before <= secs <= c.not_after
        }) by {
            assert(strings[i] == bundle[i]@ && strings[i - 1] == bundle[i - 1]@);
        }
        if outcome is Ok {
            assert forall|i: int| 0 < i < bundle.len() implies
                crate::x509::x509_signature_valid(#[trigger] bundle[i]@, Some(bundle[i - 1]@)) by {
                assert(crate::chain::authority_holds(evidence.intermediates[i - 1], secs));
            }
            assert forall|i: int| 0 <= i < bundle.len() implies {
                &&& crate::x509::x509_certificate((#[trigger] bundle[i])@) matches Some(c)
                &&& c.is_ca && c.not_before <= secs <= c.not_after
            } by {
                if i > 0 {
                    assert(crate::chain::authority_holds(evidence.intermediates[i - 1], secs));
                }
            }
        } else {
            assert forall|j: int|
                0 <= j < evidence.intermediates.len() && crate::x509::x509_signature_valid(
                    bundle[j + 1]@,
                    Some(bundle[j]@),
                ) && (crate::x509::x509_certificate(bundle[j + 1]@) matches Some(c) && c.is_ca
                    && c.not_before <= secs <= c.not_after) implies crate::chain::authority_holds(
                #[trigger] evidence.intermediates[j],
                secs,
            ) by {
                assert(strings[j + 1] == bundle[j + 1]@ && strings[j] == bundle[j]@);
            }
        }
    }
}

// The document.

/// A structure is read with its tag if it can be, and without it otherwise.
pub proof fn structure_is_read_with_its_tag_or_without(encoded: &[u8], sign1: Option<Sign1>)
    requires
        call_ensures(decode_sign1, (encoded,), sign1),
    ensures
        match (crate::cose::tagged_sign1(encoded@), crate::cose::untagged_sign1(encoded@)) {
            (Some(tagged), _) => sign1 matches Some(s) && s@ == tagged,
            (None, Some(untagged)) => sign1 matches Some(s) && s@ == untagged,
            (None, None) => sign1 is None,
        },
{
}

/// Of the evidence for a document's authenticity, the first thing that is missing decides.
pub proof fn first_missing_evidence_decides(
    evidence: DocumentEvidence,
    outcome: Result<AttestationDoc, NitroError>,
)
    requires
        call_ensures(judge_document, (evidence,), outcome),
    ensures
        ({
            let payload = evidence.sign1 matches Some(sign1) && sign1.payload is Some;
            &&& outcome is Ok <==> payload && evidence.document is Some && evidence.key is Ok
                && evidence.signature_valid
            &&& outcome matches Ok(document) ==> evidence.document == Some(document)
            &&& evidence.sign1 is None ==> outcome == Err::<AttestationDoc, NitroError>(
                NitroError::MalformedCose,
            )
            &&& evidence.sign1 is Some && !payload ==> outcome == Err::<AttestationDoc, NitroError>(
                NitroError::MissingPayload,
            )
            &&& payload && evidence.document is None ==> outcome == Err::<
                AttestationDoc,
                NitroError,
            >(NitroError::MalformedDocument)
            &&& payload && evidence.document is Some ==> (evidence.key matches Err(error)
                ==> outcome == Err::<AttestationDoc, NitroError>(error))
            &&& payload && evidence.document is Some && evidence.key is Ok
                && !evidence.signature_valid ==> outcome == Err::<AttestationDoc, NitroError>(
                NitroError::InvalidCoseSignature,
            )
        }),
{
}

/// An encoding is told apart by what can be read of it: a COSE structure, with its tag or without;
/// a payload in it; a document in that. Then the document's own chain decides, and at last the
/// signature of the structure under the key that the chain leads to.
pub proof fn authenticity_is_decided_step_by_step(
    encoded: &[u8],
    now: SystemTime,
    trust_anchor_fingerprint: [u8; 32],
    read: &AttestationDoc,
    key: Result<Vec<u8>, NitroError>,
    outcome: Result<AttestationDoc, NitroError>,
)
    requires
        call_ensures(authenticate_document, (encoded, now, trust_anchor_fingerprint), outcome),
        call_ensures(verify_certificate_chain, (read, now, trust_anchor_fingerprint), key),
    ensures
        ({
            let sign1 = match crate::cose::tagged_sign1(encoded@) {
                Some(tagged) => Some(tagged),
                None => crate::cose::untagged_sign1(encoded@),
            };
            match sign1 {
                None => outcome == Err::<AttestationDoc, NitroError>(NitroError::MalformedCose),
                Some(Sign1View { payload: None, .. }) => outcome == Err::<
                    AttestationDoc,
                    NitroError,
                >(NitroError::MissingPayload),
                Some(Sign1View { payload: Some(payload), signature, signed }) => {
                    &&& crate::document::attestation_document(payload) is None ==> outcome == Err::<
                        AttestationDoc,
                        NitroError,
                    >(NitroError::MalformedDocument)
                    &&& crate::document::attestation_document(payload) == Some(read@) ==> match key {
                        Err(error) => outcome == Err::<AttestationDoc, NitroError>(error),
                        Ok(key) => if crate::crypto::ecdsa_p384_valid(key@, signed, signature) {
                            outcome matches Ok(document) && document@ == read@
                        } else {
                            outcome == Err::<AttestationDoc, NitroError>(
                                NitroError::InvalidCoseSignature,
                            )
                        },
                    }
                },
            }
        }),
{
}

/// Whether a bundle is a path at `secs` seconds after the Unix epoch: the first certificate signs
/// itself, each one after it is signed by the one before, and all of them can be read, are
/// authorities' and are in their periods.
pub open spec fn is_path(bundle: Seq<Seq<u8>>, secs: int) -> bool {
    &&& bundle.len() > 0
    &&& crate::x509::x509_signature_valid(bundle[0], None)
    &&& forall|i: int|
        0 < i < bundle.len() ==> crate::x509::x509_signature_valid(
            #[trigger] bundle[i],
            Some(bundle[i - 1]),
        )
    &&& forall|i: int|
        0 <= i < bundle.len() ==> {
            &&& crate::x509::x509_certificate(#[trigger] bundle[i]) matches Some(c)
            &&& c.is_ca
            &&& c.not_before <= secs
            &&& secs <= c.not_after
        }
}

/// A path is a bundle of which every certificate may vouch for the next.
proof fn lemma_path_vouches(bundle: Seq<Seq<u8>>, secs: int)
    ensures
        is_path(bundle, secs) <==> bundle.len() > 0 && forall|i: int|
            0 <= i < bundle.len() ==> #[trigger] crate::laws::vouches(bundle, i, secs),
{
    if is_path(bundle, secs) {
        assert forall|i: int| 0 <= i < bundle.len() implies #[trigger] crate::laws::vouches(
            bundle,
            i,
            secs,
        ) by {
            assert(crate::x509::x509_certificate(bundle[i]) is Some);
        }
    }
    if bundle.len() > 0 && forall|i: int|
        0 <= i < bundle.len() ==> #[trigger] crate::laws::vouches(bundle, i, secs) {
        assert(crate::laws::vouches(bundle, 0, secs));
        assert forall|i: int| 0 < i < bundle.len() implies crate::x509::x509_signature_valid(
            #[trigger] bundle[i],
            Some(bundle[i - 1]),
        ) by {
            assert(crate::laws::vouches(bundle, i, secs));
        }
        assert forall|i: int| 0 <= i < bundle.len() implies {
            &&& crate::x509::x509_certificate(#[trigger] bundle[i]) matches Some(c)
            &&& c.is_ca
            &&& c.not_before <= secs
            &&& secs <= c.not_after
        } by {
            assert(crate::laws::vouches(bundle, i, secs));
        }
    }
}

/// An encoding is authentic if and only if it is a COSE structure, with its tag or without, whose
/// payload is a document; the bundle of that document is a path from the anchor, whose last
/// certificate signs the leaf; and the leaf is valid, and its key signed the structure. What is
/// given back is that document.
pub proof fn document_is_authentic_iff_signed_from_the_anchor_down(
    encoded: &[u8],
    now: SystemTime,
    trust_anchor_fingerprint: [u8; 32],
    sign1: Sign1View,
    payload: Seq<u8>,
    document: AttestationDocView,
    outcome: Result<AttestationDoc, NitroError>,
)
    requires
        call_ensures(authenticate_document, (encoded, now, trust_anchor_fingerprint), outcome),
        crate::cose::tagged_sign1(encoded@) == Some(sign1) || (crate::cose::tagged_sign1(encoded@)
            is None && crate::cose::untagged_sign1(encoded@) == Some(sign1)),
        sign1.payload == Some(payload),
        crate::document::attestation_document(payload) == Some(document),
    ensures
        outcome is Ok <==> {
            &&& now.unix_nanos() >= 0
            &&& is_path(document.cabundle, now.unix_nanos() / 1_000_000_000)
            &&& crate::crypto::sha256(document.cabundle[0]) == trust_anchor_fingerprint@
            &&& crate::x509::x509_signature_valid(
                document.certificate,
                Some(document.cabundle[document.cabundle.len() - 1]),
            )
            &&& crate::x509::x509_certificate(document.certificate) matches Some(leaf)
            &&& leaf.not_before <= now.unix_nanos() / 1_000_000_000
            &&& now.unix_nanos() / 1_000_000_000 <= leaf.not_after
            &&& crate::crypto::ecdsa_p384_valid(leaf.public_key, sign1.signed, sign1.signature)
        },
        outcome matches Ok(d) ==> d@ == document,
{
    lemma_path_vouches(document.cabundle, now.unix_nanos() / 1_000_000_000);
    if let Some(leaf) = crate::x509::x509_certificate(document.certificate) {
        crate::laws::chain_holds_iff_anchored(
            document,
            now.unix_nanos(),
            trust_anchor_fingerprint@,
            leaf.public_key,
        );
    }
}

/// A document is verified step by step: the policy must name a value for each of its PCRs, the
/// encoding must not be longer than 16384 bytes, it must be authentic, and what it claims must
/// hold, for the user data that the binding calls for. The first step that fails decides.
pub proof fn document_is_verified_step_by_step(
    encoded: &[u8],
    policy: &NitroPolicy,
    binding: NitroBinding<'_>,
    now: SystemTime,
    trust_anchor_fingerprint: [u8; 32],
    message: Vec<u8>,
    user_data: &[u8],
    authentic: Result<AttestationDoc, NitroError>,
    claims: Result<(), NitroError>,
    outcome: Result<AttestationDoc, NitroError>,
)
    requires
        call_ensures(
            verify_document_with_trust_anchor,
            (encoded, policy, binding, now, trust_anchor_fingerprint),
            outcome,
        ),
        call_ensures(encode_binding, (&binding,), message),
        user_data@ == crate::crypto::sha256(message@),
        call_ensures(authenticate_document, (encoded, now, trust_anchor_fingerprint), authentic),
        authentic matches Ok(document) ==> call_ensures(
            verify_claims,
            (&document, policy, &binding, user_data, now),
            claims,
        ),
    ensures
        ({
            let complete = policy.pcrs@.dom() != Set::<usize>::empty() && forall|i: usize|
                #[trigger] policy.pcrs@.contains_key(i) ==> policy.pcrs@[i]@.len() > 0;
            &&& !complete ==> outcome == Err::<AttestationDoc, NitroError>(
                NitroError::IncompletePolicy,
            )
            &&& complete && encoded@.len() > 16384 ==> outcome == Err::<AttestationDoc, NitroError>(
                NitroError::DocumentTooLarge,
            )
            &&& complete && encoded@.len() <= 16384 ==> match (authentic, claims) {
                (Err(error), _) => outcome == Err::<AttestationDoc, NitroError>(error),
                (Ok(_), Err(error)) => outcome == Err::<AttestationDoc, NitroError>(error),
                (Ok(document), Ok(())) => outcome matches Ok(d) && d@ == document@,
            }
        }),
{
    let allowed = policy@.pcrs;
    assert(allowed.dom() =~= policy.pcrs@.dom());
    assert(forall|i: usize| allowed.contains_key(i) == policy.pcrs@.contains_key(i));
    assert forall|i: usize| #[trigger] policy.pcrs@.contains_key(i) implies allowed[i].len()
        == policy.pcrs@[i]@.len() by {}
    if allowed.dom().is_empty() {
        assert(allowed.dom() =~= Set::<usize>::empty());
    }
    if crate::policy::is_complete(allowed) {
        assert forall|i: usize| #[trigger] policy.pcrs@.contains_key(i) implies policy.pcrs@[
            i
        ]@.len() > 0 by {
            assert(allowed.contains_key(i));
        }
    }
}

/// By default a document is verified against AWS Nitro Enclaves Root-G1, whose SHA-256 fingerprint
/// AWS has published.
pub proof fn default_anchor_is_root_g1(
    encoded: &[u8],
    policy: &NitroPolicy,
    binding: NitroBinding<'_>,
    now: SystemTime,
    root_g1: [u8; 32],
    by_default: Result<AttestationDoc, NitroError>,
    against_root_g1: Result<AttestationDoc, NitroError>,
)
    requires
        root_g1@ == seq![
            0x64u8, 0x1a, 0x03, 0x21, 0xa3, 0xe2, 0x44, 0xef, 0xe4, 0x56, 0x46, 0x31, 0x95, 0xd6,
            0x06, 0x31, 0x7e, 0xd7, 0xcd, 0xcc, 0x3c, 0x17, 0x56, 0xe0, 0x98, 0x93, 0xf3, 0xc6,
            0x8f, 0x79, 0xbb, 0x5b,
        ],
        call_ensures(verify_document, (encoded, policy, binding, now), by_default),
        call_ensures(
            verify_document_with_trust_anchor,
            (encoded, policy, binding, now, root_g1),
            against_root_g1,
        ),
    ensures
        match (by_default, against_root_g1) {
            (Ok(a), Ok(b)) => a@ == b@,
            (Err(a), Err(b)) => a == b,
            _ => false,
        },
{
    assert(crate::verify::AWS_NITRO_ROOT_G1_SHA256@ =~= root_g1@);
}

/// A document that is accepted carries the nonce, the key and the digest of the binding, is from
/// the module that is named, was made at most `max_age` before the present and not after it, and
/// measures exactly the PCRs that are named, each with a listed value.
pub proof fn accepted_document_says_what_is_asked(
    encoded: &[u8],
    policy: &NitroPolicy,
    binding: NitroBinding<'_>,
    now: SystemTime,
    trust_anchor_fingerprint: [u8; 32],
    message: Vec<u8>,
    document: AttestationDoc,
)
    requires
        call_ensures(
            verify_document_with_trust_anchor,
            (encoded, policy, binding, now, trust_anchor_fingerprint),
            Ok(document),
        ),
        call_ensures(encode_binding, (&binding,), message),
    ensures
        encoded@.len() <= 16384,
        document.nonce matches Some(nonce) && nonce@ == binding.nonce@,
        document.public_key matches Some(key) && key@ == binding.tls_spki@,
        document.user_data matches Some(data) && data@ == crate::crypto::sha256(message@),
        policy.module_id matches Some(id) ==> id@ == document.module_id@,
        0 <= now.unix_nanos() - document.timestamp * 1_000_000 <= policy.max_age.as_nanos(),
        policy.pcrs@.dom() != Set::<usize>::empty(),
        document.pcrs@.dom() == policy.pcrs@.dom(),
        forall|i: usize| #[trigger]
            policy.pcrs@.contains_key(i) ==> is_listed(policy.pcrs@[i], document.pcrs@[i]@),
{
    let m = document@.pcrs;
    let a = policy@.pcrs;
    assert(m.dom() =~= document.pcrs@.dom());
    assert(a.dom() =~= policy.pcrs@.dom());
    crate::laws::pcrs_pass_iff_complete_match(m, a);
    assert(document.pcrs@.dom() == policy.pcrs@.dom());
    assert forall|i: usize| #[trigger] policy.pcrs@.contains_key(i) implies is_listed(
        policy.pcrs@[i],
        document.pcrs@[i]@,
    ) by {
        assert(a.contains_key(i));
        assert(document.pcrs@.dom().contains(i));
        assert(m[i] == document.pcrs@[i]@);
        let j = choose|j: int| 0 <= j < a[i].len() && a[i][j] == m[i];
        assert(policy.pcrs@[i]@[j]@ == m[i]);
    }
    if policy.pcrs@.dom() == Set::<usize>::empty() {
        assert(a.dom().is_empty());
    }
}

// Views.

/// The plain values behind the types of a document are what its fields hold.
pub proof fn views_hold_what_the_fields_hold(
    sign1: Sign1,
    certificate: Certificate,
    document: AttestationDoc,
    binding: NitroBinding<'_>,
    policy: NitroPolicy,
    index: usize,
    at: int,
)
    ensures
        sign1@.payload is Some <==> sign1.payload is Some,
        sign1.payload matches Some(payload) ==> sign1@.payload == Some(payload@),
        sign1@.signature == sign1.signature@,
        sign1@.signed == sign1.signed@,
        certificate@.self_issued == certificate.self_issued,
        certificate@.not_before == certificate.not_before,
        certificate@.not_after == certificate.not_after,
        certificate@.is_ca == certificate.is_ca,
        certificate@.spki == certificate.spki@,
        certificate@.public_key == certificate.public_key@,
        document@.module_id == document.module_id@,
        document@.digest == document.digest,
        document@.timestamp == document.timestamp,
        document@.pcrs.contains_key(index) <==> document.pcrs@.contains_key(index),
        document.pcrs@.contains_key(index) ==> document@.pcrs[index] == document.pcrs@[index]@,
        document@.certificate == document.certificate@,
        document@.cabundle.len() == document.cabundle@.len(),
        0 <= at < document.cabundle@.len() ==> document@.cabundle[at] == document.cabundle@[at]@,
        document@.public_key is Some <==> document.public_key is Some,
        document.public_key matches Some(key) ==> document@.public_key == Some(key@),
        document@.user_data is Some <==> document.user_data is Some,
        document.user_data matches Some(data) ==> document@.user_data == Some(data@),
        document@.nonce is Some <==> document.nonce is Some,
        document.nonce matches Some(nonce) ==> document@.nonce == Some(nonce@),
        binding@.context == binding.context@,
        binding@.nonce == binding.nonce@,
        binding@.tls_spki == binding.tls_spki@,
        policy@.pcrs.contains_key(index) <==> policy.pcrs@.contains_key(index),
        policy.pcrs@.contains_key(index) ==> policy@.pcrs[index].len()
            == policy.pcrs@[index]@.len(),
        policy.pcrs@.contains_key(index) && 0 <= at < policy.pcrs@[index]@.len()
            ==> policy@.pcrs[index][at] == policy.pcrs@[index]@[at]@,
        policy@.max_age_nanos == policy.max_age.as_nanos(),
        policy@.module_id is Some <==> policy.module_id is Some,
        policy.module_id matches Some(id) ==> policy@.module_id == Some(id@),
{
}

/// Copies hold what was copied.
pub proof fn copies_are_the_same(
    policy: &NitroPolicy,
    policy_copy: NitroPolicy,
    document: &AttestationDoc,
    document_copy: AttestationDoc,
)
    requires
        call_ensures(NitroPolicy::clone, (policy,), policy_copy),
        call_ensures(AttestationDoc::clone, (document,), document_copy),
    ensures
        policy_copy@ == policy@,
        document_copy@ == document@,
{
}

} // verus!
