//! What an authentic document must claim to be accepted.

use crate::binding::{BindingView, NitroBinding};
use crate::bytes::{bytes_equal, is_exactly};
use crate::document::{AttestationDoc, AttestationDocView};
use crate::error::NitroError;
use crate::policy::{NitroPolicy, PolicyView};
use crate::time::{Duration, SystemTime};
use vstd::prelude::*;
use vstd::std_specs::cmp::OrdSpec;
use vstd::std_specs::iter::IteratorSpec;

verus! {

/// The verdict on a document's age. All times are in nanoseconds, those of day since the Unix
/// epoch.
pub open spec fn age_outcome(timestamp_ms: u64, max_age: int, now: int) -> Result<(), NitroError> {
    let made = timestamp_ms * 1_000_000;
    if now < made {
        Err(NitroError::TimestampInFuture)
    } else if now - made > max_age {
        Err(NitroError::Stale)
    } else {
        Ok(())
    }
}

/// Verifies that a document made `timestamp_ms` milliseconds after the Unix epoch is neither from
/// the future nor older than `max_age`.
pub fn verify_age(timestamp_ms: u64, max_age: Duration, now: SystemTime) -> (outcome: Result<
    (),
    NitroError,
>)
    ensures
        outcome == age_outcome(timestamp_ms, max_age.as_nanos(), now.unix_nanos()),
{
    let epoch = SystemTime::from_unix_secs(0);
    let made = match epoch.checked_add(Duration::from_millis(timestamp_ms)) {
        Some(made) => made,
        None => return Err(NitroError::TimestampInvalid),
    };
    let age = match now.duration_since(made) {
        Some(age) => age,
        None => return Err(NitroError::TimestampInFuture),
    };
    if age.exceeds(max_age) {
        return Err(NitroError::Stale);
    }
    Ok(())
}

/// Whether the PCR at `index` was measured and its value is one of those allowed.
pub open spec fn pcr_approved(
    measured: Map<usize, Seq<u8>>,
    allowed: Map<usize, Seq<Seq<u8>>>,
    index: usize,
) -> bool {
    measured.contains_key(index) && allowed[index].contains(measured[index])
}

/// Whether `index` is the lowest PCR of the allowlist that is not approved.
pub open spec fn first_unapproved(
    measured: Map<usize, Seq<u8>>,
    allowed: Map<usize, Seq<Seq<u8>>>,
    index: usize,
) -> bool {
    &&& allowed.contains_key(index)
    &&& !pcr_approved(measured, allowed, index)
    &&& forall|lower: usize|
        lower < index && #[trigger] allowed.contains_key(lower) ==> pcr_approved(
            measured,
            allowed,
            lower,
        )
}

/// The verdict on the measured PCRs. The lowest PCR that is not approved decides which error it
/// is.
pub open spec fn pcr_outcome(
    measured: Map<usize, Seq<u8>>,
    allowed: Map<usize, Seq<Seq<u8>>>,
) -> Result<(), NitroError> {
    if measured.dom().len() != allowed.dom().len() {
        Err(NitroError::PcrSetMismatch)
    } else if exists|index: usize| first_unapproved(measured, allowed, index) {
        let index = choose|index: usize| first_unapproved(measured, allowed, index);
        if measured.contains_key(index) {
            Err(NitroError::PcrMismatch(index))
        } else {
            Err(NitroError::PcrSetMismatch)
        }
    } else {
        Ok(())
    }
}

/// Whether one of the `allowed` values is `actual`.
fn contains_value(allowed: &Vec<Vec<u8>>, actual: &[u8]) -> (found: bool)
    ensures
        found == crate::bytes::byte_strings(allowed@).contains(actual@),
{
    let mut i: usize = 0;
    while i < allowed.len()
        invariant
            i <= allowed@.len(),
            forall|j: int| 0 <= j < i ==> (#[trigger] allowed@[j])@ != actual@,
        decreases allowed@.len() - i,
    {
        if bytes_equal(allowed[i].as_slice(), actual) {
            assert(crate::bytes::byte_strings(allowed@)[i as int] == actual@);
            return true;
        }
        i = i + 1;
    }
    false
}

/// Verifies that the document measures exactly the PCRs that the policy names, each with a value
/// that the policy allows.
pub fn verify_pcrs(document: &AttestationDoc, policy: &NitroPolicy) -> (outcome: Result<
    (),
    NitroError,
>)
    ensures
        outcome == pcr_outcome(document@.pcrs, policy@.pcrs),
{
    broadcast use vstd::laws_cmp::group_laws_cmp;

    let ghost measured = document@.pcrs;
    let ghost allowed = policy@.pcrs;
    assert(measured.dom() =~= document.pcrs@.dom());
    assert(allowed.dom() =~= policy.pcrs@.dom());
    if document.pcrs.len() != policy.pcrs.len() {
        return Err(NitroError::PcrSetMismatch);
    }
    let in_order = policy.pcrs.iter();
    proof {
        let listed = in_order.remaining();
        let keys = listed.map_values(|entry: (&usize, &Vec<Vec<u8>>)| *entry.0);
        assert(vstd::std_specs::btree::increasing_seq(keys));
        assert forall|i: int, j: int| 0 <= i < j < listed.len() implies *(
        #[trigger] listed[i]).0 < *(#[trigger] listed[j]).0 by {
            assert(keys[i].cmp_spec(&keys[j]) is Less);
        }
    }
    for (index, values) in entries: in_order
        invariant
            measured == document@.pcrs,
            allowed == policy@.pcrs,
            measured.dom().len() == allowed.dom().len(),
            forall|i: int|
                0 <= i < entries.index() ==> pcr_approved(
                    measured,
                    allowed,
                    *(#[trigger] entries.seq()[i]).0,
                ),
            forall|i: int|
                0 <= i < entries.seq().len() ==> policy.pcrs@.contains_key(
                    *(#[trigger] entries.seq()[i]).0,
                ) && policy.pcrs@[*entries.seq()[i].0] == *entries.seq()[i].1,
            forall|i: int, j: int|
                0 <= i < j < entries.seq().len() ==> *(#[trigger] entries.seq()[i]).0 < *(
                #[trigger] entries.seq()[j]).0,
            forall|k: usize| #[trigger]
                allowed.contains_key(k) ==> exists|i: int|
                    0 <= i < entries.seq().len() && *(#[trigger] entries.seq()[i]).0 == k,
    {
        proof {
            let at = entries.index();
            assert(entries.seq()[at] == (index, values));
            if !pcr_approved(measured, allowed, *index) {
                assert forall|lower: usize| lower < *index && #[trigger] allowed.contains_key(
                    lower,
                ) implies pcr_approved(measured, allowed, lower) by {
                    let i = choose|i: int|
                        0 <= i < entries.seq().len() && *(#[trigger] entries.seq()[i]).0 == lower;
                    assert(i < at);
                }
                assert(first_unapproved(measured, allowed, *index));
            }
        }
        let actual = match document.pcrs.get(index) {
            Some(actual) => actual,
            None => return Err(NitroError::PcrSetMismatch),
        };
        if !contains_value(values, actual.as_slice()) {
            return Err(NitroError::PcrMismatch(*index));
        }
    }
    Ok(())
}

/// The verdict on the claims of an authentic document, where `user_data` is the user data that
/// the binding calls for. The first claim that fails decides.
pub open spec fn claims_outcome(
    document: AttestationDocView,
    policy: PolicyView,
    binding: BindingView,
    user_data: Seq<u8>,
    now: int,
) -> Result<(), NitroError> {
    if document.nonce != Some(binding.nonce) {
        Err(NitroError::NonceMismatch)
    } else if document.public_key != Some(binding.tls_spki) {
        Err(NitroError::SpkiMismatch)
    } else if document.user_data != Some(user_data) {
        Err(NitroError::UserDataMismatch)
    } else if policy.module_id is Some && policy.module_id != Some(document.module_id) {
        Err(NitroError::ModuleIdMismatch)
    } else if age_outcome(document.timestamp, policy.max_age_nanos, now) is Err {
        age_outcome(document.timestamp, policy.max_age_nanos, now)
    } else {
        pcr_outcome(document.pcrs, policy.pcrs)
    }
}

/// Verifies what an authentic document claims: that it is for this connection, from the expected
/// module, fresh, and measures approved code. `user_data` is the user data that the binding
/// calls for.
pub fn verify_claims(
    document: &AttestationDoc,
    policy: &NitroPolicy,
    binding: &NitroBinding<'_>,
    user_data: &[u8],
    now: SystemTime,
) -> (outcome: Result<(), NitroError>)
    ensures
        outcome == claims_outcome(document@, policy@, binding@, user_data@, now.unix_nanos()),
{
    if !is_exactly(&document.nonce, binding.nonce) {
        return Err(NitroError::NonceMismatch);
    }
    if !is_exactly(&document.public_key, binding.tls_spki) {
        return Err(NitroError::SpkiMismatch);
    }
    if !is_exactly(&document.user_data, user_data) {
        return Err(NitroError::UserDataMismatch);
    }
    if let Some(module_id) = &policy.module_id {
        if document.module_id != *module_id {
            return Err(NitroError::ModuleIdMismatch);
        }
    }
    match verify_age(document.timestamp, policy.max_age, now) {
        Err(error) => return Err(error),
        Ok(()) => {},
    }
    verify_pcrs(document, policy)
}

} // verus!
