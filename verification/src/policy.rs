//! What a deployment accepts as evidence.

use crate::error::NitroError;
use crate::time::Duration;
use std::collections::BTreeMap;
use vstd::prelude::*;

verus! {

/// Complete allowlist for a particular enclave deployment.
///
/// Every locked PCR in the document must be present, and every configured PCR must be
/// present in the document. More than one value per PCR supports a controlled rollout, but
/// never turns an omitted PCR into a wildcard.
#[derive(Debug)]
pub struct NitroPolicy {
    /// The values allowed for each PCR.
    pub pcrs: BTreeMap<usize, Vec<Vec<u8>>>,
    /// How old a document may be.
    pub max_age: Duration,
    /// The module that documents must come from, if only one is accepted.
    pub module_id: Option<String>,
}

/// A policy as plain values.
#[verifier::ext_equal]
pub struct PolicyView {
    pub pcrs: Map<usize, Seq<Seq<u8>>>,
    pub max_age_nanos: int,
    pub module_id: Option<Seq<char>>,
}

/// The allowed values behind a map of byte vectors.
pub open spec fn allowed_values(pcrs: Map<usize, Vec<Vec<u8>>>) -> Map<usize, Seq<Seq<u8>>> {
    pcrs.map_values(|values: Vec<Vec<u8>>| crate::bytes::byte_strings(values@))
}

/// Whether an allowlist names at least one PCR and at least one value for each that it names.
pub open spec fn is_complete(allowed: Map<usize, Seq<Seq<u8>>>) -> bool {
    &&& !allowed.dom().is_empty()
    &&& forall|index: usize| #[trigger] allowed.contains_key(index) ==> allowed[index].len() > 0
}

impl View for NitroPolicy {
    type V = PolicyView;

    open spec fn view(&self) -> PolicyView {
        PolicyView {
            pcrs: allowed_values(self.pcrs@),
            max_age_nanos: self.max_age.as_nanos(),
            module_id: match self.module_id {
                Some(id) => Some(id@),
                None => None,
            },
        }
    }
}

impl Clone for NitroPolicy {
    /// The same policy.
    fn clone(&self) -> (copy: NitroPolicy)
        ensures
            copy@ == self@,
    {
        let module_id: Option<String> = match &self.module_id {
            Some(id) => Some(id.clone()),
            None => None,
        };
        NitroPolicy { pcrs: self.pcrs.clone(), max_age: self.max_age, module_id }
    }
}

impl Default for NitroPolicy {
    /// The policy that names nothing. It is not complete, so nothing passes it.
    fn default() -> (policy: NitroPolicy)
        ensures
            policy@.pcrs == Map::<usize, Seq<Seq<u8>>>::empty(),
            policy@.max_age_nanos == 0,
            policy@.module_id is None,
    {
        let policy = NitroPolicy {
            pcrs: BTreeMap::new(),
            max_age: Duration::default(),
            module_id: None,
        };
        assert(policy@.pcrs =~= Map::<usize, Seq<Seq<u8>>>::empty());
        policy
    }
}

impl NitroPolicy {
    /// Reject policies that would silently accept a document without PCRs.
    pub fn validate(&self) -> (outcome: Result<(), NitroError>)
        ensures
            outcome == (if is_complete(self@.pcrs) {
                Ok::<(), NitroError>(())
            } else {
                Err(NitroError::IncompletePolicy)
            }),
    {
        broadcast use vstd::laws_cmp::group_laws_cmp;

        if self.pcrs.is_empty() {
            assert(self@.pcrs.dom() =~= self.pcrs@.dom());
            return Err(NitroError::IncompletePolicy);
        }
        for (index, values) in entries: self.pcrs.iter()
            invariant
                forall|i: int|
                    0 <= i < entries.index() ==> (#[trigger] entries.seq()[i]).1@.len() > 0,
                forall|i: int|
                    0 <= i < entries.seq().len() ==> self.pcrs@.contains_key(
                        *(#[trigger] entries.seq()[i]).0,
                    ) && self.pcrs@[*entries.seq()[i].0] == *entries.seq()[i].1,
        {
            if values.len() == 0 {
                assert(entries.seq()[entries.index()] == (index, values));
                assert(self@.pcrs.contains_key(*index) && self@.pcrs[*index].len() == 0);
                return Err(NitroError::IncompletePolicy);
            }
        }
        Ok(())
    }
}

} // verus!
