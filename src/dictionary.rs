//! The dictionaries a writer has emitted, and whether one may be redefined.
use std::collections::HashMap;

use vstd::prelude::*;
use vstd::std_specs::cmp::PartialEqSpec;

verus! {

broadcast use vstd::std_specs::hash::group_hash_axioms;

/// An attempt to give an already written dictionary id other values.
#[derive(Clone, Copy, Debug, PartialEq, Eq, Structural)]
pub struct ReplacementRejected {
    pub id: i64,
}

/// The dictionaries written so far, by id, and the replace policy.
#[derive(Debug)]
pub struct DictionaryTracker<V> {
    pub dictionaries: HashMap<i64, V>,
    /// When set, a written id never gets other values: files allow a single
    /// dictionary per id.
    pub cannot_replace: bool,
}

/// What offering `values` under `id` gives: `Ok(true)` when they must be
/// written (and are recorded), `Ok(false)` when the same values are already
/// written, an error when the policy forbids replacing them.
pub open spec fn insert_outcome<V: PartialEq>(
    dictionaries: Map<i64, V>,
    cannot_replace: bool,
    id: i64,
    values: V,
) -> Result<bool, ReplacementRejected> {
    if dictionaries.contains_key(id) && dictionaries[id].eq_spec(&values) {
        Ok(false)
    } else if dictionaries.contains_key(id) && cannot_replace {
        Err(ReplacementRejected { id })
    } else {
        Ok(true)
    }
}

impl<V: PartialEq> DictionaryTracker<V> {
    /// A tracker for dictionaries that are already on disk: none of them may
    /// be replaced.
    pub fn preloaded(dictionaries: HashMap<i64, V>) -> (r: Self)
        ensures
            r.dictionaries@ == dictionaries@,
            r.cannot_replace,
    {
        DictionaryTracker { dictionaries, cannot_replace: true }
    }

    /// Offers `values` for dictionary `id`; see [`insert_outcome`].
    pub fn insert(&mut self, id: i64, values: V) -> (r: Result<bool, ReplacementRejected>)
        requires
            V::obeys_eq_spec(),
        ensures
            r == insert_outcome(old(self).dictionaries@, old(self).cannot_replace, id, values),
            final(self).cannot_replace == old(self).cannot_replace,
            final(self).dictionaries@ == if r == Ok::<bool, ReplacementRejected>(true) {
                old(self).dictionaries@.insert(id, values)
            } else {
                old(self).dictionaries@
            },
    {
        let mut known = false;
        match self.dictionaries.get(&id) {
            Some(last) => {
                if last.eq(&values) {
                    return Ok(false);
                }
                known = true;
            },
            None => {},
        }
        if known && self.cannot_replace {
            return Err(ReplacementRejected { id });
        }
        self.dictionaries.insert(id, values);
        Ok(true)
    }
}

} // verus!
