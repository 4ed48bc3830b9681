//! The marker store: which marker keys are present.
//!
//! A marker is a boolean fact. The store is the mapping from marker key to
//! presence, and nothing else says whether a feature is enabled.

use vstd::prelude::*;
use crate::feature::MarkerKey;
use crate::feature::KEY_COUNT;

verus! {

/// Why a marker could not be created or removed.
#[derive(Clone, Copy, Debug, PartialEq, Eq, Structural)]
pub enum StoreFault {
    /// There is no marker to remove.
    NotFound,
    /// The storage refused the operation for another reason.
    Other,
}

/// The set of markers that are present, held in memory.
#[derive(Clone, Copy, Debug)]
pub struct MarkerStore {
    present: [bool; KEY_COUNT],
}

impl View for MarkerStore {
    type V = Set<MarkerKey>;

    closed spec fn view(&self) -> Set<MarkerKey> {
        Set::new(|key: MarkerKey| self.present@[key.spec_index() as int])
    }
}

impl MarkerStore {
    /// A store with no marker present.
    pub fn new() -> (store: MarkerStore)
        ensures
            store@ == Set::<MarkerKey>::empty(),
    {
        let present: [bool; KEY_COUNT] = [false; KEY_COUNT];
        let store = MarkerStore { present };
        assert(store@ =~= Set::<MarkerKey>::empty());
        store
    }

    /// Whether the marker of `key` is present.
    pub fn is_present(&self, key: MarkerKey) -> (present: bool)
        ensures
            present == self@.contains(key),
    {
        self.present[key.index()]
    }

    /// Persists the marker of `key`. A marker that is already present stays
    /// present; no other marker changes. In memory this never fails.
    pub fn create(&mut self, key: MarkerKey) -> (result: Result<(), StoreFault>)
        ensures
            result is Ok,
            final(self)@ == old(self)@.insert(key),
            final(self)@.contains(key),
    {
        let index = key.index();
        self.present[index] = true;
        proof {
            assert forall|other: MarkerKey|
                final(self)@.contains(other) <==> old(self)@.insert(key).contains(other) by {
                if other.spec_index() == key.spec_index() {
                    crate::feature::lemma_index_injective(other, key);
                }
            }
            assert(final(self)@ =~= old(self)@.insert(key));
        }
        Ok(())
    }

    /// Deletes the marker of `key`. Fails with `NotFound`, changing nothing,
    /// exactly when the marker is absent; no other marker changes.
    pub fn remove(&mut self, key: MarkerKey) -> (result: Result<(), StoreFault>)
        ensures
            old(self)@.contains(key) ==> result is Ok,
            !old(self)@.contains(key) ==> result == Err::<(), StoreFault>(StoreFault::NotFound),
            final(self)@ == old(self)@.remove(key),
            !final(self)@.contains(key),
    {
        if !self.present[key.index()] {
            assert(final(self)@ =~= old(self)@.remove(key));
            return Err(StoreFault::NotFound);
        }
        let index = key.index();
        self.present[index] = false;
        proof {
            assert forall|other: MarkerKey|
                final(self)@.contains(other) <==> old(self)@.remove(key).contains(other) by {
                if other.spec_index() == key.spec_index() {
                    crate::feature::lemma_index_injective(other, key);
                }
            }
            assert(final(self)@ =~= old(self)@.remove(key));
        }
        Ok(())
    }
}

/// The round trip: a marker is present once created and absent once
/// removed, whatever the store held before, and neither operation changes
/// the presence of another key.
pub proof fn lemma_round_trip(markers: Set<MarkerKey>, key: MarkerKey, other: MarkerKey)
    ensures
        markers.insert(key).contains(key),
        !markers.remove(key).contains(key),
        !markers.insert(key).remove(key).contains(key),
        markers.remove(key).insert(key).contains(key),
        other != key ==> markers.insert(key).contains(other) == markers.contains(other),
        other != key ==> markers.remove(key).contains(other) == markers.contains(other),
{
}

} // verus!
