//! The storage of the reserve and the operations that read and write it.

use crate::janitor::JanitorState;
use std::collections::HashMap;
use std::hash::Hash;
use vstd::prelude::*;
use vstd::std_specs::hash::*;
use vstd::std_specs::iter::IteratorSpec;

verus! {

broadcast use vstd::std_specs::hash::group_hash_axioms;

/// A cache of values of type `T` under keys of type `PK`, with a soft upper
/// bound on the number of entries.
///
/// The operations on the entries ask of the key type that it hashes and
/// compares as `obeys_key_model` describes.
pub struct CacheReserve<PK, T> where PK: Eq + Hash {
    size: usize,
    storage: HashMap<PK, T>,
    janitor: JanitorState,
}

impl<PK, T> View for CacheReserve<PK, T> where PK: Eq + Hash {
    type V = Map<PK, T>;

    /// The entries of the reserve.
    closed spec fn view(&self) -> Map<PK, T> {
        self.storage@
    }
}

impl<PK, T> CacheReserve<PK, T> where PK: Eq + Hash + Copy {
    /// The soft upper bound on the number of entries.
    pub closed spec fn spec_capacity(&self) -> usize {
        self.size
    }

    /// The state of the janitor.
    pub closed spec fn spec_janitor(&self) -> JanitorState {
        self.janitor
    }

    /// A reserve holds finitely many entries.
    pub proof fn lemma_entries_finite(&self)
        ensures
            self@.dom().finite(),
    {
    }

    /// An empty reserve of the given capacity, whose janitor has not started.
    pub fn const_new(size: usize) -> (reserve: Self)
        ensures
            reserve@ == Map::<PK, T>::empty(),
            reserve.capacity() == size,
            reserve.janitor() == JanitorState::NotStarted,
    {
        CacheReserve { size, storage: HashMap::new(), janitor: JanitorState::NotStarted }
    }

    /// Records the state of the janitor.
    pub(crate) fn mark_janitor(&mut self, state: JanitorState)
        ensures
            final(self).janitor() == state,
            final(self)@ == old(self)@,
            final(self).capacity() == old(self).capacity(),
    {
        self.janitor = state;
    }

    /// Removes every entry.
    pub(crate) fn clear(&mut self)
        ensures
            final(self)@ == Map::<PK, T>::empty(),
            final(self).capacity() == old(self).capacity(),
            final(self).janitor() == old(self).janitor(),
    {
        self.storage.clear();
    }

    /// The soft upper bound on the number of entries.
    #[verifier::when_used_as_spec(spec_capacity)]
    pub fn capacity(&self) -> (capacity: usize)
        ensures
            capacity == self.spec_capacity(),
    {
        self.size
    }

    /// The state of the janitor.
    #[verifier::when_used_as_spec(spec_janitor)]
    pub fn janitor(&self) -> (state: JanitorState)
        ensures
            state == self.spec_janitor(),
    {
        self.janitor
    }

    /// Inserts the entry, or overwrites the value that the key had.
    pub fn set(&mut self, key: PK, value: T)
        requires
            obeys_key_model::<PK>(),
        ensures
            final(self)@ == old(self)@.insert(key, value),
            final(self).capacity() == old(self).capacity(),
            final(self).janitor() == old(self).janitor(),
    {
        self.storage.insert(key, value);
    }

    /// Overwrites the value of a key that is present; an absent key stays
    /// absent, and the value is dropped.
    pub fn update(&mut self, key: PK, value: T)
        requires
            obeys_key_model::<PK>(),
        ensures
            final(self)@ == updated(old(self)@, key, value),
            old(self)@.contains_key(key) ==> final(self)@ == old(self)@.insert(key, value),
            !old(self)@.contains_key(key) ==> final(self)@ == old(self)@,
            final(self)@.dom() == old(self)@.dom(),
            final(self)@.len() == old(self)@.len(),
            final(self).capacity() == old(self).capacity(),
            final(self).janitor() == old(self).janitor(),
    {
        if self.storage.contains_key(&key) {
            self.storage.insert(key, value);
        }
    }

    /// Removes the entry of a key and hands back the value that it had.
    pub fn ignore(&mut self, pk: PK) -> (removed: Option<T>)
        requires
            obeys_key_model::<PK>(),
        ensures
            final(self)@ == old(self)@.remove(pk),
            removed == old(self)@.get(pk),
            !final(self)@.contains_key(pk),
            !old(self)@.contains_key(pk) ==> final(self)@ == old(self)@,
            final(self).capacity() == old(self).capacity(),
            final(self).janitor() == old(self).janitor(),
    {
        let removed = self.storage.remove(&pk);
        removed
    }

    /// The value that the key has in the reserve.
    pub fn get_from_storage(&self, pk: &PK) -> (found: Option<&T>)
        requires
            obeys_key_model::<PK>(),
        ensures
            value_of(found) == self@.get(*pk),
    {
        self.storage.get(pk)
    }

    /// Whether the key has an entry.
    pub fn contains_key(&self, pk: &PK) -> (present: bool)
        requires
            obeys_key_model::<PK>(),
        ensures
            present == self@.contains_key(*pk),
    {
        self.storage.contains_key(pk)
    }

    /// The number of entries.
    pub fn len(&self) -> (count: usize)
        requires
            obeys_key_model::<PK>(),
        ensures
            count == self@.len(),
            self@.dom().finite(),
    {
        self.storage.len()
    }

    /// Removes `count` entries, or all of them where there are fewer, taken
    /// in the order in which the map hands out its keys.
    pub fn random_removal(&mut self, count: usize)
        requires
            obeys_key_model::<PK>(),
        ensures
            evicted(old(self)@, final(self)@, count as nat),
            final(self).capacity() == old(self).capacity(),
            final(self).janitor() == old(self).janitor(),
    {
        let mut victims: Vec<PK> = Vec::new();
        let ghost before = self.storage@;
        for key in it: self.storage.keys()
            invariant
                obeys_key_model::<PK>(),
                before == self.storage@,
                victims@.len() == vstd::math::min(it.index(), count as int),
                forall|j: int| 0 <= j < victims@.len() ==> victims@[j] == *it.seq()[j],
        {
            if victims.len() < count {
                victims.push(*key);
            }
        }
        assert forall|j: int| 0 <= j < victims@.len() implies before.contains_key(
            #[trigger] victims@[j],
        ) by {
            let handed_out = self.storage.keys().remaining().unref();
            assert(handed_out[j] == victims@[j]);
            assert(handed_out.to_set().contains(handed_out[j]));
        }
        let mut done: usize = 0;
        while done < victims.len()
            invariant
                obeys_key_model::<PK>(),
                done <= victims@.len(),
                victims@.no_duplicates(),
                self.storage@.submap_of(before),
                self.storage@.len() + done == before.len(),
                forall|j: int|
                    done <= j < victims@.len() ==> self.storage@.contains_key(
                        #[trigger] victims@[j],
                    ),
                self.size == old(self).size,
                self.janitor == old(self).janitor,
            decreases victims@.len() - done,
        {
            self.storage.remove(&victims[done]);
            done = done + 1;
        }
    }
}

/// The entries after a conditional overwrite: a key that is present takes
/// the new value, an absent key is not brought in.
pub open spec fn updated<PK, T>(entries: Map<PK, T>, key: PK, value: T) -> Map<PK, T> {
    if entries.contains_key(key) {
        entries.insert(key, value)
    } else {
        entries
    }
}

/// The value behind the reference that a lookup hands out.
pub open spec fn value_of<T>(found: Option<&T>) -> Option<T> {
    match found {
        Some(v) => Some(*v),
        None => None,
    }
}

/// `after` is `before` without `count` of its entries, or without any entry
/// where `before` has no more than `count`; which entries left is open.
pub open spec fn evicted<PK, T>(before: Map<PK, T>, after: Map<PK, T>, count: nat) -> bool {
    &&& after.submap_of(before)
    &&& after.dom().finite()
    &&& after.len() + vstd::math::min(count as int, before.len() as int) == before.len()
}

} // verus!
