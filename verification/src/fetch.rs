//! Filling the reserve from the upstream store when a key is missing.

use crate::reserve::{value_of, CacheReserve};
use std::hash::Hash;
use vstd::prelude::*;
use vstd::std_specs::hash::*;

verus! {

/// A key that can ask the upstream store for its own value.
///
/// Nothing is promised of what `fetch` returns: the reserve takes any
/// outcome, and says in its own contracts what it does with each.
pub trait Fetchable<T> {
    /// What a fetch that failed reports.
    type Error;

    /// The value that the upstream store has for this key, `None` where it
    /// has none, or the failure of the attempt.
    fn fetch(&self) -> Result<Option<T>, Self::Error>;
}

/// The entries after the outcome of a fetch for `pk` was taken in: a value
/// that was fetched is stored under `pk`, anything else changes nothing.
pub open spec fn after_fetch<PK, T, E>(
    entries: Map<PK, T>,
    pk: PK,
    fetched: Result<Option<T>, E>,
) -> Map<PK, T> {
    match fetched {
        Ok(Some(value)) => entries.insert(pk, value),
        _ => entries,
    }
}

/// What the caller is told once the outcome of a fetch for `pk` was taken in
/// and the entries are `entries`: the failure of the fetch, else the value
/// that `pk` has by now, if any.
pub open spec fn told<PK, T, E>(
    entries: Map<PK, T>,
    pk: PK,
    fetched: Result<Option<T>, E>,
    found: Result<Option<&T>, E>,
) -> bool {
    match fetched {
        Err(failure) => found == Err::<Option<&T>, E>(failure),
        Ok(_) => found matches Ok(hit) && value_of(hit) == entries.get(pk),
    }
}

impl<PK, T> CacheReserve<PK, T> where PK: Eq + Hash + Copy {
    /// Takes in the outcome of a fetch for `pk`: stores a fetched value,
    /// passes a failure on, and reports the value that `pk` then has.
    pub fn store_fetched<E>(&mut self, pk: PK, fetched: Result<Option<T>, E>) -> (found: Result<
        Option<&T>,
        E,
    >)
        requires
            obeys_key_model::<PK>(),
        ensures
            final(self)@ == after_fetch(old(self)@, pk, fetched),
            told(final(self)@, pk, fetched, found),
            fetched matches Ok(Some(value)) ==> final(self)@.contains_key(pk) && final(self)@[pk]
                == value,
            final(self).capacity() == old(self).capacity(),
            final(self).janitor() == old(self).janitor(),
    {
        match fetched {
            Ok(Some(value)) => {
                self.set(pk, value);
            },
            Ok(None) => {},
            Err(failure) => {
                return Err(failure);
            },
        }
        Ok(self.get_from_storage(&pk))
    }

    /// The value of `pk`, fetched from upstream and stored where the reserve
    /// does not hold it yet. A key that the reserve holds is not fetched; a
    /// fetch that finds nothing leaves no trace, so the next call fetches
    /// again.
    pub fn get_with(&mut self, pk: PK) -> (found: Result<Option<&T>, PK::Error>) where
        PK: Fetchable<T>,

        requires
            obeys_key_model::<PK>(),
        ensures
            old(self)@.contains_key(pk) ==> {
                &&& final(self)@ == old(self)@
                &&& found matches Ok(hit) && value_of(hit) == Some(old(self)@[pk])
            },
            !old(self)@.contains_key(pk) ==> exists|fetched: Result<Option<T>, PK::Error>|
                {
                    &&& call_ensures(PK::fetch, (&pk,), fetched)
                    &&& final(self)@ == after_fetch(old(self)@, pk, fetched)
                    &&& told(final(self)@, pk, fetched, found)
                },
            final(self).capacity() == old(self).capacity(),
            final(self).janitor() == old(self).janitor(),
    {
        if self.contains_key(&pk) {
            Ok(self.get_from_storage(&pk))
        } else {
            let fetched = pk.fetch();
            self.store_fetched(pk, fetched)
        }
    }
}

/// A value that a fetch returned is in the reserve afterwards, under the key
/// that was asked for, and it is what the caller is told; every other entry
/// is as it was.
pub proof fn lemma_fetched_value_is_cached<PK, T, E>(
    entries: Map<PK, T>,
    pk: PK,
    value: T,
    found: Result<Option<&T>, E>,
)
    requires
        told(after_fetch(entries, pk, Ok::<Option<T>, E>(Some(value))), pk, Ok(Some(value)), found),
    ensures
        after_fetch(entries, pk, Ok::<Option<T>, E>(Some(value))).contains_key(pk),
        after_fetch(entries, pk, Ok::<Option<T>, E>(Some(value)))[pk] == value,
        found matches Ok(hit) && value_of(hit) == Some(value),
        forall|other: PK|
            other != pk ==> after_fetch(entries, pk, Ok::<Option<T>, E>(Some(value))).get(other)
                == entries.get(other),
{
}

/// A fetch that found nothing or failed leaves no trace in the reserve, so
/// nothing is remembered of a miss.
pub proof fn lemma_miss_is_not_remembered<PK, T, E>(entries: Map<PK, T>, pk: PK, failure: E)
    ensures
        after_fetch(entries, pk, Ok::<Option<T>, E>(None)) == entries,
        after_fetch(entries, pk, Err::<Option<T>, E>(failure)) == entries,
{
}

} // verus!
