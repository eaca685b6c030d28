//! The reaction to change events of the upstream store, which keeps the
//! entries of the reserve in step with it.
//!
//! An event carries an action and an encoded record. `listener` settles what
//! the event asks of the reserve; `apply_reaction` carries that out once the
//! caller holds the reserve for writing. A caller that sees the shutdown
//! signal first drops the reaction, and the reserve stays as it is.

use crate::reserve::{updated, CacheReserve};
use std::hash::Hash;
use vstd::prelude::*;
use vstd::std_specs::convert::FromSpec;
use vstd::std_specs::hash::*;

verus! {

/// What happened to a record of the upstream store.
#[derive(Clone, Copy, Debug, PartialEq, Eq, Structural)]
pub enum ChangeAction {
    /// The record was created.
    Insert,
    /// The record was changed.
    Update,
    /// The record was removed.
    Delete,
}

/// What a change event asks of the reserve.
pub enum Reaction<PK, T, E> {
    /// Nothing: the event does not concern the reserve.
    Discard,
    /// Nothing but a diagnostic: the record could not be decoded.
    Report(E),
    /// Overwrite the value of `key`, if the reserve holds that key.
    Update { key: PK, value: T },
    /// Remove the entry of `key`.
    Remove { key: PK },
}

/// Whether `reaction` is what an event with `action` asks for when its
/// record decodes as `decoded`.
///
/// A record that was created upstream cannot be in the reserve yet, so an
/// insert is discarded whatever it carries. A record that does not decode
/// is reported. Otherwise the key is derived from the record: from a
/// clone of it for an update, which stores the record itself, and from the
/// record for a delete.
pub open spec fn answers<PK: From<T>, T: Clone, E>(
    action: ChangeAction,
    decoded: Result<T, E>,
    reaction: Reaction<PK, T, E>,
) -> bool {
    match action {
        ChangeAction::Insert => reaction is Discard,
        ChangeAction::Update => match decoded {
            Err(failure) => reaction == Reaction::<PK, T, E>::Report(failure),
            Ok(record) => {
                &&& reaction matches Reaction::Update { key, value }
                &&& value == record
                &&& PK::obeys_from_spec() ==> exists|copy: T|
                    cloned(record, copy) && key == PK::from_spec(copy)
            },
        },
        ChangeAction::Delete => match decoded {
            Err(failure) => reaction == Reaction::<PK, T, E>::Report(failure),
            Ok(record) => {
                &&& reaction matches Reaction::Remove { key }
                &&& PK::obeys_from_spec() ==> key == PK::from_spec(record)
            },
        },
    }
}

/// The entries once `reaction` was carried out.
pub open spec fn reacted<PK, T, E>(entries: Map<PK, T>, reaction: Reaction<PK, T, E>) -> Map<PK, T> {
    match reaction {
        Reaction::Discard => entries,
        Reaction::Report(_) => entries,
        Reaction::Update { key, value } => updated(entries, key, value),
        Reaction::Remove { key } => entries.remove(key),
    }
}

impl<PK, T> CacheReserve<PK, T> where PK: Eq + Hash + Copy {
    /// Settles what a change event asks of the reserve. `decode` turns the
    /// payload of the event into a record; it is called once, and not at
    /// all for an insert.
    pub fn listener<F, E>(action: ChangeAction, decode: F) -> (reaction: Reaction<PK, T, E>) where
        PK: From<T>,
        T: Clone,
        F: FnOnce() -> Result<T, E>,

        requires
            action != ChangeAction::Insert ==> call_requires(decode, ()),
        ensures
            action == ChangeAction::Insert ==> reaction is Discard,
            action != ChangeAction::Insert ==> exists|decoded: Result<T, E>|
                call_ensures(decode, (), decoded) && answers(action, decoded, reaction),
    {
        match action {
            ChangeAction::Insert => Reaction::Discard,
            ChangeAction::Update => {
                let decoded = decode();
                let ghost outcome = decoded;
                let reaction = match decoded {
                    Ok(record) => {
                        let copy = record.clone();
                        Reaction::Update { key: PK::from(copy), value: record }
                    },
                    Err(failure) => Reaction::Report(failure),
                };
                assert(answers(action, outcome, reaction));
                reaction
            },
            ChangeAction::Delete => {
                let decoded = decode();
                let ghost outcome = decoded;
                let reaction = match decoded {
                    Ok(record) => Reaction::Remove { key: PK::from(record) },
                    Err(failure) => Reaction::Report(failure),
                };
                assert(answers(action, outcome, reaction));
                reaction
            },
        }
    }

    /// Carries out a reaction on the reserve.
    pub fn apply_reaction<E>(&mut self, reaction: Reaction<PK, T, E>)
        requires
            obeys_key_model::<PK>(),
        ensures
            final(self)@ == reacted(old(self)@, reaction),
            final(self).capacity() == old(self).capacity(),
            final(self).janitor() == old(self).janitor(),
    {
        match reaction {
            Reaction::Discard => {},
            Reaction::Report(_) => {},
            Reaction::Update { key, value } => {
                self.update(key, value);
            },
            Reaction::Remove { key } => {
                let _ = self.ignore(key);
            },
        }
    }
}

/// An insert never alters the entries, whatever its payload holds.
pub proof fn lemma_insert_alters_nothing<PK: From<T>, T: Clone, E>(
    entries: Map<PK, T>,
    decoded: Result<T, E>,
    reaction: Reaction<PK, T, E>,
)
    requires
        answers(ChangeAction::Insert, decoded, reaction),
    ensures
        reacted(entries, reaction) == entries,
{
}

/// An event whose payload does not decode leaves the entries as they were,
/// and is answered with the report of the failure.
pub proof fn lemma_undecodable_alters_nothing<PK: From<T>, T: Clone, E>(
    entries: Map<PK, T>,
    action: ChangeAction,
    failure: E,
    reaction: Reaction<PK, T, E>,
)
    requires
        answers(action, Err(failure), reaction),
    ensures
        reacted(entries, reaction) == entries,
        action != ChangeAction::Insert ==> reaction == Reaction::<PK, T, E>::Report(failure),
{
}

/// An update whose record decodes overwrites the value of the record's key
/// with the record where the reserve holds that key, and changes nothing
/// where it does not; this for a record type whose clones equal what they
/// were cloned from.
pub proof fn lemma_update_overwrites_key<PK: From<T>, T: Clone, E>(
    entries: Map<PK, T>,
    record: T,
    reaction: Reaction<PK, T, E>,
)
    requires
        PK::obeys_from_spec(),
        forall|copy: T| cloned(record, copy) ==> copy == record,
        answers(ChangeAction::Update, Ok(record), reaction),
    ensures
        reacted(entries, reaction) == updated(entries, PK::from_spec(record), record),
        reacted(entries, reaction).dom() == entries.dom(),
{
}

/// A delete whose record decodes removes the key of that record, and no
/// other entry.
pub proof fn lemma_delete_removes_key<PK: From<T>, T: Clone, E>(
    entries: Map<PK, T>,
    record: T,
    reaction: Reaction<PK, T, E>,
)
    requires
        PK::obeys_from_spec(),
        answers(ChangeAction::Delete, Ok(record), reaction),
    ensures
        reacted(entries, reaction) == entries.remove(PK::from_spec(record)),
        !reacted(entries, reaction).contains_key(PK::from_spec(record)),
{
}

/// No reaction brings a key into the reserve that was not there.
pub proof fn lemma_reaction_adds_no_key<PK, T, E>(entries: Map<PK, T>, reaction: Reaction<PK, T, E>)
    ensures
        reacted(entries, reaction).dom().subset_of(entries.dom()),
{
}

} // verus!
