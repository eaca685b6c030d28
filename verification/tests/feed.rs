use cache_reserve::CacheReserve;
use cache_reserve::ChangeAction;
use cache_reserve::Reaction;
use serde_json::Value;
use std::cell::Cell;

/// A key that is derived from a record: the first field of the record.
#[derive(Clone, Copy, Debug, PartialEq, Eq, Hash)]
struct Id(u64);

impl From<(u64, String)> for Id {
    fn from(record: (u64, String)) -> Id {
        Id(record.0)
    }
}

type Record = (u64, String);

fn encoded(id: u64, name: &str) -> Value {
    Value::Array(vec![Value::from(id), Value::from(name)])
}

fn decoded(payload: Value) -> Result<Record, String> {
    serde_json::from_value::<Record>(payload).map_err(|failure| failure.to_string())
}

fn stocked() -> CacheReserve<Id, Record> {
    let mut reserve = CacheReserve::const_new(8);
    reserve.set(Id(1), (1, "one".to_string()));
    reserve.set(Id(2), (2, "two".to_string()));
    reserve
}

fn settle(action: ChangeAction, payload: Value) -> Reaction<Id, Record, String> {
    CacheReserve::<Id, Record>::listener(action, || decoded(payload))
}

#[test]
fn insert_is_discarded_without_decoding() {
    let calls = Cell::new(0);
    let reaction = CacheReserve::<Id, Record>::listener(ChangeAction::Insert, || {
        calls.set(calls.get() + 1);
        decoded(encoded(1, "uno"))
    });
    assert!(matches!(reaction, Reaction::Discard));
    assert_eq!(calls.get(), 0);
}

#[test]
fn insert_never_alters_the_reserve() {
    let mut reserve = stocked();
    reserve.apply_reaction(settle(ChangeAction::Insert, encoded(1, "uno")));
    reserve.apply_reaction(settle(ChangeAction::Insert, encoded(3, "three")));
    reserve.apply_reaction(settle(ChangeAction::Insert, Value::Null));
    assert_eq!(reserve.len(), 2);
    assert_eq!(reserve.get_from_storage(&Id(1)), Some(&(1, "one".to_string())));
    assert_eq!(reserve.get_from_storage(&Id(2)), Some(&(2, "two".to_string())));
    assert!(!reserve.contains_key(&Id(3)));
}

#[test]
fn update_decodes_once_and_derives_the_key_from_the_record() {
    let calls = Cell::new(0);
    let reaction = CacheReserve::<Id, Record>::listener(ChangeAction::Update, || {
        calls.set(calls.get() + 1);
        decoded(encoded(2, "zwei"))
    });
    assert_eq!(calls.get(), 1);
    match reaction {
        Reaction::Update { key, value } => {
            assert_eq!(key, Id(2));
            assert_eq!(value, (2, "zwei".to_string()));
        },
        _ => panic!("an update that decodes asks for an update"),
    }
}

#[test]
fn update_event_replaces_the_value_of_a_cached_key() {
    let mut reserve = stocked();
    reserve.apply_reaction(settle(ChangeAction::Update, encoded(2, "zwei")));
    assert_eq!(reserve.len(), 2);
    assert_eq!(reserve.get_from_storage(&Id(2)), Some(&(2, "zwei".to_string())));
    assert_eq!(reserve.get_from_storage(&Id(1)), Some(&(1, "one".to_string())));
}

#[test]
fn update_event_for_a_key_never_cached_brings_nothing_in() {
    let mut reserve = stocked();
    reserve.apply_reaction(settle(ChangeAction::Update, encoded(9, "nine")));
    assert_eq!(reserve.len(), 2);
    assert!(!reserve.contains_key(&Id(9)));
}

#[test]
fn delete_decodes_and_derives_the_key_from_the_record() {
    let reaction = settle(ChangeAction::Delete, encoded(1, "one"));
    match reaction {
        Reaction::Remove { key } => assert_eq!(key, Id(1)),
        _ => panic!("a delete that decodes asks for a removal"),
    }
}

#[test]
fn delete_event_for_a_cached_key_leaves_it_absent() {
    let mut reserve = stocked();
    reserve.apply_reaction(settle(ChangeAction::Delete, encoded(1, "whatever it held")));
    assert!(!reserve.contains_key(&Id(1)));
    assert_eq!(reserve.get_from_storage(&Id(1)), None);
    assert_eq!(reserve.len(), 1);
    assert_eq!(reserve.get_from_storage(&Id(2)), Some(&(2, "two".to_string())));
}

#[test]
fn delete_event_for_an_absent_key_changes_nothing() {
    let mut reserve = stocked();
    reserve.apply_reaction(settle(ChangeAction::Delete, encoded(7, "seven")));
    assert_eq!(reserve.len(), 2);
}

#[test]
fn undecodable_update_is_reported_and_leaves_the_reserve_unchanged() {
    let mut reserve = stocked();
    let reaction = settle(ChangeAction::Update, Value::from("not a record"));
    match &reaction {
        Reaction::Report(failure) => assert!(!failure.is_empty()),
        _ => panic!("a payload that does not decode is reported"),
    }
    reserve.apply_reaction(reaction);
    assert_eq!(reserve.len(), 2);
    assert_eq!(reserve.get_from_storage(&Id(1)), Some(&(1, "one".to_string())));
    assert_eq!(reserve.get_from_storage(&Id(2)), Some(&(2, "two".to_string())));
}

#[test]
fn undecodable_delete_is_reported_and_leaves_the_reserve_unchanged() {
    let mut reserve = stocked();
    let reaction = settle(ChangeAction::Delete, Value::Array(vec![Value::from(1u64)]));
    assert!(matches!(reaction, Reaction::Report(_)));
    reserve.apply_reaction(reaction);
    assert_eq!(reserve.len(), 2);
    assert!(reserve.contains_key(&Id(1)));
}

#[test]
fn the_reactor_goes_on_after_an_undecodable_event() {
    let mut reserve = stocked();
    reserve.apply_reaction(settle(ChangeAction::Update, Value::Null));
    reserve.apply_reaction(settle(ChangeAction::Update, encoded(1, "uno")));
    reserve.apply_reaction(settle(ChangeAction::Delete, Value::Bool(true)));
    reserve.apply_reaction(settle(ChangeAction::Delete, encoded(2, "two")));
    assert_eq!(reserve.get_from_storage(&Id(1)), Some(&(1, "uno".to_string())));
    assert!(!reserve.contains_key(&Id(2)));
    assert_eq!(reserve.len(), 1);
}

#[test]
fn the_failure_that_is_reported_is_the_one_the_decoder_gave() {
    let reaction = CacheReserve::<Id, Record>::listener(ChangeAction::Delete, || {
        Err::<Record, u32>(42)
    });
    match reaction {
        Reaction::Report(failure) => assert_eq!(failure, 42),
        _ => panic!("a payload that does not decode is reported"),
    }
}

#[test]
fn a_reaction_that_is_dropped_leaves_the_reserve_unchanged() {
    let reserve = stocked();
    let reaction = settle(ChangeAction::Delete, encoded(1, "one"));
    drop(reaction);
    assert!(reserve.contains_key(&Id(1)));
    assert_eq!(reserve.len(), 2);
}

#[test]
fn discard_and_report_touch_nothing() {
    let mut reserve = stocked();
    reserve.apply_reaction(Reaction::<Id, Record, String>::Discard);
    reserve.apply_reaction(Reaction::<Id, Record, String>::Report("broken".to_string()));
    assert_eq!(reserve.len(), 2);
    assert_eq!(reserve.capacity(), 8);
}

#[test]
fn a_key_can_be_a_wider_number_than_the_record() {
    let mut reserve: CacheReserve<u64, u32> = CacheReserve::const_new(2);
    reserve.set(7, 7);
    reserve.set(8, 8);
    let reaction = CacheReserve::<u64, u32>::listener(ChangeAction::Delete, || {
        serde_json::from_value::<u32>(Value::from(7u32))
    });
    match &reaction {
        Reaction::Remove { key } => assert_eq!(*key, 7u64),
        _ => panic!("a delete that decodes asks for a removal"),
    }
    reserve.apply_reaction(reaction);
    assert!(!reserve.contains_key(&7));
    assert_eq!(reserve.get_from_storage(&8), Some(&8));
}

#[test]
fn a_number_that_does_not_fit_the_record_is_reported() {
    let mut reserve: CacheReserve<u64, u32> = CacheReserve::const_new(2);
    reserve.set(7, 7);
    let reaction = CacheReserve::<u64, u32>::listener(ChangeAction::Update, || {
        serde_json::from_value::<u32>(Value::from(u64::MAX))
    });
    assert!(matches!(reaction, Reaction::Report(_)));
    reserve.apply_reaction(reaction);
    assert_eq!(reserve.get_from_storage(&7), Some(&7));
    assert_eq!(reserve.len(), 1);
}
