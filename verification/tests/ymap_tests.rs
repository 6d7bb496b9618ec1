use std::cell::RefCell;
use std::rc::Rc;

use ymap::errors::MapError;
use ymap::event::{ChangeAction, PathSegment, YMapEvent};
use ymap::map::YMap;
use ymap::value::Value;

use yrs::types::DeepObservable;
use yrs::updates::decoder::Decode;

fn entry(k: &str, v: Value) -> (String, Value) {
    (k.to_string(), v)
}

fn object_get<'a>(snapshot: &'a Value, key: &str) -> Option<&'a Value> {
    match snapshot {
        Value::Object(pairs) => pairs.iter().find(|(k, _)| k == key).map(|(_, v)| v),
        _ => panic!("snapshot is not an object"),
    }
}

fn object_len(snapshot: &Value) -> usize {
    match snapshot {
        Value::Object(pairs) => pairs.len(),
        _ => panic!("snapshot is not an object"),
    }
}

#[test]
fn detached_set_then_get() {
    let doc = yrs::Doc::new();
    let mut map = YMap::new(Vec::new()).unwrap();
    let mut txn = doc.transact();
    map.set(&mut txn, "k", Value::Str("hello".to_string())).unwrap();
    let got = map.get(Some(&txn), "k").unwrap();
    assert_eq!(got, Some(Value::Str("hello".to_string())));
}

#[test]
fn attached_set_then_get() {
    let doc = yrs::Doc::new();
    let handle = doc.transact().get_map("root");
    let mut map = YMap::from(handle);
    let mut txn = doc.transact();
    map.set(&mut txn, "k", Value::Int(42)).unwrap();
    let got = map.get(Some(&txn), "k").unwrap();
    assert_eq!(got, Some(Value::Int(42)));
}

#[test]
fn detached_delete_then_get_and_length() {
    let doc = yrs::Doc::new();
    let mut map = YMap::new(vec![entry("a", Value::Int(1)), entry("b", Value::Int(2))]).unwrap();
    let mut txn = doc.transact();
    assert_eq!(map.length(Some(&txn)).unwrap(), 2);
    map.delete(&mut txn, "a");
    assert_eq!(map.get(Some(&txn), "a").unwrap(), None);
    assert_eq!(map.length(Some(&txn)).unwrap(), 1);
    // deleting an absent key leaves the length unchanged
    map.delete(&mut txn, "missing");
    assert_eq!(map.length(Some(&txn)).unwrap(), 1);
}

#[test]
fn attached_delete_then_get_and_length() {
    let doc = yrs::Doc::new();
    let handle = doc.transact().get_map("root");
    let mut map = YMap::from_handle(handle);
    let mut txn = doc.transact();
    map.set(&mut txn, "a", Value::Int(1)).unwrap();
    map.set(&mut txn, "b", Value::Int(2)).unwrap();
    assert_eq!(map.length(Some(&txn)).unwrap(), 2);
    map.delete(&mut txn, "a");
    assert_eq!(map.get(Some(&txn), "a").unwrap(), None);
    assert_eq!(map.length(Some(&txn)).unwrap(), 1);
    map.delete(&mut txn, "missing");
    assert_eq!(map.length(Some(&txn)).unwrap(), 1);
}

#[test]
fn delete_twice_is_idempotent() {
    let doc = yrs::Doc::new();
    let mut map = YMap::new(vec![entry("a", Value::Int(1)), entry("b", Value::Int(2))]).unwrap();
    let mut txn = doc.transact();
    map.delete(&mut txn, "a");
    let once = map.to_json(Some(&txn)).unwrap();
    let len_once = map.length(Some(&txn)).unwrap();
    map.delete(&mut txn, "a");
    let twice = map.to_json(Some(&txn)).unwrap();
    assert_eq!(once, twice);
    assert_eq!(len_once, map.length(Some(&txn)).unwrap());
}

#[test]
fn attached_delete_twice_is_idempotent() {
    let doc = yrs::Doc::new();
    let handle = doc.transact().get_map("root");
    let mut map = YMap::from_handle(handle);
    let mut txn = doc.transact();
    map.set(&mut txn, "a", Value::Int(1)).unwrap();
    map.set(&mut txn, "b", Value::Int(2)).unwrap();
    map.delete(&mut txn, "a");
    let once = map.length(Some(&txn)).unwrap();
    let g_once = map.get(Some(&txn), "a").unwrap();
    map.delete(&mut txn, "a");
    assert_eq!(once, map.length(Some(&txn)).unwrap());
    assert_eq!(g_once, map.get(Some(&txn), "a").unwrap());
    assert_eq!(g_once, None);
}

#[test]
fn attach_is_one_way() {
    let doc = yrs::Doc::new();
    let root = YMap::from_handle(doc.transact().get_map("root"));
    let mut child = YMap::new(vec![entry("a", Value::Int(1))]).unwrap();
    assert!(child.prelim());
    let mut txn = doc.transact();
    child.attach(&mut txn, &root, "child").unwrap();
    assert!(!child.prelim());
    // any further attempt to attach the same container fails
    let again = child.attach(&mut txn, &root, "other");
    assert_eq!(again, Err(MapError::AlreadyShared));
    // the integrated child carries the former local entries
    assert_eq!(child.get(Some(&txn), "a").unwrap(), Some(Value::Int(1)));
    // and the parent sees it under its key
    let parent_view = root.get(Some(&txn), "child").unwrap().unwrap();
    assert_eq!(object_get(&parent_view, "a"), Some(&Value::Int(1)));
}

#[test]
fn attach_into_detached_parent_fails() {
    let doc = yrs::Doc::new();
    let parent = YMap::new(Vec::new()).unwrap();
    let mut child = YMap::new(Vec::new()).unwrap();
    let mut txn = doc.transact();
    assert_eq!(child.attach(&mut txn, &parent, "child"), Err(MapError::InvalidHandle));
    assert!(child.prelim());
}

#[test]
fn concurrent_set_converges() {
    let d1 = yrs::Doc::with_client_id(1);
    let d2 = yrs::Doc::with_client_id(2);
    let m1 = d1.transact().get_map("root");
    let m2 = d2.transact().get_map("root");
    let mut y1 = YMap::from_handle(m1);
    let mut y2 = YMap::from_handle(m2);
    {
        let mut t = d1.transact();
        y1.set(&mut t, "k", Value::Str("one".to_string())).unwrap();
        t.commit();
    }
    {
        let mut t = d2.transact();
        y2.set(&mut t, "k", Value::Str("two".to_string())).unwrap();
        t.commit();
    }
    // exchange updates in both directions
    let u1 = d1.encode_state_as_update_v1(&yrs::StateVector::default());
    let u2 = d2.encode_state_as_update_v1(&yrs::StateVector::default());
    d2.transact().apply_update(yrs::Update::decode_v1(&u1).unwrap());
    d1.transact().apply_update(yrs::Update::decode_v1(&u2).unwrap());
    let t1 = d1.transact();
    let t2 = d2.transact();
    let r1 = y1.get(Some(&t1), "k").unwrap().unwrap();
    let r2 = y2.get(Some(&t2), "k").unwrap().unwrap();
    // both replicas report the identical winning value
    assert_eq!(r1, r2);
    assert!(
        r1 == Value::Str("one".to_string()) || r1 == Value::Str("two".to_string()),
        "winner must be one of the written values"
    );
}

#[test]
fn iterator_over_detached_entries() {
    let map = YMap::new(vec![entry("a", Value::Int(1)), entry("b", Value::Int(2))]).unwrap();
    let mut it = map.entries(None).unwrap();
    let mut seen: Vec<(String, Value)> = Vec::new();
    while let Some(e) = it.next() {
        seen.push(e);
    }
    assert_eq!(seen.len(), 2);
    seen.sort_by(|x, y| x.0.cmp(&y.0));
    assert_eq!(seen[0], ("a".to_string(), Value::Int(1)));
    assert_eq!(seen[1], ("b".to_string(), Value::Int(2)));
}

#[test]
fn iterator_over_attached_entries_within_transaction() {
    let doc = yrs::Doc::new();
    let handle = doc.transact().get_map("root");
    let mut map = YMap::from_handle(handle);
    let mut txn = doc.transact();
    map.set(&mut txn, "a", Value::Int(1)).unwrap();
    map.set(&mut txn, "b", Value::Int(2)).unwrap();
    // the iterator borrows the transaction: it can only be used while the
    // transaction lives, which the borrow checker enforces
    let mut it = map.entries(Some(&txn)).unwrap();
    let mut seen: Vec<(String, Value)> = Vec::new();
    while let Some(e) = it.next() {
        seen.push(e);
    }
    drop(it);
    seen.sort_by(|x, y| x.0.cmp(&y.0));
    assert_eq!(
        seen,
        vec![("a".to_string(), Value::Int(1)), ("b".to_string(), Value::Int(2))]
    );
}

#[test]
fn scenario_detached_snapshot() {
    let doc = yrs::Doc::new();
    let mut map = YMap::new(vec![entry("a", Value::Int(1))]).unwrap();
    let mut txn = doc.transact();
    map.set(&mut txn, "b", Value::Int(2)).unwrap();
    let snap = map.to_json(Some(&txn)).unwrap();
    assert_eq!(object_len(&snap), 2);
    assert_eq!(object_get(&snap, "a"), Some(&Value::Int(1)));
    assert_eq!(object_get(&snap, "b"), Some(&Value::Int(2)));
    map.delete(&mut txn, "a");
    assert_eq!(map.length(Some(&txn)).unwrap(), 1);
    let snap = map.to_json(Some(&txn)).unwrap();
    assert_eq!(object_len(&snap), 1);
    assert_eq!(object_get(&snap, "a"), None);
    assert_eq!(object_get(&snap, "b"), Some(&Value::Int(2)));
}

#[test]
fn scenario_child_update_fires_one_event() {
    let doc = yrs::Doc::with_client_id(7);
    let root_handle = doc.transact().get_map("root");
    let root = YMap::from_handle(root_handle.clone());
    let mut child = YMap::new(vec![entry("x", Value::Int(5))]).unwrap();
    {
        let mut txn = doc.transact();
        child.attach(&mut txn, &root, "child").unwrap();
        txn.commit();
    }
    let child_handle = match root_handle.get("child") {
        Some(yrs::types::Value::YMap(m)) => m,
        _ => panic!("child must be a nested map"),
    };
    let events: Rc<RefCell<Vec<YMapEvent>>> = Rc::new(RefCell::new(Vec::new()));
    let sink = events.clone();
    // observe below the root, so event paths are resolved from the document
    // root down to the changed container
    let mut observed_root = root_handle.clone();
    let _sub = observed_root.observe_deep(move |txn, batch| {
        for e in batch.iter() {
            if let yrs::types::Event::Map(me) = e {
                sink.borrow_mut().push(YMapEvent::new(me, txn));
            }
        }
    });
    {
        let mut txn = doc.transact();
        let mut c = YMap::from_handle(child_handle.clone());
        c.set(&mut txn, "x", Value::Int(6)).unwrap();
        txn.commit();
    }
    let mut fired = events.borrow_mut();
    assert_eq!(fired.len(), 1, "exactly one event per commit");
    let ev = &mut fired[0];
    assert_eq!(ev.path(), &vec![PathSegment::Key("child".to_string())]);
    let keys = ev.keys();
    assert_eq!(keys.len(), 1);
    assert_eq!(keys[0].0, "x".to_string());
    assert_eq!(keys[0].1.action, ChangeAction::Update);
    assert_eq!(keys[0].1.old_value, Some(Value::Int(5)));
    assert_eq!(keys[0].1.new_value, Some(Value::Int(6)));
    // the target is the container the event describes
    let target = ev.target();
    assert!(!target.prelim());
}

#[test]
fn missing_transaction_errors() {
    let doc = yrs::Doc::new();
    let handle = doc.transact().get_map("root");
    let mut map = YMap::from_handle(handle);
    assert_eq!(map.length(None), Err(MapError::MissingTransaction));
    assert_eq!(map.get(None, "k"), Err(MapError::MissingTransaction));
    assert_eq!(map.to_json(None), Err(MapError::MissingTransaction));
    assert!(map.entries(None).is_err());
    assert_eq!(
        map.set_local("k", Value::Int(1)),
        Err(MapError::MissingTransaction)
    );
    assert_eq!(map.delete_local("k"), Err(MapError::MissingTransaction));
}

#[test]
fn detached_works_without_transaction() {
    let mut map = YMap::new(vec![entry("a", Value::Int(1))]).unwrap();
    assert_eq!(map.length(None).unwrap(), 1);
    assert_eq!(map.get(None, "a").unwrap(), Some(Value::Int(1)));
    map.set_local("b", Value::Int(2)).unwrap();
    assert_eq!(map.length(None).unwrap(), 2);
    map.delete_local("b").unwrap();
    assert_eq!(map.length(None).unwrap(), 1);
}

#[test]
fn invalid_key_errors() {
    let bad = YMap::new(vec![entry("", Value::Int(1))]);
    assert_eq!(bad.err(), Some(MapError::InvalidKey));
    let doc = yrs::Doc::new();
    let mut map = YMap::new(Vec::new()).unwrap();
    let mut txn = doc.transact();
    assert_eq!(map.set(&mut txn, "", Value::Int(1)), Err(MapError::InvalidKey));
    assert_eq!(map.set_local("", Value::Int(1)), Err(MapError::InvalidKey));
    let root = YMap::from_handle(doc.transact().get_map("root"));
    let mut child = YMap::new(Vec::new()).unwrap();
    assert_eq!(child.attach(&mut txn, &root, ""), Err(MapError::InvalidKey));
    assert!(child.prelim());
}

#[test]
fn new_keeps_last_value_for_duplicate_key() {
    let map = YMap::new(vec![entry("a", Value::Int(1)), entry("a", Value::Int(2))]).unwrap();
    assert_eq!(map.get(None, "a").unwrap(), Some(Value::Int(2)));
    assert_eq!(map.length(None).unwrap(), 1);
}

#[test]
fn event_keys_classification_and_memoization() {
    let doc = yrs::Doc::new();
    let handle = doc.transact().get_map("root");
    let raw = vec![
        ("added".to_string(), None, Some(Value::Int(1))),
        ("updated".to_string(), Some(Value::Int(1)), Some(Value::Int(2))),
        ("removed".to_string(), Some(Value::Int(3)), None),
    ];
    let mut ev = YMapEvent::from_parts(handle, Vec::new(), raw);
    // the first read classifies and caches; the second returns the cache:
    // both must expose the identical classification
    for _ in 0..2 {
        let keys = ev.keys();
        assert_eq!(keys.len(), 3);
        assert_eq!(keys[0].0, "added".to_string());
        assert_eq!(keys[0].1.action, ChangeAction::Add);
        assert_eq!(keys[0].1.old_value, None);
        assert_eq!(keys[0].1.new_value, Some(Value::Int(1)));
        assert_eq!(keys[1].1.action, ChangeAction::Update);
        assert_eq!(keys[1].1.old_value, Some(Value::Int(1)));
        assert_eq!(keys[1].1.new_value, Some(Value::Int(2)));
        assert_eq!(keys[2].1.action, ChangeAction::Delete);
        assert_eq!(keys[2].1.old_value, Some(Value::Int(3)));
        assert_eq!(keys[2].1.new_value, None);
    }
}

#[test]
fn nested_values_round_trip_through_engine() {
    let doc = yrs::Doc::new();
    let handle = doc.transact().get_map("root");
    let mut map = YMap::from_handle(handle);
    let mut txn = doc.transact();
    let nested = Value::Object(vec![
        ("list".to_string(), Value::List(vec![Value::Int(1), Value::Bool(true), Value::Null])),
        ("name".to_string(), Value::Str("deep".to_string())),
    ]);
    map.set(&mut txn, "n", nested.duplicate()).unwrap();
    let got = map.get(Some(&txn), "n").unwrap().unwrap();
    assert_eq!(object_get(&got, "name"), Some(&Value::Str("deep".to_string())));
    assert_eq!(
        object_get(&got, "list"),
        Some(&Value::List(vec![Value::Int(1), Value::Bool(true), Value::Null]))
    );
}

#[test]
fn duplicate_is_a_deep_copy() {
    let original = Value::Object(vec![(
        "xs".to_string(),
        Value::List(vec![Value::Str("s".to_string()), Value::Int(7)]),
    )]);
    let copy = original.duplicate();
    assert_eq!(copy, original);
}
