//! The trusted boundary to the external document engine (the `yrs` crate).
//!
//! The engine owns all integrated state. This module declares the engine
//! types the library carries through its logic, names the contents an
//! integrated map holds as observed by a transaction, and wraps each engine
//! call the library makes behind a contract.
//!
//! The contents model pairs a map handle with a transaction value even
//! though the engine serves reads straight through the handle. That pairing
//! is sound only under the document store's own discipline: at most one
//! transaction is live per document at a time, and it is the one passed to
//! every operation on that document's containers. The engine hands out
//! overlapping transactions freely, and nothing in these signatures can
//! refuse them; a caller that interleaves two live transactions over one
//! document steps outside every contract below.
//!
//! One engine corner is not distinguished by this model: a live entry whose
//! item carries no readable content is counted by `len` and exported as a
//! null by `to_json`, yet reported absent by `get`. No value this library
//! stores produces such an entry.

use vstd::prelude::*;
use crate::value::{Value, ValModel, pairs_model};

verus! {

#[verifier::external_type_specification]
#[verifier::external_body]
pub struct ExYrsMap(yrs::Map);

#[verifier::external_type_specification]
#[verifier::external_body]
pub struct ExYrsTransaction(yrs::Transaction);

#[verifier::external_type_specification]
#[verifier::external_body]
pub struct ExYrsMapEvent(yrs::types::map::MapEvent);

#[verifier::external_type_specification]
#[verifier::external_body]
pub struct ExAny(lib0::any::Any);

/// The live (non-tombstoned) entries of an integrated map, as observed by a
/// transaction over the owning document. Every mutation of the document runs
/// through a transaction, so the pair of handle and transaction state
/// determines what the map holds.
pub uninterp spec fn engine_entries(m: yrs::Map, t: yrs::Transaction) -> Map<Seq<char>, ValModel>;

/// Relies on `yrs::Map::len`: it counts the live entries of the map, and a
/// counted entry set is finite.
#[verifier::external_body]
pub(crate) fn engine_len(m: &yrs::Map, t: &yrs::Transaction) -> (r: u32)
    ensures
        r as nat == engine_entries(*m, *t).dom().len(),
        r as nat == engine_entries(*m, *t).dom().len() ==> engine_entries(
            *m,
            *t,
        ).dom().finite(),
{
    let _ = t;
    m.len()
}

/// Relies on `yrs::Map::get`: it returns the live value stored under the
/// key, or `None` if there is none. A nested shared container comes back
/// resolved into its JSON-like snapshot (`yrs::types::Value::to_json`).
#[verifier::external_body]
pub(crate) fn engine_get(m: &yrs::Map, t: &yrs::Transaction, key: &str) -> (r: Option<Value>)
    ensures
        match r {
            Some(v) => engine_entries(*m, *t).contains_key(key@) && v@ == engine_entries(
                *m,
                *t,
            )[key@],
            None => !engine_entries(*m, *t).contains_key(key@),
        },
{
    let _ = t;
    m.get(key).map(|v| value_from_any(v.to_json()))
}

/// Relies on `yrs::Map::insert`: it stores the value under the key,
/// overriding a previous entry if one existed.
#[verifier::external_body]
pub(crate) fn engine_insert(m: &yrs::Map, txn: &mut yrs::Transaction, key: &str, value: &Value)
    ensures
        engine_entries(*m, *final(txn)) == engine_entries(*m, *old(txn)).insert(
            key@,
            value@,
        ),
{
    m.insert(txn, key.to_string(), any_from_value(value));
}

/// Relies on `yrs::Map::remove`: it deletes the entry stored under the key,
/// if any existed.
#[verifier::external_body]
pub(crate) fn engine_remove(m: &yrs::Map, txn: &mut yrs::Transaction, key: &str)
    ensures
        engine_entries(*m, *final(txn)) == engine_entries(*m, *old(txn)).remove(key@),
{
    m.remove(txn, key);
}

/// Relies on `yrs::Map::to_json`: it folds all live entries into a JSON-like
/// object.
#[verifier::external_body]
pub(crate) fn engine_to_json(m: &yrs::Map, t: &yrs::Transaction) -> (r: Value)
    ensures
        r@ == ValModel::Object(engine_entries(*m, *t)),
{
    let _ = t;
    value_from_any(m.to_json())
}

/// Relies on `yrs::Map::insert` with `yrs::PrelimMap` and `yrs::Map::get`:
/// nesting a preliminary table under a key of an integrated parent
/// integrates the table's entries into a fresh shared map, and the nested
/// map is recorded under that key of the parent.
#[verifier::external_body]
pub(crate) fn engine_attach(
    parent: &yrs::Map,
    txn: &mut yrs::Transaction,
    key: &str,
    entries: Vec<(String, Value)>,
) -> (r: yrs::Map)
    ensures
        engine_entries(r, *final(txn)) == pairs_model(entries@),
        engine_entries(*parent, *final(txn)) == engine_entries(*parent, *old(txn)).insert(
            key@,
            ValModel::Object(pairs_model(entries@)),
        ),
{
    let mut table: std::collections::HashMap<String, lib0::any::Any> =
        std::collections::HashMap::new();
    for (k, v) in entries.iter() {
        table.insert(k.clone(), any_from_value(v));
    }
    parent.insert(txn, key.to_string(), yrs::PrelimMap::from(table));
    match parent.get(key) {
        Some(yrs::types::Value::YMap(m)) => m,
        _ => Option::<yrs::Map>::None.unwrap(),
    }
}

/// Relies on `yrs::Map::iter`: it yields each live entry exactly once, in
/// an unspecified order, so the collected list folds into exactly the map's
/// contents.
#[verifier::external_body]
pub(crate) fn engine_snapshot(m: &yrs::Map, t: &yrs::Transaction) -> (r: Vec<(String, Value)>)
    ensures
        pairs_model(r@) == engine_entries(*m, *t),
        crate::local::keys_unique(r@),
{
    let _ = t;
    m.iter().map(|(k, v)| (k.to_string(), value_from_any(v.to_json()))).collect()
}

/// Relies on `yrs::Map::clone`: a cloned handle refers to the same shared
/// map within the same document.
#[verifier::external_body]
pub(crate) fn clone_handle(m: &yrs::Map) -> (r: yrs::Map)
    ensures
        r == *m,
{
    m.clone()
}

/// Converts a library value into the engine's JSON-like representation.
/// Relies on `lib0::any::Any` construction only.
#[verifier::external_body]
pub(crate) fn any_from_value(v: &Value) -> lib0::any::Any {
    match v {
        Value::Null => lib0::any::Any::Null,
        Value::Bool(b) => lib0::any::Any::Bool(*b),
        Value::Int(i) => lib0::any::Any::BigInt(*i),
        Value::Str(s) => lib0::any::Any::String(s.clone().into_boxed_str()),
        Value::List(xs) => lib0::any::Any::Array(xs.iter().map(any_from_value).collect::<Vec<_>>().into_boxed_slice()),
        Value::Object(ps) => lib0::any::Any::Map(Box::new(ps.iter().map(|(k, v)| (k.clone(), any_from_value(v))).collect())),
    }
}

/// Converts an engine value back into a library value. Relies on
/// `lib0::any::Any` inspection only; an engine value the library never
/// stores (an undefined marker, a floating-point number, a binary buffer)
/// becomes `Value::Null`.
#[verifier::external_body]
pub(crate) fn value_from_any(a: lib0::any::Any) -> Value {
    match a {
        lib0::any::Any::Bool(b) => Value::Bool(b),
        lib0::any::Any::BigInt(i) => Value::Int(i),
        lib0::any::Any::String(s) => Value::Str(s.into_string()),
        lib0::any::Any::Array(xs) => Value::List(xs.into_vec().into_iter().map(value_from_any).collect()),
        lib0::any::Any::Map(m) => Value::Object(m.into_iter().map(|(k, v)| (k, value_from_any(v))).collect()),
        _ => Value::Null,
    }
}

} // verus!
