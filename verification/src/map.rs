//! The dual-state shared map container and its transaction-scoped
//! operations.

use vstd::prelude::*;
use crate::errors::MapError;
use crate::value::{Value, ValModel, pairs_model};
use crate::local::PrelimTable;
use crate::engine::{engine_entries, engine_len, engine_get, engine_insert, engine_remove,
    engine_to_json, engine_attach};

verus! {

/// The two lifecycle states of a shared container: integrated into a shared
/// document, or a preliminary local table not yet visible to any replica.
/// Exactly one of the two holds at any time.
pub enum SharedType {
    /// A lightweight view into the shared document; the document owns the
    /// state and every access runs through a transaction.
    Integrated(yrs::Map),
    /// A fully owned local table, unique to this container instance.
    Prelim(PrelimTable),
}

/// A map of string keys to values shared across replicas. Conflicting
/// concurrent writes are resolved last-writer-wins by the document engine's
/// total order over operations.
pub struct YMap(pub SharedType);

impl From<yrs::Map> for YMap {
    fn from(v: yrs::Map) -> (r: YMap) {
        YMap(SharedType::Integrated(v))
    }
}

impl vstd::std_specs::convert::FromSpecImpl<yrs::Map> for YMap {
    open spec fn obeys_from_spec() -> bool {
        true
    }

    open spec fn from_spec(v: yrs::Map) -> YMap {
        YMap(SharedType::Integrated(v))
    }
}

impl YMap {
    /// Whether the container is still preliminary.
    pub open spec fn is_prelim(&self) -> bool {
        self.0 is Prelim
    }

    /// The local table of a preliminary container.
    pub open spec fn table(&self) -> PrelimTable
        recommends
            self.is_prelim(),
    {
        self.0->Prelim_0
    }

    /// The engine handle of an integrated container.
    pub open spec fn handle(&self) -> yrs::Map
        recommends
            !self.is_prelim(),
    {
        self.0->Integrated_0
    }

    /// Well-formed: a preliminary table has unique, non-empty keys.
    pub open spec fn wf(&self) -> bool {
        self.is_prelim() ==> self.table().wf()
    }

    /// A preliminary container with the given initial entries. Fails with
    /// `InvalidKey` exactly when some key is empty; a later entry under the
    /// same key overrides an earlier one.
    pub fn new(entries: Vec<(String, Value)>) -> (r: Result<YMap, MapError>)
        ensures
            match r {
                Ok(m) => m.wf() && m.is_prelim() && m.table()@ == pairs_model(entries@)
                    && (forall|i: int|
                    0 <= i < entries@.len() ==> (#[trigger] entries@[i]).0@.len() > 0),
                Err(e) => e == MapError::InvalidKey && exists|i: int|
                    0 <= i < entries@.len() && (#[trigger] entries@[i]).0@.len() == 0,
            },
    {
        let mut table = PrelimTable::new();
        let mut i: usize = 0;
        proof {
            assert(pairs_model(entries@.take(0)) =~= Map::<Seq<char>, ValModel>::empty());
        }
        while i < entries.len()
            invariant
                i <= entries@.len(),
                table.wf(),
                table@ == pairs_model(entries@.take(i as int)),
                forall|j: int| 0 <= j < i ==> (#[trigger] entries@[j]).0@.len() > 0,
            decreases entries@.len() - i,
        {
            if entries[i].0.as_str().is_empty() {
                return Err(MapError::InvalidKey);
            }
            let key = entries[i].0.clone();
            let value = entries[i].1.duplicate();
            proof {
                assert(entries@.take(i + 1).drop_last() =~= entries@.take(i as int));
                assert(entries@.take(i + 1).last() == entries@[i as int]);
            }
            table.insert(key, value);
            i = i + 1;
        }
        proof {
            assert(entries@.take(entries@.len() as int) =~= entries@);
        }
        Ok(YMap(SharedType::Prelim(table)))
    }

    /// An integrated container viewing the shared map behind `handle`.
    pub fn from_handle(handle: yrs::Map) -> (r: YMap)
        ensures
            !r.is_prelim(),
            r.handle() == handle,
            r.wf(),
    {
        YMap(SharedType::Integrated(handle))
    }

    /// True if this is a preliminary instance, not yet integrated into a
    /// document store.
    pub fn prelim(&self) -> (r: bool)
        ensures
            r == self.is_prelim(),
    {
        match &self.0 {
            SharedType::Prelim(_) => true,
            _ => false,
        }
    }

    /// Number of live entries. An integrated container requires a
    /// transaction and fails with `MissingTransaction` without one; a
    /// preliminary container ignores the argument. A count beyond `u32`
    /// saturates.
    pub fn length(&self, txn: Option<&yrs::Transaction>) -> (r: Result<u32, MapError>)
        requires
            self.wf(),
        ensures
            match r {
                Ok(n) => if self.is_prelim() {
                    n as nat == vstd::math::min(self.table()@.dom().len() as int, u32::MAX as int)
                } else {
                    txn matches Some(t) && n as nat == engine_entries(self.handle(), *t).dom().len()
                },
                Err(e) => !self.is_prelim() && txn is None && e == MapError::MissingTransaction,
            },
    {
        match &self.0 {
            SharedType::Prelim(table) => {
                proof {
                    table.lemma_size();
                }
                let n = table.len();
                if n >= u32::MAX as usize {
                    Ok(u32::MAX)
                } else {
                    Ok(n as u32)
                }
            },
            SharedType::Integrated(m) => match txn {
                Some(t) => Ok(engine_len(m, t)),
                None => Err(MapError::MissingTransaction),
            },
        }
    }

    /// The live value under `key`, or `None` if there is no such entry;
    /// never fails on a missing key. An integrated container requires a
    /// transaction.
    pub fn get(&self, txn: Option<&yrs::Transaction>, key: &str) -> (r: Result<
        Option<Value>,
        MapError,
    >)
        requires
            self.wf(),
        ensures
            ({
                let entries = if self.is_prelim() {
                    self.table()@
                } else {
                    engine_entries(self.handle(), *txn->Some_0)
                };
                match r {
                    Ok(o) => (self.is_prelim() || txn is Some) && match o {
                        Some(v) => entries.contains_key(key@) && v@ == entries[key@],
                        None => !entries.contains_key(key@),
                    },
                    Err(e) => !self.is_prelim() && txn is None && e
                        == MapError::MissingTransaction,
                }
            }),
    {
        match &self.0 {
            SharedType::Prelim(table) => match table.get(key) {
                Some(v) => Ok(Some(v.duplicate())),
                None => Ok(None),
            },
            SharedType::Integrated(m) => match txn {
                Some(t) => Ok(engine_get(m, t, key)),
                None => Err(MapError::MissingTransaction),
            },
        }
    }

    /// Stores `value` under `key`, overriding a previous entry. Fails with
    /// `InvalidKey` exactly when the key is empty, leaving every state
    /// unchanged. Within the same transaction the write is immediately
    /// visible to later reads; it becomes visible to other transactions only
    /// at commit.
    pub fn set(&mut self, txn: &mut yrs::Transaction, key: &str, value: Value) -> (r: Result<
        (),
        MapError,
    >)
        requires
            old(self).wf(),
        ensures
            final(self).wf(),
            final(self).is_prelim() == old(self).is_prelim(),
            match r {
                Ok(()) => key@.len() > 0 && if old(self).is_prelim() {
                    final(self).table()@ == old(self).table()@.insert(key@, value@)
                        && *final(txn) == *old(txn)
                } else {
                    *final(self) == *old(self) && engine_entries(old(self).handle(), *final(txn))
                        == engine_entries(old(self).handle(), *old(txn)).insert(key@, value@)
                },
                Err(e) => key@.len() == 0 && e == MapError::InvalidKey && *final(self) == *old(self) && *final(txn) == *old(txn),
            },
    {
        if key.is_empty() {
            return Err(MapError::InvalidKey);
        }
        match &mut self.0 {
            SharedType::Prelim(table) => {
                table.insert(key.to_owned(), value);
                Ok(())
            },
            SharedType::Integrated(m) => {
                engine_insert(m, txn, key, &value);
                Ok(())
            },
        }
    }

    /// Stores `value` under `key` without a transaction: only a preliminary
    /// container can do so; an integrated one fails with
    /// `MissingTransaction`. An empty key fails with `InvalidKey`.
    pub fn set_local(&mut self, key: &str, value: Value) -> (r: Result<(), MapError>)
        requires
            old(self).wf(),
        ensures
            final(self).wf(),
            final(self).is_prelim() == old(self).is_prelim(),
            match r {
                Ok(()) => old(self).is_prelim() && key@.len() > 0 && final(self).table()@ == old(self).table()@.insert(key@, value@),
                Err(e) => *final(self) == *old(self) && if old(self).is_prelim() {
                    key@.len() == 0 && e == MapError::InvalidKey
                } else {
                    e == MapError::MissingTransaction
                },
            },
    {
        match &mut self.0 {
            SharedType::Prelim(table) => {
                if key.is_empty() {
                    return Err(MapError::InvalidKey);
                }
                table.insert(key.to_owned(), value);
                Ok(())
            },
            SharedType::Integrated(_) => Err(MapError::MissingTransaction),
        }
    }

    /// Removes the entry under `key`, if any; removing an absent key leaves
    /// the container unchanged.
    pub fn delete(&mut self, txn: &mut yrs::Transaction, key: &str)
        requires
            old(self).wf(),
        ensures
            final(self).wf(),
            final(self).is_prelim() == old(self).is_prelim(),
            if old(self).is_prelim() {
                final(self).table()@ == old(self).table()@.remove(key@) && *final(txn) == *old(txn)
            } else {
                *final(self) == *old(self) && engine_entries(old(self).handle(), *final(txn))
                    == engine_entries(old(self).handle(), *old(txn)).remove(key@)
            },
    {
        match &mut self.0 {
            SharedType::Prelim(table) => {
                table.remove(key);
            },
            SharedType::Integrated(m) => {
                engine_remove(m, txn, key);
            },
        }
    }

    /// Removes the entry under `key` without a transaction: only a
    /// preliminary container can do so; an integrated one fails with
    /// `MissingTransaction`.
    pub fn delete_local(&mut self, key: &str) -> (r: Result<(), MapError>)
        requires
            old(self).wf(),
        ensures
            final(self).wf(),
            final(self).is_prelim() == old(self).is_prelim(),
            match r {
                Ok(()) => old(self).is_prelim() && final(self).table()@ == old(self).table()@.remove(key@),
                Err(e) => !old(self).is_prelim() && e == MapError::MissingTransaction && *final(self) == *old(self),
            },
    {
        match &mut self.0 {
            SharedType::Prelim(table) => {
                table.remove(key);
                Ok(())
            },
            SharedType::Integrated(_) => Err(MapError::MissingTransaction),
        }
    }

    /// A read-only JSON-like snapshot of all live entries, with nested
    /// shared containers resolved into plain values. No side effects.
    pub fn to_json(&self, txn: Option<&yrs::Transaction>) -> (r: Result<Value, MapError>)
        requires
            self.wf(),
        ensures
            match r {
                Ok(v) => if self.is_prelim() {
                    v@ == ValModel::Object(self.table()@)
                } else {
                    txn matches Some(t) && v@ == ValModel::Object(
                        engine_entries(self.handle(), *t),
                    )
                },
                Err(e) => !self.is_prelim() && txn is None && e == MapError::MissingTransaction,
            },
    {
        match &self.0 {
            SharedType::Prelim(table) => Ok(Value::Object(table.export())),
            SharedType::Integrated(m) => match txn {
                Some(t) => Ok(engine_to_json(m, t)),
                None => Err(MapError::MissingTransaction),
            },
        }
    }

    /// Integrates this preliminary container into the shared document as a
    /// child of `parent` under `key`: the one-way transition. The local
    /// table is consumed by the engine; afterwards all access requires a
    /// transaction. Fails with `AlreadyShared` if this container is already
    /// integrated, with `InvalidHandle` if `parent` is not integrated, and
    /// with `InvalidKey` on an empty key; a failed call changes nothing.
    pub fn attach(&mut self, txn: &mut yrs::Transaction, parent: &YMap, key: &str) -> (r: Result<
        (),
        MapError,
    >)
        requires
            old(self).wf(),
        ensures
            final(self).wf(),
            match r {
                Ok(()) => old(self).is_prelim() && !parent.is_prelim() && key@.len() > 0
                    && !final(self).is_prelim() && engine_entries(final(self).handle(), *final(txn))
                    == old(self).table()@ && engine_entries(parent.handle(), *final(txn))
                    == engine_entries(parent.handle(), *old(txn)).insert(
                    key@,
                    ValModel::Object(old(self).table()@),
                ),
                Err(e) => *final(self) == *old(self) && *final(txn) == *old(txn) && if !old(self).is_prelim() {
                    e == MapError::AlreadyShared
                } else if parent.is_prelim() {
                    e == MapError::InvalidHandle
                } else {
                    key@.len() == 0 && e == MapError::InvalidKey
                },
            },
    {
        match &self.0 {
            SharedType::Integrated(_) => Err(MapError::AlreadyShared),
            SharedType::Prelim(table) => match &parent.0 {
                SharedType::Prelim(_) => Err(MapError::InvalidHandle),
                SharedType::Integrated(p) => {
                    if key.is_empty() {
                        return Err(MapError::InvalidKey);
                    }
                    let entries = table.export();
                    let child = engine_attach(p, txn, key, entries);
                    self.0 = SharedType::Integrated(child);
                    Ok(())
                },
            },
        }
    }

    /// An iterator over all live entries; order is unspecified and a new
    /// iterator must be created per traversal. The iterator borrows its
    /// source (the transaction for an integrated container, the container
    /// itself for a preliminary one), so it cannot outlive it.
    pub fn entries<'a>(&'a self, txn: Option<&'a yrs::Transaction>) -> (r: Result<
        YMapIterator<'a>,
        MapError,
    >)
        requires
            self.wf(),
        ensures
            match r {
                Ok(it) => it.pos() == 0 && crate::local::keys_unique(it.source())
                    && pairs_model(it.source()) == (if self.is_prelim() {
                    self.table()@
                } else {
                    engine_entries(self.handle(), *txn->Some_0)
                }) && (!self.is_prelim() ==> txn is Some),
                Err(e) => !self.is_prelim() && txn is None && e == MapError::MissingTransaction,
            },
    {
        match &self.0 {
            SharedType::Prelim(table) => {
                proof {
                    table.lemma_wf_unique();
                }
                Ok(YMapIterator { src: SharedYMapIterator::Prelim(table), pos: 0 })
            },
            SharedType::Integrated(m) => match txn {
                Some(t) => {
                    let snap = crate::engine::engine_snapshot(m, t);
                    Ok(YMapIterator { src: SharedYMapIterator::Integrated(snap, t), pos: 0 })
                },
                None => Err(MapError::MissingTransaction),
            },
        }
    }
}

/// The source an entry iterator draws from: a snapshot of an integrated map
/// taken under the borrowed transaction, or a borrow of a preliminary
/// container's local table.
pub enum SharedYMapIterator<'a> {
    Integrated(Vec<(String, Value)>, &'a yrs::Transaction),
    Prelim(&'a PrelimTable),
}

/// A lazy, finite, non-restartable iterator over a container's entries.
/// Its lifetime is bounded by the borrow it was created from, so using it
/// after that borrow ends is a compile-time error.
pub struct YMapIterator<'a> {
    src: SharedYMapIterator<'a>,
    pos: usize,
}

impl<'a> YMapIterator<'a> {
    /// The entries the iterator walks, in traversal order.
    pub closed spec fn source(&self) -> Seq<(String, Value)> {
        match self.src {
            SharedYMapIterator::Integrated(v, _) => v@,
            SharedYMapIterator::Prelim(t) => t.entries_seq(),
        }
    }

    /// How many entries were already yielded.
    pub closed spec fn pos(&self) -> nat {
        self.pos as nat
    }

    /// The next entry, or `None` once all entries were yielded.
    pub fn next(&mut self) -> (r: Option<(String, Value)>)
        ensures
            final(self).source() == old(self).source(),
            match r {
                Some(e) => old(self).pos() < old(self).source().len() && final(self).pos() == old(
                    self,
                ).pos() + 1 && e.0@ == old(self).source()[old(self).pos() as int].0@ && e.1@ == old(
                    self,
                ).source()[old(self).pos() as int].1@,
                None => old(self).pos() >= old(self).source().len() && *final(self) == *old(self),
            },
    {
        let n = match &self.src {
            SharedYMapIterator::Integrated(v, _) => v.len(),
            SharedYMapIterator::Prelim(t) => t.len(),
        };
        if self.pos >= n {
            return None;
        }
        let e = match &self.src {
            SharedYMapIterator::Integrated(v, _) => {
                let p = &v[self.pos];
                (p.0.clone(), p.1.duplicate())
            },
            SharedYMapIterator::Prelim(t) => {
                let p = t.entry_at(self.pos);
                (p.0.clone(), p.1.duplicate())
            },
        };
        self.pos = self.pos + 1;
        Some(e)
    }
}

} // verus!
