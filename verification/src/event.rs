//! The change event delivered to observers at transaction-commit time:
//! the changed keys with their actions and old/new values, and the path
//! from the document root to the changed container.

use vstd::prelude::*;
use vstd::pervasive::unreached;
use crate::value::Value;
use crate::map::YMap;
use crate::engine::{clone_handle, value_from_any};

verus! {

/// One step of the route from the document root down to a container:
/// a string key inside a map, or an index inside a sequence.
#[derive(Debug, Clone, PartialEq)]
pub enum PathSegment {
    Key(String),
    Index(u32),
}

/// What happened to one key within the committing transaction.
#[derive(Debug, Clone, Copy, PartialEq, Eq, Structural)]
pub enum ChangeAction {
    Add,
    Update,
    Delete,
}

/// The change recorded for one key: its action, the value it had before
/// the transaction (absent for an addition) and the value it has after
/// (absent for a deletion).
#[derive(Debug, PartialEq)]
pub struct KeyChange {
    pub action: ChangeAction,
    pub old_value: Option<Value>,
    pub new_value: Option<Value>,
}

/// A raw change entry as the engine reports it: key, old value, new value.
/// At least one of the two values is present.
pub open spec fn raw_wf(raw: Seq<(String, Option<Value>, Option<Value>)>) -> bool {
    forall|i: int| 0 <= i < raw.len() ==> (#[trigger] raw[i]).1 is Some || raw[i].2 is Some
}

/// The route from the document root down to the map that emitted the engine
/// event. A name for the result of `yrs::types::map::MapEvent::path`, which
/// depends on the event alone.
pub uninterp spec fn event_path_of(e: yrs::types::map::MapEvent) -> Seq<PathSegment>;

/// The per-key changes that the engine event reports against the committing
/// transaction, as raw key, old value, new value triples. A name for the
/// result of `yrs::types::map::MapEvent::keys`, which depends on the event
/// and the transaction alone.
pub uninterp spec fn event_changes_of(e: yrs::types::map::MapEvent, t: yrs::Transaction) -> Seq<
    (String, Option<Value>, Option<Value>),
>;

/// The classification of one raw change entry: an absent old value is an
/// addition, an absent new value a deletion, both present an update.
pub open spec fn change_matches(
    raw: (String, Option<Value>, Option<Value>),
    out: (String, KeyChange),
) -> bool {
    &&& out.0@ == raw.0@
    &&& match (raw.1, raw.2) {
        (Option::None, Option::Some(n)) => {
            &&& out.1.action == ChangeAction::Add
            &&& out.1.old_value is None
            &&& out.1.new_value matches Some(v) && v@ == n@
        },
        (Option::Some(o), Option::Some(n)) => {
            &&& out.1.action == ChangeAction::Update
            &&& out.1.old_value matches Some(x) && x@ == o@
            &&& out.1.new_value matches Some(v) && v@ == n@
        },
        (Option::Some(o), Option::None) => {
            &&& out.1.action == ChangeAction::Delete
            &&& out.1.old_value matches Some(x) && x@ == o@
            &&& out.1.new_value is None
        },
        (Option::None, Option::None) => false,
    }
}

/// A classified change list matches the raw one entry by entry.
pub open spec fn keys_match(
    raw: Seq<(String, Option<Value>, Option<Value>)>,
    out: Seq<(String, KeyChange)>,
) -> bool {
    out.len() == raw.len() && forall|i: int|
        0 <= i < raw.len() ==> change_matches(raw[i], #[trigger] out[i])
}

/// One map's changes within one committed transaction. The classified key
/// list and the target container are computed at most once and cached, even
/// if read several times.
pub struct YMapEvent {
    raw: Vec<(String, Option<Value>, Option<Value>)>,
    path: Vec<PathSegment>,
    handle: yrs::Map,
    target: Option<YMap>,
    keys: Option<Vec<(String, KeyChange)>>,
}

impl YMapEvent {
    /// The raw change entries the event was built from.
    pub closed spec fn raw_seq(&self) -> Seq<(String, Option<Value>, Option<Value>)> {
        self.raw@
    }

    /// The route from the document root to the changed container.
    pub closed spec fn path_seq(&self) -> Seq<PathSegment> {
        self.path@
    }

    /// The handle of the changed container.
    pub closed spec fn handle_of(&self) -> yrs::Map {
        self.handle
    }

    /// The cached classified changes, if already computed.
    pub closed spec fn keys_cache(&self) -> Option<Seq<(String, KeyChange)>> {
        match self.keys {
            Some(v) => Some(v@),
            None => None,
        }
    }

    /// Whether the target container was already materialized.
    pub closed spec fn target_cached(&self) -> bool {
        self.target is Some
    }

    /// Well-formed: the raw entries each carry a value, and whatever is
    /// cached agrees with the raw data.
    pub closed spec fn wf(&self) -> bool {
        &&& raw_wf(self.raw@)
        &&& match self.keys {
            Some(v) => keys_match(self.raw@, v@),
            None => true,
        }
        &&& match self.target {
            Some(t) => !t.is_prelim() && t.handle() == self.handle,
            None => true,
        }
    }

    /// An event built from the engine's own event and the committing
    /// transaction.
    pub fn new(event: &yrs::types::map::MapEvent, txn: &yrs::Transaction) -> (r: YMapEvent)
        ensures
            r.wf(),
            r.raw_seq() == event_changes_of(*event, *txn),
            r.path_seq() == event_path_of(*event),
            r.keys_cache() is None,
            !r.target_cached(),
    {
        YMapEvent::from_parts(
            event_target_handle(event),
            event_path(event),
            event_changes(event, txn),
        )
    }

    /// An event for the container behind `handle`, reached by `path` from
    /// the document root, carrying the raw change entries of one committed
    /// transaction. Nothing is classified yet.
    pub fn from_parts(
        handle: yrs::Map,
        path: Vec<PathSegment>,
        changes: Vec<(String, Option<Value>, Option<Value>)>,
    ) -> (r: YMapEvent)
        requires
            raw_wf(changes@),
        ensures
            r.wf(),
            r.raw_seq() == changes@,
            r.path_seq() == path@,
            r.handle_of() == handle,
            r.keys_cache() is None,
            !r.target_cached(),
    {
        YMapEvent { raw: changes, path, handle, target: None, keys: None }
    }

    /// The container instance the event describes, materialized on first
    /// access and cached: repeated reads return the same instance.
    pub fn target(&mut self) -> (r: &YMap)
        requires
            old(self).wf(),
        ensures
            final(self).wf(),
            final(self).raw_seq() == old(self).raw_seq(),
            final(self).path_seq() == old(self).path_seq(),
            final(self).handle_of() == old(self).handle_of(),
            final(self).keys_cache() == old(self).keys_cache(),
            final(self).target_cached(),
            !r.is_prelim() && r.handle() == old(self).handle_of(),
            old(self).target_cached() ==> *final(self) == *old(self),
    {
        if self.target.is_none() {
            let h = clone_handle(&self.handle);
            self.target = Some(YMap::from_handle(h));
        }
        match &self.target {
            Some(t) => t,
            None => unreached(),
        }
    }

    /// The route from the document root to the changed container, resolved
    /// against the committing transaction when the event was built.
    pub fn path(&self) -> (r: &Vec<PathSegment>)
        ensures
            r@ == self.path_seq(),
    {
        &self.path
    }

    /// The per-key changes of the committing transaction, classified into
    /// add, update or delete, computed on first access and cached:
    /// repeated reads return the same list.
    pub fn keys(&mut self) -> (r: &Vec<(String, KeyChange)>)
        requires
            old(self).wf(),
        ensures
            final(self).wf(),
            final(self).raw_seq() == old(self).raw_seq(),
            final(self).path_seq() == old(self).path_seq(),
            final(self).handle_of() == old(self).handle_of(),
            final(self).target_cached() == old(self).target_cached(),
            keys_match(old(self).raw_seq(), r@),
            final(self).keys_cache() == Some(r@),
            old(self).keys_cache() matches Some(c) ==> *final(self) == *old(self) && r@ == c,
    {
        if self.keys.is_none() {
            let mut out: Vec<(String, KeyChange)> = Vec::new();
            let mut i: usize = 0;
            while i < self.raw.len()
                invariant
                    i <= self.raw@.len(),
                    out@.len() == i,
                    raw_wf(self.raw@),
                    forall|j: int| 0 <= j < i ==> change_matches(self.raw@[j], #[trigger] out@[j]),
                decreases self.raw@.len() - i,
            {
                let e = &self.raw[i];
                let key = e.0.clone();
                let change = match (&e.1, &e.2) {
                    (Option::None, Option::Some(n)) => KeyChange {
                        action: ChangeAction::Add,
                        old_value: None,
                        new_value: Some(n.duplicate()),
                    },
                    (Option::Some(o), Option::Some(n)) => KeyChange {
                        action: ChangeAction::Update,
                        old_value: Some(o.duplicate()),
                        new_value: Some(n.duplicate()),
                    },
                    (Option::Some(o), Option::None) => KeyChange {
                        action: ChangeAction::Delete,
                        old_value: Some(o.duplicate()),
                        new_value: None,
                    },
                    (Option::None, Option::None) => unreached(),
                };
                out.push((key, change));
                i = i + 1;
            }
            self.keys = Some(out);
        }
        match &self.keys {
            Some(v) => v,
            None => unreached(),
        }
    }
}

/// Relies on `yrs::types::map::MapEvent::target`: the map instance that
/// emitted the event.
#[verifier::external_body]
pub(crate) fn event_target_handle(e: &yrs::types::map::MapEvent) -> yrs::Map {
    e.target().clone()
}

/// Relies on `yrs::types::map::MapEvent::path`: the segments leading from
/// the document root down to the emitting map, a function of the event
/// alone.
#[verifier::external_body]
pub(crate) fn event_path(e: &yrs::types::map::MapEvent) -> (r: Vec<PathSegment>)
    ensures
        r@ == event_path_of(*e),
{
    e.path().into_iter().map(|p| match p {
        yrs::types::PathSegment::Key(k) => PathSegment::Key(k.to_string()),
        yrs::types::PathSegment::Index(i) => PathSegment::Index(i),
    }).collect()
}

/// Relies on `yrs::types::map::MapEvent::keys` and
/// `yrs::types::EntryChange`: one entry per changed key, where an insertion
/// carries the new value, an update the old and the new one, and a removal
/// the removed value.
#[verifier::external_body]
pub(crate) fn event_changes(e: &yrs::types::map::MapEvent, t: &yrs::Transaction) -> (r: Vec<
    (String, Option<Value>, Option<Value>),
>)
    ensures
        r@ == event_changes_of(*e, *t),
        raw_wf(r@),
{
    let conv = |v: &yrs::types::Value| value_from_any(v.clone().to_json());
    e.keys(t).iter().map(|(k, c)| match c {
        yrs::types::EntryChange::Inserted(n) => (k.to_string(), None, Some(conv(n))),
        yrs::types::EntryChange::Updated(o, n) => (k.to_string(), Some(conv(o)), Some(conv(n))),
        yrs::types::EntryChange::Removed(o) => (k.to_string(), Some(conv(o)), None),
    }).collect()
}

} // verus!
