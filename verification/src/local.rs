//! The preliminary (detached) key-value table: a fully owned, verified
//! association table, not yet visible to any other replica.

use vstd::prelude::*;
use crate::value::{Value, ValModel, value_model, pairs_model, str_eq,
    lemma_pairs_model_congruent};

verus! {

/// No two entries share a key.
pub open spec fn keys_unique(s: Seq<(String, Value)>) -> bool {
    forall|i: int, j: int| 0 <= i < j < s.len() ==> (#[trigger] s[i]).0@ != (#[trigger] s[j]).0@
}

/// Every key is a non-empty string.
pub open spec fn keys_nonempty(s: Seq<(String, Value)>) -> bool {
    forall|i: int| 0 <= i < s.len() ==> (#[trigger] s[i]).0@.len() > 0
}

/// A key is in the folded model exactly when some entry carries it.
pub proof fn lemma_pairs_model_contains(s: Seq<(String, Value)>, k: Seq<char>)
    ensures
        pairs_model(s).contains_key(k) <==> exists|i: int|
            0 <= i < s.len() && (#[trigger] s[i]).0@ == k,
    decreases s.len(),
{
    if s.len() > 0 {
        lemma_pairs_model_contains(s.drop_last(), k);
        assert(forall|i: int| 0 <= i < s.len() - 1 ==> s.drop_last()[i] == s[i]);
        assert(s.last() == s[s.len() - 1]);
        if s.last().0@ == k {
            assert(s[s.len() - 1].0@ == k);
        } else if pairs_model(s).contains_key(k) {
            let i = choose|i: int| 0 <= i < s.len() - 1 && (#[trigger] s.drop_last()[i]).0@ == k;
            assert(s[i].0@ == k);
        }
    }
}

/// Under key uniqueness, the model maps each entry's key to that entry's value.
pub proof fn lemma_pairs_model_lookup(s: Seq<(String, Value)>, i: int)
    requires
        keys_unique(s),
        0 <= i < s.len(),
    ensures
        pairs_model(s).contains_key(s[i].0@),
        pairs_model(s)[s[i].0@] == value_model(s[i].1),
    decreases s.len(),
{
    lemma_pairs_model_contains(s, s[i].0@);
    if i == s.len() - 1 {
        assert(s.last() == s[i]);
    } else {
        assert(s.last() == s[s.len() - 1]);
        assert(s.last().0@ != s[i].0@);
        assert(forall|j: int| 0 <= j < s.len() - 1 ==> s.drop_last()[j] == s[j]);
        lemma_pairs_model_lookup(s.drop_last(), i);
    }
}

/// Under key uniqueness, the model has exactly one key per entry.
pub proof fn lemma_pairs_model_len(s: Seq<(String, Value)>)
    requires
        keys_unique(s),
    ensures
        pairs_model(s).dom().finite(),
        pairs_model(s).dom().len() == s.len(),
    decreases s.len(),
{
    if s.len() > 0 {
        assert(forall|j: int| 0 <= j < s.len() - 1 ==> s.drop_last()[j] == s[j]);
        lemma_pairs_model_len(s.drop_last());
        lemma_pairs_model_contains(s.drop_last(), s.last().0@);
        assert(s.last() == s[s.len() - 1]);
        assert(!pairs_model(s.drop_last()).contains_key(s.last().0@));
        assert(pairs_model(s).dom() =~= pairs_model(s.drop_last()).dom().insert(s.last().0@));
    }
}

/// Appending an entry with a fresh key inserts it into the model.
pub proof fn lemma_pairs_model_push(s: Seq<(String, Value)>, k: String, v: Value)
    ensures
        pairs_model(s.push((k, v))) == pairs_model(s).insert(k@, value_model(v)),
{
    assert(s.push((k, v)).drop_last() =~= s);
    assert(s.push((k, v)).last() == (k, v));
}

/// Overwriting the entry that carries a key updates that key in the model.
pub proof fn lemma_pairs_model_update(s: Seq<(String, Value)>, i: int, p: (String, Value))
    requires
        keys_unique(s),
        0 <= i < s.len(),
        p.0@ == s[i].0@,
    ensures
        pairs_model(s.update(i, p)) == pairs_model(s).insert(p.0@, value_model(p.1)),
    decreases s.len(),
{
    let t = s.update(i, p);
    assert(t.last() == if i == s.len() - 1 { p } else { s.last() });
    if i == s.len() - 1 {
        assert(t.drop_last() =~= s.drop_last());
        assert(pairs_model(s).insert(p.0@, value_model(p.1)) =~= pairs_model(
            s.drop_last(),
        ).insert(p.0@, value_model(p.1)));
    } else {
        assert(forall|j: int| 0 <= j < s.len() - 1 ==> s.drop_last()[j] == s[j]);
        assert(t.drop_last() =~= s.drop_last().update(i, p));
        lemma_pairs_model_update(s.drop_last(), i, p);
        assert(s.last() == s[s.len() - 1]);
        assert(s.last().0@ != p.0@);
        assert(pairs_model(s.drop_last()).insert(p.0@, value_model(p.1)).insert(
            s.last().0@,
            value_model(s.last().1),
        ) =~= pairs_model(s.drop_last()).insert(s.last().0@, value_model(s.last().1)).insert(
            p.0@,
            value_model(p.1),
        ));
    }
}

/// Removing the entry that carries a key removes that key from the model.
pub proof fn lemma_pairs_model_remove(s: Seq<(String, Value)>, i: int)
    requires
        keys_unique(s),
        0 <= i < s.len(),
    ensures
        pairs_model(s.remove(i)) == pairs_model(s).remove(s[i].0@),
    decreases s.len(),
{
    let k = s[i].0@;
    let t = s.remove(i);
    assert(forall|j: int| 0 <= j < s.len() - 1 ==> s.drop_last()[j] == s[j]);
    if i == s.len() - 1 {
        assert(t =~= s.drop_last());
        lemma_pairs_model_contains(s.drop_last(), k);
        assert(!pairs_model(s.drop_last()).contains_key(k));
        assert(pairs_model(s).remove(k) =~= pairs_model(s.drop_last()));
    } else {
        assert(s.last() == s[s.len() - 1]);
        assert(t.last() == s.last());
        assert(t.drop_last() =~= s.drop_last().remove(i));
        lemma_pairs_model_remove(s.drop_last(), i);
        assert(s.last().0@ != k);
        assert(pairs_model(s.drop_last()).remove(k).insert(
            s.last().0@,
            value_model(s.last().1),
        ) =~= pairs_model(s.drop_last()).insert(s.last().0@, value_model(s.last().1)).remove(k));
    }
}

/// The preliminary table: string keys to values, keys unique and non-empty.
pub struct PrelimTable {
    pairs: Vec<(String, Value)>,
}

impl View for PrelimTable {
    type V = Map<Seq<char>, ValModel>;

    closed spec fn view(&self) -> Map<Seq<char>, ValModel> {
        pairs_model(self.pairs@)
    }
}

impl PrelimTable {
    /// The entries in storage order.
    pub closed spec fn entries_seq(&self) -> Seq<(String, Value)> {
        self.pairs@
    }

    /// Well-formed: keys are unique and non-empty.
    pub closed spec fn wf(&self) -> bool {
        keys_unique(self.pairs@) && keys_nonempty(self.pairs@)
    }

    /// Number of stored entries.
    pub closed spec fn size(&self) -> nat {
        self.pairs@.len()
    }

    /// A well-formed table's entry list has unique keys and folds into its
    /// own model.
    pub proof fn lemma_wf_unique(&self)
        requires
            self.wf(),
        ensures
            keys_unique(self.entries_seq()),
            pairs_model(self.entries_seq()) == self@,
    {
    }

    /// A well-formed table has exactly one entry per key of its model.
    pub proof fn lemma_size(&self)
        requires
            self.wf(),
        ensures
            self@.dom().finite(),
            self@.dom().len() == self.size(),
    {
        lemma_pairs_model_len(self.pairs@);
    }

    pub fn new() -> (r: PrelimTable)
        ensures
            r@ == Map::<Seq<char>, ValModel>::empty(),
            r.wf(),
            r.size() == 0,
    {
        PrelimTable { pairs: Vec::new() }
    }

    /// Index of the entry carrying `key`, if any.
    fn find(&self, key: &str) -> (r: Option<usize>)
        ensures
            match r {
                Some(i) => i < self.pairs@.len() && self.pairs@[i as int].0@ == key@,
                None => forall|j: int|
                    0 <= j < self.pairs@.len() ==> (#[trigger] self.pairs@[j]).0@ != key@,
            },
    {
        let mut i: usize = 0;
        while i < self.pairs.len()
            invariant
                i <= self.pairs@.len(),
                forall|j: int| 0 <= j < i ==> (#[trigger] self.pairs@[j]).0@ != key@,
            decreases self.pairs@.len() - i,
        {
            if str_eq(self.pairs[i].0.as_str(), key) {
                return Some(i);
            }
            i = i + 1;
        }
        None
    }

    /// The stored value under `key`, or `None` if no entry exists.
    pub fn get(&self, key: &str) -> (r: Option<&Value>)
        requires
            self.wf(),
        ensures
            match r {
                Some(v) => self@.contains_key(key@) && v@ == self@[key@],
                None => !self@.contains_key(key@),
            },
    {
        proof {
            lemma_pairs_model_contains(self.pairs@, key@);
        }
        match self.find(key) {
            Some(i) => {
                proof {
                    lemma_pairs_model_lookup(self.pairs@, i as int);
                }
                Some(&self.pairs[i].1)
            },
            None => None,
        }
    }

    /// Stores `value` under `key`, overwriting any previous entry.
    pub fn insert(&mut self, key: String, value: Value)
        requires
            old(self).wf(),
            key@.len() > 0,
        ensures
            final(self).wf(),
            final(self)@ == old(self)@.insert(key@, value@),
            final(self).size() == if old(self)@.contains_key(key@) {
                old(self).size()
            } else {
                old(self).size() + 1
            },
    {
        proof {
            lemma_pairs_model_contains(self.pairs@, key@);
        }
        match self.find(key.as_str()) {
            Some(i) => {
                proof {
                    lemma_pairs_model_update(self.pairs@, i as int, (key, value));
                }
                let ghost before = self.pairs@;
                self.pairs.set(i, (key, value));
                proof {
                    assert(forall|j: int|
                        0 <= j < before.len() && j != i ==> self.pairs@[j] == before[j]);
                }
            },
            None => {
                proof {
                    lemma_pairs_model_push(self.pairs@, key, value);
                }
                let ghost before = self.pairs@;
                self.pairs.push((key, value));
                proof {
                    assert(forall|j: int| 0 <= j < before.len() ==> self.pairs@[j] == before[j]);
                }
            },
        }
    }

    /// Removes the entry under `key`, if any.
    pub fn remove(&mut self, key: &str)
        requires
            old(self).wf(),
        ensures
            final(self).wf(),
            final(self)@ == old(self)@.remove(key@),
            final(self).size() == if old(self)@.contains_key(key@) {
                (old(self).size() - 1) as nat
            } else {
                old(self).size()
            },
    {
        proof {
            lemma_pairs_model_contains(self.pairs@, key@);
        }
        match self.find(key) {
            Some(i) => {
                proof {
                    lemma_pairs_model_remove(self.pairs@, i as int);
                }
                let ghost before = self.pairs@;
                let _ = self.pairs.remove(i);
                proof {
                    assert(forall|j: int|
                        0 <= j < before.len() - 1 ==> self.pairs@[j] == if j < i {
                            before[j]
                        } else {
                            before[j + 1]
                        });
                }
            },
            None => {
                proof {
                    assert(self@.remove(key@) =~= self@);
                }
            },
        }
    }

    /// Number of stored entries.
    pub fn len(&self) -> (r: usize)
        ensures
            r == self.size(),
            r == self.entries_seq().len(),
    {
        self.pairs.len()
    }

    /// The entry at a storage position; order is unspecified.
    pub fn entry_at(&self, i: usize) -> (r: &(String, Value))
        requires
            i < self.size(),
        ensures
            *r == self.entries_seq()[i as int],
    {
        &self.pairs[i]
    }

    /// An owned copy of all entries, with the same model.
    pub fn export(&self) -> (r: Vec<(String, Value)>)
        ensures
            pairs_model(r@) == self@,
            r@.len() == self.size(),
    {
        let mut out: Vec<(String, Value)> = Vec::new();
        let mut i: usize = 0;
        while i < self.pairs.len()
            invariant
                i <= self.pairs@.len(),
                out@.len() == i,
                forall|j: int| 0 <= j < i ==> (#[trigger] out@[j]).0@ == self.pairs@[j].0@
                    && out@[j].1@ == self.pairs@[j].1@,
            decreases self.pairs@.len() - i,
        {
            let k = self.pairs[i].0.clone();
            let v = self.pairs[i].1.duplicate();
            out.push((k, v));
            i = i + 1;
        }
        proof {
            lemma_pairs_model_congruent(out@, self.pairs@);
        }
        out
    }
}

} // verus!
