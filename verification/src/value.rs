//! The storable value kinds: JSON-like primitives, sequences and objects.

use vstd::prelude::*;

verus! {

/// A JSON-like value that can be stored under a key of a shared map.
/// Values are immutable once read; mutation always replaces a whole entry.
#[derive(Debug, PartialEq)]
pub enum Value {
    Null,
    Bool(bool),
    Int(i64),
    Str(String),
    List(Vec<Value>),
    Object(Vec<(String, Value)>),
}

/// The mathematical model of a [`Value`]: strings become character
/// sequences, lists become sequences, and objects become finite maps
/// from key to model value.
pub enum ValModel {
    Null,
    Bool(bool),
    Int(int),
    Str(Seq<char>),
    List(Seq<ValModel>),
    Object(Map<Seq<char>, ValModel>),
}

/// Model of a list of values.
pub open spec fn seq_model(s: Seq<Value>) -> Seq<ValModel>
    decreases s,
{
    if s.len() == 0 {
        Seq::empty()
    } else {
        seq_model(s.drop_last()).push(value_model(s.last()))
    }
}

/// Model of an object: the association list folded into a map, where a
/// later pair with the same key overrides an earlier one.
pub open spec fn pairs_model(s: Seq<(String, Value)>) -> Map<Seq<char>, ValModel>
    decreases s,
{
    if s.len() == 0 {
        Map::empty()
    } else {
        pairs_model(s.drop_last()).insert(s.last().0@, value_model(s.last().1))
    }
}

/// Model of a single value.
pub open spec fn value_model(v: Value) -> ValModel
    decreases v,
{
    match v {
        Value::Null => ValModel::Null,
        Value::Bool(b) => ValModel::Bool(b),
        Value::Int(i) => ValModel::Int(i as int),
        Value::Str(s) => ValModel::Str(s@),
        Value::List(xs) => ValModel::List(seq_model(xs@)),
        Value::Object(ps) => ValModel::Object(pairs_model(ps@)),
    }
}

impl View for Value {
    type V = ValModel;

    open spec fn view(&self) -> ValModel {
        value_model(*self)
    }
}

/// Structural size of a value, used as a termination measure when walking
/// nested values.
pub open spec fn vsize(v: Value) -> nat
    decreases v,
{
    match v {
        Value::Null => 1,
        Value::Bool(_) => 1,
        Value::Int(_) => 1,
        Value::Str(_) => 1,
        Value::List(xs) => 1 + vseq_size(xs@),
        Value::Object(ps) => 1 + vpairs_size(ps@),
    }
}

/// Summed size of a sequence of values.
pub open spec fn vseq_size(s: Seq<Value>) -> nat
    decreases s,
{
    if s.len() == 0 {
        0
    } else {
        vseq_size(s.drop_last()) + vsize(s.last())
    }
}

/// Summed size of the values of an association list.
pub open spec fn vpairs_size(s: Seq<(String, Value)>) -> nat
    decreases s,
{
    if s.len() == 0 {
        0
    } else {
        vpairs_size(s.drop_last()) + vsize(s.last().1)
    }
}

/// Every element of a sequence weighs no more than the whole sequence.
proof fn lemma_vseq_size_element(s: Seq<Value>, i: int)
    requires
        0 <= i < s.len(),
    ensures
        vsize(s[i]) <= vseq_size(s),
    decreases s.len(),
{
    if i == s.len() - 1 {
        assert(s.last() == s[i]);
    } else {
        assert(s.drop_last()[i] == s[i]);
        lemma_vseq_size_element(s.drop_last(), i);
    }
}

/// Every value of an association list weighs no more than the whole list.
proof fn lemma_vpairs_size_element(s: Seq<(String, Value)>, i: int)
    requires
        0 <= i < s.len(),
    ensures
        vsize(s[i].1) <= vpairs_size(s),
    decreases s.len(),
{
    if i == s.len() - 1 {
        assert(s.last() == s[i]);
    } else {
        assert(s.drop_last()[i] == s[i]);
        lemma_vpairs_size_element(s.drop_last(), i);
    }
}

impl Value {
    /// Structure-preserving copy: the copy has the same model as the original.
    pub fn duplicate(&self) -> (r: Value)
        ensures
            r@ == self@,
        decreases vsize(*self),
    {
        match self {
            Value::Null => Value::Null,
            Value::Bool(b) => Value::Bool(*b),
            Value::Int(i) => Value::Int(*i),
            Value::Str(s) => Value::Str(s.clone()),
            Value::List(xs) => {
                let mut out: Vec<Value> = Vec::new();
                let mut i: usize = 0;
                while i < xs.len()
                    invariant
                        i <= xs.len(),
                        out@.len() == i,
                        vsize(*self) == 1 + vseq_size(xs@),
                        forall|j: int| 0 <= j < i ==> out@[j]@ == xs@[j]@,
                    decreases xs.len() - i,
                {
                    proof {
                        lemma_vseq_size_element(xs@, i as int);
                    }
                    out.push(xs[i].duplicate());
                    i = i + 1;
                }
                proof {
                    lemma_seq_model_index(out@);
                    lemma_seq_model_index(xs@);
                    assert(seq_model(out@) =~= seq_model(xs@));
                }
                Value::List(out)
            },
            Value::Object(ps) => {
                let mut out: Vec<(String, Value)> = Vec::new();
                let mut i: usize = 0;
                while i < ps.len()
                    invariant
                        i <= ps.len(),
                        out@.len() == i,
                        vsize(*self) == 1 + vpairs_size(ps@),
                        forall|j: int| 0 <= j < i ==> out@[j].0@ == ps@[j].0@
                            && out@[j].1@ == ps@[j].1@,
                    decreases ps.len() - i,
                {
                    proof {
                        lemma_vpairs_size_element(ps@, i as int);
                    }
                    let k = ps[i].0.clone();
                    let v = ps[i].1.duplicate();
                    out.push((k, v));
                    i = i + 1;
                }
                proof {
                    lemma_pairs_model_congruent(out@, ps@);
                }
                Value::Object(out)
            },
        }
    }
}

/// The model of a list of values, element by element.
pub proof fn lemma_seq_model_index(s: Seq<Value>)
    ensures
        seq_model(s).len() == s.len(),
        forall|i: int| 0 <= i < s.len() ==> seq_model(s)[i] == value_model(s[i]),
    decreases s.len(),
{
    if s.len() > 0 {
        lemma_seq_model_index(s.drop_last());
        assert(forall|i: int| 0 <= i < s.len() - 1 ==> s.drop_last()[i] == s[i]);
        assert(s.last() == s[s.len() - 1]);
    }
}

/// Two association lists whose keys and value models agree pairwise fold
/// into the same object model.
pub proof fn lemma_pairs_model_congruent(a: Seq<(String, Value)>, b: Seq<(String, Value)>)
    requires
        a.len() == b.len(),
        forall|j: int| 0 <= j < a.len() ==> (#[trigger] a[j]).0@ == (#[trigger] b[j]).0@
            && a[j].1@ == b[j].1@,
    ensures
        pairs_model(a) == pairs_model(b),
    decreases a.len(),
{
    if a.len() > 0 {
        assert(forall|j: int| 0 <= j < a.len() - 1 ==> a.drop_last()[j] == a[j]
            && b.drop_last()[j] == b[j]);
        lemma_pairs_model_congruent(a.drop_last(), b.drop_last());
        assert(a.last() == a[a.len() - 1]);
        assert(b.last() == b[b.len() - 1]);
    }
}

/// Relies on `str`'s `PartialEq`: two string slices are equal exactly when
/// their character sequences are equal.
#[verifier::external_body]
pub fn str_eq(a: &str, b: &str) -> (r: bool)
    ensures
        r == (a@ == b@),
{
    a == b
}

} // verus!
