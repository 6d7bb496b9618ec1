//! Laws of the map model. Both container states describe their operations
//! over the same mathematical map of key to value model — the local table
//! through its view, the integrated state through the engine contents — so
//! each law below holds of a container in either state.

use vstd::prelude::*;
use crate::value::ValModel;

verus! {

/// Read-your-writes: after storing `v` under `k`, reading `k` in the same
/// transaction yields exactly `v`.
pub proof fn law_set_then_get(m: Map<Seq<char>, ValModel>, k: Seq<char>, v: ValModel)
    ensures
        m.insert(k, v).contains_key(k),
        m.insert(k, v)[k] == v,
{
}

/// After deleting `k`, reading `k` yields nothing, and the number of live
/// entries drops by exactly one if `k` was present, by zero otherwise.
pub proof fn law_delete_then_get(m: Map<Seq<char>, ValModel>, k: Seq<char>)
    requires
        m.dom().finite(),
    ensures
        !m.remove(k).contains_key(k),
        m.remove(k).dom().len() == if m.contains_key(k) {
            m.dom().len() - 1
        } else {
            m.dom().len() as int
        },
{
    if m.contains_key(k) {
        assert(m.remove(k).dom() =~= m.dom().remove(k));
    } else {
        assert(m.remove(k) =~= m);
    }
}

/// Deleting a key twice in a row has the same observable effect as deleting
/// it once.
pub proof fn law_delete_twice(m: Map<Seq<char>, ValModel>, k: Seq<char>)
    ensures
        m.remove(k).remove(k) == m.remove(k),
{
    assert(m.remove(k).remove(k) =~= m.remove(k));
}

/// As `length` reports it: deleting `k` lowers the reported count by exactly
/// one if `k` was live, by zero otherwise. The count a preliminary container
/// reports saturates at `u32::MAX`, so the law asks the entry count to sit
/// below that bound; an integrated container's count is exact and needs no
/// bound.
pub proof fn law_delete_decrements_length(m: Map<Seq<char>, ValModel>, k: Seq<char>)
    requires
        m.dom().finite(),
        m.dom().len() < u32::MAX as nat,
    ensures
        ({
            let before = vstd::math::min(m.dom().len() as int, u32::MAX as int);
            let after = vstd::math::min(m.remove(k).dom().len() as int, u32::MAX as int);
            after == if m.contains_key(k) {
                before - 1
            } else {
                before
            }
        }),
        m.remove(k).dom().len() == if m.contains_key(k) {
            m.dom().len() - 1
        } else {
            m.dom().len() as int
        },
{
    law_delete_then_get(m, k);
}

/// Storing under a key and then deleting it restores a map in which the key
/// is absent; deleting first and then storing leaves the stored value.
pub proof fn law_set_delete_order(m: Map<Seq<char>, ValModel>, k: Seq<char>, v: ValModel)
    ensures
        !m.insert(k, v).remove(k).contains_key(k),
        m.remove(k).insert(k, v)[k] == v,
{
}

} // verus!
