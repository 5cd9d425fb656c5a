//! The laws of the registry: what identifier allocation and the
//! create/replace/close transitions guarantee across whole call sequences,
//! stated over the same spec functions the handlers' contracts use.

use vstd::prelude::*;

use crate::daemon::advance_counter;
use crate::daemon::Notification;

verus! {

broadcast use vstd::set::group_set_axioms, vstd::map::group_map_axioms;

/// Allocation never yields 0, and consecutive allocations strictly increase
/// until the counter wraps past the maximum, after which the next allocated
/// id is 1.
pub proof fn lemma_allocation_monotonic(c: u32)
    requires
        c != 0,
    ensures
        advance_counter(c) != 0,
        c != u32::MAX ==> advance_counter(c) > c,
        c == u32::MAX ==> advance_counter(c) == 1,
{
}

/// The ids handed out by `n` successive allocations starting from counter `c`.
pub open spec fn ids_allocated(c: u32, n: nat) -> Seq<u32>
    decreases n,
{
    if n == 0 {
        Seq::empty()
    } else {
        seq![c] + ids_allocated(advance_counter(c), (n - 1) as nat)
    }
}

/// The set of tracked ids after `n` Notify calls with a zero replaces_id,
/// starting from tracked-id set `dom` and counter `c`: each call inserts the
/// id it allocates.
pub open spec fn tracked_after_fresh_notifies(dom: Set<u32>, c: u32, n: nat) -> Set<u32>
    decreases n,
{
    if n == 0 {
        dom
    } else {
        tracked_after_fresh_notifies(dom.insert(c), advance_counter(c), (n - 1) as nat)
    }
}

/// For any sequence of `n` Notify calls with a zero replaces_id that stays
/// within one pass of the id space and whose allocated ids are not already
/// tracked: the returned ids are the `n` consecutive counter values, pairwise
/// distinct and never 0, and the number of tracked records grows by exactly
/// one per call.
pub proof fn lemma_fresh_notify_sequence(dom: Set<u32>, c: u32, n: nat)
    requires
        dom.finite(),
        1 <= c,
        n <= u32::MAX - c + 1,
        forall|i: int| 0 <= i < n ==> !(#[trigger] dom.contains((c + i) as u32)),
    ensures
        ids_allocated(c, n).len() == n,
        forall|i: int| 0 <= i < n ==> ids_allocated(c, n)[i] == c + i,
        forall|i: int| 0 <= i < n ==> ids_allocated(c, n)[i] != 0,
        ids_allocated(c, n).no_duplicates(),
        tracked_after_fresh_notifies(dom, c, n).finite(),
        tracked_after_fresh_notifies(dom, c, n).len() == dom.len() + n,
    decreases n,
{
    if n > 0 {
        let c2 = advance_counter(c);
        let n2 = (n - 1) as nat;
        let dom2 = dom.insert(c);
        assert(!dom.contains((c + 0) as u32));
        assert(dom2.len() == dom.len() + 1);
        if c == u32::MAX {
            assert(n == 1);
            lemma_fresh_notify_sequence(dom2, c2, n2);
            assert(ids_allocated(c, n) =~= seq![c]);
        } else {
            assert(c2 == c + 1);
            assert forall|i: int| 0 <= i < n2 implies !(#[trigger] dom2.contains((c2 + i) as u32)) by {
                assert(!dom.contains((c + (i + 1)) as u32));
            }
            lemma_fresh_notify_sequence(dom2, c2, n2);
            let ids = ids_allocated(c, n);
            let rest = ids_allocated(c2, n2);
            assert forall|i: int| 0 <= i < n implies ids[i] == c + i by {
                if i > 0 {
                    assert(rest[i - 1] == c2 + (i - 1));
                }
            }
        }
        let ids = ids_allocated(c, n);
        assert forall|i: int, j: int| 0 <= i < n && 0 <= j < n && i != j implies ids[i] != ids[j] by {
            assert(ids[i] == c + i);
            assert(ids[j] == c + j);
        }
        assert(ids.no_duplicates());
    }
}

/// What one Notify does to the store: the record under the effective id is
/// created or overwritten with the supplied fields and every other record is
/// untouched; the count stays the same when the id was tracked and grows by
/// exactly one when it was not.
pub proof fn lemma_upsert(m: Map<u32, Notification>, id: u32, record: Notification)
    requires
        m.dom().finite(),
    ensures
        m.insert(id, record).dom() == m.dom().insert(id),
        m.insert(id, record)[id] == record,
        forall|k: u32| k != id && m.contains_key(k) ==> m.insert(id, record)[k] == m[k],
        m.contains_key(id) ==> m.insert(id, record).len() == m.len(),
        !m.contains_key(id) ==> m.insert(id, record).len() == m.len() + 1,
{
    assert(m.insert(id, record).dom() =~= m.dom().insert(id));
}

/// Closing a tracked id removes exactly that record and lowers the count by
/// one, and a second close of the same id is a no-op.
pub proof fn lemma_close_tracked(m: Map<u32, Notification>, id: u32)
    requires
        m.dom().finite(),
        m.contains_key(id),
    ensures
        m.remove(id).len() == m.len() - 1,
        !m.remove(id).contains_key(id),
        forall|k: u32| k != id && m.contains_key(k) ==> m.remove(id).contains_key(k)
            && m.remove(id)[k] == m[k],
        m.remove(id).remove(id) == m.remove(id),
{
    m.lemma_remove_key_len(id);
    lemma_close_untracked(m.remove(id), id);
}

/// Closing an untracked id leaves the store exactly as it was.
pub proof fn lemma_close_untracked(m: Map<u32, Notification>, id: u32)
    requires
        !m.contains_key(id),
    ensures
        m.remove(id) == m,
{
    assert(m.remove(id) =~= m);
}

} // verus!
