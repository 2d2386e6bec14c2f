//! Laws of the registry: what one operation undoes, what balanced use leaves
//! behind, and how operations on different keys relate.
use vstd::prelude::*;
use crate::registry::{Slot, slots_wf, acquired, released, holders_of};

verus! {

/// The registry after `n` more holders of `key` obtained their handles.
pub open spec fn acquired_times<K, V>(m: Map<K, Slot<V>>, key: K, fresh: V, n: nat) -> Map<K, Slot<V>>
    decreases n,
{
    if n == 0 {
        m
    } else {
        acquired(acquired_times(m, key, fresh, (n - 1) as nat), key, fresh)
    }
}

/// The registry after `n` holders of `key` gave their handles back, one after
/// the other.
pub open spec fn released_times<K, V>(m: Map<K, Slot<V>>, key: K, n: nat) -> Map<K, Slot<V>>
    decreases n,
{
    if n == 0 {
        m
    } else {
        released_times(released(m, key), key, (n - 1) as nat)
    }
}

/// Acquiring and releasing keep every registered key with at least one holder.
pub proof fn lemma_operations_keep_well_formed<K, V>(m: Map<K, Slot<V>>, key: K, fresh: V)
    requires
        slots_wf(m),
    ensures
        slots_wf(acquired(m, key, fresh)),
        slots_wf(released(m, key)),
{
}

/// A release right after an acquire of the same key gives back the registry
/// as it was, as long as the key's holder count stays below saturation.
pub proof fn lemma_release_undoes_acquire<K, V>(m: Map<K, Slot<V>>, key: K, fresh: V)
    requires
        slots_wf(m),
        holders_of(m, key) + 1 < usize::MAX,
    ensures
        released(acquired(m, key, fresh), key) == m,
{
    assert(released(acquired(m, key, fresh), key) =~= m);
}

/// `n` acquires of a key add `n` holders to it and touch no other key.
pub proof fn lemma_acquired_times<K, V>(m: Map<K, Slot<V>>, key: K, fresh: V, n: nat)
    requires
        slots_wf(m),
        holders_of(m, key) + n < usize::MAX,
    ensures
        slots_wf(acquired_times(m, key, fresh, n)),
        holders_of(acquired_times(m, key, fresh, n), key) == holders_of(m, key) + n,
        acquired_times(m, key, fresh, n).remove(key) == m.remove(key),
        n > 0 ==> acquired_times(m, key, fresh, n)[key].handle == acquired(m, key, fresh)[key].handle,
    decreases n,
{
    if n > 0 {
        let prev = acquired_times(m, key, fresh, (n - 1) as nat);
        lemma_acquired_times(m, key, fresh, (n - 1) as nat);
        lemma_operations_keep_well_formed(prev, key, fresh);
        assert(acquired(prev, key, fresh).remove(key) =~= prev.remove(key));
    }
}

/// `j` releases of a key that has at least `j` holders take `j` holders away
/// from it and touch no other key: the key stays registered exactly as long
/// as holders remain.
pub proof fn lemma_released_times<K, V>(m: Map<K, Slot<V>>, key: K, j: nat)
    requires
        slots_wf(m),
        holders_of(m, key) < usize::MAX,
        j <= holders_of(m, key),
    ensures
        slots_wf(released_times(m, key, j)),
        holders_of(released_times(m, key, j), key) == holders_of(m, key) - j,
        released_times(m, key, j).contains_key(key) <==> j < holders_of(m, key),
        released_times(m, key, j).remove(key) == m.remove(key),
        j < holders_of(m, key) ==> released_times(m, key, j)[key].handle == m[key].handle,
    decreases j,
{
    if j > 0 {
        let next = released(m, key);
        lemma_operations_keep_well_formed(m, key, next[key].handle);
        assert(next.remove(key) =~= m.remove(key));
        lemma_released_times(next, key, (j - 1) as nat);
    }
}

/// Balanced use leaves no trace: after `n` lockers of a key obtained their
/// handles and all `n` gave them back, the registry is what it was before;
/// in particular a key that was not registered is not registered afterwards.
pub proof fn lemma_balanced_use_restores<K, V>(m: Map<K, Slot<V>>, key: K, fresh: V, n: nat)
    requires
        slots_wf(m),
        holders_of(m, key) + n < usize::MAX,
    ensures
        released_times(acquired_times(m, key, fresh, n), key, n) == m,
    decreases n,
{
    if n > 0 {
        let prev = acquired_times(m, key, fresh, (n - 1) as nat);
        lemma_acquired_times(m, key, fresh, (n - 1) as nat);
        lemma_release_undoes_acquire(prev, key, fresh);
        lemma_balanced_use_restores(m, key, fresh, (n - 1) as nat);
    }
}

/// While some of `n` holders of a key have not given their handles back, the
/// key stays registered, with the handle that the first of them received.
pub proof fn lemma_registered_while_held<K, V>(m: Map<K, Slot<V>>, key: K, fresh: V, n: nat, j: nat)
    requires
        slots_wf(m),
        holders_of(m, key) + n < usize::MAX,
        j < n,
    ensures
        released_times(acquired_times(m, key, fresh, n), key, j).contains_key(key),
        released_times(acquired_times(m, key, fresh, n), key, j)[key].handle
            == acquired(m, key, fresh)[key].handle,
{
    lemma_acquired_times(m, key, fresh, n);
    lemma_released_times(acquired_times(m, key, fresh, n), key, j);
}

/// Lockers of one key share one lock: a second acquire of a key hands out the
/// handle that the first one registered, and an acquire of a registered key
/// keeps its handle.
pub proof fn lemma_same_key_shares_handle<K, V>(m: Map<K, Slot<V>>, key: K, first: V, second: V)
    ensures
        acquired(acquired(m, key, first), key, second)[key].handle == acquired(m, key, first)[key].handle,
        m.contains_key(key) ==> acquired(m, key, first)[key].handle == m[key].handle,
        !m.contains_key(key) ==> acquired(m, key, first)[key] == (Slot { handle: first, holders: 1 }),
{
}

/// Operations on one key leave every other key as it was.
pub proof fn lemma_other_keys_untouched<K, V>(m: Map<K, Slot<V>>, key: K, other: K, fresh: V)
    requires
        key != other,
    ensures
        acquired(m, key, fresh).contains_key(other) == m.contains_key(other),
        released(m, key).contains_key(other) == m.contains_key(other),
        m.contains_key(other) ==> acquired(m, key, fresh)[other] == m[other],
        m.contains_key(other) ==> released(m, key)[other] == m[other],
{
}

/// Operations on different keys commute: locks of different keys do not
/// interfere with each other.
pub proof fn lemma_different_keys_commute<K, V>(m: Map<K, Slot<V>>, a: K, b: K, fresh_a: V, fresh_b: V)
    requires
        a != b,
    ensures
        acquired(acquired(m, a, fresh_a), b, fresh_b) == acquired(acquired(m, b, fresh_b), a, fresh_a),
        released(released(m, a), b) == released(released(m, b), a),
        released(acquired(m, a, fresh_a), b) == acquired(released(m, b), a, fresh_a),
{
    assert(acquired(acquired(m, a, fresh_a), b, fresh_b) =~= acquired(acquired(m, b, fresh_b), a, fresh_a));
    assert(released(released(m, a), b) =~= released(released(m, b), a));
    assert(released(acquired(m, a, fresh_a), b) =~= acquired(released(m, b), a, fresh_a));
}

/// An acquire registers one more key exactly when the key was not registered;
/// a release retires one key exactly when it took back the key's last holder.
pub proof fn lemma_registry_len<K, V>(m: Map<K, Slot<V>>, key: K, fresh: V)
    requires
        slots_wf(m),
    ensures
        acquired(m, key, fresh).len() == m.len() + (if m.contains_key(key) { 0int } else { 1int }),
        released(m, key).len() == m.len() - (if holders_of(m, key) == 1 { 1int } else { 0int }),
{
    if m.contains_key(key) {
        assert(acquired(m, key, fresh).dom() =~= m.dom());
        if m[key].holders == 1 {
            assert(released(m, key).dom() =~= m.dom().remove(key));
        } else if m[key].holders != usize::MAX {
            assert(released(m, key).dom() =~= m.dom());
        }
    } else {
        assert(acquired(m, key, fresh).dom() =~= m.dom().insert(key));
    }
}

/// Dropping one of several holders of a key gives back exactly one holder:
/// the key stays registered, with the same mutex, and one holder fewer, so
/// the holders that remain keep sharing that mutex.
pub proof fn lemma_release_keeps_shared_key<K, V>(m: Map<K, Slot<V>>, key: K)
    requires
        slots_wf(m),
        2 <= holders_of(m, key),
        holders_of(m, key) < usize::MAX,
    ensures
        released(m, key).contains_key(key),
        released(m, key)[key].handle == m[key].handle,
        holders_of(released(m, key), key) == holders_of(m, key) - 1,
{
}

/// Every locker of a key that arrives while the key is held is handed the
/// mutex that the first of them was handed: a second acquire, after any
/// releases that leave a holder, hands out the handle the registry already
/// stores.
pub proof fn lemma_lockers_share_the_stored_mutex<K, V>(m: Map<K, Slot<V>>, key: K, first: V, later: V)
    requires
        slots_wf(m),
        m.contains_key(key),
    ensures
        acquired(m, key, later)[key].handle == m[key].handle,
        acquired(m, key, first)[key].handle == acquired(m, key, later)[key].handle,
{
}

} // verus!
