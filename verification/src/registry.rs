//! The registry of per-key locks shared by every keyed lock of this crate.
use std::collections::HashMap;
use std::hash::Hash;
use vstd::prelude::*;
use vstd::pervasive::strictly_cloned;
use vstd::std_specs::hash::obeys_key_model;
use crate::laws::lemma_registry_len;

verus! {

broadcast use vstd::std_specs::hash::group_hash_axioms;

/// What the registry keeps for one key: the handle of the key's own lock and
/// the number of holders, that is guards alive and lockers still waiting,
/// that obtained this handle and have not given it back yet.
pub struct Slot<V> {
    pub handle: V,
    pub holders: usize,
}

/// Keys whose hashing and equality follow the hash-table model and whose
/// clones equal what they were cloned from: what a `HashMap` needs of its keys to behave
/// as a map.
pub open spec fn lawful_key<K: Clone>() -> bool {
    &&& obeys_key_model::<K>()
    &&& forall|a: K, b: K| #[trigger] strictly_cloned::<K>(a, b) ==> a == b
}

/// Finitely many keys are registered, each with at least one holder.
pub open spec fn slots_wf<K, V>(m: Map<K, Slot<V>>) -> bool {
    &&& m.dom().finite()
    &&& forall|k: K| #[trigger] m.contains_key(k) ==> m[k].holders >= 1
}

/// The holder count after one more holder joins: saturates at `usize::MAX`,
/// where the slot stays pinned for good.
pub open spec fn bumped(holders: usize) -> usize {
    if holders == usize::MAX {
        holders
    } else {
        (holders + 1) as usize
    }
}

/// The registry after a locker of `key` obtained its handle; `fresh` is the
/// handle that a key not yet registered receives.
pub open spec fn acquired<K, V>(m: Map<K, Slot<V>>, key: K, fresh: V) -> Map<K, Slot<V>> {
    if m.contains_key(key) {
        m.insert(key, Slot { handle: m[key].handle, holders: bumped(m[key].holders) })
    } else {
        m.insert(key, Slot { handle: fresh, holders: 1 })
    }
}

/// The registry after one holder of `key` gave its handle back: the last
/// holder retires the key, a pinned slot stays as it is.
pub open spec fn released<K, V>(m: Map<K, Slot<V>>, key: K) -> Map<K, Slot<V>> {
    if !m.contains_key(key) || m[key].holders == usize::MAX {
        m
    } else if m[key].holders <= 1 {
        m.remove(key)
    } else {
        m.insert(key, Slot { handle: m[key].handle, holders: (m[key].holders - 1) as usize })
    }
}

/// `handle` is what an acquire of `key` hands out: a clone of the handle that
/// a well-formed registry stores for `key` once that acquire is done.
pub open spec fn handed_out<K, V: Clone>(key: K, handle: V) -> bool {
    exists|before: Map<K, Slot<V>>, fresh: V|
        #![trigger acquired(before, key, fresh)]
        slots_wf(before) && cloned::<V>(acquired(before, key, fresh)[key].handle, handle)
}

/// The number of holders of `key`, zero where it is not registered.
pub open spec fn holders_of<K, V>(m: Map<K, Slot<V>>, key: K) -> nat {
    if m.contains_key(key) {
        m[key].holders as nat
    } else {
        0
    }
}

/// A map from keys to the lock that guards each key, with the number of
/// holders of each lock.
pub struct Registry<K: Eq + Hash + Clone, V> {
    slots: HashMap<K, Slot<V>>,
}

impl<K: Eq + Hash + Clone, V> View for Registry<K, V> {
    type V = Map<K, Slot<V>>;

    closed spec fn view(&self) -> Map<K, Slot<V>> {
        self.slots@
    }
}

impl<K: Eq + Hash + Clone, V> Registry<K, V> {
    #[verifier::type_invariant]
    spec fn well_formed(self) -> bool {
        &&& lawful_key::<K>()
        &&& slots_wf(self.slots@)
    }

    /// Creates an empty registry.
    pub fn new() -> (registry: Self)
        requires
            lawful_key::<K>(),
        ensures
            registry@ == Map::<K, Slot<V>>::empty(),
    {
        Registry { slots: HashMap::new() }
    }

    /// The number of registered keys.
    pub fn len(&self) -> (n: usize)
        ensures
            n == self@.len(),
            slots_wf(self@),
    {
        proof { use_type_invariant(self); }
        self.slots.len()
    }

    /// Whether `key` is registered.
    pub fn contains_key(&self, key: &K) -> (found: bool)
        ensures
            found == self@.contains_key(*key),
            slots_wf(self@),
    {
        proof { use_type_invariant(self); }
        self.slots.contains_key(key)
    }

    /// The number of holders of `key`, zero where it is not registered.
    pub fn holders(&self, key: &K) -> (n: usize)
        ensures
            n == holders_of(self@, *key),
            slots_wf(self@),
    {
        proof { use_type_invariant(self); }
        match self.slots.get(key) {
            Some(slot) => slot.holders,
            None => 0,
        }
    }
}

impl<K: Eq + Hash + Clone, V: Clone> Registry<K, V> {
    /// Hands a holder of `key` a clone of the key's lock handle, first
    /// registering `key` with the handle that `fresh` makes where it is
    /// not registered yet.
    pub fn acquire<F: FnOnce() -> V>(&mut self, key: K, fresh: F) -> (handle: V)
        requires
            fresh.requires(()),
        ensures
            final(self)@ == acquired(old(self)@, key, final(self)@[key].handle),
            old(self)@.contains_key(key) ==> final(self)@[key].handle == old(self)@[key].handle,
            !old(self)@.contains_key(key) ==> fresh.ensures((), final(self)@[key].handle),
            cloned::<V>(final(self)@[key].handle, handle),
            final(self)@.len() == old(self)@.len() + (if old(self)@.contains_key(key) { 0int } else { 1int }),
            slots_wf(old(self)@),
            slots_wf(final(self)@),
            lawful_key::<K>(),
    {
        proof { use_type_invariant(&*self); }
        let mut slots = HashMap::new();
        std::mem::swap(&mut slots, &mut self.slots);
        let handle = match slots.remove(&key) {
            Some(slot) => {
                let handle = slot.handle.clone();
                let holders = if slot.holders == usize::MAX {
                    slot.holders
                } else {
                    slot.holders + 1
                };
                slots.insert(key, Slot { handle: slot.handle, holders });
                handle
            },
            None => {
                let new_handle = fresh();
                let handle = new_handle.clone();
                slots.insert(key, Slot { handle: new_handle, holders: 1 });
                handle
            },
        };
        self.slots = slots;
        proof { lemma_registry_len(old(self)@, key, final(self)@[key].handle); }
        handle
    }

    /// Takes back the handle of one holder of `key`; returns whether `key`
    /// was retired from the registry because that holder was its last.
    pub fn release(&mut self, key: &K) -> (retired: bool)
        ensures
            final(self)@ == released(old(self)@, *key),
            retired == (old(self)@.contains_key(*key) && old(self)@[*key].holders == 1),
            final(self)@.len() == old(self)@.len() - (if retired { 1int } else { 0int }),
            slots_wf(old(self)@),
            slots_wf(final(self)@),
    {
        proof { use_type_invariant(&*self); }
        let mut slots = HashMap::new();
        std::mem::swap(&mut slots, &mut self.slots);
        let retired = match slots.remove(key) {
            None => false,
            Some(slot) => {
                if slot.holders <= 1 {
                    true
                } else {
                    let same_key = key.clone();
                    assert(strictly_cloned::<K>(*key, same_key));
                    if slot.holders == usize::MAX {
                        slots.insert(same_key, slot);
                    } else {
                        slots.insert(same_key, Slot { handle: slot.handle, holders: slot.holders - 1 });
                    }
                    false
                }
            },
        };
        self.slots = slots;
        proof { lemma_registry_len(old(self)@, *key, old(self)@[*key].handle); }
        retired
    }
}

} // verus!
