//! A keyed lock whose lockers block the calling thread.
use std::sync::Arc;
use vstd::prelude::*;
use vstd::pervasive::strictly_cloned;
use crate::key::LockKey;
use crate::locking::{KeyMutex, new_mutex, with_registry};
use crate::registry::{Registry, Slot, acquired, handed_out, lawful_key, released, slots_wf};

verus! {

/// The lock of one key, held: the `ArcMutexGuard` that
/// `parking_lot::Mutex::lock_arc` hands out. Dropping it unlocks the key's
/// mutex. Its insides stay hidden from the proofs, which only carry it from
/// `lock_key` to the guard that owns it.
#[verifier::external_body]
struct KeyGuard {
    held: parking_lot::ArcMutexGuard<parking_lot::RawMutex, ()>,
}

/// A key's mutex together with the lock of it that a locker holds.
struct LockedKey {
    mutex: Arc<parking_lot::Mutex<()>>,
    held: KeyGuard,
}

/// Calls `parking_lot::Mutex::lock_arc` (lock_api's `Mutex::lock_arc`), which
/// blocks until the calling thread holds `mutex`, and keeps the guard it
/// returns beside `mutex`. Claimed: the result carries `mutex`, the mutex
/// whose lock it holds.
#[verifier::external_body]
fn lock_key(mutex: Arc<parking_lot::Mutex<()>>) -> (locked: LockedKey)
    ensures
        locked.mutex == mutex,
{
    let held = mutex.lock_arc();
    LockedKey { mutex, held: KeyGuard { held } }
}

impl KeyMutex for Arc<parking_lot::Mutex<()>> {}

/// An RAII implementation of a scoped lock. When this structure is dropped
/// (falls out of scope), the lock is released.
#[verifier::reject_recursive_types(K)]
pub struct Guard<'k, K: LockKey> {
    key: K,
    _guard: LockedKey,
    keyed_lock: &'k KeyedLock<K>,
}

impl<'k, K: LockKey> Guard<'k, K> {
    /// The key's mutex, whose lock this guard holds.
    pub closed spec fn key_mutex(&self) -> Arc<parking_lot::Mutex<()>> {
        self._guard.mutex
    }

    /// The key whose lock this guard holds.
    pub closed spec fn key(&self) -> K {
        self.key
    }

    /// The keyed lock this guard belongs to.
    pub closed spec fn owner(&self) -> KeyedLock<K> {
        *self.keyed_lock
    }
}

impl<'k, K: LockKey> Drop for Guard<'k, K> {
    /// Gives the key's handle back to the registry, which retires the key
    /// when this guard was its last holder; the key's mutex is unlocked right
    /// after, when the guard's fields are dropped.
    fn drop(&mut self)
        opens_invariants none
        no_unwind
    {
        let key = &self.key;
        let ghost k = self.key;
        with_registry(&self.keyed_lock.0, |registry: &mut Registry<K, Arc<parking_lot::Mutex<()>>>|
            ensures
                final(registry)@ == released(old(registry)@, k),
            { registry.release(key); });
    }
}

/// An RAII implementation of a scoped lock for an `Arc<KeyedLock>`. When this
/// structure is dropped (falls out of scope), the lock is released.
#[verifier::reject_recursive_types(K)]
pub struct OwnedGuard<K: LockKey> {
    key: K,
    _guard: LockedKey,
    keyed_lock: Arc<KeyedLock<K>>,
}

impl<K: LockKey> OwnedGuard<K> {
    /// The key's mutex, whose lock this guard holds.
    pub closed spec fn key_mutex(&self) -> Arc<parking_lot::Mutex<()>> {
        self._guard.mutex
    }

    /// The key whose lock this guard holds.
    pub closed spec fn key(&self) -> K {
        self.key
    }

    /// The keyed lock this guard belongs to.
    pub closed spec fn owner(&self) -> KeyedLock<K> {
        *self.keyed_lock
    }
}

impl<K: LockKey> Drop for OwnedGuard<K> {
    /// Gives the key's handle back to the registry, which retires the key
    /// when this guard was its last holder; the key's mutex is unlocked right
    /// after, when the guard's fields are dropped.
    fn drop(&mut self)
        opens_invariants none
        no_unwind
    {
        let key = &self.key;
        let ghost k = self.key;
        with_registry(&self.keyed_lock.0, |registry: &mut Registry<K, Arc<parking_lot::Mutex<()>>>|
            ensures
                final(registry)@ == released(old(registry)@, k),
            { registry.release(key); });
    }
}

/// A lock that provides mutually exclusive access to a resource, where the
/// resource is identified by a key.
#[verifier::reject_recursive_types(K)]
pub struct KeyedLock<K: LockKey>(parking_lot::Mutex<Registry<K, Arc<parking_lot::Mutex<()>>>>);

impl<K: LockKey> KeyedLock<K> {
    /// Creates a new `KeyedLock`.
    ///
    /// Its registry starts empty; that stays unstated, as what a parking_lot
    /// mutex holds stays out of the contracts (`Registry::new` states it).
    #[must_use]
    pub fn new() -> Self
        requires
            lawful_key::<K>(),
    {
        KeyedLock(new_mutex(Registry::new()))
    }

    /// Acquires a lock for a given key.
    ///
    /// If the lock is already held by another task, this method will wait until
    /// the lock is released.
    ///
    /// When the returned `Guard` is dropped, the lock is released.
    pub fn lock(&self, key: K) -> (guard: Guard<'_, K>)
        ensures
            guard.key() == key,
            guard.owner() == *self,
            handed_out(key, guard.key_mutex()),
    {
        let _guard = self.lock_inner(&key);
        Guard { key, _guard, keyed_lock: self }
    }

    /// Acquires a lock for a given key, returning an `OwnedGuard`.
    ///
    /// This method is for use with `Arc<KeyedLock>`. If the lock is already
    /// held by another task, this method will wait until the lock is released.
    ///
    /// When the returned `OwnedGuard` is dropped, the lock is released.
    pub fn lock_owned(self: &Arc<Self>, key: K) -> (guard: OwnedGuard<K>)
        ensures
            guard.key() == key,
            guard.owner() == **self,
            handed_out(key, guard.key_mutex()),
    {
        let _guard = self.lock_inner(&key);
        OwnedGuard { key, _guard, keyed_lock: self.clone() }
    }

    /// Gets or creates a mutex for a key and locks it.
    ///
    /// Which mutex that is depends on the registry as other lockers left it;
    /// `Registry::acquire` states the choice exactly.
    fn lock_inner(&self, key: &K) -> (locked: LockedKey)
        ensures
            handed_out(*key, locked.mutex),
    {
        let ghost k = *key;
        let key_lock = with_registry(&self.0, |registry: &mut Registry<K, Arc<parking_lot::Mutex<()>>>| -> (handle: Arc<parking_lot::Mutex<()>>)
            ensures
                slots_wf(old(registry)@),
                final(registry)@ == acquired(old(registry)@, k, final(registry)@[k].handle),
                cloned::<Arc<parking_lot::Mutex<()>>>(final(registry)@[k].handle, handle),
            {
                let stored_key = key.clone();
                let handle = registry.acquire(stored_key, || Arc::new(new_mutex(())));
                assert(strictly_cloned::<K>(k, stored_key));
                handle
            });
        lock_key(key_lock)
    }

    /// The number of keys that currently have a mutex in the registry.
    ///
    /// It is the length of a well-formed registry; which one depends on what
    /// other lockers did meanwhile, behind the registry's mutex.
    /// `Registry::len` states the count exactly.
    pub fn registry_len(&self) -> (n: usize)
        ensures
            exists|registry: Map<K, Slot<Arc<parking_lot::Mutex<()>>>>| slots_wf(registry) && n == registry.len(),
    {
        with_registry(&self.0, |registry: &mut Registry<K, Arc<parking_lot::Mutex<()>>>| -> (n: usize)
            ensures
                n == final(registry)@.len(),
                slots_wf(final(registry)@),
            { registry.len() })
    }
}

} // verus!
