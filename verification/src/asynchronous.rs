//! A keyed lock whose lockers wait on tokio mutexes.
//!
//! Taking a key's lock is split in two: `register` obtains the key's mutex
//! from the registry and hands out a registration, which the caller then
//! awaits the mutex of and turns into a guard. A registration that is dropped
//! before that, because the waiting was given up, gives its handle back.
use std::sync::Arc;
use vstd::prelude::*;
use vstd::pervasive::strictly_cloned;
use crate::key::LockKey;
use crate::locking::{KeyMutex, new_mutex, with_registry};
use crate::registry::{Registry, Slot, acquired, handed_out, lawful_key, released, slots_wf};

verus! {

#[verifier::external_type_specification]
#[verifier::external_body]
#[verifier::reject_recursive_types(T)]
pub struct ExTokioMutex<T: ?Sized>(tokio::sync::Mutex<T>);

#[verifier::external_type_specification]
#[verifier::external_body]
#[verifier::reject_recursive_types(T)]
pub struct ExOwnedMutexGuard<T: ?Sized>(tokio::sync::OwnedMutexGuard<T>);

/// Calls `tokio::sync::Mutex::new`: a new, unlocked tokio mutex. Nothing is
/// claimed of the result.
#[verifier::external_body]
fn new_key_mutex() -> tokio::sync::Mutex<()> {
    tokio::sync::Mutex::new(())
}

impl KeyMutex for Arc<tokio::sync::Mutex<()>> {}

/// Calls tokio's `OwnedMutexGuard::mutex`, the `Arc` of the mutex that
/// `guard` holds, and compares it with `mutex` by `Arc::ptr_eq`: whether
/// `guard` holds that very mutex. Nothing is claimed of the result, which
/// depends on where each mutex is allocated.
#[verifier::external_body]
fn holds_mutex(guard: &tokio::sync::OwnedMutexGuard<()>, mutex: &Arc<tokio::sync::Mutex<()>>) -> bool {
    Arc::ptr_eq(tokio::sync::OwnedMutexGuard::mutex(guard), mutex)
}

/// A key's place in the registry, taken by a locker before it waits for the
/// key's mutex. Dropping it gives the handle back to the registry, which
/// retires the key when this was its last holder.
#[verifier::reject_recursive_types(K)]
pub struct Registration<'k, K: LockKey + Send> {
    key: K,
    key_lock: Arc<tokio::sync::Mutex<()>>,
    keyed_lock: &'k KeyedLock<K>,
}

impl<'k, K: LockKey + Send> Registration<'k, K> {
    /// The key this registration is for.
    pub closed spec fn key(&self) -> K {
        self.key
    }

    /// The keyed lock this registration belongs to.
    pub closed spec fn owner(&self) -> KeyedLock<K> {
        *self.keyed_lock
    }

    /// The handle of the key's mutex that the registry handed out.
    pub closed spec fn handle(&self) -> Arc<tokio::sync::Mutex<()>> {
        self.key_lock
    }

    /// The key's mutex, to be locked with `lock_owned`.
    pub fn key_lock(&self) -> (key_lock: Arc<tokio::sync::Mutex<()>>)
        ensures
            cloned::<Arc<tokio::sync::Mutex<()>>>(self.handle(), key_lock),
    {
        self.key_lock.clone()
    }
}

impl<'k, K: LockKey + Send> Drop for Registration<'k, K> {
    /// Gives the key's handle back to the registry.
    fn drop(&mut self)
        opens_invariants none
        no_unwind
    {
        let key = &self.key;
        let ghost k = self.key;
        with_registry(&self.keyed_lock.0, |registry: &mut Registry<K, Arc<tokio::sync::Mutex<()>>>|
            ensures
                final(registry)@ == released(old(registry)@, k),
            { registry.release(key); });
    }
}

/// A key's place in the registry of an `Arc<KeyedLock>`, taken by a locker
/// before it waits for the key's mutex. Dropping it gives the handle back to
/// the registry, which retires the key when this was its last holder.
#[verifier::reject_recursive_types(K)]
pub struct OwnedRegistration<K: LockKey + Send> {
    key: K,
    key_lock: Arc<tokio::sync::Mutex<()>>,
    keyed_lock: Arc<KeyedLock<K>>,
}

impl<K: LockKey + Send> OwnedRegistration<K> {
    /// The key this registration is for.
    pub closed spec fn key(&self) -> K {
        self.key
    }

    /// The keyed lock this registration belongs to.
    pub closed spec fn owner(&self) -> KeyedLock<K> {
        *self.keyed_lock
    }

    /// The handle of the key's mutex that the registry handed out.
    pub closed spec fn handle(&self) -> Arc<tokio::sync::Mutex<()>> {
        self.key_lock
    }

    /// The key's mutex, to be locked with `lock_owned`.
    pub fn key_lock(&self) -> (key_lock: Arc<tokio::sync::Mutex<()>>)
        ensures
            cloned::<Arc<tokio::sync::Mutex<()>>>(self.handle(), key_lock),
    {
        self.key_lock.clone()
    }
}

impl<K: LockKey + Send> Drop for OwnedRegistration<K> {
    /// Gives the key's handle back to the registry.
    fn drop(&mut self)
        opens_invariants none
        no_unwind
    {
        let key = &self.key;
        let ghost k = self.key;
        with_registry(&self.keyed_lock.0, |registry: &mut Registry<K, Arc<tokio::sync::Mutex<()>>>|
            ensures
                final(registry)@ == released(old(registry)@, k),
            { registry.release(key); });
    }
}

/// An RAII implementation of a scoped lock. When this structure is dropped
/// (falls out of scope), the lock is released.
#[verifier::reject_recursive_types(K)]
pub struct Guard<'k, K: LockKey + Send> {
    registration: Registration<'k, K>,
    _guard: tokio::sync::OwnedMutexGuard<()>,
}

impl<'k, K: LockKey + Send> Guard<'k, K> {
    /// The key's mutex, whose lock this guard holds.
    pub closed spec fn key_mutex(&self) -> Arc<tokio::sync::Mutex<()>> {
        self.registration.handle()
    }

    /// The key whose lock this guard holds.
    pub closed spec fn key(&self) -> K {
        self.registration.key()
    }

    /// The keyed lock this guard belongs to.
    pub closed spec fn owner(&self) -> KeyedLock<K> {
        self.registration.owner()
    }

    /// Joins a registration with the guard of its key's mutex; `None`, with
    /// both given back, where `guard` holds some other mutex. On drop the
    /// registration is given back first, then the key's mutex is unlocked.
    pub fn new(registration: Registration<'k, K>, guard: tokio::sync::OwnedMutexGuard<()>) -> (held: Option<Self>)
        ensures
            held matches Some(g) ==> g.key() == registration.key() && g.owner() == registration.owner()
                && g.key_mutex() == registration.handle(),
    {
        if holds_mutex(&guard, &registration.key_lock) {
            Some(Guard { registration, _guard: guard })
        } else {
            None
        }
    }
}

/// An RAII implementation of a scoped lock for an `Arc<KeyedLock>`. When this
/// structure is dropped (falls out of scope), the lock is released.
#[verifier::reject_recursive_types(K)]
pub struct OwnedGuard<K: LockKey + Send> {
    registration: OwnedRegistration<K>,
    _guard: tokio::sync::OwnedMutexGuard<()>,
}

impl<K: LockKey + Send> OwnedGuard<K> {
    /// The key's mutex, whose lock this guard holds.
    pub closed spec fn key_mutex(&self) -> Arc<tokio::sync::Mutex<()>> {
        self.registration.handle()
    }

    /// The key whose lock this guard holds.
    pub closed spec fn key(&self) -> K {
        self.registration.key()
    }

    /// The keyed lock this guard belongs to.
    pub closed spec fn owner(&self) -> KeyedLock<K> {
        self.registration.owner()
    }

    /// Joins a registration with the guard of its key's mutex; `None`, with
    /// both given back, where `guard` holds some other mutex. On drop the
    /// registration is given back first, then the key's mutex is unlocked.
    pub fn new(registration: OwnedRegistration<K>, guard: tokio::sync::OwnedMutexGuard<()>) -> (held: Option<Self>)
        ensures
            held matches Some(g) ==> g.key() == registration.key() && g.owner() == registration.owner()
                && g.key_mutex() == registration.handle(),
    {
        if holds_mutex(&guard, &registration.key_lock) {
            Some(OwnedGuard { registration, _guard: guard })
        } else {
            None
        }
    }
}

/// A lock that provides mutually exclusive access to a resource, where the
/// resource is identified by a key.
#[verifier::reject_recursive_types(K)]
pub struct KeyedLock<K: LockKey + Send>(parking_lot::Mutex<Registry<K, Arc<tokio::sync::Mutex<()>>>>);

impl<K: LockKey + Send> KeyedLock<K> {
    /// Creates a new `KeyedLock`.
    ///
    /// Its registry starts empty; that stays unstated, as what a parking_lot
    /// mutex holds stays out of the contracts (`Registry::new` states it).
    #[must_use]
    pub fn new() -> Self
        requires
            lawful_key::<K>(),
    {
        KeyedLock(new_mutex(Registry::new()))
    }

    /// Gets or creates the mutex of a key, for a locker that is about to
    /// wait for it.
    pub fn register(&self, key: K) -> (registration: Registration<'_, K>)
        ensures
            registration.key() == key,
            registration.owner() == *self,
            handed_out(key, registration.handle()),
    {
        let key_lock = self.key_lock_for(&key);
        Registration { key, key_lock, keyed_lock: self }
    }

    /// Gets or creates the mutex of a key, for a locker of an
    /// `Arc<KeyedLock>` that is about to wait for it.
    pub fn register_owned(self: &Arc<Self>, key: K) -> (registration: OwnedRegistration<K>)
        ensures
            registration.key() == key,
            registration.owner() == **self,
            handed_out(key, registration.handle()),
    {
        let key_lock = self.key_lock_for(&key);
        OwnedRegistration { key, key_lock, keyed_lock: self.clone() }
    }

    /// Gets or creates a mutex for a key.
    ///
    /// Which mutex that is depends on the registry as other lockers left it;
    /// `Registry::acquire` states the choice exactly.
    fn key_lock_for(&self, key: &K) -> (handle: Arc<tokio::sync::Mutex<()>>)
        ensures
            handed_out(*key, handle),
    {
        let ghost k = *key;
        with_registry(&self.0, |registry: &mut Registry<K, Arc<tokio::sync::Mutex<()>>>| -> (handle: Arc<tokio::sync::Mutex<()>>)
            ensures
                slots_wf(old(registry)@),
                final(registry)@ == acquired(old(registry)@, k, final(registry)@[k].handle),
                cloned::<Arc<tokio::sync::Mutex<()>>>(final(registry)@[k].handle, handle),
            {
                let stored_key = key.clone();
                let handle = registry.acquire(stored_key, || Arc::new(new_key_mutex()));
                assert(strictly_cloned::<K>(k, stored_key));
                handle
            })
    }

    /// The number of keys that currently have a mutex in the registry.
    ///
    /// It is the length of a well-formed registry; which one depends on what
    /// other lockers did meanwhile, behind the registry's mutex.
    /// `Registry::len` states the count exactly.
    pub fn registry_len(&self) -> (n: usize)
        ensures
            exists|registry: Map<K, Slot<Arc<tokio::sync::Mutex<()>>>>| slots_wf(registry) && n == registry.len(),
    {
        with_registry(&self.0, |registry: &mut Registry<K, Arc<tokio::sync::Mutex<()>>>| -> (n: usize)
            ensures
                n == final(registry)@.len(),
                slots_wf(final(registry)@),
            { registry.len() })
    }
}

} // verus!
