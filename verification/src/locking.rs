//! The parking_lot mutex that guards a registry, and what this crate relies
//! on of it.
use vstd::prelude::*;
use crate::key::LockKey;
use crate::registry::Registry;

verus! {

#[verifier::external_type_specification]
#[verifier::external_body]
#[verifier::reject_recursive_types(R)]
#[verifier::reject_recursive_types(T)]
pub struct ExLockApiMutex<R, T: ?Sized>(parking_lot::lock_api::Mutex<R, T>);

#[verifier::external_type_specification]
#[verifier::external_body]
pub struct ExRawMutex(parking_lot::RawMutex);

/// Calls `parking_lot::Mutex::new` (lock_api's `Mutex::new`): a new, unlocked
/// mutex holding `value`. Nothing is claimed of the result: what a mutex
/// holds stays out of the contracts.
#[verifier::external_body]
pub fn new_mutex<T>(value: T) -> parking_lot::Mutex<T> {
    parking_lot::Mutex::new(value)
}

/// A handle of a key's mutex: an `Arc` of a mutex, whose cloning and dropping
/// never panic.
pub trait KeyMutex: Clone {}

/// Calls `parking_lot::Mutex::lock` (lock_api's `Mutex::lock`, which blocks
/// until the calling thread holds the mutex), runs `f` on the registry it
/// protects through the guard's `DerefMut`, and unlocks when the guard goes
/// out of scope. Claimed: the result is one that `f` returns for some
/// registry, and the call does not unwind and opens no invariant, which a
/// drop needs of what it calls. parking_lot's lock neither panics nor
/// poisons; the closures handed in run `Registry` methods, which hash,
/// compare, clone and drop `LockKey` keys (never panicking, by that trait's
/// obligation) and clone and drop `KeyMutex` handles (never panicking), and a
/// failed allocation aborts rather than unwinds. A call from a thread that
/// already holds the mutex, for instance from inside `f`, never returns; the
/// closures of this crate lock nothing.
#[verifier::external_body]
pub fn with_registry<K: LockKey, V: KeyMutex, R, F: FnOnce(&mut Registry<K, V>) -> R>(
    mutex: &parking_lot::Mutex<Registry<K, V>>,
    f: F,
) -> (r: R)
    requires
        forall|registry: &mut Registry<K, V>| f.requires((registry,)),
    ensures
        exists|registry: &mut Registry<K, V>| f.ensures((registry,), r),
    opens_invariants none
    no_unwind
{
    let mut guard = mutex.lock();
    f(&mut *guard)
}

} // verus!
