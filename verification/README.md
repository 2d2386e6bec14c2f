# keyed_lock

A keyed lock: locks with the same key block each other, locks with different
keys do not. Each key gets a mutex of its own, kept in a registry while some
guard holds it or some locker waits for it, and retired when the last of them
is done.

- `src/registry.rs`: the registry of per-key mutexes with its holder counts,
  verified against a model over `Map`.
- `src/laws.rs`: what registering and releasing keys guarantee across calls.
- `src/sync.rs`: the blocking keyed lock on parking_lot mutexes.
- `src/asynchronous.rs`: the tokio keyed lock, up to the wait for the key's
  mutex.
- `src/key.rs`: the key types a keyed lock accepts: those whose hashing,
  comparing, cloning and dropping never panic, as a guard's drop handles keys.
- `src/locking.rs`: the parking_lot mutex that guards a registry.
- `app/lib.rs`: the `.await` of the tokio keyed lock.
