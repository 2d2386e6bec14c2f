use keyed_lock::key::LockKey;
use keyed_lock::sync::KeyedLock;
use std::sync::Arc;
use std::time::{Duration, Instant};
use tokio::runtime::{Builder, Runtime};

/// Threads for the tests: tokio's pool of blocking threads.
fn threads() -> Runtime {
    Builder::new_multi_thread().enable_time().build().unwrap()
}

/// Blocks the calling thread for `duration`.
fn pause(runtime: &tokio::runtime::Handle, duration: Duration) {
    runtime.block_on(async move { tokio::time::sleep(duration).await });
}

#[test]
fn test_basic_lock() {
    let keyed_lock = KeyedLock::new();
    let _guard = keyed_lock.lock(1);
    // The lock is held here.
    // When _guard goes out of scope, the lock is released.
}

#[test]
fn test_concurrent_access() {
    let rt = threads();
    let keyed_lock = Arc::new(KeyedLock::new());
    let mut handles = vec![];

    for _ in 0..10 {
        let keyed_lock_clone = Arc::clone(&keyed_lock);
        let handle = rt.spawn_blocking(move || {
            let _guard = keyed_lock_clone.lock(1);
            // Do some work while holding the lock.
        });
        handles.push(handle);
    }

    for handle in handles {
        rt.block_on(handle).unwrap();
    }
}

#[test]
fn test_lock_is_released() {
    let keyed_lock = KeyedLock::new();
    let guard = keyed_lock.lock(1);
    drop(guard);
    // The lock should be released now.
    let _guard2 = keyed_lock.lock(1);
}

#[test]
fn test_lock_reuse() {
    let keyed_lock = KeyedLock::new();
    let guard1 = keyed_lock.lock(1);
    drop(guard1);
    let guard2 = keyed_lock.lock(1);
    drop(guard2);
}

#[test]
fn test_locks_different_keys() {
    let keyed_lock = KeyedLock::new();
    let _guard1 = keyed_lock.lock(1);
    let _guard2 = keyed_lock.lock(2);
    // Locks for different keys should not block each other.
}

#[test]
fn test_multiple_keys_concurrently() {
    let rt = threads();
    let keyed_lock = Arc::new(KeyedLock::new());
    let mut handles = vec![];

    for i in 0..10 {
        let keyed_lock_clone = Arc::clone(&keyed_lock);
        let pause_handle = rt.handle().clone();
        let handle = rt.spawn_blocking(move || {
            let _guard = keyed_lock_clone.lock(i);
            // Do some work while holding the lock.
            pause(&pause_handle, Duration::from_millis(10));
        });
        handles.push(handle);
    }

    for handle in handles {
        rt.block_on(handle).unwrap();
    }
}

#[test]
fn test_non_reentrant_lock() {
    let rt = threads();
    let keyed_lock = Arc::new(KeyedLock::new());
    let keyed_lock_clone = Arc::clone(&keyed_lock);

    // Acquire the lock in the main thread
    let _guard = keyed_lock.lock(1);

    // Try to acquire the same lock in another thread
    let handle = rt.spawn_blocking(move || {
        let now = Instant::now();
        let _guard = keyed_lock_clone.lock(1);
        assert!(now.elapsed() >= Duration::from_secs(3));
        // This part should not be reached if the lock is non-reentrant
    });

    pause(rt.handle(), Duration::from_secs(4));
    drop(_guard);

    rt.block_on(handle).unwrap();
}

#[test]
fn sync_test_registry_cleanup() {
    let keyed_lock = KeyedLock::new();
    assert_eq!(keyed_lock.registry_len(), 0);

    // Lock a key, registry should have one entry.
    let guard = keyed_lock.lock(1);
    assert_eq!(keyed_lock.registry_len(), 1);

    // Drop the guard, registry should be empty.
    drop(guard);
    assert_eq!(keyed_lock.registry_len(), 0);
}

#[test]
fn test_registry_cleanup_concurrent() {
    let rt = threads();
    let keyed_lock = Arc::new(KeyedLock::new());
    assert_eq!(keyed_lock.registry_len(), 0);

    let guard1 = keyed_lock.lock(1);
    assert_eq!(keyed_lock.registry_len(), 1);

    let keyed_lock_clone = Arc::clone(&keyed_lock);
    let handle = rt.spawn_blocking(move || {
        // This will block until guard1 is dropped.
        let guard2 = keyed_lock_clone.lock(1);
        // The registry should still contain the key.
        assert_eq!(keyed_lock_clone.registry_len(), 1);
        drop(guard2);
    });

    // Before dropping guard1, another thread is waiting. Registry should have 1 entry.
    assert_eq!(keyed_lock.registry_len(), 1);
    drop(guard1);

    rt.block_on(handle).unwrap();

    // After all guards are dropped, the registry should be empty.
    assert_eq!(keyed_lock.registry_len(), 0);
}

#[test]
fn test_registry_cleanup_arc() {
    let keyed_lock = Arc::new(KeyedLock::new());
    assert_eq!(keyed_lock.registry_len(), 0);

    // Lock a key, registry should have one entry.
    let guard = keyed_lock.lock_owned(1);
    assert_eq!(keyed_lock.registry_len(), 1);

    // Drop the guard, registry should be empty.
    drop(guard);
    assert_eq!(keyed_lock.registry_len(), 0);
}

#[test]
fn test_lock_arc_concurrently() {
    let rt = threads();
    let keyed_lock = Arc::new(KeyedLock::new());
    let mut handles = vec![];

    for i in 0..10 {
        let keyed_lock_clone = Arc::clone(&keyed_lock);
        let pause_handle = rt.handle().clone();
        let handle = rt.spawn_blocking(move || {
            let _guard = keyed_lock_clone.lock_owned(i);
            // Do some work while holding the lock.
            pause(&pause_handle, Duration::from_millis(10));
        });
        handles.push(handle);
    }

    for handle in handles {
        rt.block_on(handle).unwrap();
    }
}

#[test]
fn test_non_reentrant_lock_arc() {
    let rt = threads();
    let pause_handle = rt.handle().clone();
    let keyed_lock = Arc::new(KeyedLock::new());

    // Acquire the lock in the main thread
    let _guard = keyed_lock.lock_owned(1);

    // Try to acquire the same lock in another thread
    let handle = rt.spawn_blocking(move || {
        pause(&pause_handle, Duration::from_secs(4));
        drop(_guard);
    });

    let now = Instant::now();
    let _guard = keyed_lock.lock(1);
    assert!(now.elapsed() >= Duration::from_secs(4));

    rt.block_on(handle).unwrap();
}

#[test]
fn test_basic_lock_arc() {
    let keyed_lock = Arc::new(KeyedLock::new());
    let _guard = keyed_lock.lock_owned(1);
    // The lock is held here.
    // When _guard goes out of scope, the lock is released.
}

#[test]
fn test_lock_is_released_arc() {
    let keyed_lock = Arc::new(KeyedLock::new());
    let guard = keyed_lock.lock_owned(1);
    drop(guard);
    // The lock should be released now.
    let _guard2 = keyed_lock.lock_owned(1);
}

#[test]
fn test_lock_reuse_arc() {
    let keyed_lock = Arc::new(KeyedLock::new());
    let guard1 = keyed_lock.lock_owned(1);
    drop(guard1);
    let guard2 = keyed_lock.lock_owned(1);
    drop(guard2);
}

#[test]
fn test_locks_different_keys_arc() {
    let keyed_lock = Arc::new(KeyedLock::new());
    let _guard1 = keyed_lock.lock_owned(1);
    let _guard2 = keyed_lock.lock_owned(2);
    // Locks for different keys should not block each other.
}

#[test]
fn waiters_keep_the_key_registered_and_the_last_one_retires_it() {
    let rt = threads();
    let keyed_lock = Arc::new(KeyedLock::new());
    let guard = keyed_lock.lock(7u64);
    let mut handles = vec![];
    for _ in 0..4 {
        let keyed_lock_clone = Arc::clone(&keyed_lock);
        handles.push(rt.spawn_blocking(move || {
            let _guard = keyed_lock_clone.lock(7u64);
            assert_eq!(keyed_lock_clone.registry_len(), 1);
        }));
    }
    pause(rt.handle(), Duration::from_millis(50));
    assert_eq!(keyed_lock.registry_len(), 1);
    drop(guard);
    for handle in handles {
        rt.block_on(handle).unwrap();
    }
    assert_eq!(keyed_lock.registry_len(), 0);
}

#[test]
fn string_keys_lock_independently() {
    let lock = KeyedLock::new();
    let _guard_a = lock.lock("a");
    let _guard_b = lock.lock("b");
    assert_eq!(lock.registry_len(), 2);
}

#[derive(Clone, PartialEq, Eq, Hash)]
struct Account(u32, String);

impl LockKey for Account {}

#[test]
fn keys_of_a_user_type_lock_and_clean_up() {
    let keyed_lock = KeyedLock::new();
    let guard_a = keyed_lock.lock(Account(1, "a".to_string()));
    let guard_b = keyed_lock.lock(Account(2, "b".to_string()));
    assert_eq!(keyed_lock.registry_len(), 2);
    drop(guard_a);
    assert_eq!(keyed_lock.registry_len(), 1);
    drop(guard_b);
    assert_eq!(keyed_lock.registry_len(), 0);
}
