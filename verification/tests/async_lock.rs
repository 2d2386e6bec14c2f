use keyed_lock::asynchronous::{Guard, KeyedLock, OwnedGuard};
use std::future::Future;
use keyed_lock::key::LockKey;
use std::sync::Arc;
use std::time::Duration;
use tokio::time::sleep;

fn run<F: Future>(future: F) -> F::Output {
    tokio::runtime::Builder::new_current_thread()
        .enable_time()
        .build()
        .unwrap()
        .block_on(future)
}

async fn lock<K: LockKey + Send>(keyed_lock: &KeyedLock<K>, key: K) -> Guard<'_, K> {
    let registration = keyed_lock.register(key);
    let held = registration.key_lock().lock_owned().await;
    match Guard::new(registration, held) {
        Some(guard) => guard,
        None => unreachable!("the guard holds the registration's own mutex"),
    }
}

async fn lock_owned<K: LockKey + Send>(keyed_lock: &Arc<KeyedLock<K>>, key: K) -> OwnedGuard<K> {
    let registration = keyed_lock.register_owned(key);
    let held = registration.key_lock().lock_owned().await;
    match OwnedGuard::new(registration, held) {
        Some(guard) => guard,
        None => unreachable!("the guard holds the registration's own mutex"),
    }
}

#[test]
fn test_lock_unlock() {
    run(async {
        let keyed_lock = KeyedLock::new();
        let guard = lock(&keyed_lock, 1).await;
        drop(guard);
    });
}

#[test]
fn test_lock_contention() {
    run(async {
        let keyed_lock = Arc::new(KeyedLock::new());
        let keyed_lock_clone = Arc::clone(&keyed_lock);

        let guard1 = lock(&keyed_lock, 1).await;

        let task = tokio::spawn(async move {
            lock(&keyed_lock_clone, 1).await;
        });

        sleep(Duration::from_millis(10)).await;
        assert!(!task.is_finished());

        drop(guard1);
        sleep(Duration::from_millis(10)).await;
        assert!(task.is_finished());
    });
}

#[test]
fn test_owned_lock_unlock() {
    run(async {
        let keyed_lock = Arc::new(KeyedLock::new());
        let guard = lock_owned(&keyed_lock, 1).await;
        drop(guard);
    });
}

#[test]
fn async_test_registry_cleanup() {
    run(async {
        let keyed_lock = KeyedLock::new();
        assert_eq!(keyed_lock.registry_len(), 0);

        let guard = lock(&keyed_lock, 1).await;
        assert_eq!(keyed_lock.registry_len(), 1);
        drop(guard);

        assert_eq!(keyed_lock.registry_len(), 0);
    });
}

#[test]
fn test_multiple_keys() {
    run(async {
        let keyed_lock = KeyedLock::new();
        let guard1 = lock(&keyed_lock, 1).await;
        let guard2 = lock(&keyed_lock, 2).await;

        assert_eq!(keyed_lock.registry_len(), 2);

        drop(guard1);
        assert_eq!(keyed_lock.registry_len(), 1);

        drop(guard2);
        assert_eq!(keyed_lock.registry_len(), 0);
    });
}

#[test]
fn abandoned_wait_gives_the_key_back() {
    run(async {
        let keyed_lock = KeyedLock::new();
        let guard = lock(&keyed_lock, 5).await;
        let waiting = keyed_lock.register(5);
        assert_eq!(keyed_lock.registry_len(), 1);
        drop(waiting);
        drop(guard);
        assert_eq!(keyed_lock.registry_len(), 0);
    });
}

#[test]
fn owned_registry_cleanup() {
    run(async {
        let keyed_lock = Arc::new(KeyedLock::new());
        let guard1 = lock_owned(&keyed_lock, "x").await;
        let guard2 = lock_owned(&keyed_lock, "y").await;
        assert_eq!(keyed_lock.registry_len(), 2);
        drop(guard2);
        assert_eq!(keyed_lock.registry_len(), 1);
        drop(guard1);
        assert_eq!(keyed_lock.registry_len(), 0);
    });
}

#[test]
fn guard_of_another_mutex_is_refused() {
    run(async {
        let keyed_lock = KeyedLock::new();
        let registration = keyed_lock.register(3);
        let other = Arc::new(tokio::sync::Mutex::new(()));
        let held = other.lock_owned().await;
        assert!(Guard::new(registration, held).is_none());
        assert_eq!(keyed_lock.registry_len(), 0);
        let guard = lock(&keyed_lock, 3).await;
        assert_eq!(keyed_lock.registry_len(), 1);
        drop(guard);
        assert_eq!(keyed_lock.registry_len(), 0);
    });
}

#[test]
fn owned_guard_of_another_mutex_is_refused() {
    run(async {
        let keyed_lock = Arc::new(KeyedLock::new());
        let registration = keyed_lock.register_owned(4);
        let other = Arc::new(tokio::sync::Mutex::new(()));
        let held = other.lock_owned().await;
        assert!(OwnedGuard::new(registration, held).is_none());
        assert_eq!(keyed_lock.registry_len(), 0);
    });
}
