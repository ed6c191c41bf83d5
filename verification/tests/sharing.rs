use std::sync::{Arc, Mutex, RwLock};

use rustdi::container::ServiceContainer;

#[derive(Clone, Debug, PartialEq)]
enum AppService {
    Config,
    Counter { n: u64 },
}

type AppContainer = ServiceContainer<AppService, fn() -> AppService>;

const CONFIG: u64 = 1;
const COUNTER: u64 = 2;

#[test]
fn shared_handles_resolve_against_one_registry() {
    let mut c = ServiceContainer::<u64, fn() -> u64>::new();
    c.bind_singleton_rwlock(COUNTER, Arc::new(RwLock::new(3)));
    let shared = Arc::new(c);
    let other = shared.clone();
    let first = shared.resolve_immutable_ref(COUNTER).unwrap();
    let second = other.resolve_immutable_ref(COUNTER).unwrap();
    assert_eq!(*first.deref(), 3);
    assert_eq!(*second.deref(), 3);
}

#[test]
fn exclusive_lock_write_is_seen_by_other_handle() {
    let mut c = ServiceContainer::<u64, fn() -> u64>::new();
    c.bind_singleton_mutex(COUNTER, Arc::new(Mutex::new(0)));
    let shared = Arc::new(c);
    let other = shared.clone();
    {
        let mut guard = shared.resolve_mutable_ref(COUNTER).unwrap();
        *guard.deref_mut() = 9;
    }
    let guard = other.resolve_immutable_ref(COUNTER).unwrap();
    assert_eq!(*guard.deref(), 9);
}

#[test]
fn end_to_end_write_then_read_through_shared_handles() {
    let mut c = AppContainer::new();
    c.bind_singleton_arc(CONFIG, Arc::new(AppService::Config));
    c.bind_singleton_rwlock(COUNTER, Arc::new(RwLock::new(AppService::Counter { n: 0 })));
    let shared = Arc::new(c);

    let writer = shared.clone();
    {
        let mut guard = writer.resolve_mutable_ref(COUNTER).unwrap();
        *guard.deref_mut() = AppService::Counter { n: 5 };
    }

    let reader = shared.clone();
    let guard = reader.resolve_immutable_ref(COUNTER).unwrap();
    assert_eq!(*guard.deref(), AppService::Counter { n: 5 });
    drop(guard);

    let config = shared.resolve_immutable_ref(CONFIG).unwrap();
    assert_eq!(*config.deref(), AppService::Config);
}
