use std::cell::Cell;
use std::rc::Rc;
use std::sync::{Arc, Mutex, RwLock};

use rustdi::container::ServiceContainer;
use rustdi::request::RequestResolver;
use rustdi::resolve_error::ResolveError;
use rustdi::service::{Service, ServiceReadGuard};
use rustdi::traits::Resolver;

type PlainContainer = ServiceContainer<u64, fn() -> u64>;

const CONFIG: u64 = 1;
const STATE: u64 = 2;
const CLIENT: u64 = 3;

#[test]
fn unbound_keys_fail_non_exist() {
    let c = PlainContainer::new();
    assert!(matches!(c.resolve_immutable_ref(CONFIG), Err(ResolveError::NonExist)));
    assert!(matches!(c.resolve_mutable_ref(CONFIG), Err(ResolveError::NonExist)));
    assert!(matches!(c.resolve_owned_value(CONFIG), Err(ResolveError::NonExist)));
}

#[test]
fn shared_immutable_resolves_to_bound_value() {
    let mut c = PlainContainer::new();
    c.bind_singleton_arc(CONFIG, Arc::new(5));
    let guard = c.resolve_immutable_ref(CONFIG).unwrap();
    assert_eq!(*guard.deref(), 5);
}

#[test]
fn shared_immutable_refuses_mutable_access() {
    let mut c = PlainContainer::new();
    c.bind_singleton_arc(CONFIG, Arc::new(5));
    assert!(matches!(c.resolve_mutable_ref(CONFIG), Err(ResolveError::MutImmutable)));
}

#[test]
fn shared_immutable_refuses_owned_access() {
    let mut c = PlainContainer::new();
    c.bind_singleton_arc(CONFIG, Arc::new(5));
    assert!(matches!(c.resolve_owned_value(CONFIG), Err(ResolveError::OwnedImmutable)));
}

#[test]
fn reader_writer_allows_two_simultaneous_readers() {
    let mut c = PlainContainer::new();
    c.bind_singleton_rwlock(STATE, Arc::new(RwLock::new(11)));
    let first = c.resolve_immutable_ref(STATE).unwrap();
    let second = c.resolve_immutable_ref(STATE).unwrap();
    assert_eq!(*first.deref(), 11);
    assert_eq!(*second.deref(), 11);
}

#[test]
fn reader_writer_write_is_visible_after_release() {
    let mut c = PlainContainer::new();
    c.bind_singleton_rwlock(STATE, Arc::new(RwLock::new(11)));
    {
        let mut guard = c.resolve_mutable_ref(STATE).unwrap();
        *guard.deref_mut() = 12;
    }
    let guard = c.resolve_immutable_ref(STATE).unwrap();
    assert_eq!(*guard.deref(), 12);
}

#[test]
fn reader_writer_refuses_owned_access() {
    let mut c = PlainContainer::new();
    c.bind_singleton_rwlock(STATE, Arc::new(RwLock::new(11)));
    assert!(matches!(c.resolve_owned_value(STATE), Err(ResolveError::OwnedMutable)));
}

#[test]
fn exclusive_write_is_visible_after_release() {
    let mut c = PlainContainer::new();
    c.bind_singleton_mutex(STATE, Arc::new(Mutex::new(20)));
    {
        let mut guard = c.resolve_mutable_ref(STATE).unwrap();
        *guard.deref_mut() = 21;
    }
    let guard = c.resolve_immutable_ref(STATE).unwrap();
    assert_eq!(*guard.deref(), 21);
}

#[test]
fn exclusive_refuses_owned_access() {
    let mut c = PlainContainer::new();
    c.bind_singleton_mutex(STATE, Arc::new(Mutex::new(20)));
    assert!(matches!(c.resolve_owned_value(STATE), Err(ResolveError::OwnedMutable)));
}

#[test]
fn factory_produces_sequential_values() {
    let counter = Rc::new(Cell::new(0u64));
    let shared = counter.clone();
    let factory = move || -> u64 {
        let value = shared.get();
        shared.set(value + 1);
        value
    };
    let mut c = ServiceContainer::new();
    c.bind_factory(CLIENT, factory);
    assert_eq!(c.resolve_owned_value(CLIENT).unwrap(), 0);
    assert_eq!(c.resolve_owned_value(CLIENT).unwrap(), 1);
    assert_eq!(c.resolve_owned_value(CLIENT).unwrap(), 2);
}

#[test]
fn factory_honours_all_three_access_modes() {
    let produce: fn() -> u64 = || 7;
    let mut c = ServiceContainer::new();
    c.bind_factory(CLIENT, produce);
    let read = c.resolve_immutable_ref(CLIENT).unwrap();
    assert_eq!(*read.deref(), 7);
    let mut write = c.resolve_mutable_ref(CLIENT).unwrap();
    assert_eq!(*write.deref(), 7);
    *write.deref_mut() = 8;
    assert_eq!(*write.deref(), 8);
    assert_eq!(c.resolve_owned_value(CLIENT).unwrap(), 7);
}

#[test]
fn binding_overwrite_replaces_earlier_binding() {
    let mut c = PlainContainer::new();
    c.bind_singleton_arc(CONFIG, Arc::new(5));
    c.bind_singleton_arc(CONFIG, Arc::new(6));
    let guard = c.resolve_immutable_ref(CONFIG).unwrap();
    assert_eq!(*guard.deref(), 6);
}

#[test]
fn binding_overwrite_may_change_discipline() {
    let mut c = PlainContainer::new();
    c.bind_singleton_arc(STATE, Arc::new(5));
    c.bind_singleton_rwlock(STATE, Arc::new(RwLock::new(6)));
    let mut guard = c.resolve_mutable_ref(STATE).unwrap();
    *guard.deref_mut() = 7;
    drop(guard);
    assert_eq!(*c.resolve_immutable_ref(STATE).unwrap().deref(), 7);
}

#[test]
fn service_enum_applies_legality_table_directly() {
    let service: Service<u64, fn() -> u64> = Service::SingletonArc(Arc::new(9));
    assert_eq!(*service.immutable_ref().unwrap().deref(), 9);
    assert!(matches!(service.mutable_ref(), Err(ResolveError::MutImmutable)));
    assert!(matches!(service.owned_value(), Err(ResolveError::OwnedImmutable)));

    let produced: Service<u64, fn() -> u64> = Service::Factory(|| 4);
    assert_eq!(*produced.immutable_ref().unwrap().deref(), 4);
    assert_eq!(*produced.mutable_ref().unwrap().deref(), 4);
    assert_eq!(produced.owned_value().unwrap(), 4);
}

#[test]
fn read_guard_ref_and_owned_variants_deref() {
    let value = 31u64;
    let by_ref: ServiceReadGuard<u64> = ServiceReadGuard::Ref(&value);
    assert_eq!(*by_ref.deref(), 31);
    let owned: ServiceReadGuard<u64> = ServiceReadGuard::Owned(32);
    assert_eq!(*owned.deref(), 32);
}

#[test]
fn request_resolver_overrides_its_own_key() {
    let mut c = PlainContainer::new();
    c.bind_singleton_arc(CONFIG, Arc::new(5));
    let rr = RequestResolver { key: 40, request: 99, resolver: Arc::new(c) };
    let guard = rr.resolve_immutable_ref(40).unwrap();
    assert_eq!(*guard.deref(), 99);
}

#[test]
fn request_resolver_delegates_other_keys() {
    let mut c = PlainContainer::new();
    c.bind_singleton_arc(CONFIG, Arc::new(5));
    let rr = RequestResolver { key: 40, request: 99, resolver: Arc::new(c) };
    let guard = rr.resolve_immutable_ref(CONFIG).unwrap();
    assert_eq!(*guard.deref(), 5);
    drop(guard);
    assert!(matches!(rr.resolve_immutable_ref(STATE), Err(ResolveError::NonExist)));
    assert!(matches!(rr.resolve_mutable_ref(40), Err(ResolveError::NonExist)));
    assert!(matches!(rr.resolve_owned_value(40), Err(ResolveError::NonExist)));
}

#[test]
fn error_messages_name_each_failure() {
    assert_eq!(
        ResolveError::NonExist.message(),
        "Tried to resolve a non-existent service"
    );
    assert_eq!(
        ResolveError::Poisoned.message(),
        "Tried to resolve a service whose lock is poisoned"
    );
    assert_eq!(
        ResolveError::MutImmutable.message(),
        "Tried to get mutable reference to immutable service"
    );
    assert_eq!(
        ResolveError::OwnedMutable.message(),
        "Tried to get owned value from mutable singleton service"
    );
    assert_eq!(
        ResolveError::OwnedImmutable.message(),
        "Tried to get owned value from immutable singleton service"
    );
}
