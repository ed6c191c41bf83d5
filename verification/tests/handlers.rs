use std::sync::{Arc, RwLock};

use rustdi::container::ServiceContainer;
use rustdi::handlers::{read_handler, s3_handler, write_handler};
use rustdi::models::{AppConfig, AppState, S3Client};
use rustdi::resolve_error::ResolveError;
use rustdi::traits::Inject;

#[derive(Clone, Debug)]
enum AppService {
    Config(AppConfig),
    State(AppState),
    Client(S3Client),
}

const CONFIG: u64 = 1;
const STATE: u64 = 2;
const CLIENT: u64 = 3;

fn make_client() -> AppService {
    AppService::Client(S3Client())
}

fn demo_container() -> ServiceContainer<AppService, fn() -> AppService> {
    let mut c = ServiceContainer::new();
    c.bind_singleton_arc(CONFIG, Arc::new(AppService::Config(AppConfig)));
    c.bind_singleton_rwlock(
        STATE,
        Arc::new(RwLock::new(AppService::State(AppState {
            greeting: "hello".to_string(),
            subject: "world".to_string(),
        }))),
    );
    c.bind_factory(CLIENT, make_client as fn() -> AppService);
    c
}

#[test]
fn write_handler_sets_the_subject() {
    let mut state = AppState { greeting: "hello".to_string(), subject: "world".to_string() };
    write_handler(&AppConfig, &mut state);
    assert_eq!(state.subject, "penguins");
    assert_eq!(state.greeting, "hello");
}

#[test]
fn read_handler_formats_the_greeting() {
    let state = AppState { greeting: "hello".to_string(), subject: "world".to_string() };
    assert_eq!(read_handler(&AppConfig, &state), "hello world!");
}

#[test]
fn s3_handler_uses_a_fresh_client() {
    s3_handler(&AppConfig, S3Client());
}

#[test]
fn handlers_compose_over_the_registry() {
    let c = demo_container();

    // Resolve each dependency in declaration order, then call the handler.
    {
        let config_guard = c.resolve_immutable_ref(CONFIG).unwrap();
        let AppService::Config(config) = config_guard.deref() else { panic!() };
        let config = config.clone();
        drop(config_guard);
        let mut state_guard = c.resolve_mutable_ref(STATE).unwrap();
        let AppService::State(state) = state_guard.deref_mut() else { panic!() };
        write_handler(&config, state);
    }

    let state_guard = c.resolve_immutable_ref(STATE).unwrap();
    let AppService::State(state) = state_guard.deref() else { panic!() };
    assert_eq!(read_handler(&AppConfig, state), "hello penguins!");
    drop(state_guard);

    let AppService::Client(client) = c.resolve_owned_value(CLIENT).unwrap() else { panic!() };
    s3_handler(&AppConfig, client);
}

#[test]
fn inject_runs_a_closure_handler_and_short_circuits() {
    let c = demo_container();

    let greet = |r: &ServiceContainer<AppService, fn() -> AppService>| -> Result<String, ResolveError> {
        let config_guard = r.resolve_immutable_ref(CONFIG)?;
        let AppService::Config(config) = config_guard.deref() else { panic!() };
        let config = config.clone();
        drop(config_guard);
        let state_guard = r.resolve_immutable_ref(STATE)?;
        let AppService::State(state) = state_guard.deref() else { panic!() };
        Ok(read_handler(&config, state))
    };
    assert_eq!(greet.inject(&c).unwrap(), "hello world!");

    let missing = |r: &ServiceContainer<AppService, fn() -> AppService>| -> Result<String, ResolveError> {
        let _ = r.resolve_immutable_ref(99)?;
        panic!("resolution failure must short-circuit before this point");
    };
    assert!(matches!(missing.inject(&c), Err(ResolveError::NonExist)));
}
