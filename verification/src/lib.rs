//! A dependency-injection registry: services are bound to integer keys under
//! one of four ownership disciplines (shared-immutable, reader-writer lock,
//! exclusive lock, factory) and resolved back with a runtime-checked
//! read/write/owned access contract.

pub mod container;
pub mod handlers;
pub mod models;
pub mod request;
pub mod resolve_error;
pub mod service;
pub mod sync;
pub mod traits;

pub use resolve_error::ResolveError;
