//! Small service types used by the handlers, the demo program and the tests.

use vstd::prelude::*;

verus! {

/// A process-wide configuration value, bound shared-immutable in the demos.
#[derive(Clone, Debug)]
pub struct AppConfig;

/// Mutable application state, bound behind a reader-writer lock in the demos.
#[derive(Clone, Debug)]
pub struct AppState {
    pub greeting: String,
    pub subject: String,
}

/// A per-resolution client handle, bound through a factory in the demos.
#[derive(Clone, Debug)]
pub struct S3Client();

impl S3Client {
    /// Placeholder for a listing request.
    pub fn list_objects(&self) {
    }

    /// Placeholder for a fetch request.
    pub fn get_object(&self) {
    }

    /// Placeholder for a store request.
    pub fn put_object(&self) {
    }
}

} // verus!
