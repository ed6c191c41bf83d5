//! A layered resolver: caller-local data over the process-wide registry.
//!
//! A request handler often needs ambient per-call data (the request itself)
//! resolved alongside process-wide singletons, without copying it into the
//! shared registry.  [`RequestResolver`] holds one such value and answers
//! read resolution for its key from that value; everything else is delegated
//! to the inner registry.

use vstd::prelude::*;
use std::sync::Arc;

use crate::container::owned_resolution;
use crate::container::read_resolution;
use crate::container::write_resolution;
use crate::container::ServiceContainer;
use crate::resolve_error::ResolveError;
use crate::service::ServiceReadGuard;
use crate::service::ServiceWriteGuard;
use crate::sync::arc_deref;
use crate::traits::Resolver;

verus! {

/// A resolver that overrides read access for one key with a caller-local
/// value and delegates every other request to a shared registry.
#[verifier::reject_recursive_types(T)]
#[verifier::reject_recursive_types(F)]
pub struct RequestResolver<T, F> where F: Fn() -> T {
    /// The key whose read resolution the local value answers.
    pub key: u64,
    /// The caller-local value handed out for `key`.
    pub request: T,
    /// The registry every other resolution is delegated to.
    pub resolver: Arc<ServiceContainer<T, F>>,
}

impl<T, F> Resolver<T, F> for RequestResolver<T, F> where F: Fn() -> T {
    type Error = ResolveError;

    /// The local value answers its own key, by plain reference; any other
    /// key is resolved by the inner registry.
    fn resolve_immutable_ref<'a>(&'a self, key: u64) -> (r: Result<
        ServiceReadGuard<'a, T>,
        ResolveError,
    >)
        ensures
            key == self.key ==> (r matches Ok(g) && g matches ServiceReadGuard::Ref(x) && *x
                == self.request),
            key != self.key ==> read_resolution(self.resolver@, key, r),
    {
        if key == self.key {
            return Ok(ServiceReadGuard::Ref(&self.request));
        }
        arc_deref(&self.resolver).resolve_immutable_ref(key)
    }

    /// Write access is never answered locally: the local value belongs to
    /// the caller, so the inner registry decides.
    fn resolve_mutable_ref<'a>(&'a self, key: u64) -> (r: Result<
        ServiceWriteGuard<'a, T>,
        ResolveError,
    >)
        ensures
            write_resolution(self.resolver@, key, r),
    {
        arc_deref(&self.resolver).resolve_mutable_ref(key)
    }

    /// Owned access is never answered locally: the local value belongs to
    /// the caller, so the inner registry decides.
    fn resolve_owned_value(&self, key: u64) -> (r: Result<T, ResolveError>)
        ensures
            owned_resolution(self.resolver@, key, r),
    {
        arc_deref(&self.resolver).resolve_owned_value(key)
    }
}

} // verus!
