//! The resolver capability and injection over it.

use vstd::prelude::*;

use crate::service::ServiceReadGuard;
use crate::service::ServiceWriteGuard;

verus! {

/// The three resolution operations, as an interface: the registry implements
/// it directly, and a layered resolver implements it by checking local data
/// before delegating to an inner resolver.  A key is the caller-chosen
/// integer identity of an abstract service type.
pub trait Resolver<T, F> where F: Fn() -> T {
    /// The failure type resolution reports.
    type Error;

    /// Resolve read access to the binding registered under `key`.
    fn resolve_immutable_ref<'a>(&'a self, key: u64) -> Result<ServiceReadGuard<'a, T>, Self::Error>;

    /// Resolve write access to the binding registered under `key`.
    fn resolve_mutable_ref<'a>(&'a self, key: u64) -> Result<ServiceWriteGuard<'a, T>, Self::Error>;

    /// Resolve an owned value from the binding registered under `key`.
    fn resolve_owned_value(&self, key: u64) -> Result<T, Self::Error>;
}

/// A handler that can be driven by a resolver alone: it performs its own
/// resolution calls and short-circuits on the first failure.  Implemented
/// for every closure from a resolver to a `Result` with the resolver's
/// error type.
pub trait Inject<Ret, T, F, R> where F: Fn() -> T, R: Resolver<T, F> {
    /// What a successful injected call produces.
    type Return;

    /// Whether the handler may be invoked with this resolver.
    spec fn injectable(&self, resolver: &R) -> bool;

    /// Run the handler against the resolver.
    fn inject(&self, resolver: &R) -> Result<Self::Return, R::Error>
        requires
            self.injectable(resolver),
    ;
}

impl<Ret, T, F, R, H> Inject<Ret, T, F, R> for H where
    F: Fn() -> T,
    R: Resolver<T, F>,
    H: Fn(&R) -> Result<Ret, R::Error>,
 {
    type Return = Ret;

    open spec fn injectable(&self, resolver: &R) -> bool {
        call_requires(*self, (resolver,))
    }

    fn inject(&self, resolver: &R) -> (r: Result<Ret, R::Error>)
        ensures
            call_ensures(*self, (resolver,), r),
    {
        self(resolver)
    }
}

} // verus!
