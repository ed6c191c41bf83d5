//! The closed set of resolution failure kinds.

use vstd::prelude::*;

verus! {

/// Why a resolution request could not be honoured.
#[derive(Debug, Clone, Copy, PartialEq, Eq, Structural)]
pub enum ResolveError {
    /// No binding is registered for the requested key.
    NonExist,
    /// The lock behind the binding was left inconsistent by a failed holder.
    Poisoned,
    /// Mutable access was requested on a shared-immutable binding.
    MutImmutable,
    /// Owned access was requested on a lock-protected binding.
    OwnedMutable,
    /// Owned access was requested on a shared-immutable binding.
    OwnedImmutable,
}

impl ResolveError {
    /// A human-readable description of the failure.
    pub fn message(&self) -> (r: &'static str)
        ensures
            r@ == match *self {
                ResolveError::NonExist => "Tried to resolve a non-existent service"@,
                ResolveError::Poisoned => "Tried to resolve a service whose lock is poisoned"@,
                ResolveError::MutImmutable => "Tried to get mutable reference to immutable service"@,
                ResolveError::OwnedMutable => "Tried to get owned value from mutable singleton service"@,
                ResolveError::OwnedImmutable => "Tried to get owned value from immutable singleton service"@,
            },
    {
        match self {
            ResolveError::NonExist => "Tried to resolve a non-existent service",
            ResolveError::Poisoned => "Tried to resolve a service whose lock is poisoned",
            ResolveError::MutImmutable => "Tried to get mutable reference to immutable service",
            ResolveError::OwnedMutable => "Tried to get owned value from mutable singleton service",
            ResolveError::OwnedImmutable => "Tried to get owned value from immutable singleton service",
        }
    }
}

} // verus!
