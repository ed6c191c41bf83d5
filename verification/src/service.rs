//! Bindings and the guards they hand out.
//!
//! A [`Service`] records how one concrete value is stored and which access
//! modes its storage discipline can honour; resolution produces a
//! [`ServiceReadGuard`] or [`ServiceWriteGuard`] that hides which discipline
//! backs it and releases any held lock when it is dropped.

use vstd::prelude::*;
use std::sync::Arc;
use std::sync::Mutex;
use std::sync::MutexGuard;
use std::sync::RwLock;
use std::sync::RwLockReadGuard;
use std::sync::RwLockWriteGuard;

use crate::resolve_error::ResolveError;
use crate::sync::arc_clone;
use crate::sync::arc_deref;
use crate::sync::mutex_guard_deref;
use crate::sync::mutex_guard_deref_mut;
use crate::sync::rwlock_read_guard_deref;
use crate::sync::rwlock_write_guard_deref;
use crate::sync::rwlock_write_guard_deref_mut;

verus! {

/// How one bound value is stored, and with it which access modes are legal:
///
/// | variant           | immutable ref | mutable ref    | owned value      |
/// |-------------------|---------------|----------------|------------------|
/// | `SingletonArc`    | handle clone  | `MutImmutable` | `OwnedImmutable` |
/// | `SingletonRwLock` | read lock     | write lock     | `OwnedMutable`   |
/// | `SingletonMutex`  | the lock      | the lock       | `OwnedMutable`   |
/// | `Factory`         | fresh value   | fresh value    | fresh value      |
#[verifier::reject_recursive_types(T)]
#[verifier::reject_recursive_types(F)]
pub enum Service<T, F> {
    /// A shared handle to an immutable value: many readers, never a writer.
    SingletonArc(Arc<T>),
    /// A shared handle to a reader-writer lock: many readers or one writer.
    SingletonRwLock(Arc<RwLock<T>>),
    /// A shared handle to an exclusive lock: one accessor of either kind.
    SingletonMutex(Arc<Mutex<T>>),
    /// A callback invoked once per resolution; every caller gets a fresh value.
    Factory(F),
}

/// Whether the factory callback, if this binding holds one, may be invoked.
pub open spec fn factory_callable<T, F: Fn() -> T>(s: Service<T, F>) -> bool {
    s matches Service::Factory(f) ==> call_requires(f, ())
}

impl<T, F: Fn() -> T> Service<T, F> {
    /// Read access.  Every variant honours it: a shared handle is cloned, a
    /// lock is acquired for reading (failing only when poisoned), and a
    /// factory produces a fresh value.
    pub fn immutable_ref<'a>(&'a self) -> (r: Result<ServiceReadGuard<'a, T>, ResolveError>)
        requires
            factory_callable(*self),
        ensures
            match *self {
                Service::SingletonArc(a) => r matches Ok(g) && g matches ServiceReadGuard::Arc(b)
                    && b == a,
                Service::SingletonRwLock(_) => (r matches Ok(g) ==> g is RwLock) && (r matches Err(e)
                    ==> e == ResolveError::Poisoned),
                Service::SingletonMutex(_) => (r matches Ok(g) ==> g is Mutex) && (r matches Err(e)
                    ==> e == ResolveError::Poisoned),
                Service::Factory(f) => r matches Ok(g) && g matches ServiceReadGuard::Owned(v)
                    && call_ensures(f, (), v),
            },
    {
        match self {
            Service::SingletonArc(service) => Ok(ServiceReadGuard::Arc(arc_clone(service))),
            Service::SingletonRwLock(service) => match arc_deref(service).read() {
                Ok(guard) => Ok(ServiceReadGuard::RwLock(guard)),
                Err(_) => Err(ResolveError::Poisoned),
            },
            Service::SingletonMutex(service) => match arc_deref(service).lock() {
                Ok(guard) => Ok(ServiceReadGuard::Mutex(guard)),
                Err(_) => Err(ResolveError::Poisoned),
            },
            Service::Factory(factory) => Ok(ServiceReadGuard::Owned(factory())),
        }
    }

    /// Write access.  A shared-immutable binding refuses it with
    /// `MutImmutable`; a lock is acquired for writing (failing only when
    /// poisoned); a factory produces a fresh value the caller may mutate.
    pub fn mutable_ref<'a>(&'a self) -> (r: Result<ServiceWriteGuard<'a, T>, ResolveError>)
        requires
            factory_callable(*self),
        ensures
            match *self {
                Service::SingletonArc(_) => r matches Err(e) && e == ResolveError::MutImmutable,
                Service::SingletonRwLock(_) => (r matches Ok(g) ==> g is RwLock) && (r matches Err(e)
                    ==> e == ResolveError::Poisoned),
                Service::SingletonMutex(_) => (r matches Ok(g) ==> g is Mutex) && (r matches Err(e)
                    ==> e == ResolveError::Poisoned),
                Service::Factory(f) => r matches Ok(g) && g matches ServiceWriteGuard::Owned(v)
                    && call_ensures(f, (), v),
            },
    {
        match self {
            Service::SingletonArc(_) => Err(ResolveError::MutImmutable),
            Service::SingletonRwLock(service) => match arc_deref(service).write() {
                Ok(guard) => Ok(ServiceWriteGuard::RwLock(guard)),
                Err(_) => Err(ResolveError::Poisoned),
            },
            Service::SingletonMutex(service) => match arc_deref(service).lock() {
                Ok(guard) => Ok(ServiceWriteGuard::Mutex(guard)),
                Err(_) => Err(ResolveError::Poisoned),
            },
            Service::Factory(factory) => Ok(ServiceWriteGuard::Owned(factory())),
        }
    }

    /// Owned access.  Only a factory can honour it; a value held in shared
    /// state cannot be moved out without breaking the sharing contract.
    pub fn owned_value(&self) -> (r: Result<T, ResolveError>)
        requires
            factory_callable(*self),
        ensures
            match *self {
                Service::SingletonArc(_) => r matches Err(e) && e == ResolveError::OwnedImmutable,
                Service::SingletonRwLock(_) => r matches Err(e) && e == ResolveError::OwnedMutable,
                Service::SingletonMutex(_) => r matches Err(e) && e == ResolveError::OwnedMutable,
                Service::Factory(f) => r matches Ok(v) && call_ensures(f, (), v),
            },
    {
        match self {
            Service::SingletonArc(_) => Err(ResolveError::OwnedImmutable),
            Service::SingletonRwLock(_) => Err(ResolveError::OwnedMutable),
            Service::SingletonMutex(_) => Err(ResolveError::OwnedMutable),
            Service::Factory(factory) => Ok(factory()),
        }
    }
}

/// A transient read accessor over whichever storage backed the binding.
/// Dropping it releases any lock it holds.
#[verifier::reject_recursive_types(T)]
pub enum ServiceReadGuard<'a, T> {
    /// A clone of a shared-immutable handle; blocks nobody by existing.
    Arc(Arc<T>),
    /// A shared lock token; blocks writers for its lifetime.
    RwLock(RwLockReadGuard<'a, T>),
    /// An exclusive lock token; blocks every other accessor for its lifetime.
    Mutex(MutexGuard<'a, T>),
    /// A plain reference into caller-local data, for layered resolvers.
    Ref(&'a T),
    /// A fresh factory-produced value, owned by the guard itself.
    Owned(T),
}

impl<'a, T> ServiceReadGuard<'a, T> {
    /// The value this guard gives access to.  For the variants whose value
    /// the guard itself determines, the result is pinned down; what sits
    /// behind a lock is whatever the lock currently holds.
    pub fn deref<'b>(&'b self) -> (r: &'b T)
        ensures
            match *self {
                ServiceReadGuard::Arc(a) => *r == a,
                ServiceReadGuard::RwLock(_) => true,
                ServiceReadGuard::Mutex(_) => true,
                ServiceReadGuard::Ref(x) => r == x,
                ServiceReadGuard::Owned(v) => *r == v,
            },
    {
        match self {
            ServiceReadGuard::Arc(guard) => arc_deref(guard),
            ServiceReadGuard::RwLock(guard) => rwlock_read_guard_deref(guard),
            ServiceReadGuard::Mutex(guard) => mutex_guard_deref(guard),
            ServiceReadGuard::Ref(reference) => reference,
            ServiceReadGuard::Owned(value) => value,
        }
    }
}

/// A transient write accessor over whichever storage backed the binding.
/// Dropping it releases the lock it holds, making any mutation visible to
/// the next accessor.
#[verifier::reject_recursive_types(T)]
pub enum ServiceWriteGuard<'a, T> {
    /// An exclusive reader-writer lock token; blocks every other accessor.
    RwLock(RwLockWriteGuard<'a, T>),
    /// An exclusive lock token; blocks every other accessor.
    Mutex(MutexGuard<'a, T>),
    /// A fresh factory-produced value, owned by the guard itself.
    Owned(T),
}

impl<'a, T> ServiceWriteGuard<'a, T> {
    /// Read the value this guard gives access to.
    pub fn deref<'b>(&'b self) -> (r: &'b T)
        ensures
            match *self {
                ServiceWriteGuard::RwLock(_) => true,
                ServiceWriteGuard::Mutex(_) => true,
                ServiceWriteGuard::Owned(v) => *r == v,
            },
    {
        match self {
            ServiceWriteGuard::RwLock(guard) => rwlock_write_guard_deref(guard),
            ServiceWriteGuard::Mutex(guard) => mutex_guard_deref(guard),
            ServiceWriteGuard::Owned(value) => value,
        }
    }

    /// Mutable access to the value.  Writes through the result land in the
    /// guard itself for an owned value, and behind the lock otherwise.
    pub fn deref_mut<'b>(&'b mut self) -> (r: &'b mut T)
        ensures
            *old(self) is RwLock ==> *final(self) is RwLock,
            *old(self) is Mutex ==> *final(self) is Mutex,
            *old(self) matches ServiceWriteGuard::Owned(v) ==> *r == v && *final(self)
                == ServiceWriteGuard::Owned(*final(r)),
    {
        match self {
            ServiceWriteGuard::RwLock(guard) => rwlock_write_guard_deref_mut(guard),
            ServiceWriteGuard::Mutex(guard) => mutex_guard_deref_mut(guard),
            ServiceWriteGuard::Owned(value) => value,
        }
    }
}

} // verus!
