//! The registry: a key-addressed binding map.
//!
//! Abstract service types are identified by caller-chosen integer keys; at
//! most one binding is registered per key, and binding the same key again
//! replaces the earlier binding.  The map is populated during single-threaded
//! setup and only read by resolution, so it needs no synchronization of its
//! own; each lock-protected binding carries its own lock.

use vstd::prelude::*;
use vstd::pervasive::VecAdditionalExecFns;
use std::sync::Arc;
use std::sync::Mutex;
use std::sync::RwLock;

use crate::resolve_error::ResolveError;
use crate::service::factory_callable;
use crate::service::Service;
use crate::service::ServiceReadGuard;
use crate::service::ServiceWriteGuard;
use crate::traits::Resolver;

verus! {

/// The binding map a sequence of entries stands for: entries are read left
/// to right, so a later entry for a key would shadow an earlier one (the
/// registry keeps keys unique, so the question does not arise).
spec fn map_of<T, F>(s: Seq<(u64, Service<T, F>)>) -> Map<u64, Service<T, F>>
    decreases s.len(),
{
    if s.len() == 0 {
        Map::empty()
    } else {
        map_of(s.drop_last()).insert(s.last().0, s.last().1)
    }
}

/// No two entries claim the same key.
spec fn keys_unique<T, F>(s: Seq<(u64, Service<T, F>)>) -> bool {
    forall|i: int, j: int| 0 <= i < j < s.len() ==> s[i].0 != s[j].0
}

/// A key is in the map exactly when some entry carries it.
proof fn lemma_map_of_dom<T, F>(s: Seq<(u64, Service<T, F>)>)
    ensures
        forall|k: u64|
            map_of(s).dom().contains(k) <==> exists|i: int|
                0 <= i < s.len() && (#[trigger] s[i]).0 == k,
    decreases s.len(),
{
    if s.len() > 0 {
        lemma_map_of_dom(s.drop_last());
        assert forall|k: u64| map_of(s).dom().contains(k) implies exists|i: int|
            0 <= i < s.len() && (#[trigger] s[i]).0 == k by {
            if k == s.last().0 {
                assert((s[s.len() - 1]).0 == k);
            } else {
                assert(map_of(s.drop_last()).dom().contains(k));
                let i = choose|i: int|
                    0 <= i < s.drop_last().len() && (#[trigger] s.drop_last()[i]).0 == k;
                assert(s.drop_last()[i] == s[i]);
                assert((s[i]).0 == k);
            }
        }
        assert forall|k: u64|
            exists|i: int| 0 <= i < s.len() && (#[trigger] s[i]).0 == k implies map_of(
            s,
        ).dom().contains(k) by {
            let i = choose|i: int| 0 <= i < s.len() && (#[trigger] s[i]).0 == k;
            if i == s.len() - 1 {
                assert(k == s.last().0);
            } else {
                assert(s.drop_last()[i] == s[i]);
                assert(exists|j: int|
                    0 <= j < s.drop_last().len() && (#[trigger] s.drop_last()[j]).0 == k);
                assert(map_of(s.drop_last()).dom().contains(k));
            }
        }
    }
}

/// With unique keys, the entry carrying a key is the one the map returns.
proof fn lemma_map_of_at<T, F>(s: Seq<(u64, Service<T, F>)>, i: int)
    requires
        keys_unique(s),
        0 <= i < s.len(),
    ensures
        map_of(s).dom().contains(s[i].0),
        map_of(s)[s[i].0] == s[i].1,
    decreases s.len(),
{
    if i < s.len() - 1 {
        assert(keys_unique(s.drop_last()));
        lemma_map_of_at(s.drop_last(), i);
        assert(s.drop_last()[i] == s[i]);
        assert(s[i].0 != s.last().0);
    }
}

/// Replacing the entry that carries a key updates the map at that key alone.
proof fn lemma_map_of_update<T, F>(s: Seq<(u64, Service<T, F>)>, i: int, p: (u64, Service<T, F>))
    requires
        keys_unique(s),
        0 <= i < s.len(),
        p.0 == s[i].0,
    ensures
        map_of(s.update(i, p)) == map_of(s).insert(p.0, p.1),
    decreases s.len(),
{
    let t = s.update(i, p);
    if i == s.len() - 1 {
        assert(t.drop_last() =~= s.drop_last());
        assert(map_of(t) =~= map_of(s).insert(p.0, p.1));
    } else {
        assert(keys_unique(s.drop_last()));
        assert(s.drop_last()[i] == s[i]);
        lemma_map_of_update(s.drop_last(), i, p);
        assert(t.drop_last() =~= s.drop_last().update(i, p));
        assert(t.last() == s.last());
        assert(s[i].0 != s.last().0);
        assert(map_of(t) =~= map_of(s).insert(p.0, p.1));
    }
}

/// Appending an entry for a fresh key extends the map at that key alone.
proof fn lemma_map_of_push<T, F>(s: Seq<(u64, Service<T, F>)>, p: (u64, Service<T, F>))
    ensures
        map_of(s.push(p)) == map_of(s).insert(p.0, p.1),
{
    assert(s.push(p).drop_last() =~= s);
    assert(s.push(p).last() == p);
}

/// What resolving read access against the binding map `m` at `key` must
/// yield: the legality table of [`Service`], read along its first column.
pub open spec fn read_resolution<'a, T, F: Fn() -> T>(
    m: Map<u64, Service<T, F>>,
    key: u64,
    r: Result<ServiceReadGuard<'a, T>, ResolveError>,
) -> bool {
    &&& !m.dom().contains(key) ==> (r matches Err(e) && e == ResolveError::NonExist)
    &&& m.dom().contains(key) ==> match m[key] {
        Service::SingletonArc(a) => r matches Ok(g) && g matches ServiceReadGuard::Arc(b) && b == a,
        Service::SingletonRwLock(_) => (r matches Ok(g) ==> g is RwLock) && (r matches Err(e)
            ==> e == ResolveError::Poisoned),
        Service::SingletonMutex(_) => (r matches Ok(g) ==> g is Mutex) && (r matches Err(e) ==> e
            == ResolveError::Poisoned),
        Service::Factory(f) => r matches Ok(g) && g matches ServiceReadGuard::Owned(v)
            && call_ensures(f, (), v),
    }
}

/// What resolving write access against the binding map `m` at `key` must
/// yield: the legality table of [`Service`], read along its second column.
pub open spec fn write_resolution<'a, T, F: Fn() -> T>(
    m: Map<u64, Service<T, F>>,
    key: u64,
    r: Result<ServiceWriteGuard<'a, T>, ResolveError>,
) -> bool {
    &&& !m.dom().contains(key) ==> (r matches Err(e) && e == ResolveError::NonExist)
    &&& m.dom().contains(key) ==> match m[key] {
        Service::SingletonArc(_) => r matches Err(e) && e == ResolveError::MutImmutable,
        Service::SingletonRwLock(_) => (r matches Ok(g) ==> g is RwLock) && (r matches Err(e)
            ==> e == ResolveError::Poisoned),
        Service::SingletonMutex(_) => (r matches Ok(g) ==> g is Mutex) && (r matches Err(e) ==> e
            == ResolveError::Poisoned),
        Service::Factory(f) => r matches Ok(g) && g matches ServiceWriteGuard::Owned(v)
            && call_ensures(f, (), v),
    }
}

/// What resolving an owned value against the binding map `m` at `key` must
/// yield: the legality table of [`Service`], read along its third column.
pub open spec fn owned_resolution<T, F: Fn() -> T>(
    m: Map<u64, Service<T, F>>,
    key: u64,
    r: Result<T, ResolveError>,
) -> bool {
    &&& !m.dom().contains(key) ==> (r matches Err(e) && e == ResolveError::NonExist)
    &&& m.dom().contains(key) ==> match m[key] {
        Service::SingletonArc(_) => r matches Err(e) && e == ResolveError::OwnedImmutable,
        Service::SingletonRwLock(_) => r matches Err(e) && e == ResolveError::OwnedMutable,
        Service::SingletonMutex(_) => r matches Err(e) && e == ResolveError::OwnedMutable,
        Service::Factory(f) => r matches Ok(v) && call_ensures(f, (), v),
    }
}

/// The process-wide store: a map from the integer identity of an abstract
/// service type to the binding registered for it.  Bind during
/// single-threaded setup, then share (for instance behind an `Arc`) and
/// resolve from any thread.
#[verifier::reject_recursive_types(T)]
#[verifier::reject_recursive_types(F)]
pub struct ServiceContainer<T, F> where F: Fn() -> T {
    services: Vec<(u64, Service<T, F>)>,
}

impl<T, F> View for ServiceContainer<T, F> where F: Fn() -> T {
    type V = Map<u64, Service<T, F>>;

    closed spec fn view(&self) -> Map<u64, Service<T, F>> {
        map_of(self.services@)
    }
}

impl<T, F> ServiceContainer<T, F> where F: Fn() -> T {
    /// Every key appears at most once, and every stored factory callback
    /// may be invoked.
    #[verifier::type_invariant]
    spec fn wf(&self) -> bool {
        keys_unique(self.services@) && forall|i: int|
            0 <= i < self.services@.len() ==> factory_callable(
                (#[trigger] self.services@[i]).1,
            )
    }

    /// An empty registry.
    pub fn new() -> (c: Self)
        ensures
            c@ == Map::<u64, Service<T, F>>::empty(),
    {
        ServiceContainer { services: Vec::new() }
    }

    /// The entry carrying `key`, if any.
    fn index_of(services: &Vec<(u64, Service<T, F>)>, key: u64) -> (r: Option<usize>)
        ensures
            match r {
                Some(i) => i < services@.len() && services@[i as int].0 == key,
                None => forall|j: int| 0 <= j < services@.len() ==> (#[trigger] services@[j]).0 != key,
            },
    {
        let mut i: usize = 0;
        while i < services.len()
            invariant
                i <= services@.len(),
                forall|j: int| 0 <= j < i ==> (#[trigger] services@[j]).0 != key,
            decreases services@.len() - i,
        {
            if services[i].0 == key {
                return Some(i);
            }
            i += 1;
        }
        None
    }

    /// Register `service` under `key`, replacing any binding already there.
    fn insert_binding(&mut self, key: u64, service: Service<T, F>)
        requires
            factory_callable(service),
        ensures
            final(self)@ == old(self)@.insert(key, service),
    {
        proof {
            use_type_invariant(&*self);
        }
        let mut services: Vec<(u64, Service<T, F>)> = Vec::new();
        std::mem::swap(&mut services, &mut self.services);
        let ghost s = services@;
        match Self::index_of(&services, key) {
            Some(i) => {
                services.set(i, (key, service));
                proof {
                    lemma_map_of_update(s, i as int, (key, service));
                }
            },
            None => {
                services.push((key, service));
                proof {
                    lemma_map_of_push(s, (key, service));
                }
            },
        }
        self.services = services;
    }

    /// Bind a shared-immutable value: resolvable by reference from many
    /// threads at once, never mutably, never by move.
    pub fn bind_singleton_arc(&mut self, key: u64, service: Arc<T>)
        ensures
            final(self)@ == old(self)@.insert(key, Service::SingletonArc(service)),
    {
        self.insert_binding(key, Service::SingletonArc(service));
    }

    /// Bind a value behind a reader-writer lock: many concurrent readers or
    /// one writer.
    pub fn bind_singleton_rwlock(&mut self, key: u64, service: Arc<RwLock<T>>)
        ensures
            final(self)@ == old(self)@.insert(key, Service::SingletonRwLock(service)),
    {
        self.insert_binding(key, Service::SingletonRwLock(service));
    }

    /// Bind a value behind an exclusive lock: one accessor at a time, of
    /// either kind.
    pub fn bind_singleton_mutex(&mut self, key: u64, service: Arc<Mutex<T>>)
        ensures
            final(self)@ == old(self)@.insert(key, Service::SingletonMutex(service)),
    {
        self.insert_binding(key, Service::SingletonMutex(service));
    }

    /// Bind a factory callback, invoked once per resolution; every resolution
    /// observes a fresh value.
    pub fn bind_factory(&mut self, key: u64, factory: F)
        requires
            call_requires(factory, ()),
        ensures
            final(self)@ == old(self)@.insert(key, Service::Factory(factory)),
    {
        self.insert_binding(key, Service::Factory(factory));
    }
}

impl<T, F> ServiceContainer<T, F> where F: Fn() -> T {
    /// Look the binding up and resolve read access as its variant allows:
    /// see the legality table on [`Service`].
    pub fn resolve_immutable_ref<'a>(&'a self, key: u64) -> (r: Result<
        ServiceReadGuard<'a, T>,
        ResolveError,
    >)
        ensures
            read_resolution(self@, key, r),
    {
        proof {
            use_type_invariant(&*self);
            lemma_map_of_dom(self.services@);
        }
        match Self::index_of(&self.services, key) {
            Some(i) => {
                proof {
                    lemma_map_of_at(self.services@, i as int);
                }
                let (_, service) = &self.services[i];
                service.immutable_ref()
            },
            None => Err(ResolveError::NonExist),
        }
    }

    /// Look the binding up and resolve write access as its variant allows:
    /// see the legality table on [`Service`].
    pub fn resolve_mutable_ref<'a>(&'a self, key: u64) -> (r: Result<
        ServiceWriteGuard<'a, T>,
        ResolveError,
    >)
        ensures
            write_resolution(self@, key, r),
    {
        proof {
            use_type_invariant(&*self);
            lemma_map_of_dom(self.services@);
        }
        match Self::index_of(&self.services, key) {
            Some(i) => {
                proof {
                    lemma_map_of_at(self.services@, i as int);
                }
                let (_, service) = &self.services[i];
                service.mutable_ref()
            },
            None => Err(ResolveError::NonExist),
        }
    }

    /// Look the binding up and resolve an owned value if its variant can
    /// honour that: see the legality table on [`Service`].
    pub fn resolve_owned_value(&self, key: u64) -> (r: Result<T, ResolveError>)
        ensures
            owned_resolution(self@, key, r),
    {
        proof {
            use_type_invariant(&*self);
            lemma_map_of_dom(self.services@);
        }
        match Self::index_of(&self.services, key) {
            Some(i) => {
                proof {
                    lemma_map_of_at(self.services@, i as int);
                }
                let (_, service) = &self.services[i];
                service.owned_value()
            },
            None => Err(ResolveError::NonExist),
        }
    }
}

/// The resolver capability, by delegation to the inherent operations; the
/// contracts are the same.  (Resolve through the concrete registry type
/// where a proof needs to connect a factory's result to its callback:
/// Verus loses that connection across a trait call.)
impl<T, F> Resolver<T, F> for ServiceContainer<T, F> where F: Fn() -> T {
    type Error = ResolveError;

    fn resolve_immutable_ref<'a>(&'a self, key: u64) -> (r: Result<
        ServiceReadGuard<'a, T>,
        ResolveError,
    >)
        ensures
            read_resolution(self@, key, r),
    {
        Self::resolve_immutable_ref(self, key)
    }

    fn resolve_mutable_ref<'a>(&'a self, key: u64) -> (r: Result<
        ServiceWriteGuard<'a, T>,
        ResolveError,
    >)
        ensures
            write_resolution(self@, key, r),
    {
        Self::resolve_mutable_ref(self, key)
    }

    fn resolve_owned_value(&self, key: u64) -> (r: Result<T, ResolveError>)
        ensures
            owned_resolution(self@, key, r),
    {
        Self::resolve_owned_value(self, key)
    }
}

/// Law: for a key with no binding, all three resolution modes fail with
/// `NonExist`.
pub proof fn lemma_unbound_resolution<'a, T, F: Fn() -> T>(
    m: Map<u64, Service<T, F>>,
    key: u64,
    r_read: Result<ServiceReadGuard<'a, T>, ResolveError>,
    r_write: Result<ServiceWriteGuard<'a, T>, ResolveError>,
    r_owned: Result<T, ResolveError>,
)
    requires
        !m.dom().contains(key),
        read_resolution(m, key, r_read),
        write_resolution(m, key, r_write),
        owned_resolution(m, key, r_owned),
    ensures
        r_read == Result::<ServiceReadGuard<'a, T>, ResolveError>::Err(ResolveError::NonExist),
        r_write == Result::<ServiceWriteGuard<'a, T>, ResolveError>::Err(ResolveError::NonExist),
        r_owned == Result::<T, ResolveError>::Err(ResolveError::NonExist),
{
}

/// Law: for a shared-immutable binding of `v`, read resolution succeeds
/// with a guard holding exactly `v`, write resolution fails with
/// `MutImmutable`, and owned resolution fails with `OwnedImmutable`.
pub proof fn lemma_shared_immutable_resolution<'a, T, F: Fn() -> T>(
    m: Map<u64, Service<T, F>>,
    key: u64,
    v: Arc<T>,
    r_read: Result<ServiceReadGuard<'a, T>, ResolveError>,
    r_write: Result<ServiceWriteGuard<'a, T>, ResolveError>,
    r_owned: Result<T, ResolveError>,
)
    requires
        m.dom().contains(key),
        m[key] == Service::<T, F>::SingletonArc(v),
        read_resolution(m, key, r_read),
        write_resolution(m, key, r_write),
        owned_resolution(m, key, r_owned),
    ensures
        r_read matches Ok(g) && g matches ServiceReadGuard::Arc(b) && b == v,
        r_write == Result::<ServiceWriteGuard<'a, T>, ResolveError>::Err(ResolveError::MutImmutable),
        r_owned == Result::<T, ResolveError>::Err(ResolveError::OwnedImmutable),
{
}

/// Law: a lock-protected binding never gives its value away by move; owned
/// resolution fails with `OwnedMutable`.
pub proof fn lemma_lock_protected_owned<T, F: Fn() -> T>(
    m: Map<u64, Service<T, F>>,
    key: u64,
    r_owned: Result<T, ResolveError>,
)
    requires
        m.dom().contains(key),
        m[key] is SingletonRwLock || m[key] is SingletonMutex,
        owned_resolution(m, key, r_owned),
    ensures
        r_owned == Result::<T, ResolveError>::Err(ResolveError::OwnedMutable),
{
}

/// Law: a factory binding honours every access mode with a fresh value that
/// satisfies the callback's own contract; resolution never hands back a
/// cached value's guard, only `Owned` guards and moved results.
pub proof fn lemma_factory_resolution<'a, T, F: Fn() -> T>(
    m: Map<u64, Service<T, F>>,
    key: u64,
    f: F,
    r_read: Result<ServiceReadGuard<'a, T>, ResolveError>,
    r_write: Result<ServiceWriteGuard<'a, T>, ResolveError>,
    r_owned: Result<T, ResolveError>,
)
    requires
        m.dom().contains(key),
        m[key] == Service::<T, F>::Factory(f),
        read_resolution(m, key, r_read),
        write_resolution(m, key, r_write),
        owned_resolution(m, key, r_owned),
    ensures
        r_read matches Ok(g) && g matches ServiceReadGuard::Owned(v) && call_ensures(f, (), v),
        r_write matches Ok(g) && g matches ServiceWriteGuard::Owned(v) && call_ensures(f, (), v),
        r_owned matches Ok(v) && call_ensures(f, (), v),
{
}

/// Law: binding a key again replaces the earlier binding; the map after two
/// binds of one key is the map after the second alone, so later resolutions
/// see only the second binding.
pub proof fn lemma_bind_overwrites<T, F: Fn() -> T>(
    m: Map<u64, Service<T, F>>,
    key: u64,
    first: Service<T, F>,
    second: Service<T, F>,
)
    ensures
        m.insert(key, first).insert(key, second) == m.insert(key, second),
{
    assert(m.insert(key, first).insert(key, second) =~= m.insert(key, second));
}

} // verus!
