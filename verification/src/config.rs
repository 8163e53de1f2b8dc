//! The registries of an application.

use crate::resource::ResourceService;
use vstd::prelude::*;

verus! {

/// The services of an application that were resolved, in the order in which
/// they were registered.
pub struct AppService {
    services: Vec<ResourceService>,
}

impl View for AppService {
    type V = Seq<ResourceService>;

    closed spec fn view(&self) -> Seq<ResourceService> {
        self.services@
    }
}

impl AppService {
    /// A registry that holds nothing yet.
    pub fn new() -> (app: Self)
        ensures
            app@ == Seq::<ResourceService>::empty(),
    {
        AppService { services: Vec::new() }
    }

    /// Appends a resolved service.
    pub fn service(&mut self, service: ResourceService)
        ensures
            final(self)@ == old(self)@.push(service),
    {
        self.services.push(service);
    }

    /// The resolved services, oldest first.
    pub fn services(&self) -> (services: &Vec<ResourceService>)
        ensures
            services@ == self@,
    {
        &self.services
    }
}

/// Whether `after` is `before` with one service more at its end.
pub open spec fn one_more(before: Seq<ResourceService>, after: Seq<ResourceService>) -> bool {
    after.len() == before.len() + 1 && after.drop_last() == before
}

/// Something that can resolve itself into a service and register that
/// service with an application.
pub trait AppServiceFactory {
    /// Whether the construction behind a registration succeeds.
    ///
    /// An implementation states it. Where it states none, nothing more is
    /// known of it.
    open spec fn resolves(&self) -> bool {
        arbitrary::<spec_fn(&Self) -> bool>()(self)
    }

    /// Whether `service` is one that a successful registration may append.
    ///
    /// An implementation states it. Where it states none, nothing more is
    /// known of it.
    open spec fn resolved(&self, service: ResourceService) -> bool {
        arbitrary::<spec_fn(&Self, ResourceService) -> bool>()(self, service)
    }

    /// Resolves the service and appends it to `config`. Returns the place
    /// that the service took there. Where construction fails, nothing is
    /// appended. Registering leaves unchanged what a later registration
    /// would do.
    fn register(&mut self, config: &mut AppService) -> (res: Result<usize, ()>)
        ensures
            res is Ok <==> old(self).resolves(),
            res is Err ==> final(config)@ == old(config)@,
            res matches Ok(at) ==> {
                &&& at == old(config)@.len()
                &&& one_more(old(config)@, final(config)@)
                &&& old(self).resolved(final(config)@.last())
            },
            final(self).resolves() == old(self).resolves(),
            forall|service: ResourceService| #[trigger]
                final(self).resolved(service) == old(self).resolved(service),
    ;
}

/// A factory behind the wrapper that the configuration stores. It only
/// delegates.
pub struct ServiceFactoryWrapper<T: AppServiceFactory> {
    factory: T,
}

impl<T: AppServiceFactory> ServiceFactoryWrapper<T> {
    /// The factory behind the wrapper.
    pub closed spec fn inner(&self) -> T {
        self.factory
    }

    /// Wraps a factory.
    pub fn new(factory: T) -> (wrapper: Self)
        ensures
            wrapper.inner() == factory,
    {
        Self { factory }
    }
}

impl<T: AppServiceFactory> AppServiceFactory for ServiceFactoryWrapper<T> {
    open spec fn resolves(&self) -> bool {
        self.inner().resolves()
    }

    open spec fn resolved(&self, service: ResourceService) -> bool {
        self.inner().resolved(service)
    }

    fn register(&mut self, config: &mut AppService) -> (res: Result<usize, ()>) {
        self.factory.register(config)
    }
}

/// A factory whose concrete type is forgotten.
pub struct BoxedAppServiceFactory {
    inner: Box<dyn AppServiceFactory>,
}

impl BoxedAppServiceFactory {
    /// Forgets the type of a wrapped factory. The box resolves when the
    /// factory does, into what the factory resolves into.
    pub fn new<T: AppServiceFactory + 'static>(wrapper: ServiceFactoryWrapper<T>) -> (erased: Self)
        ensures
            erased.resolves() == wrapper.resolves(),
            forall|service: ResourceService| #[trigger]
                erased.resolved(service) == wrapper.resolved(service),
    {
        Self { inner: Box::new(wrapper) }
    }
}

impl AppServiceFactory for BoxedAppServiceFactory {
    closed spec fn resolves(&self) -> bool {
        self.inner.resolves()
    }

    closed spec fn resolved(&self, service: ResourceService) -> bool {
        self.inner.resolved(service)
    }

    fn register(&mut self, config: &mut AppService) -> (res: Result<usize, ()>) {
        self.inner.register(config)
    }
}

/// The factories of an application that await registration, in the order in
/// which they were added.
pub struct ServiceConfig {
    pub services: Vec<BoxedAppServiceFactory>,
}

impl ServiceConfig {
    /// A configuration that holds nothing yet.
    pub fn new() -> (config: Self)
        ensures
            config.services@ == Seq::<BoxedAppServiceFactory>::empty(),
    {
        ServiceConfig { services: Vec::new() }
    }

    /// Adds a factory behind a wrapper that forgets its type. Nothing is
    /// resolved here: a construction can fail only when the entry is
    /// registered.
    pub fn service<T>(&mut self, factory: T) where T: AppServiceFactory + 'static
        ensures
            final(self).services@.len() == old(self).services@.len() + 1,
            final(self).services@.drop_last() == old(self).services@,
            final(self).services@.last().resolves() == factory.resolves(),
            forall|service: ResourceService| #[trigger]
                final(self).services@.last().resolved(service) == factory.resolved(service),
    {
        self.services.push(BoxedAppServiceFactory::new(ServiceFactoryWrapper::new(factory)));
    }

    /// How many of the first `upto` entries resolve.
    pub open spec fn resolving(entries: Seq<BoxedAppServiceFactory>, upto: int) -> nat
        decreases upto,
    {
        if upto <= 0 {
            0
        } else {
            Self::resolving(entries, upto - 1) + if entries[upto - 1].resolves() {
                1nat
            } else {
                0nat
            }
        }
    }

    /// The place that the service of entry `k` takes in a registry that held
    /// `held` services before: behind those, and behind the services of the
    /// entries before `k` that resolve.
    pub open spec fn place(entries: Seq<BoxedAppServiceFactory>, held: nat, k: int) -> int {
        (held + Self::resolving(entries, k)) as int
    }

    /// Registers every entry with `config`, in the order in which the
    /// entries were added, each one wholly before the next. Returns how many
    /// resolved.
    ///
    /// What `config` held stays in front. The service of an entry that
    /// resolves stands behind those of the entries added before it. An entry
    /// that fails to resolve adds nothing and stops no other.
    pub fn register_all(self, config: &mut AppService) -> (count: usize)
        ensures
            count == Self::resolving(self.services@, self.services@.len() as int),
            final(config)@.len() == old(config)@.len() + count,
            final(config)@.take(old(config)@.len() as int) == old(config)@,
            forall|k: int|
                0 <= k < self.services@.len() && #[trigger] self.services@[k].resolves()
                    ==> self.services@[k].resolved(
                    final(config)@[Self::place(self.services@, old(config)@.len(), k)],
                ),
    {
        let ghost entries = self.services@;
        let ghost before = config@;
        let mut services = self.services;
        let mut count: usize = 0;
        let mut i: usize = 0;
        while i < services.len()
            invariant
                i <= services.len(),
                services@.len() == entries.len(),
                forall|k: int|
                    0 <= k < entries.len() ==> #[trigger] services@[k].resolves()
                        == entries[k].resolves(),
                forall|k: int, service: ResourceService|
                    0 <= k < entries.len() ==> #[trigger] services@[k].resolved(service)
                        == entries[k].resolved(service),
                count <= i,
                count == Self::resolving(entries, i as int),
                config@.len() == before.len() + count,
                config@.take(before.len() as int) == before,
                forall|k: int|
                    0 <= k < i && #[trigger] entries[k].resolves() ==> entries[k].resolved(
                        config@[Self::place(entries, before.len(), k)],
                    ),
            decreases services.len() - i,
        {
            let ghost held = config@;
            let res = services[i].register(config);
            proof {
                if res is Ok {
                    assert forall|k: int|
                        0 <= k < i && #[trigger] entries[k].resolves() implies entries[k].resolved(
                        config@[Self::place(entries, before.len(), k)],
                    ) by {
                        Self::lemma_resolving_grows(entries, k, i as int);
                    }
                }
            }
            if res.is_ok() {
                count = count + 1;
            }
            i = i + 1;
        }
        count
    }

    /// Among the first `k` entries no more resolve than among the first `n`,
    /// and fewer where entry `k` itself resolves.
    pub proof fn lemma_resolving_grows(entries: Seq<BoxedAppServiceFactory>, k: int, n: int)
        requires
            0 <= k < n,
        ensures
            Self::resolving(entries, k) <= Self::resolving(entries, n),
            entries[k].resolves() ==> Self::resolving(entries, k) < Self::resolving(entries, n),
        decreases n - k,
    {
        if k + 1 < n {
            Self::lemma_resolving_grows(entries, k, n - 1);
        }
    }
}

/// Registration keeps order: after a first factory and then a second have
/// each registered a service, the registry holds what it held before, then
/// the service of the first, then that of the second.
pub proof fn lemma_registration_keeps_order<A: AppServiceFactory, B: AppServiceFactory>(
    first: A,
    second: B,
    before: Seq<ResourceService>,
    between: Seq<ResourceService>,
    after: Seq<ResourceService>,
)
    requires
        one_more(before, between),
        first.resolved(between.last()),
        one_more(between, after),
        second.resolved(after.last()),
    ensures
        after.len() == before.len() + 2,
        after.take(before.len() as int) == before,
        first.resolved(after[before.len() as int]),
        second.resolved(after[before.len() as int + 1]),
        after == before.push(between.last()).push(after.last()),
{
}

} // verus!
