//! The erasure of a service's concrete type.
//!
//! Handlers differ in the argument they take and in what they return. A
//! route table holds them side by side, so each is put behind one signature:
//! a string goes in, a string comes out.

use crate::service::{same_answers, Service, ServiceFactory};
use std::marker::PhantomData;
use vstd::prelude::*;

verus! {

/// A typed service seen through the erased signature. It only delegates.
pub struct RouteServiceWrapper<T: Service<String, String>> {
    service: T,
}

impl<T: Service<String, String>> RouteServiceWrapper<T> {
    /// The typed service behind the wrapper.
    pub closed spec fn inner(&self) -> T {
        self.service
    }

    /// Puts a typed service behind the erased signature.
    pub fn new(service: T) -> (wrapper: Self)
        ensures
            wrapper.inner() == service,
    {
        Self { service }
    }
}

impl<T: Service<String, String>> Service<String, String> for RouteServiceWrapper<T> {
    open spec fn outcome(&self, req: Seq<char>) -> Result<Seq<char>, ()> {
        self.inner().outcome(req)
    }

    fn call(&self, req: String) -> (res: Result<String, ()>) {
        self.service.call(req)
    }
}

/// A service whose concrete type is forgotten.
pub struct BoxedRouteService {
    inner: Box<dyn Service<String, String>>,
}

impl BoxedRouteService {
    /// Forgets the type of `service`. The box answers every request as the
    /// service does.
    pub fn new<T: Service<String, String> + 'static>(service: T) -> (erased: Self)
        ensures
            same_answers(erased, service),
    {
        Self { inner: Box::new(RouteServiceWrapper::new(service)) }
    }
}

impl Service<String, String> for BoxedRouteService {
    closed spec fn outcome(&self, req: Seq<char>) -> Result<Seq<char>, ()> {
        self.inner.outcome(req)
    }

    /// Hands the request over as it is: it is consumed once, by the service
    /// behind the box.
    fn call(&self, req: String) -> (res: Result<String, ()>) {
        self.inner.call(req)
    }
}

/// A factory of erased services whose concrete type is forgotten.
pub struct BoxedRouteNewService {
    inner: Box<dyn ServiceFactory<String, String, BoxedRouteService>>,
}

impl BoxedRouteNewService {
    /// Forgets the type of an erasing factory. The box constructs when the
    /// factory does, and hands out what the factory hands out.
    pub fn new<T, S>(factory: RouteNewService<T, S>) -> (erased: Self) where
        T: ServiceFactory<String, String, S> + 'static,
        S: Service<String, String> + 'static,

        ensures
            erased.constructs() == factory.constructs(),
            forall|service: BoxedRouteService| #[trigger]
                erased.yields(service) == factory.yields(service),
    {
        Self { inner: Box::new(factory) }
    }
}

impl ServiceFactory<String, String, BoxedRouteService> for BoxedRouteNewService {
    closed spec fn constructs(&self) -> bool {
        self.inner.constructs()
    }

    closed spec fn yields(&self, service: BoxedRouteService) -> bool {
        self.inner.yields(service)
    }

    fn new_service(&self) -> (res: Result<BoxedRouteService, ()>) {
        self.inner.new_service()
    }
}

/// A typed factory seen as a factory of erased services. This is the one
/// place where the type of a route's service is forgotten.
pub struct RouteNewService<T, S> where
    T: ServiceFactory<String, String, S>,
    S: Service<String, String> + 'static,
 {
    service: T,
    _s: PhantomData<S>,
}

impl<T, S> RouteNewService<T, S> where
    T: ServiceFactory<String, String, S>,
    S: Service<String, String> + 'static,
 {
    /// The typed factory that is driven at each construction.
    pub closed spec fn factory(&self) -> T {
        self.service
    }

    /// Takes a typed factory.
    pub fn new(service: T) -> (erased: Self)
        ensures
            erased.factory() == service,
    {
        Self { service, _s: PhantomData }
    }
}

impl<T, S> ServiceFactory<String, String, BoxedRouteService> for RouteNewService<T, S> where
    T: ServiceFactory<String, String, S>,
    S: Service<String, String> + 'static,
 {
    /// Construction succeeds when that of the typed factory does.
    open spec fn constructs(&self) -> bool {
        self.factory().constructs()
    }

    /// The erased service answers as a service that the typed factory hands
    /// out.
    open spec fn yields(&self, service: BoxedRouteService) -> bool {
        exists|typed: S| #[trigger] self.factory().yields(typed) && same_answers(service, typed)
    }

    /// Drives the typed factory once, and boxes what it built. Nothing is
    /// kept: each call builds anew.
    fn new_service(&self) -> (res: Result<BoxedRouteService, ()>) {
        match self.service.new_service() {
            Ok(service) => Ok(BoxedRouteService::new(service)),
            Err(e) => Err(e),
        }
    }
}

/// Erasure is transparent: a typed service seen through the erased
/// signature answers every request as the service itself does.
pub proof fn lemma_erasure_transparent<S: Service<String, String>>(
    service: S,
    wrapper: RouteServiceWrapper<S>,
    req: Seq<char>,
)
    requires
        wrapper.inner() == service,
    ensures
        wrapper.outcome(req) == service.outcome(req),
{
}

/// Erased constructions do not depend on each other: where the services
/// that the typed factory hands out answer alike, so do any two erased
/// services built from it. Neither is kept by the factory, and neither
/// stands for the other.
pub proof fn lemma_erased_constructions_agree<T, S>(
    factory: RouteNewService<T, S>,
    first: BoxedRouteService,
    second: BoxedRouteService,
) where T: ServiceFactory<String, String, S>, S: Service<String, String> + 'static
    requires
        factory.yields(first),
        factory.yields(second),
        forall|one: S, other: S|
            factory.factory().yields(one) && factory.factory().yields(other) ==> same_answers(
                one,
                other,
            ),
    ensures
        same_answers(first, second),
{
    let one = choose|typed: S| #[trigger]
        factory.factory().yields(typed) && same_answers(first, typed);
    let other = choose|typed: S| #[trigger]
        factory.factory().yields(typed) && same_answers(second, typed);
    assert(same_answers(one, other));
    assert forall|req: Seq<char>| #[trigger] first.outcome(req) == second.outcome(req) by {
        assert(first.outcome(req) == one.outcome(req));
        assert(second.outcome(req) == other.outcome(req));
    }
}

} // verus!
