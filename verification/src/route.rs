//! A route: a path and the handler that answers under it.

use crate::erase::{BoxedRouteNewService, BoxedRouteService, RouteNewService};
use crate::extract::{Extract, ExtractService};
use crate::service::{same_answers, Service, ServiceFactory};
use crate::wrapper::{Factory, FromRequest, Responder, Wrapper};
use vstd::prelude::*;

verus! {

/// What a route answers to a raw request once `handler` is bound to it: the
/// argument is extracted from the request, the handler runs on it, and what
/// it returns is rendered. Where extraction fails, that failure is the
/// answer.
pub open spec fn handled<T, Arg, Res>(handler: T, req: Seq<char>) -> Result<Seq<char>, ()> where
    T: Factory<Arg, Res>,
    Arg: FromRequest,
    Res: Responder,
 {
    match Arg::extracted(req) {
        Ok(arg) => Ok(Res::rendered(handler.produced(arg))),
        Err(e) => Err(e),
    }
}

/// Whether the erased service answers every request as a route bound to a
/// clone of `handler` does.
pub open spec fn serves<T, Arg, Res>(service: BoxedRouteService, handler: T) -> bool where
    T: Factory<Arg, Res>,
    Arg: FromRequest,
    Res: Responder,
 {
    exists|h: T| #[trigger]
        cloned(handler, h) && forall|req: Seq<char>| #[trigger]
            service.outcome(req) == handled::<T, Arg, Res>(h, req)
}

/// A path and, once one is bound, the erased factory of the service that
/// answers under it.
pub struct Route {
    path: String,
    service: Option<BoxedRouteNewService>,
}

impl Route {
    /// The route's path.
    pub closed spec fn spec_path(&self) -> Seq<char> {
        self.path@
    }

    /// A route under `path` with no handler yet. Until one is bound, the
    /// route cannot build a service.
    pub fn new(path: &str) -> (route: Self)
        ensures
            route.spec_path() == path@,
            !route.constructs(),
    {
        Route { path: path.to_owned(), service: None }
    }

    /// The route's path.
    pub fn path(&self) -> (path: &String)
        ensures
            path@ == self.spec_path(),
    {
        &self.path
    }

    /// Binds a handler to the route. The route then builds, at each
    /// construction, a service that extracts the handler's argument from the
    /// request and renders what a clone of the handler returns for it.
    pub fn route<T, Arg, Res>(self, handler: T) -> (route: Self) where
        T: Factory<Arg, Res> + 'static,
        Arg: FromRequest + 'static,
        Res: Responder + 'static,

        ensures
            route.spec_path() == self.spec_path(),
            route.constructs(),
            forall|service: BoxedRouteService| #[trigger]
                route.yields(service) ==> serves::<T, Arg, Res>(service, handler),
    {
        let wrapper: Wrapper<T, Arg, Res> = Wrapper::new(handler);
        let extract: Extract<Arg, Wrapper<T, Arg, Res>> = Extract::new(wrapper);
        let factory = RouteNewService::new(extract);
        let erased = BoxedRouteNewService::new(factory);
        let route = Route { path: self.path, service: Some(erased) };
        assert forall|service: BoxedRouteService| #[trigger] route.yields(service) implies serves::<
            T,
            Arg,
            Res,
        >(service, handler) by {
            let typed = choose|typed: ExtractService<Arg, Wrapper<T, Arg, Res>>| #[trigger]
                extract.yields(typed) && same_answers(service, typed);
            let h = typed.inner().handler();
            assert(cloned(handler, h));
            assert forall|req: Seq<char>| #[trigger]
                service.outcome(req) == handled::<T, Arg, Res>(h, req) by {
                assert(service.outcome(req) == typed.outcome(req));
            }
        }
        route
    }
}

impl ServiceFactory<String, String, BoxedRouteService> for Route {
    /// A route constructs when a handler is bound and its factory constructs.
    closed spec fn constructs(&self) -> bool {
        match self.service {
            Some(factory) => factory.constructs(),
            None => false,
        }
    }

    closed spec fn yields(&self, service: BoxedRouteService) -> bool {
        match self.service {
            Some(factory) => factory.yields(service),
            None => false,
        }
    }

    fn new_service(&self) -> (res: Result<BoxedRouteService, ()>) {
        match &self.service {
            Some(factory) => factory.new_service(),
            None => Err(()),
        }
    }
}

} // verus!
