//! A routed resource and the construction of its service.

use crate::config::{AppService, AppServiceFactory};
use crate::erase::BoxedRouteService;
use crate::route::Route;
use crate::service::{Service, ServiceFactory};
use vstd::prelude::*;
use vstd::string::StringExecFns;
use vstd::utf8::{encode_utf8, is_ascii_chars, is_ascii_chars_encode_utf8};

verus! {

/// The number of bytes of a path, as `len` gives it for a string of these
/// characters.
pub open spec fn byte_len(path: Seq<char>) -> usize {
    encode_utf8(path).len() as usize
}

/// The length that is kept beside a path: the number of bytes of the path,
/// as far as sixteen bits hold it.
pub open spec fn path_len(path: Seq<char>) -> u16 {
    (byte_len(path) % 0x1_0000) as u16
}

/// For a path of plain ASCII that is shorter than 65536 characters, the
/// length that is kept is the number of its characters.
pub proof fn lemma_path_len_of_ascii(path: Seq<char>)
    requires
        is_ascii_chars(path),
        path.len() < 0x1_0000,
    ensures
        path_len(path) == path.len(),
{
    is_ascii_chars_encode_utf8(path);
}

/// What one step of a construction gives: the result, or the word that it
/// is not there yet.
pub enum Poll<T> {
    Ready(T),
    Pending,
}

/// Where a construction stands.
#[derive(Clone, Copy, Debug, PartialEq, Eq)]
pub enum Stage {
    /// The nested construction has not resolved yet.
    Pending,
    /// The nested construction gave a service, and the resource service was
    /// handed out.
    Ready,
    /// The nested construction failed, and the failure was handed out.
    Failed,
}

/// The unit that is ready to dispatch: the erased service of a route, the
/// full path under which it answers, and the length of that path.
pub struct ResourceService {
    service: BoxedRouteService,
    path: String,
    len: u16,
}

impl ResourceService {
    #[verifier::type_invariant]
    spec fn well_formed(self) -> bool {
        self.len == path_len(self.path@)
    }

    /// The erased service that answers.
    pub closed spec fn spec_service(&self) -> BoxedRouteService {
        self.service
    }

    /// The full path.
    pub closed spec fn spec_path(&self) -> Seq<char> {
        self.path@
    }

    /// The length kept beside the path.
    pub closed spec fn spec_len(&self) -> u16 {
        self.len
    }

    /// The full path.
    pub fn path(&self) -> (path: &String)
        ensures
            path@ == self.spec_path(),
    {
        &self.path
    }

    /// The length kept beside the path. It is always that of the path.
    pub fn len(&self) -> (len: u16)
        ensures
            len == self.spec_len(),
            len == path_len(self.spec_path()),
    {
        proof {
            use_type_invariant(self);
        }
        self.len
    }
}

impl Service<String, String> for ResourceService {
    /// A resource service answers as the erased service in it does.
    open spec fn outcome(&self, req: Seq<char>) -> Result<Seq<char>, ()> {
        self.spec_service().outcome(req)
    }

    fn call(&self, req: String) -> (res: Result<String, ()>) {
        self.service.call(req)
    }
}

/// The construction of a resource service: it waits for the route's erased
/// service, and wraps it with the path and its length once it is there.
pub struct CreateResourceService {
    path: String,
    len: u16,
    stage: Stage,
}

impl CreateResourceService {
    #[verifier::type_invariant]
    spec fn well_formed(self) -> bool {
        self.len == path_len(self.path@)
    }

    /// The path that the service will answer under.
    pub closed spec fn spec_path(&self) -> Seq<char> {
        self.path@
    }

    /// The length kept beside the path.
    pub closed spec fn spec_len(&self) -> u16 {
        self.len
    }

    /// Where the construction stands.
    pub closed spec fn spec_stage(&self) -> Stage {
        self.stage
    }

    /// Begins a construction. The path is the prefix followed by the route's
    /// path; it is put together here, once, with its length.
    pub fn new(prefix: &String, route_path: &String) -> (pending: Self)
        ensures
            pending.spec_path() == prefix@ + route_path@,
            pending.spec_len() == path_len(pending.spec_path()),
            pending.spec_stage() is Pending,
    {
        let mut path = prefix.clone();
        path.append(route_path.as_str());
        let bytes: usize = path.as_str().len();
        let len: u16 = (bytes % 0x1_0000) as u16;
        CreateResourceService { path, len, stage: Stage::Pending }
    }

    /// The path that the service will answer under.
    pub fn path(&self) -> (path: &String)
        ensures
            path@ == self.spec_path(),
    {
        &self.path
    }

    /// The length kept beside the path. It is always that of the path.
    pub fn len(&self) -> (len: u16)
        ensures
            len == self.spec_len(),
            len == path_len(self.spec_path()),
    {
        proof {
            use_type_invariant(self);
        }
        self.len
    }

    /// Where the construction stands.
    pub fn stage(&self) -> (stage: Stage)
        ensures
            stage == self.spec_stage(),
    {
        self.stage
    }

    /// Whether the construction still waits for the nested one.
    pub fn is_pending(&self) -> (pending: bool)
        ensures
            pending == (self.spec_stage() is Pending),
    {
        match self.stage {
            Stage::Pending => true,
            _ => false,
        }
    }

    /// One step: takes what polling the nested construction gave.
    ///
    /// While the nested construction is not ready, neither is this one, and
    /// nothing changes. A service is wrapped with the path and its length,
    /// and the construction is done. A failure is handed on, and no resource
    /// service is made. A construction that is done is not polled again.
    pub fn poll(&mut self, nested: Poll<Result<BoxedRouteService, ()>>) -> (out: Poll<
        Result<ResourceService, ()>,
    >)
        requires
            old(self).spec_stage() is Pending,
        ensures
            final(self).spec_path() == old(self).spec_path(),
            final(self).spec_len() == old(self).spec_len(),
            match nested {
                Poll::Pending => out is Pending && final(self).spec_stage() is Pending,
                Poll::Ready(Ok(service)) => {
                    &&& out matches Poll::Ready(Ok(resolved))
                    &&& resolved.spec_service() == service
                    &&& resolved.spec_path() == old(self).spec_path()
                    &&& resolved.spec_len() == old(self).spec_len()
                    &&& final(self).spec_stage() is Ready
                },
                Poll::Ready(Err(_)) => {
                    &&& out matches Poll::Ready(Err(_))
                    &&& final(self).spec_stage() is Failed
                },
            },
    {
        proof {
            use_type_invariant(&*self);
        }
        match nested {
            Poll::Pending => Poll::Pending,
            Poll::Ready(Ok(service)) => {
                self.stage = Stage::Ready;
                Poll::Ready(Ok(ResourceService { service, path: self.path.clone(), len: self.len }))
            },
            Poll::Ready(Err(e)) => {
                self.stage = Stage::Failed;
                Poll::Ready(Err(e))
            },
        }
    }
}

/// A path prefix and a route, which register as one service.
///
/// The resource remembers the place that its service took in the
/// application it was last registered with.
pub struct Resource {
    prefix: String,
    route: Route,
    route_service: Option<usize>,
}

impl Resource {
    /// The path prefix.
    pub closed spec fn spec_prefix(&self) -> Seq<char> {
        self.prefix@
    }

    /// The route.
    pub closed spec fn spec_route(&self) -> Route {
        self.route
    }

    /// The place of the resolved service, once the resource was registered.
    pub closed spec fn spec_route_service(&self) -> Option<usize> {
        self.route_service
    }

    /// The full path: the prefix followed by the route's path.
    pub open spec fn full_path(&self) -> Seq<char> {
        self.spec_prefix() + self.spec_route().spec_path()
    }

    /// A resource under `prefix`, with a route that has an empty path and no
    /// handler, and not registered yet.
    pub fn new(prefix: String) -> (resource: Self)
        ensures
            resource.spec_prefix() == prefix@,
            resource.spec_route().spec_path() == Seq::<char>::empty(),
            !resource.spec_route().constructs(),
            resource.spec_route_service() is None,
    {
        let route = Route::new("");
        proof {
            reveal_strlit("");
        }
        Resource { prefix, route, route_service: None }
    }

    /// Replaces the route.
    pub fn route(self, route: Route) -> (resource: Self)
        ensures
            resource.spec_prefix() == self.spec_prefix(),
            resource.spec_route() == route,
            resource.spec_route_service() == self.spec_route_service(),
    {
        let mut resource = self;
        resource.route = route;
        resource
    }

    /// The path prefix.
    pub fn prefix(&self) -> (prefix: &String)
        ensures
            prefix@ == self.spec_prefix(),
    {
        &self.prefix
    }

    /// The route.
    pub fn get_route(&self) -> (route: &Route)
        ensures
            *route == self.spec_route(),
    {
        &self.route
    }

    /// The place of the resolved service, once the resource was registered.
    pub fn route_service(&self) -> (at: Option<usize>)
        ensures
            at == self.spec_route_service(),
    {
        self.route_service
    }

    /// Begins the construction of the resource's service: puts the full
    /// path together, with its length.
    pub fn create_service(&self) -> (pending: CreateResourceService)
        ensures
            pending.spec_path() == self.full_path(),
            pending.spec_len() == path_len(self.full_path()),
            pending.spec_stage() is Pending,
    {
        CreateResourceService::new(&self.prefix, self.route.path())
    }
}

impl ServiceFactory<String, String, ResourceService> for Resource {
    /// The resource constructs when its route does.
    open spec fn constructs(&self) -> bool {
        self.spec_route().constructs()
    }

    /// The service holds what the route handed out, under the full path and
    /// with its length.
    open spec fn yields(&self, service: ResourceService) -> bool {
        &&& self.spec_route().yields(service.spec_service())
        &&& service.spec_path() == self.full_path()
        &&& service.spec_len() == path_len(self.full_path())
    }

    /// Builds the route's service and wraps it, in one go.
    fn new_service(&self) -> (res: Result<ResourceService, ()>) {
        let mut pending = self.create_service();
        let nested = self.route.new_service();
        match pending.poll(Poll::Ready(nested)) {
            Poll::Ready(res) => res,
            Poll::Pending => Err(()),
        }
    }
}

impl AppServiceFactory for Resource {
    open spec fn resolves(&self) -> bool {
        self.constructs()
    }

    open spec fn resolved(&self, service: ResourceService) -> bool {
        self.yields(service)
    }

    /// Builds the resource's service and appends it to `config`. The
    /// resource keeps its prefix and its route, and remembers the place that
    /// the service took.
    fn register(&mut self, config: &mut AppService) -> (res: Result<usize, ()>)
        ensures
            final(self).spec_prefix() == old(self).spec_prefix(),
            final(self).spec_route() == old(self).spec_route(),
            res matches Ok(at) ==> final(self).spec_route_service() == Some(at),
            res is Err ==> final(self).spec_route_service() == old(self).spec_route_service(),
    {
        match self.new_service() {
            Ok(service) => {
                let at = config.services().len();
                config.service(service);
                assert(config@.drop_last() =~= old(config)@);
                self.route_service = Some(at);
                Ok(at)
            },
            Err(e) => Err(e),
        }
    }
}

} // verus!
