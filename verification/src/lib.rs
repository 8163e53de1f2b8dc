//! A small algebra of composable services.
//!
//! A [`Service`] answers a typed request with a typed response, a
//! [`ServiceFactory`] builds services. Around the two stand a wrapper that
//! turns a plain handler into a service, an extraction stage that derives the
//! handler's argument from the raw request, a layer that erases the concrete
//! types of a route behind one string-to-string signature, and the machine
//! that builds the service of a routed resource.
//!
//! Every contract speaks of views: a request and a response are known by
//! what `@` gives for them.

pub mod config;
pub mod erase;
pub mod extract;
pub mod resource;
pub mod route;
pub mod service;
pub mod wrapper;

pub use config::{
    one_more, AppService, AppServiceFactory, BoxedAppServiceFactory, ServiceConfig,
    ServiceFactoryWrapper,
};
pub use erase::{BoxedRouteNewService, BoxedRouteService, RouteNewService, RouteServiceWrapper};
pub use extract::{forwarded, short_circuit, staged, Extract, ExtractService};
pub use resource::{
    byte_len, path_len, CreateResourceService, Poll, Resource, ResourceService, Stage,
};
pub use route::{handled, serves, Route};
pub use service::{clones_answer_alike, result_view, same_answers, Service, ServiceFactory};
pub use wrapper::{Factory, FromRequest, Responder, Wrapper};
