//! The two capabilities that every other piece implements.

use vstd::prelude::*;

verus! {

/// The view of a result: the view of the value it carries, or the failure.
pub open spec fn result_view<T: View>(res: Result<T, ()>) -> Result<T::V, ()> {
    match res {
        Ok(value) => Ok(value@),
        Err(e) => Err(e),
    }
}

/// Something that can be called with a `Req` and yields a `Res`, or fails
/// with an opaque error.
///
/// A call is a function of the service and of the request: `outcome` names
/// what it gives on each request. A call does not change the service.
pub trait Service<Req: View, Res: View> {
    /// What a call with a request of the given view gives.
    ///
    /// An implementation states it. Where it states none, this is a function
    /// of the service and of the request of which nothing more is known.
    open spec fn outcome(&self, req: Req::V) -> Result<Res::V, ()> {
        arbitrary::<spec_fn(&Self, Req::V) -> Result<Res::V, ()>>()(self, req)
    }

    /// Answers one request.
    fn call(&self, req: Req) -> (res: Result<Res, ()>)
        ensures
            result_view(res) == self.outcome(req@),
    ;
}

/// Something that builds services of type `S`.
///
/// Each construction hands out a service that the caller owns; the factory
/// itself is left as it was and keeps nothing of what it built.
pub trait ServiceFactory<Req: View, Res: View, S: Service<Req, Res>> {
    /// Whether a construction succeeds.
    ///
    /// An implementation states it. Where it states none, nothing more is
    /// known of it.
    open spec fn constructs(&self) -> bool {
        arbitrary::<spec_fn(&Self) -> bool>()(self)
    }

    /// Whether `service` is one that a successful construction may hand out.
    ///
    /// An implementation states it. Where it states none, nothing more is
    /// known of it.
    open spec fn yields(&self, service: S) -> bool {
        arbitrary::<spec_fn(&Self, S) -> bool>()(self, service)
    }

    /// Builds one service.
    fn new_service(&self) -> (res: Result<S, ()>)
        ensures
            res is Ok <==> self.constructs(),
            res matches Ok(service) ==> self.yields(service),
    ;
}

/// Whether the two services answer every request alike.
pub open spec fn same_answers<Req: View, Res: View, A: Service<Req, Res>, B: Service<Req, Res>>(
    one: A,
    other: B,
) -> bool {
    forall|req: Req::V| #[trigger] one.outcome(req) == other.outcome(req)
}

/// Whether every clone of `service` answers every request as `service` does.
pub open spec fn clones_answer_alike<Req: View, Res: View, S: Service<Req, Res> + Clone>(
    service: S,
) -> bool {
    forall|copy: S| #[trigger] cloned(service, copy) ==> same_answers(copy, service)
}

} // verus!
