//! A plain handler as a service.

use crate::service::{clones_answer_alike, result_view, same_answers, Service};
use std::marker::PhantomData;
use vstd::prelude::*;

verus! {

/// A value that can be turned into the response that goes on the wire.
pub trait Responder: View + Sized {
    /// The wire response of a value with the given view.
    ///
    /// An implementation states it. Where it states none, this is a function
    /// of the view of which nothing more is known.
    open spec fn rendered(value: Self::V) -> Seq<char> {
        arbitrary::<spec_fn(Self::V) -> Seq<char>>()(value)
    }

    /// Turns the value into its wire response.
    fn respond(self) -> (out: String)
        ensures
            out@ == Self::rendered(self@),
    ;
}

/// A value that can be derived from a raw request.
pub trait FromRequest: View + Sized {
    /// What extraction gives for a raw request: the view of the value, or
    /// the failure.
    ///
    /// An implementation states it. Where it states none, this is a function
    /// of the request of which nothing more is known.
    open spec fn extracted(req: Seq<char>) -> Result<Self::V, ()> {
        arbitrary::<spec_fn(Seq<char>) -> Result<Self::V, ()>>()(req)
    }

    /// Derives the value from the raw request.
    fn from_request(req: &String) -> (res: Result<Self, ()>)
        ensures
            result_view(res) == Self::extracted(req@),
    ;
}

/// A handler: a callable that takes the extracted argument and returns
/// something that can respond.
pub trait Factory<Arg: View, Res: Responder>: Clone {
    /// The view of what the handler returns for an argument of the given view.
    ///
    /// An implementation states it. Where it states none, this is a function
    /// of the handler and of the argument of which nothing more is known.
    open spec fn produced(&self, arg: Arg::V) -> Res::V {
        arbitrary::<spec_fn(&Self, Arg::V) -> Res::V>()(self, arg)
    }

    /// Runs the handler.
    fn factory_call(&self, arg: Arg) -> (res: Res)
        ensures
            res@ == self.produced(arg@),
    ;
}

/// A handler as a service whose request is the pair of the extracted
/// argument and the raw request.
pub struct Wrapper<T, Arg, Res> where T: Factory<Arg, Res>, Arg: View, Res: Responder {
    service: T,
    _t: PhantomData<(Arg, Res)>,
}

impl<T, Arg, Res> Wrapper<T, Arg, Res> where T: Factory<Arg, Res>, Arg: View, Res: Responder {
    /// The handler that the wrapper holds.
    pub closed spec fn handler(&self) -> T {
        self.service
    }

    /// Wraps a handler.
    pub fn new(service: T) -> (wrapper: Self)
        ensures
            wrapper.handler() == service,
    {
        Self { service, _t: PhantomData }
    }
}

impl<T, Arg, Res> Clone for Wrapper<T, Arg, Res> where
    T: Factory<Arg, Res>,
    Arg: View,
    Res: Responder,
 {
    /// The clone holds a clone of the handler.
    fn clone(&self) -> (copy: Self)
        ensures
            cloned(self.handler(), copy.handler()),
    {
        Self { service: self.service.clone(), _t: PhantomData }
    }
}

impl<T, Arg, Res> Service<(Arg, String), String> for Wrapper<T, Arg, Res> where
    T: Factory<Arg, Res>,
    Arg: View,
    Res: Responder,
 {
    /// The handler's answer to the argument, rendered; the raw request is
    /// not looked at, and the call never fails.
    open spec fn outcome(&self, req: (Arg::V, Seq<char>)) -> Result<Seq<char>, ()> {
        Ok(Res::rendered(self.handler().produced(req.0)))
    }

    fn call(&self, req: (Arg, String)) -> (res: Result<String, ()>) {
        let (param, _raw) = req;
        let t = self.service.factory_call(param);
        Ok(t.respond())
    }
}

/// A wrapper is cloned as its handler is: where every clone of the handler
/// returns what the handler returns, every clone of the wrapper answers as
/// the wrapper does.
pub proof fn lemma_wrapper_clones_agree<T, Arg, Res>(wrapper: Wrapper<T, Arg, Res>) where
    T: Factory<Arg, Res>,
    Arg: View,
    Res: Responder,

    requires
        forall|h: T, arg: Arg::V| #[trigger]
            cloned(wrapper.handler(), h) ==> #[trigger] h.produced(arg)
                == wrapper.handler().produced(arg),
    ensures
        clones_answer_alike(wrapper),
{
    assert forall|copy: Wrapper<T, Arg, Res>| #[trigger] cloned(wrapper, copy) implies same_answers(
        copy,
        wrapper,
    ) by {
        assert(cloned(wrapper.handler(), copy.handler()));
    }
}

impl Responder for String {
    /// A string is its own response.
    open spec fn rendered(value: Seq<char>) -> Seq<char> {
        value
    }

    fn respond(self) -> (out: String) {
        self
    }
}

impl FromRequest for String {
    /// The whole raw request, as it is. This never fails.
    open spec fn extracted(req: Seq<char>) -> Result<Seq<char>, ()> {
        Ok(req)
    }

    fn from_request(req: &String) -> (res: Result<String, ()>) {
        Ok(req.clone())
    }
}

} // verus!
