//! The extraction stage in front of a handler.

use crate::service::{clones_answer_alike, result_view, same_answers, Service, ServiceFactory};
use crate::wrapper::FromRequest;
use std::marker::PhantomData;
use vstd::prelude::*;

verus! {

/// What an extraction stage around `inner` answers once extraction has
/// given `extracted`: a failed extraction is the answer, and `inner` has no
/// part in it; an extracted value goes to `inner` with the request, and what
/// `inner` answers is the answer.
pub open spec fn forwarded<T: FromRequest, S: Service<(T, String), String>>(
    inner: S,
    extracted: Result<T::V, ()>,
    req: Seq<char>,
) -> Result<Seq<char>, ()> {
    match extracted {
        Ok(value) => inner.outcome((value, req)),
        Err(e) => Err(e),
    }
}

/// What an extraction stage around `inner` answers to a raw request.
pub open spec fn staged<T: FromRequest, S: Service<(T, String), String>>(
    inner: S,
    req: Seq<char>,
) -> Result<Seq<char>, ()> {
    forwarded::<T, S>(inner, T::extracted(req), req)
}

/// The factory form of the extraction stage: it holds the inner service and
/// hands out a clone of it with each construction.
pub struct Extract<T: FromRequest, S> {
    service: S,
    _t: PhantomData<T>,
}

/// The realized extraction stage: it derives a `T` from the raw request and
/// calls the inner service with the pair of that value and the request.
pub struct ExtractService<T: FromRequest, S> {
    service: S,
    _t: PhantomData<T>,
}

impl<T: FromRequest, S> Extract<T, S> {
    /// The inner service that the factory holds.
    pub closed spec fn inner(&self) -> S {
        self.service
    }

    /// Puts the extraction stage in front of `service`.
    pub fn new(service: S) -> (extract: Self)
        ensures
            extract.inner() == service,
    {
        Self { service, _t: PhantomData }
    }
}

impl<T: FromRequest, S> ExtractService<T, S> {
    /// The inner service that the stage calls.
    pub closed spec fn inner(&self) -> S {
        self.service
    }
}

/// The decision of the stage, over any inner call: a failed extraction is
/// returned as it is, and an extracted value is handed to `inner` with the
/// request.
///
/// `inner` has to be callable only on what extraction gave. Where
/// extraction failed, nothing is asked of `inner`: it is not called.
pub fn short_circuit<T, F>(extracted: Result<T, ()>, req: String, inner: F) -> (res: Result<
    String,
    (),
>) where F: FnOnce((T, String)) -> Result<String, ()>
    requires
        extracted matches Ok(value) ==> call_requires(inner, ((value, req),)),
    ensures
        match extracted {
            Ok(value) => call_ensures(inner, ((value, req),), res),
            Err(e) => res == Err::<String, ()>(e),
        },
{
    match extracted {
        Ok(value) => inner((value, req)),
        Err(e) => Err(e),
    }
}

impl<T: FromRequest, S> ExtractService<T, S> where S: Service<(T, String), String> {
    /// The second half of a call: takes what extraction gave and either
    /// stops there or calls the inner service. The inner service is called
    /// only with an extracted value, and its answer is returned unchanged.
    pub fn forward(&self, extracted: Result<T, ()>, req: String) -> (res: Result<String, ()>)
        ensures
            result_view(res) == forwarded::<T, S>(self.inner(), result_view(extracted), req@),
    {
        let inner = |pair: (T, String)| -> (answer: Result<String, ()>)
            ensures
                result_view(answer) == self.service.outcome(pair@),
            { self.service.call(pair) };
        short_circuit(extracted, req, inner)
    }
}

impl<T: FromRequest, S> Service<String, String> for ExtractService<T, S> where
    S: Service<(T, String), String>,
 {
    open spec fn outcome(&self, req: Seq<char>) -> Result<Seq<char>, ()> {
        staged::<T, S>(self.inner(), req)
    }

    fn call(&self, req: String) -> (res: Result<String, ()>) {
        let extracted = T::from_request(&req);
        self.forward(extracted, req)
    }
}

impl<T: FromRequest, S> ServiceFactory<String, String, ExtractService<T, S>> for Extract<T, S> where
    S: Service<(T, String), String> + Clone,
 {
    /// Construction only clones, and always succeeds.
    open spec fn constructs(&self) -> bool {
        true
    }

    /// The stage holds a clone of the factory's inner service.
    open spec fn yields(&self, service: ExtractService<T, S>) -> bool {
        cloned(self.inner(), service.inner())
    }

    fn new_service(&self) -> (res: Result<ExtractService<T, S>, ()>) {
        Ok(ExtractService { service: self.service.clone(), _t: PhantomData })
    }
}

/// Extraction short-circuits: where extraction fails for a request, the
/// stage answers with the failure, whatever the inner service is. The inner
/// service has no part in the answer.
pub proof fn lemma_failed_extraction_short_circuits<T, S, R>(
    stage: ExtractService<T, S>,
    other: ExtractService<T, R>,
    req: Seq<char>,
) where T: FromRequest, S: Service<(T, String), String>, R: Service<(T, String), String>
    requires
        T::extracted(req) is Err,
    ensures
        stage.outcome(req) == Err::<Seq<char>, ()>(()),
        stage.outcome(req) == other.outcome(req),
{
}

/// Constructions do not depend on each other: where every clone of the
/// inner service answers as the inner service does, any two stages built
/// from one factory answer alike, and as a stage around the inner service
/// itself.
pub proof fn lemma_constructions_agree<T, S>(
    factory: Extract<T, S>,
    first: ExtractService<T, S>,
    second: ExtractService<T, S>,
) where T: FromRequest, S: Service<(T, String), String> + Clone
    requires
        factory.yields(first),
        factory.yields(second),
        clones_answer_alike(factory.inner()),
    ensures
        same_answers(first, second),
        forall|req: Seq<char>| #[trigger]
            first.outcome(req) == staged::<T, S>(factory.inner(), req),
{
    assert(same_answers(first.inner(), factory.inner()));
    assert(same_answers(second.inner(), factory.inner()));
}

} // verus!
