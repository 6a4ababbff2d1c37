use vstd::prelude::*;

use crate::request::JobRequest;
use crate::Poll;

verus! {

/// A single-resolution future: the in-flight half of one service call.
///
/// Polling either yields `Pending`, leaving the future in flight, or yields
/// `Ready` with the call's result, after which the future is resolved and the
/// generic future contract forbids polling it again.
pub trait JobFuture<R, E>: Sized {
    /// Well-formedness, established when the future is made and kept by every
    /// poll.
    spec fn inv(&self) -> bool;

    /// True once the future has yielded its result.
    spec fn resolved(&self) -> bool;

    /// The transition one poll makes: how the state after relates to the
    /// state before and to the outcome the poll yielded.
    spec fn poll_ok(pre: Self, post: Self, r: Poll<Result<R, E>>) -> bool;

    /// Drive the future one step.
    fn poll(&mut self) -> (r: Poll<Result<R, E>>)
        requires
            old(self).inv(),
            !old(self).resolved(),
        ensures
            final(self).inv(),
            Self::poll_ok(*old(self), *final(self), r),
            final(self).resolved() <==> r is Ready,
    ;
}

/// A two-phase unit of asynchronous work over job requests: a non-blocking
/// readiness probe, and a call that consumes one request and returns a future
/// of its result.
///
/// `call` may only be invoked after `poll_ready` has yielded `Ready`. That
/// discipline is the caller's obligation, inherited from the service
/// abstraction; no decorator of this crate enforces or relaxes it.
pub trait Service<J, V>: Sized {
    /// What a successful call resolves to.
    type Response;

    /// What a failed call resolves to.
    type Error;

    /// The in-flight half of one call.
    type Future: JobFuture<Self::Response, Self::Error>;

    /// Well-formedness, kept by both phases.
    spec fn inv(&self) -> bool;

    /// The transition one readiness probe makes: how the state after relates
    /// to the state before and to the probe's outcome.
    spec fn ready_ok(pre: Self, post: Self, r: Poll<()>) -> bool;

    /// The transition one call makes: how the state after relates to the
    /// state before, to the request consumed, and to the future handed back.
    spec fn call_ok(pre: Self, post: Self, req: JobRequest<J, V>, fut: Self::Future) -> bool;

    /// Probe whether a new call may be accepted now.
    fn poll_ready(&mut self) -> (r: Poll<()>)
        requires
            old(self).inv(),
        ensures
            final(self).inv(),
            Self::ready_ok(*old(self), *final(self), r),
    ;

    /// Accept one request; the returned future resolves once with its result.
    fn call(&mut self, req: JobRequest<J, V>) -> (fut: Self::Future)
        requires
            old(self).inv(),
        ensures
            final(self).inv(),
            fut.inv(),
            !fut.resolved(),
            Self::call_ok(*old(self), *final(self), req, fut),
    ;
}

/// A factory that wraps a service in a decorated service with the same
/// two-phase contract.
pub trait Layer<S>: Sized {
    /// The decorated service this layer builds.
    type Service;

    /// How the decorated service relates to the layer and to the service it
    /// wraps.
    spec fn layer_ok(&self, inner: S, out: Self::Service) -> bool;

    /// Wrap `inner`.
    fn layer(&self, inner: S) -> (out: Self::Service)
        ensures
            self.layer_ok(inner, out),
    ;
}

} // verus!
