use vstd::prelude::*;

use std::time::Instant;

use crate::instrument::{elapsed_nanos, instant_now};
use crate::request::JobRequest;
use crate::service::{JobFuture, Service};
use crate::Poll;
use vstd::pervasive::unreached;

verus! {

/// A minimal conforming service to compose with the layers of this crate:
/// always ready, and each call echoes the request's payload back after a
/// configured wall-clock delay, as a success or as the configured error code.
pub struct EchoService {
    /// How long a call stays pending, in nanoseconds, measured from call
    /// time.
    pub delay_nanos: u64,
    /// `None`: calls succeed with their payload; `Some(code)`: calls fail
    /// with `code` instead.
    pub fail_code: Option<u64>,
}

/// The in-flight half of one call of the services of this module: holds the
/// prepared outcome until the configured delay has passed, then yields it
/// once.
pub struct EchoFuture<R> {
    /// When the call was accepted.
    pub start: Instant,
    /// How long the future stays pending, from `start`.
    pub delay_nanos: u64,
    /// The prepared result, taken at resolution.
    pub outcome: Option<Result<R, u64>>,
}

impl<R> JobFuture<R, u64> for EchoFuture<R> {
    open spec fn inv(&self) -> bool {
        true
    }

    open spec fn resolved(&self) -> bool {
        self.outcome is None
    }

    /// Pending leaves the future untouched; `Ready` yields exactly the
    /// prepared outcome and empties it.
    open spec fn poll_ok(pre: Self, post: Self, r: Poll<Result<R, u64>>) -> bool {
        match r {
            Poll::Pending => post == pre,
            Poll::Ready(res) => {
                &&& pre.outcome == Some(res)
                &&& post.outcome is None
                &&& post.start == pre.start
                &&& post.delay_nanos == pre.delay_nanos
            },
        }
    }

    fn poll(&mut self) -> (r: Poll<Result<R, u64>>) {
        if elapsed_nanos(&self.start) >= self.delay_nanos {
            match self.outcome.take() {
                Some(res) => Poll::Ready(res),
                None => unreached(),
            }
        } else {
            Poll::Pending
        }
    }
}

impl<J, V> Service<J, V> for EchoService {
    type Response = J;

    type Error = u64;

    type Future = EchoFuture<J>;

    open spec fn inv(&self) -> bool {
        true
    }

    /// Always ready, unchanged by the probe.
    open spec fn ready_ok(pre: Self, post: Self, r: Poll<()>) -> bool {
        &&& post == pre
        &&& r == Poll::Ready(())
    }

    /// Unchanged by a call; the future is primed with the echoed payload or
    /// the configured error, to be yielded after the configured delay.
    open spec fn call_ok(
        pre: Self,
        post: Self,
        req: JobRequest<J, V>,
        fut: EchoFuture<J>,
    ) -> bool {
        &&& post == pre
        &&& fut.delay_nanos == pre.delay_nanos
        &&& fut.outcome == Some(
            match pre.fail_code {
                None => Result::<J, u64>::Ok(req.payload),
                Some(code) => Err(code),
            },
        )
    }

    fn poll_ready(&mut self) -> (r: Poll<()>) {
        Poll::Ready(())
    }

    fn call(&mut self, req: JobRequest<J, V>) -> (fut: EchoFuture<J>) {
        let outcome = match self.fail_code {
            None => Ok(req.payload),
            Some(code) => Err(code),
        };
        EchoFuture { start: instant_now(), delay_nanos: self.delay_nanos, outcome: Some(outcome) }
    }
}

/// A service that answers with whatever ambient value the request's context
/// holds — the downstream consumer's view of what the layers upstream have
/// injected. Always ready; resolves on the first poll.
pub struct ContextEchoService;

impl<J, V> Service<J, V> for ContextEchoService {
    type Response = Option<V>;

    type Error = u64;

    type Future = EchoFuture<Option<V>>;

    open spec fn inv(&self) -> bool {
        true
    }

    /// Always ready, unchanged by the probe.
    open spec fn ready_ok(pre: Self, post: Self, r: Poll<()>) -> bool {
        &&& post == pre
        &&& r == Poll::Ready(())
    }

    /// Unchanged by a call; the future is primed with the context's stored
    /// value, to be yielded at once.
    open spec fn call_ok(
        pre: Self,
        post: Self,
        req: JobRequest<J, V>,
        fut: EchoFuture<Option<V>>,
    ) -> bool {
        &&& post == pre
        &&& fut.delay_nanos == 0
        &&& fut.outcome == Some(Result::<Option<V>, u64>::Ok(req.context.slot))
    }

    fn poll_ready(&mut self) -> (r: Poll<()>) {
        Poll::Ready(())
    }

    fn call(&mut self, req: JobRequest<J, V>) -> (fut: EchoFuture<Option<V>>) {
        EchoFuture { start: instant_now(), delay_nanos: 0, outcome: Some(Ok(req.context.slot)) }
    }
}

} // verus!
