use vstd::prelude::*;

use std::time::Instant;

use crate::instrument::{elapsed_nanos, instant_now, CounterHandle, HistogramHandle};
use crate::request::JobRequest;
use crate::service::{JobFuture, Layer, Service};
use crate::Poll;

verus! {

/// A layer that instruments the services it wraps with metrics for a
/// Prometheus-style registry.
///
/// Construction eagerly obtains one counter (`requests_total`) and one
/// histogram (`request_duration_seconds`) from the process-wide registry,
/// both labeled `job_name=<configured string>`, and the layer retains those
/// handles; every service it builds records each completed call into those
/// same two metrics, so all the layer's services share them.
pub struct PrometheusLayer {
    /// The label both metrics of this layer carry.
    pub job_name: String,
    /// Counts completed calls of every service this layer builds.
    pub req_counter: CounterHandle,
    /// Collects the latency of completed calls of every service this layer
    /// builds.
    pub req_histogram: HistogramHandle,
}

impl PrometheusLayer {
    /// A layer whose metrics are labeled with the given job name; the counter
    /// and the histogram are registered here, once, and have recorded nothing
    /// yet.
    pub fn new(job_name: &str) -> (l: PrometheusLayer)
        ensures
            l.job_name@ == job_name@,
            l.req_counter.count() == 0,
            l.req_histogram.samples() == Seq::<u64>::empty(),
    {
        let job_name = job_name.to_owned();
        let req_counter = CounterHandle::register(&job_name);
        let req_histogram = HistogramHandle::register(&job_name);
        PrometheusLayer { job_name, req_counter, req_histogram }
    }
}

impl<S> Layer<S> for PrometheusLayer {
    type Service = PrometheusService<S>;

    open spec fn layer_ok(&self, inner: S, out: PrometheusService<S>) -> bool {
        &&& out.service == inner
        &&& out.req_counter.count() == 0
        &&& out.req_histogram.samples() == Seq::<u64>::empty()
    }

    fn layer(&self, service: S) -> (out: PrometheusService<S>) {
        PrometheusService {
            service,
            req_counter: self.req_counter.fresh(),
            req_histogram: self.req_histogram.fresh(),
        }
    }
}

/// Middleware that measures the calls of the wrapped service: each call that
/// runs to completion counts once and leaves one latency sample, whether it
/// succeeded or failed; a call whose future is dropped before resolution
/// leaves no trace.
pub struct PrometheusService<S> {
    /// The wrapped service.
    pub service: S,
    /// Counts completed calls.
    pub req_counter: CounterHandle,
    /// Collects the latency of completed calls.
    pub req_histogram: HistogramHandle,
}

impl<J, V, S> Service<J, V> for PrometheusService<S> where S: Service<J, V> {
    type Response = S::Response;

    type Error = S::Error;

    type Future = ResponseFuture<S::Future>;

    open spec fn inv(&self) -> bool {
        self.service.inv()
    }

    /// The probe is the wrapped service's probe, with the same outcome; this
    /// layer adds no admission control of its own.
    open spec fn ready_ok(pre: Self, post: Self, r: Poll<()>) -> bool {
        &&& S::ready_ok(pre.service, post.service, r)
        &&& post.req_counter == pre.req_counter
        &&& post.req_histogram == pre.req_histogram
    }

    /// The call is the wrapped service's call on the same, unchanged request;
    /// its future comes back wrapped in an adapter whose fresh metric handles
    /// have recorded nothing yet. Nothing is counted at call time.
    open spec fn call_ok(
        pre: Self,
        post: Self,
        req: JobRequest<J, V>,
        fut: ResponseFuture<S::Future>,
    ) -> bool {
        &&& S::call_ok(pre.service, post.service, req, fut.inner)
        &&& post.req_counter == pre.req_counter
        &&& post.req_histogram == pre.req_histogram
        &&& fut.req_counter.count() == 0
        &&& fut.req_histogram.samples() == Seq::<u64>::empty()
    }

    fn poll_ready(&mut self) -> (r: Poll<()>) {
        self.service.poll_ready()
    }

    fn call(&mut self, request: JobRequest<J, V>) -> (fut: ResponseFuture<S::Future>) {
        let start = instant_now();
        let inner = self.service.call(request);
        ResponseFuture {
            inner,
            start,
            req_counter: self.req_counter.fresh(),
            req_histogram: self.req_histogram.fresh(),
        }
    }
}

/// The response-future adapter: wraps one in-flight inner future together
/// with the timestamp captured at call time and the metric handles.
///
/// While the inner future is pending the adapter has no side effect at all;
/// at the inner future's resolution — success and error alike — it issues
/// exactly one counter increment and one latency sample, and yields the inner
/// result unchanged. Dropping the adapter before resolution therefore leaves
/// both metrics exactly as they were.
pub struct ResponseFuture<F> {
    /// The wrapped in-flight call.
    pub inner: F,
    /// When the call was accepted.
    pub start: Instant,
    /// Counts this call once, at resolution.
    pub req_counter: CounterHandle,
    /// Receives this call's latency, at resolution.
    pub req_histogram: HistogramHandle,
}

impl<F, R, E> JobFuture<R, E> for ResponseFuture<F> where F: JobFuture<R, E> {
    open spec fn inv(&self) -> bool {
        self.inner.inv()
    }

    open spec fn resolved(&self) -> bool {
        self.inner.resolved()
    }

    /// One poll of the adapter is one poll of the inner future with the same
    /// outcome; the metrics move exactly on the `Ready` transition: by one
    /// increment and one sample then, not at all otherwise.
    open spec fn poll_ok(pre: Self, post: Self, r: Poll<Result<R, E>>) -> bool {
        &&& F::poll_ok(pre.inner, post.inner, r)
        &&& post.start == pre.start
        &&& match r {
            Poll::Pending => {
                &&& post.req_counter == pre.req_counter
                &&& post.req_histogram == pre.req_histogram
            },
            Poll::Ready(_) => {
                &&& post.req_counter.count() == pre.req_counter.count() + 1
                &&& exists|nanos: u64|
                    post.req_histogram.samples() == pre.req_histogram.samples().push(nanos)
            },
        }
    }

    fn poll(&mut self) -> (r: Poll<Result<R, E>>) {
        match self.inner.poll() {
            Poll::Pending => Poll::Pending,
            Poll::Ready(response) => {
                let latency = elapsed_nanos(&self.start);
                self.req_counter.increment();
                self.req_histogram.record_nanos(latency);
                Poll::Ready(response)
            },
        }
    }
}

/// Readiness transparency: a probe of the decorated service is exactly a
/// probe of the wrapped service, with the same outcome at every point in
/// time; the metric handles never change.
pub proof fn lemma_readiness_transparency<J, V, S>(
    pre: PrometheusService<S>,
    post: PrometheusService<S>,
    r: Poll<()>,
) where S: Service<J, V>
    requires
        <PrometheusService<S> as Service<J, V>>::ready_ok(pre, post, r),
    ensures
        S::ready_ok(pre.service, post.service, r),
        post.req_counter == pre.req_counter,
        post.req_histogram == pre.req_histogram,
{
}

/// Metrics completeness, on success and failure alike: across any run of
/// polls of one adapter in which every poll but the last stays `Pending` and
/// the last yields `Ready` — with either result variant — the counter rises
/// by exactly one, and the histogram gains exactly one sample (non-negative,
/// being whole nanoseconds).
pub proof fn lemma_metrics_completeness<F, R, E>(
    states: Seq<ResponseFuture<F>>,
    results: Seq<Poll<Result<R, E>>>,
) where F: JobFuture<R, E>
    requires
        states.len() == results.len() + 1,
        results.len() > 0,
        forall|i: int|
            0 <= i < results.len() ==> <ResponseFuture<F> as JobFuture<R, E>>::poll_ok(
                states[i],
                states[i + 1],
                #[trigger] results[i],
            ),
        forall|i: int| 0 <= i < results.len() - 1 ==> (#[trigger] results[i]) is Pending,
        results.last() is Ready,
    ensures
        states.last().req_counter.count() == states.first().req_counter.count() + 1,
        exists|nanos: u64|
            states.last().req_histogram.samples() == states.first().req_histogram.samples().push(
                nanos,
            ),
    decreases results.len(),
{
    if results.len() == 1 {
        assert(<ResponseFuture<F> as JobFuture<R, E>>::poll_ok(states[0], states[1], results[0]));
    } else {
        let s2 = states.drop_first();
        let r2 = results.drop_first();
        assert(<ResponseFuture<F> as JobFuture<R, E>>::poll_ok(states[0], states[1], results[0]));
        assert(results[0] is Pending);
        assert forall|i: int| 0 <= i < r2.len() implies <ResponseFuture<F> as JobFuture<
            R,
            E,
        >>::poll_ok(s2[i], s2[i + 1], #[trigger] r2[i]) by {
            assert(r2[i] == results[i + 1]);
            assert(s2[i] == states[i + 1]);
            assert(s2[i + 1] == states[i + 2]);
            assert(<ResponseFuture<F> as JobFuture<R, E>>::poll_ok(
                states[i + 1],
                states[i + 2],
                results[i + 1],
            ));
        }
        assert forall|i: int| 0 <= i < r2.len() - 1 implies (#[trigger] r2[i]) is Pending by {
            assert(r2[i] == results[i + 1]);
            assert(results[i + 1] is Pending);
        }
        assert(r2.last() == results.last());
        lemma_metrics_completeness::<F, R, E>(s2, r2);
        assert(s2.first() == states[1]);
        assert(s2.last() == states.last());
    }
}

/// Metrics silence on cancellation: across any run of polls that all stay
/// `Pending` — after which the caller may drop the adapter, which has no
/// side effect of its own — the counter and the histogram are exactly as
/// they were at the start.
pub proof fn lemma_metrics_silence<F, R, E>(
    states: Seq<ResponseFuture<F>>,
    results: Seq<Poll<Result<R, E>>>,
) where F: JobFuture<R, E>
    requires
        states.len() == results.len() + 1,
        forall|i: int|
            0 <= i < results.len() ==> <ResponseFuture<F> as JobFuture<R, E>>::poll_ok(
                states[i],
                states[i + 1],
                #[trigger] results[i],
            ),
        forall|i: int| 0 <= i < results.len() ==> (#[trigger] results[i]) is Pending,
    ensures
        states.last().req_counter == states.first().req_counter,
        states.last().req_histogram == states.first().req_histogram,
    decreases results.len(),
{
    if results.len() == 0 {
    } else {
        let s2 = states.drop_first();
        let r2 = results.drop_first();
        assert(<ResponseFuture<F> as JobFuture<R, E>>::poll_ok(states[0], states[1], results[0]));
        assert(results[0] is Pending);
        assert forall|i: int| 0 <= i < r2.len() implies <ResponseFuture<F> as JobFuture<
            R,
            E,
        >>::poll_ok(s2[i], s2[i + 1], #[trigger] r2[i]) by {
            assert(r2[i] == results[i + 1]);
            assert(s2[i] == states[i + 1]);
            assert(s2[i + 1] == states[i + 2]);
            assert(<ResponseFuture<F> as JobFuture<R, E>>::poll_ok(
                states[i + 1],
                states[i + 2],
                results[i + 1],
            ));
        }
        assert forall|i: int| 0 <= i < r2.len() implies (#[trigger] r2[i]) is Pending by {
            assert(r2[i] == results[i + 1]);
            assert(results[i + 1] is Pending);
        }
        lemma_metrics_silence::<F, R, E>(s2, r2);
        assert(s2.first() == states[1]);
        assert(s2.last() == states.last());
    }
}

} // verus!
