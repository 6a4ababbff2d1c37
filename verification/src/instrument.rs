use vstd::prelude::*;

use std::time::Instant;

verus! {

#[verifier::external_type_specification]
#[verifier::external_body]
/// `std::time::Instant`, opaque to the verifier: a captured timestamp, carried
/// through the response-future adapter from call time to completion time.
pub struct ExInstant(Instant);

#[verifier::external_type_specification]
#[verifier::external_body]
/// `metrics::Counter`, opaque to the verifier: a shared handle to one counter
/// of the process-wide metrics registry.
pub struct ExCounter(metrics::Counter);

#[verifier::external_type_specification]
#[verifier::external_body]
/// `metrics::Histogram`, opaque to the verifier: a shared handle to one
/// histogram of the process-wide metrics registry.
pub struct ExHistogram(metrics::Histogram);

/// Relies on `std::time::Instant::now`: a timestamp of the moment of the call.
/// Nothing is promised of the value; it depends on the clock.
#[verifier::external_body]
pub(crate) fn instant_now() -> Instant {
    Instant::now()
}

/// Relies on `std::time::Instant::elapsed`: the wall-clock time since `start`,
/// which is never negative, handed on as whole nanoseconds. Nothing is
/// promised of the value; it depends on the clock.
#[verifier::external_body]
pub(crate) fn elapsed_nanos(start: &Instant) -> u64 {
    start.elapsed().as_nanos() as u64
}

/// Relies on `metrics::with_recorder` and `metrics::Recorder::register_counter`:
/// obtains from the installed recorder the counter named `requests_total`,
/// labeled `job_name=<job_name>`. This is the hand-written expansion of what
/// the `metrics::counter!` macro emits. Nothing is promised of the returned
/// handle; the ghost bookkeeping lives in [`CounterHandle`].
#[verifier::external_body]
fn register_counter_raw(job_name: &String) -> metrics::Counter {
    let labels = vec![metrics::Label::new("job_name", job_name.clone())];
    let key = metrics::Key::from_parts("requests_total", labels);
    let metadata = metrics::Metadata::new("job_middleware", metrics::Level::INFO, None);
    metrics::with_recorder(|r| r.register_counter(&key, &metadata))
}

/// Relies on `metrics::Counter::clone`: the returned handle drives the same
/// underlying counter as `counter`.
#[verifier::external_body]
fn counter_clone_raw(counter: &metrics::Counter) -> metrics::Counter {
    counter.clone()
}

/// Relies on `metrics::Counter::increment`: adds 1 to the underlying counter,
/// atomically with respect to the other handles of the same metric.
#[verifier::external_body]
fn counter_increment_raw(counter: &metrics::Counter) {
    counter.increment(1);
}

/// Relies on `metrics::with_recorder` and `metrics::Recorder::register_histogram`:
/// obtains from the installed recorder the histogram named
/// `request_duration_seconds`, labeled `job_name=<job_name>`. This is the
/// hand-written expansion of what the `metrics::histogram!` macro emits.
/// Nothing is promised of the returned handle; the ghost bookkeeping lives in
/// [`HistogramHandle`].
#[verifier::external_body]
fn register_histogram_raw(job_name: &String) -> metrics::Histogram {
    let labels = vec![metrics::Label::new("job_name", job_name.clone())];
    let key = metrics::Key::from_parts("request_duration_seconds", labels);
    let metadata = metrics::Metadata::new("job_middleware", metrics::Level::INFO, None);
    metrics::with_recorder(|r| r.register_histogram(&key, &metadata))
}

/// Relies on `metrics::Histogram::clone`: the returned handle feeds the same
/// underlying histogram as `histogram`.
#[verifier::external_body]
fn histogram_clone_raw(histogram: &metrics::Histogram) -> metrics::Histogram {
    histogram.clone()
}

/// Relies on `metrics::Histogram::record`: records one sample, handed to the
/// registry as a `Duration` that `metrics` itself converts to fractional
/// seconds.
#[verifier::external_body]
fn histogram_record_raw(histogram: &metrics::Histogram, nanos: u64) {
    histogram.record(core::time::Duration::from_nanos(nanos));
}

/// A shared handle to one monotonically increasing counter of the
/// process-wide metrics registry.
///
/// The ghost view counts the increments issued through this handle, so a
/// contract can pin down how many increments a piece of code performs; the
/// registry's own total sums the increments of every handle of the same
/// metric.
pub struct CounterHandle {
    counter: metrics::Counter,
    increments: Ghost<nat>,
}

impl CounterHandle {
    /// How many increments were issued through this handle.
    pub closed spec fn count(self) -> nat {
        self.increments@
    }

    /// A handle to the counter named `requests_total`, labeled with the given
    /// job name, from the process-wide registry. A fresh handle has issued no
    /// increments.
    pub(crate) fn register(job_name: &String) -> (c: CounterHandle)
        ensures
            c.count() == 0,
    {
        CounterHandle { counter: register_counter_raw(job_name), increments: Ghost(0nat) }
    }

    /// A handle driving the same underlying counter, which has issued no
    /// increments of its own yet.
    pub(crate) fn fresh(&self) -> (c: CounterHandle)
        ensures
            c.count() == 0,
    {
        CounterHandle { counter: counter_clone_raw(&self.counter), increments: Ghost(0nat) }
    }

    /// Adds 1 to the underlying counter.
    pub(crate) fn increment(&mut self)
        ensures
            final(self).count() == old(self).count() + 1,
    {
        counter_increment_raw(&self.counter);
        self.increments = Ghost(self.increments@ + 1);
    }
}

/// A shared handle to one latency histogram of the process-wide metrics
/// registry.
///
/// The ghost view lists the samples issued through this handle, each as whole
/// nanoseconds — so every listed sample is non-negative by type — while the
/// registry receives each as fractional seconds.
pub struct HistogramHandle {
    histogram: metrics::Histogram,
    recorded: Ghost<Seq<u64>>,
}

impl HistogramHandle {
    /// The samples issued through this handle, in order, as whole nanoseconds.
    pub closed spec fn samples(self) -> Seq<u64> {
        self.recorded@
    }

    /// A handle to the histogram named `request_duration_seconds`, labeled
    /// with the given job name, from the process-wide registry. A fresh handle
    /// has issued no samples.
    pub(crate) fn register(job_name: &String) -> (h: HistogramHandle)
        ensures
            h.samples() == Seq::<u64>::empty(),
    {
        HistogramHandle {
            histogram: register_histogram_raw(job_name),
            recorded: Ghost(Seq::empty()),
        }
    }

    /// A handle feeding the same underlying histogram, which has issued no
    /// samples of its own yet.
    pub(crate) fn fresh(&self) -> (h: HistogramHandle)
        ensures
            h.samples() == Seq::<u64>::empty(),
    {
        HistogramHandle {
            histogram: histogram_clone_raw(&self.histogram),
            recorded: Ghost(Seq::empty()),
        }
    }

    /// Records one sample of `nanos` whole nanoseconds into the underlying
    /// histogram.
    pub(crate) fn record_nanos(&mut self, nanos: u64)
        ensures
            final(self).samples() == old(self).samples().push(nanos),
    {
        histogram_record_raw(&self.histogram, nanos);
        self.recorded = Ghost(self.recorded@.push(nanos));
    }
}

} // verus!
