use job_middleware::echo::{ContextEchoService, EchoFuture, EchoService};
use job_middleware::extensions::{AddExtension, Extension};
use job_middleware::prometheus::{PrometheusLayer, PrometheusService};
use job_middleware::request::{Context, JobRequest};
use job_middleware::service::{JobFuture, Layer, Service};
use job_middleware::Poll;
use metrics_util::debugging::{DebugValue, DebuggingRecorder, Snapshot};

/// Polls `fut` to completion, panicking if it stays pending for five seconds.
fn drive<F: JobFuture<R, E>, R, E>(fut: &mut F) -> Result<R, E> {
    let deadline = std::time::Instant::now() + std::time::Duration::from_secs(5);
    loop {
        match fut.poll() {
            Poll::Ready(r) => return r,
            Poll::Pending => {
                assert!(std::time::Instant::now() < deadline, "future did not resolve in time");
            }
        }
    }
}

/// Flattens a snapshot into (metric name, joined labels, value) triples.
fn metric_values(snap: Snapshot) -> Vec<(String, String, DebugValue)> {
    snap.into_vec()
        .into_iter()
        .map(|(ck, _, _, v)| {
            let key = ck.key();
            let labels: Vec<String> = key
                .labels()
                .map(|l| format!("{}={}", l.key(), l.value()))
                .collect();
            (key.name().to_string(), labels.join(","), v)
        })
        .collect()
}

/// Reads, from one snapshot, the `requests_total` count and the
/// `request_duration_seconds` samples carrying the given job-name label.
/// (A debugging snapshot drains the values, so each test takes exactly one.)
fn read_metrics(snap: Snapshot, label: &str) -> (u64, Vec<f64>) {
    let mut count = None;
    let mut samples = None;
    for (name, labels, v) in metric_values(snap) {
        match v {
            DebugValue::Counter(n) if name == "requests_total" => {
                assert_eq!(labels, format!("job_name={}", label));
                count = Some(n);
            }
            DebugValue::Histogram(s) if name == "request_duration_seconds" => {
                assert_eq!(labels, format!("job_name={}", label));
                samples = Some(s.into_iter().map(|x| x.into_inner()).collect());
            }
            _ => {}
        }
    }
    (
        count.expect("requests_total was not registered"),
        samples.expect("request_duration_seconds was not registered"),
    )
}

#[test]
fn context_insert_and_get() {
    let mut c: Context<u32> = Context::new();
    assert_eq!(c.get(), None::<&u32>);
    c.insert(1);
    assert_eq!(c.get(), Some(&1));
}

#[test]
fn context_last_write_wins() {
    let mut c: Context<u32> = Context::new();
    c.insert(1);
    c.insert(2);
    assert_eq!(c.get(), Some(&2));
}

#[test]
fn fresh_request_has_empty_context() {
    let req: JobRequest<&str, u32> = JobRequest::new("job");
    assert_eq!(req.payload, "job");
    assert_eq!(req.context.get(), None::<&u32>);
}

#[test]
fn context_accessors_share_one_store() {
    let mut req: JobRequest<u8, u32> = JobRequest::new(3);
    req.context_mut().insert(9);
    assert_eq!(req.context().get(), Some(&9));
    assert_eq!(req.payload, 3);
}

#[test]
fn scenario_a_extension_injects_value() {
    let mut svc = Extension(42i32).layer(ContextEchoService);
    let req: JobRequest<&str, i32> = JobRequest::new("any request");
    let mut fut = svc.call(req);
    assert_eq!(drive(&mut fut), Ok(Some(42)));
}

#[test]
fn extension_invariant_over_sequential_calls() {
    let mut svc = Extension(42i32).layer(ContextEchoService);
    for i in 0..3u64 {
        let req: JobRequest<u64, i32> = JobRequest::new(i);
        let mut fut = svc.call(req);
        assert_eq!(drive(&mut fut), Ok(Some(42)));
    }
}

#[test]
fn extension_overwrites_earlier_value_of_same_type() {
    let mut svc = Extension(42i32).layer(ContextEchoService);
    let mut req: JobRequest<&str, i32> = JobRequest::new("any request");
    req.context.insert(-1);
    let mut fut = svc.call(req);
    assert_eq!(drive(&mut fut), Ok(Some(42)));
}

#[test]
fn extension_leaves_payload_untouched() {
    let mut svc = Extension(9u8).layer(EchoService { delay_nanos: 0, fail_code: None });
    let req: JobRequest<&str, u8> = JobRequest::new("payload under test");
    let mut fut = svc.call(req);
    assert_eq!(drive(&mut fut), Ok("payload under test"));
}

#[test]
fn readiness_passes_through_extension_layer() {
    let mut svc = Extension(1u8).layer(EchoService { delay_nanos: 0, fail_code: None });
    let r = <AddExtension<EchoService, u8> as Service<u64, u8>>::poll_ready(&mut svc);
    assert!(matches!(r, Poll::Ready(())));
}

#[test]
fn readiness_passes_through_metrics_layer() {
    let recorder = DebuggingRecorder::new();
    metrics::with_local_recorder(&recorder, || {
        let mut svc = PrometheusLayer::new("email_job")
            .layer(EchoService { delay_nanos: 0, fail_code: None });
        let r = <PrometheusService<EchoService> as Service<u64, u8>>::poll_ready(&mut svc);
        assert!(matches!(r, Poll::Ready(())));
    });
}

#[test]
fn prometheus_layer_keeps_job_name() {
    assert_eq!(PrometheusLayer::new("email_job").job_name, "email_job");
}

#[test]
fn echo_service_reports_configured_error() {
    let mut svc = EchoService { delay_nanos: 0, fail_code: Some(7) };
    let req: JobRequest<u64, u8> = JobRequest::new(5);
    let mut fut = svc.call(req);
    assert_eq!(drive::<EchoFuture<u64>, u64, u64>(&mut fut), Err(7));
}

#[test]
fn scenario_b_metrics_on_success() {
    let recorder = DebuggingRecorder::new();
    let snapshotter = recorder.snapshotter();
    let out = metrics::with_local_recorder(&recorder, || {
        let mut svc = PrometheusLayer::new("email_job")
            .layer(EchoService { delay_nanos: 10_000_000, fail_code: None });
        let req: JobRequest<u64, u8> = JobRequest::new(5);
        let mut fut = svc.call(req);
        drive(&mut fut)
    });
    assert_eq!(out, Ok(5));
    let (count, samples) = read_metrics(snapshotter.snapshot(), "email_job");
    assert_eq!(count, 1);
    assert_eq!(samples.len(), 1);
    assert!(
        samples[0] >= 0.008 && samples[0] <= 0.050,
        "latency sample out of range: {}",
        samples[0]
    );
}

#[test]
fn scenario_c_metrics_on_error() {
    let recorder = DebuggingRecorder::new();
    let snapshotter = recorder.snapshotter();
    let out = metrics::with_local_recorder(&recorder, || {
        let mut svc = PrometheusLayer::new("email_job")
            .layer(EchoService { delay_nanos: 10_000_000, fail_code: Some(7) });
        let req: JobRequest<u64, u8> = JobRequest::new(5);
        let mut fut = svc.call(req);
        drive(&mut fut)
    });
    assert_eq!(out, Err(7));
    let (count, samples) = read_metrics(snapshotter.snapshot(), "email_job");
    assert_eq!(count, 1);
    assert_eq!(samples.len(), 1);
}

#[test]
fn scenario_d_metrics_silent_on_cancellation() {
    let recorder = DebuggingRecorder::new();
    let snapshotter = recorder.snapshotter();
    metrics::with_local_recorder(&recorder, || {
        let mut svc = PrometheusLayer::new("email_job")
            .layer(EchoService { delay_nanos: 10_000_000, fail_code: None });
        let req: JobRequest<u64, u8> = JobRequest::new(5);
        let mut fut = svc.call(req);
        assert!(matches!(fut.poll(), Poll::Pending));
        drop(fut);
    });
    let (count, samples) = read_metrics(snapshotter.snapshot(), "email_job");
    assert_eq!(count, 0);
    assert_eq!(samples.len(), 0);
}

#[test]
fn layer_registers_metrics_at_construction() {
    let recorder = DebuggingRecorder::new();
    let snapshotter = recorder.snapshotter();
    metrics::with_local_recorder(&recorder, || {
        let _layer = PrometheusLayer::new("email_job");
    });
    let (count, samples) = read_metrics(snapshotter.snapshot(), "email_job");
    assert_eq!(count, 0);
    assert_eq!(samples.len(), 0);
}

#[test]
fn services_of_one_layer_share_the_metrics() {
    let recorder = DebuggingRecorder::new();
    let snapshotter = recorder.snapshotter();
    metrics::with_local_recorder(&recorder, || {
        let layer = PrometheusLayer::new("email_job");
        let mut first = layer.layer(EchoService { delay_nanos: 0, fail_code: None });
        let mut second = layer.layer(EchoService { delay_nanos: 0, fail_code: Some(7) });
        let req: JobRequest<u64, u8> = JobRequest::new(1);
        assert_eq!(drive(&mut first.call(req)), Ok(1));
        let req: JobRequest<u64, u8> = JobRequest::new(2);
        assert_eq!(drive(&mut second.call(req)), Err(7));
    });
    let (count, samples) = read_metrics(snapshotter.snapshot(), "email_job");
    assert_eq!(count, 2);
    assert_eq!(samples.len(), 2);
}

#[test]
fn stacked_layers_inject_and_measure() {
    let recorder = DebuggingRecorder::new();
    let snapshotter = recorder.snapshotter();
    let out = metrics::with_local_recorder(&recorder, || {
        let inner = Extension(42i32).layer(ContextEchoService);
        let mut svc = PrometheusLayer::new("email_job").layer(inner);
        let req: JobRequest<u64, i32> = JobRequest::new(5);
        let mut fut = svc.call(req);
        drive(&mut fut)
    });
    assert_eq!(out, Ok(Some(42)));
    let (count, _) = read_metrics(snapshotter.snapshot(), "email_job");
    assert_eq!(count, 1);
}
