//! End-to-end tests that drive the request lifecycle against a real
//! OpenTelemetry SDK meter and inspect what was exported.
//!
//! The duration histogram records floating-point seconds, which the library
//! cannot hold; as a middleware adapter would, these tests create it from the
//! library's descriptors and record the pending duration observations the
//! recorder hands back.

use opentelemetry::metrics::MeterProvider;
use opentelemetry::{KeyValue, Value};
use opentelemetry_sdk::metrics::data::{AggregatedMetrics, Metric, MetricData, ResourceMetrics};
use opentelemetry_sdk::metrics::{InMemoryMetricExporter, PeriodicReader, SdkMeterProvider};
use tower_otel_http_metrics::capture::capture_request;
use tower_otel_http_metrics::instruments::{
    duration_boundaries_millis, duration_metric_name, duration_metric_unit, HTTPMetricsLayer,
    HTTPMetricsLayerBuilder,
};
use tower_otel_http_metrics::observe::Observation;
use tower_otel_http_metrics::recorder::DeferredRecorder;
use tower_otel_http_metrics::version::HttpVersion;

const DURATION_METRIC: &str = "http.server.request.duration";
const ACTIVE_METRIC: &str = "http.server.active_requests";
const BODY_SIZE_METRIC: &str = "http.server.request.body.size";

struct Harness {
    provider: SdkMeterProvider,
    exporter: InMemoryMetricExporter,
    layer: HTTPMetricsLayer,
    duration: opentelemetry::metrics::Histogram<f64>,
}

fn harness() -> Harness {
    let exporter = InMemoryMetricExporter::default();
    let reader = PeriodicReader::builder(exporter.clone()).build();
    let provider = SdkMeterProvider::builder().with_reader(reader).build();
    let meter = provider.meter("echo-server");
    let layer = HTTPMetricsLayerBuilder::new().with_meter(meter).build().expect("layer builds");
    let bounds: Vec<f64> =
        duration_boundaries_millis().iter().map(|&m| m as f64 / 1000.0).collect();
    let duration = layer
        .state()
        .meter()
        .f64_histogram(duration_metric_name())
        .with_unit(duration_metric_unit())
        .with_boundaries(bounds)
        .build();
    Harness { provider, exporter, layer, duration }
}

impl Harness {
    fn begin(
        &self,
        method: &str,
        scheme: &str,
        version: HttpVersion,
        route: Option<&str>,
        content_length: Option<&str>,
    ) -> DeferredRecorder {
        let capture = capture_request(
            method.to_string(),
            scheme.to_string(),
            version,
            route.map(|r| r.to_string()),
            content_length.map(|v| v.to_string()),
        );
        self.layer.state().start_request(capture)
    }

    fn succeed(&self, recorder: &mut DeferredRecorder, status: u16) {
        let pending = recorder.complete_success(self.layer.state(), status);
        for obs in pending {
            if let Observation::DurationNanos { nanos, labels } = obs {
                let kvs: Vec<KeyValue> = labels
                    .iter()
                    .map(|l| KeyValue::new(l.key.clone(), l.value.clone()))
                    .collect();
                self.duration.record(nanos as f64 / 1e9, &kvs);
            }
        }
    }

    fn export(&self) -> ResourceMetrics {
        self.provider.force_flush().expect("flush");
        self.exporter
            .get_finished_metrics()
            .expect("exported metrics")
            .pop()
            .expect("at least one export batch")
    }
}

fn find_metric<'a>(batch: &'a ResourceMetrics, name: &str) -> Option<&'a Metric> {
    batch.scope_metrics().flat_map(|sm| sm.metrics()).find(|m| m.name() == name)
}

fn kv_pairs<'a>(attrs: impl Iterator<Item = &'a KeyValue>) -> Vec<(String, String)> {
    let mut pairs: Vec<(String, String)> = attrs
        .map(|kv| {
            let v = match &kv.value {
                Value::String(s) => s.as_str().to_string(),
                other => format!("{:?}", other),
            };
            (kv.key.as_str().to_string(), v)
        })
        .collect();
    pairs.sort();
    pairs
}

/// The cumulative net value of the active-requests counter, over every
/// attribute set, plus how many attribute sets it has.
fn active_requests(batch: &ResourceMetrics) -> (i64, usize) {
    match find_metric(batch, ACTIVE_METRIC).map(|m| m.data()) {
        Some(AggregatedMetrics::I64(MetricData::Sum(sum))) => {
            let mut total: i64 = 0;
            let mut points: usize = 0;
            for dp in sum.data_points() {
                total += dp.value();
                points += 1;
            }
            (total, points)
        },
        None => (0, 0),
        other => panic!("unexpected active-requests data: {:?}", other.is_some()),
    }
}

/// Each exported duration data point: observation count, sum of seconds, and
/// sorted attributes.
fn duration_points(batch: &ResourceMetrics) -> Vec<(u64, f64, Vec<(String, String)>)> {
    match find_metric(batch, DURATION_METRIC).map(|m| m.data()) {
        Some(AggregatedMetrics::F64(MetricData::Histogram(h))) => h
            .data_points()
            .map(|dp| (dp.count(), dp.sum(), kv_pairs(dp.attributes())))
            .collect(),
        None => Vec::new(),
        other => panic!("unexpected duration data: {:?}", other.is_some()),
    }
}

/// Each exported body-size data point: observation count, sum of bytes, and
/// sorted attributes.
fn body_size_points(batch: &ResourceMetrics) -> Vec<(u64, u64, Vec<(String, String)>)> {
    match find_metric(batch, BODY_SIZE_METRIC).map(|m| m.data()) {
        Some(AggregatedMetrics::U64(MetricData::Histogram(h))) => h
            .data_points()
            .map(|dp| (dp.count(), dp.sum(), kv_pairs(dp.attributes())))
            .collect(),
        None => Vec::new(),
        other => panic!("unexpected body-size data: {:?}", other.is_some()),
    }
}

fn sorted(pairs: &[(&str, &str)]) -> Vec<(String, String)> {
    let mut v: Vec<(String, String)> =
        pairs.iter().map(|(k, val)| (k.to_string(), val.to_string())).collect();
    v.sort();
    v
}

#[test]
fn get_root_records_duration_once_and_no_body_size() {
    let h = harness();
    let mut rec = h.begin("GET", "http", HttpVersion::V11, Some("/"), None);
    h.succeed(&mut rec, 200);
    let batch = h.export();

    let durations = duration_points(&batch);
    assert_eq!(durations.len(), 1);
    let (count, sum, attrs) = &durations[0];
    assert_eq!(*count, 1);
    assert!(*sum >= 0.0);
    assert_eq!(
        *attrs,
        sorted(&[
            ("http.request.method", "GET"),
            ("http.response.status_code", "200"),
            ("http.route", "/"),
            ("network.protocol.name", "http"),
            ("network.protocol.version", "1.1"),
            ("url.scheme", "http"),
        ])
    );

    assert!(body_size_points(&batch).is_empty());
    let (net, _) = active_requests(&batch);
    assert_eq!(net, 0);
}

#[test]
fn post_with_content_length_records_body_size() {
    let h = harness();
    let mut rec =
        h.begin("POST", "https", HttpVersion::V2, Some("/users/:id"), Some("128"));
    h.succeed(&mut rec, 201);
    let batch = h.export();

    let durations = duration_points(&batch);
    assert_eq!(durations.len(), 1);
    assert_eq!(
        durations[0].2,
        sorted(&[
            ("http.request.method", "POST"),
            ("http.response.status_code", "201"),
            ("http.route", "/users/:id"),
            ("network.protocol.name", "http"),
            ("network.protocol.version", "2.0"),
            ("url.scheme", "https"),
        ])
    );

    let bodies = body_size_points(&batch);
    assert_eq!(bodies.len(), 1);
    let (count, sum, attrs) = &bodies[0];
    assert_eq!(*count, 1);
    assert_eq!(*sum, 128);
    assert_eq!(
        *attrs,
        sorted(&[
            ("http.request.method", "POST"),
            ("http.response.status_code", "201"),
            ("http.route", "/users/:id"),
            ("url.scheme", "https"),
        ])
    );
}

#[test]
fn unmatched_path_records_duration_without_route() {
    let h = harness();
    let mut rec = h.begin("PUT", "http", HttpVersion::V11, None, None);
    h.succeed(&mut rec, 404);
    let batch = h.export();

    let durations = duration_points(&batch);
    assert_eq!(durations.len(), 1);
    assert_eq!(
        durations[0].2,
        sorted(&[
            ("http.request.method", "PUT"),
            ("http.response.status_code", "404"),
            ("network.protocol.name", "http"),
            ("network.protocol.version", "1.1"),
            ("url.scheme", "http"),
        ])
    );
    assert!(body_size_points(&batch).is_empty());
}

#[test]
fn inner_handler_error_records_no_histogram_but_balances() {
    let h = harness();
    let mut rec = h.begin("DELETE", "http", HttpVersion::V11, Some("/x"), Some("64"));
    rec.complete_failure(h.layer.state());
    let batch = h.export();

    assert!(duration_points(&batch).is_empty());
    assert!(body_size_points(&batch).is_empty());
    let (net, points) = active_requests(&batch);
    assert_eq!(net, 0);
    assert_eq!(points, 1);
}

#[test]
fn cancelled_request_records_no_histogram_but_balances() {
    let h = harness();
    let mut kept = h.begin("GET", "http", HttpVersion::V11, Some("/"), None);
    let mut cancelled = h.begin("GET", "http", HttpVersion::V11, Some("/"), None);
    h.succeed(&mut kept, 200);
    // the adapter's drop path runs this on cancellation
    cancelled.finish_dropped(h.layer.state());
    let batch = h.export();

    let durations = duration_points(&batch);
    assert_eq!(durations.len(), 1);
    assert_eq!(durations[0].0, 1);
    let (net, _) = active_requests(&batch);
    assert_eq!(net, 0);
}

#[test]
fn malformed_content_length_skips_body_size_only() {
    let h = harness();
    let mut rec = h.begin("GET", "http", HttpVersion::V11, Some("/"), Some("abc"));
    h.succeed(&mut rec, 200);
    let batch = h.export();

    assert_eq!(duration_points(&batch).len(), 1);
    assert!(body_size_points(&batch).is_empty());
}

#[test]
fn completion_is_recorded_at_most_once() {
    let h = harness();
    let mut rec = h.begin("GET", "http", HttpVersion::V11, Some("/"), Some("32"));
    h.succeed(&mut rec, 200);
    // a second completion, however it happens, must not record again
    h.succeed(&mut rec, 500);
    rec.complete_failure(h.layer.state());
    rec.finish_dropped(h.layer.state());
    let batch = h.export();

    let durations = duration_points(&batch);
    assert_eq!(durations.len(), 1);
    assert_eq!(durations[0].0, 1);
    let bodies = body_size_points(&batch);
    assert_eq!(bodies.len(), 1);
    assert_eq!(bodies[0].0, 1);
    let (net, _) = active_requests(&batch);
    assert_eq!(net, 0);
}

#[test]
fn active_requests_balance_over_many_mixed_requests() {
    let h = harness();
    let mut in_flight = Vec::new();
    for _ in 0..3 {
        in_flight.push(h.begin("GET", "http", HttpVersion::V11, Some("/"), None));
        in_flight.push(h.begin("POST", "https", HttpVersion::V2, None, Some("16")));
    }

    // mid-flight the counter shows the six open requests
    let mid = h.export();
    let (net, _) = active_requests(&mid);
    assert_eq!(net, 6);

    let mut outcome: u16 = 0;
    for mut rec in in_flight {
        match outcome % 3 {
            0 => h.succeed(&mut rec, 200),
            1 => rec.complete_failure(h.layer.state()),
            _ => rec.finish_dropped(h.layer.state()),
        }
        outcome += 1;
    }
    let batch = h.export();
    let (net, _) = active_requests(&batch);
    assert_eq!(net, 0);
}

#[test]
fn active_request_labels_are_symmetric() {
    let h = harness();
    let mut rec = h.begin("GET", "https", HttpVersion::V11, Some("/"), None);
    h.succeed(&mut rec, 200);
    let batch = h.export();

    // one attribute set, netting to zero: the -1 used the labels of the +1
    match find_metric(&batch, ACTIVE_METRIC).map(|m| m.data()) {
        Some(AggregatedMetrics::I64(MetricData::Sum(sum))) => {
            let dps: Vec<_> = sum.data_points().collect();
            assert_eq!(dps.len(), 1);
            assert_eq!(dps[0].value(), 0);
            assert_eq!(
                kv_pairs(dps[0].attributes()),
                sorted(&[("http.request.method", "GET"), ("url.scheme", "https")])
            );
        },
        other => panic!("active-requests metric missing: {:?}", other.is_some()),
    }
}

#[test]
fn instruments_carry_the_convention_units_and_boundaries() {
    let h = harness();
    let mut rec = h.begin("GET", "http", HttpVersion::V11, Some("/"), Some("8"));
    h.succeed(&mut rec, 200);
    let batch = h.export();

    let duration = find_metric(&batch, DURATION_METRIC).expect("duration metric");
    assert_eq!(duration.unit(), "s");
    let active = find_metric(&batch, ACTIVE_METRIC).expect("active metric");
    assert_eq!(active.unit(), "{request}");
    assert_eq!(active.description(), "Number of active HTTP requests.");
    let body = find_metric(&batch, BODY_SIZE_METRIC).expect("body metric");
    assert_eq!(body.unit(), "By");
    assert_eq!(body.description(), "Size of HTTP server request bodies.");

    match duration.data() {
        AggregatedMetrics::F64(MetricData::Histogram(hist)) => {
            let dp = hist.data_points().next().expect("one data point");
            let bounds: Vec<f64> = dp.bounds().collect();
            assert_eq!(
                bounds,
                vec![0.005, 0.01, 0.025, 0.05, 0.075, 0.1, 0.25, 0.5, 0.75, 1.0, 2.5, 5.0, 7.5,
                    10.0]
            );
        },
        _ => panic!("duration metric is not an f64 histogram"),
    }
}

#[test]
fn apply_observations_performs_all_but_durations() {
    let h = harness();
    let label = |key: &str, value: &str| tower_otel_http_metrics::labels::Label {
        key: key.to_string(),
        value: value.to_string(),
    };
    let obs = vec![
        Observation::ActiveDelta {
            delta: 1,
            labels: vec![label("http.request.method", "GET"), label("url.scheme", "http")],
        },
        Observation::DurationNanos { nanos: 7_000_000, labels: vec![] },
        Observation::BodySizeBytes {
            bytes: 64,
            labels: vec![label("http.request.method", "GET"), label("url.scheme", "http")],
        },
        Observation::ActiveDelta {
            delta: -1,
            labels: vec![label("http.request.method", "GET"), label("url.scheme", "http")],
        },
    ];
    let pending = h.layer.state().apply_observations(obs);
    assert_eq!(pending.len(), 1);
    match &pending[0] {
        Observation::DurationNanos { nanos, labels } => {
            assert_eq!(*nanos, 7_000_000);
            assert!(labels.is_empty());
        },
        other => panic!("expected the duration observation back, got {:?}", other),
    }

    let batch = h.export();
    let (net, points) = active_requests(&batch);
    assert_eq!(net, 0);
    assert_eq!(points, 1);
    let bodies = body_size_points(&batch);
    assert_eq!(bodies.len(), 1);
    assert_eq!(bodies[0].1, 64);
    assert!(duration_points(&batch).is_empty());
}

#[test]
fn recorded_durations_are_non_negative() {
    let h = harness();
    let mut rec = h.begin("GET", "http", HttpVersion::V11, Some("/"), None);
    h.succeed(&mut rec, 200);
    let batch = h.export();

    match find_metric(&batch, DURATION_METRIC).map(|m| m.data()) {
        Some(AggregatedMetrics::F64(MetricData::Histogram(hist))) => {
            for dp in hist.data_points() {
                assert!(dp.sum() >= 0.0);
                if let Some(min) = dp.min() {
                    assert!(min >= 0.0);
                }
            }
        },
        other => panic!("duration metric missing: {:?}", other.is_some()),
    }
}
