//! Tests of the builder, the error type, and the instrument descriptors.

use opentelemetry::metrics::MeterProvider;
use opentelemetry_sdk::metrics::SdkMeterProvider;
use tower_otel_http_metrics::errors::Error;
use tower_otel_http_metrics::instruments::{
    active_requests_metric_name, active_requests_metric_unit, body_size_metric_name,
    body_size_metric_unit, duration_boundaries_millis, duration_metric_name,
    duration_metric_unit, HTTPMetricsLayerBuilder,
};

#[test]
fn build_without_meter_reports_the_misconfiguration() {
    let err = HTTPMetricsLayerBuilder::new().build().err().expect("build must fail");
    assert!(err.is_config());
    assert_eq!(err.message(), "no meter provided");
}

#[test]
fn build_with_meter_succeeds() {
    let provider = SdkMeterProvider::builder().build();
    let meter = provider.meter("test");
    let layer = HTTPMetricsLayerBuilder::new().with_meter(meter).build();
    assert!(layer.is_ok());
}

#[test]
fn default_builder_uses_the_global_meter() {
    let layer = HTTPMetricsLayerBuilder::default().build();
    assert!(layer.is_ok());
}

#[test]
fn other_errors_are_not_config_errors() {
    let err = Error::other(String::from("meter exploded"));
    assert!(!err.is_config());
    assert_eq!(err.message(), "meter exploded");
}

#[test]
fn instrument_descriptors_follow_the_convention() {
    assert_eq!(duration_metric_name(), "http.server.request.duration");
    assert_eq!(duration_metric_unit(), "s");
    assert_eq!(active_requests_metric_name(), "http.server.active_requests");
    assert_eq!(active_requests_metric_unit(), "{request}");
    assert_eq!(body_size_metric_name(), "http.server.request.body.size");
    assert_eq!(body_size_metric_unit(), "By");
}

#[test]
fn duration_boundaries_are_the_convention_defaults() {
    let ms = duration_boundaries_millis();
    assert_eq!(
        ms,
        vec![5u64, 10, 25, 50, 75, 100, 250, 500, 750, 1000, 2500, 5000, 7500, 10000]
    );
    let seconds: Vec<f64> = ms.iter().map(|&m| m as f64 / 1000.0).collect();
    assert_eq!(
        seconds,
        vec![0.005, 0.01, 0.025, 0.05, 0.075, 0.1, 0.25, 0.5, 0.75, 1.0, 2.5, 5.0, 7.5, 10.0]
    );
}
