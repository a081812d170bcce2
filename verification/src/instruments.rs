//! The instrument set, the layer state that owns it, and its builder.

use vstd::prelude::*;
use crate::errors::Error;
use crate::observe::{spec_duration_only, ObsModel, Observation};
use crate::otel::{
    counter_add, create_i64_up_down_counter, create_u64_histogram, global_meter,
    histogram_record_u64, labels_to_key_values,
};

verus! {

/// The metric name of the request-duration histogram.
pub open spec fn spec_duration_metric_name() -> Seq<char> {
    "http.server.request.duration"@
}

/// See [`spec_duration_metric_name`].
pub fn duration_metric_name() -> (r: String)
    ensures
        r@ == spec_duration_metric_name(),
{
    String::from_str("http.server.request.duration")
}

/// The unit of the request-duration histogram: seconds.
pub open spec fn spec_duration_metric_unit() -> Seq<char> {
    "s"@
}

/// See [`spec_duration_metric_unit`].
pub fn duration_metric_unit() -> (r: String)
    ensures
        r@ == spec_duration_metric_unit(),
{
    String::from_str("s")
}

/// The default bucket boundaries of the request-duration histogram, in
/// milliseconds. The histogram itself is recorded in seconds, so each entry
/// stands for one thousandth of its value.
pub open spec fn spec_duration_boundaries_millis() -> Seq<u64> {
    seq![5u64, 10u64, 25u64, 50u64, 75u64, 100u64, 250u64, 500u64, 750u64, 1000u64, 2500u64,
        5000u64, 7500u64, 10000u64]
}

/// See [`spec_duration_boundaries_millis`].
pub fn duration_boundaries_millis() -> (r: Vec<u64>)
    ensures
        r@ == spec_duration_boundaries_millis(),
{
    let mut r: Vec<u64> = Vec::new();
    r.push(5);
    r.push(10);
    r.push(25);
    r.push(50);
    r.push(75);
    r.push(100);
    r.push(250);
    r.push(500);
    r.push(750);
    r.push(1000);
    r.push(2500);
    r.push(5000);
    r.push(7500);
    r.push(10000);
    proof {
        assert(r@ =~= spec_duration_boundaries_millis());
    }
    r
}

/// The metric name of the active-requests up/down counter.
pub open spec fn spec_active_requests_metric_name() -> Seq<char> {
    "http.server.active_requests"@
}

/// See [`spec_active_requests_metric_name`].
pub fn active_requests_metric_name() -> (r: String)
    ensures
        r@ == spec_active_requests_metric_name(),
{
    String::from_str("http.server.active_requests")
}

/// The unit of the active-requests counter.
pub open spec fn spec_active_requests_metric_unit() -> Seq<char> {
    "{request}"@
}

/// See [`spec_active_requests_metric_unit`].
pub fn active_requests_metric_unit() -> (r: String)
    ensures
        r@ == spec_active_requests_metric_unit(),
{
    String::from_str("{request}")
}

/// The metric name of the request-body-size histogram.
pub open spec fn spec_body_size_metric_name() -> Seq<char> {
    "http.server.request.body.size"@
}

/// See [`spec_body_size_metric_name`].
pub fn body_size_metric_name() -> (r: String)
    ensures
        r@ == spec_body_size_metric_name(),
{
    String::from_str("http.server.request.body.size")
}

/// The unit of the request-body-size histogram: bytes.
pub open spec fn spec_body_size_metric_unit() -> Seq<char> {
    "By"@
}

/// See [`spec_body_size_metric_unit`].
pub fn body_size_metric_unit() -> (r: String)
    ensures
        r@ == spec_body_size_metric_unit(),
{
    String::from_str("By")
}

/// State scoped to the entire middleware: the instruments it emits through,
/// and the meter they were created from.
///
/// The request-duration histogram records floating-point seconds, which this
/// crate cannot hold; callers create it from [`HTTPMetricsLayerState::meter`]
/// and the name, unit and boundaries given above, and record the duration
/// observations handed back by the deferred recorder.
pub struct HTTPMetricsLayerState {
    server_active_requests: opentelemetry::metrics::UpDownCounter<i64>,
    server_request_body_size: opentelemetry::metrics::Histogram<u64>,
    meter: opentelemetry::metrics::Meter,
}

impl HTTPMetricsLayerState {
    /// The meter every instrument of this state was created from.
    pub closed spec fn spec_meter(&self) -> opentelemetry::metrics::Meter {
        self.meter
    }

    /// See [`HTTPMetricsLayerState::spec_meter`].
    pub fn meter(&self) -> (r: &opentelemetry::metrics::Meter)
        ensures
            *r == self.spec_meter(),
    {
        &self.meter
    }

    /// Performs each observation on its instrument: active-request deltas on
    /// the up/down counter, body sizes on the body-size histogram. Duration
    /// observations are handed back unapplied, for the caller's
    /// floating-point histogram.
    pub fn apply_observations(&self, obs: Vec<Observation>) -> (pending: Vec<Observation>)
        ensures
            pending.deep_view() == spec_duration_only(obs.deep_view()),
    {
        let ghost all = obs.deep_view();
        let mut rest = obs;
        let mut pending: Vec<Observation> = Vec::new();
        proof {
            assert(pending.deep_view() + spec_duration_only(rest.deep_view())
                =~= spec_duration_only(all));
        }
        while rest.len() > 0
            invariant
                spec_duration_only(all) == pending.deep_view() + spec_duration_only(
                    rest.deep_view(),
                ),
            decreases rest.len(),
        {
            let ghost pre = rest.deep_view();
            let ghost pend0 = pending.deep_view();
            let o = rest.remove(0);
            let ghost om = o.deep_view();
            proof {
                assert(rest.deep_view() =~= pre.drop_first());
                assert(om == pre.first());
            }
            match o {
                Observation::ActiveDelta { delta, labels } => {
                    let attributes = labels_to_key_values(&labels);
                    counter_add(&self.server_active_requests, delta, &attributes);
                },
                Observation::BodySizeBytes { bytes, labels } => {
                    let attributes = labels_to_key_values(&labels);
                    histogram_record_u64(&self.server_request_body_size, bytes, &attributes);
                },
                Observation::DurationNanos { nanos, labels } => {
                    pending.push(Observation::DurationNanos { nanos, labels });
                    proof {
                        assert(pending.deep_view() =~= pend0.push(om));
                        assert(pend0.push(om) + spec_duration_only(pre.drop_first())
                            =~= pend0 + (seq![om] + spec_duration_only(pre.drop_first())));
                    }
                },
            }
        }
        proof {
            assert(rest.deep_view() =~= Seq::<ObsModel>::empty());
            assert(pending.deep_view() + spec_duration_only(rest.deep_view())
                =~= pending.deep_view());
        }
        pending
    }
}

/// Handle to the shared layer state, as the builder returns it. Wrap it (or
/// share it by reference counting) inside whatever middleware adapter the
/// surrounding server framework wants.
pub struct HTTPMetricsLayer {
    state: HTTPMetricsLayerState,
}

impl HTTPMetricsLayer {
    /// The shared state every request of this layer reports through.
    pub closed spec fn spec_state(&self) -> HTTPMetricsLayerState {
        self.state
    }

    /// See [`HTTPMetricsLayer::spec_state`].
    pub fn state(&self) -> (r: &HTTPMetricsLayerState)
        ensures
            *r == self.spec_state(),
    {
        &self.state
    }
}

/// Builds the layer state; rejects a missing meter.
pub struct HTTPMetricsLayerBuilder {
    meter: Option<opentelemetry::metrics::Meter>,
}

impl HTTPMetricsLayerBuilder {
    /// The meter attached so far, if any.
    pub closed spec fn spec_meter(&self) -> Option<opentelemetry::metrics::Meter> {
        self.meter
    }

    /// Whether a meter has been attached.
    pub closed spec fn spec_has_meter(&self) -> bool {
        self.spec_meter() is Some
    }

    /// A builder that will construct instruments from the process-wide meter
    /// provider.
    pub fn default() -> (r: HTTPMetricsLayerBuilder)
        ensures
            r.spec_has_meter(),
    {
        HTTPMetricsLayerBuilder { meter: Some(global_meter("")) }
    }

    /// A builder with no meter; its `build` fails until one is attached.
    pub fn new() -> (r: HTTPMetricsLayerBuilder)
        ensures
            !r.spec_has_meter(),
            r.spec_meter() is None,
    {
        HTTPMetricsLayerBuilder { meter: None }
    }

    /// Attaches a meter handle.
    pub fn with_meter(self, meter: opentelemetry::metrics::Meter) -> (r: HTTPMetricsLayerBuilder)
        ensures
            r.spec_has_meter(),
            r.spec_meter() == Some(meter),
    {
        HTTPMetricsLayerBuilder { meter: Some(meter) }
    }

    /// Constructs the instruments through the meter and returns the layer
    /// state, which keeps that meter. Succeeds exactly when a meter is
    /// present; otherwise reports the misconfiguration.
    pub fn build(self) -> (r: Result<HTTPMetricsLayer, Error>)
        ensures
            r is Ok <==> self.spec_has_meter(),
            (r matches Ok(l) ==> (self.spec_meter() matches Some(m)
                && l.spec_state().spec_meter() == m)),
            (r matches Err(e) ==> e.spec_is_config() && e.spec_message() == "no meter provided"@),
    {
        match self.meter {
            Some(meter) => Ok(HTTPMetricsLayer { state: HTTPMetricsLayerBuilder::make_state(meter) }),
            None => Err(Error::config(String::from_str("no meter provided"))),
        }
    }

    /// Creates the instrument set — the active-requests counter with unit
    /// `{request}` and the body-size histogram with unit `By` — through the
    /// given meter, and keeps that meter in the state.
    fn make_state(meter: opentelemetry::metrics::Meter) -> (r: HTTPMetricsLayerState)
        ensures
            r.spec_meter() == meter,
    {
        let active_name = active_requests_metric_name();
        let active_unit = active_requests_metric_unit();
        let server_active_requests = create_i64_up_down_counter(
            &meter,
            active_name.as_str(),
            active_unit.as_str(),
            "Number of active HTTP requests.",
        );
        let body_name = body_size_metric_name();
        let body_unit = body_size_metric_unit();
        let server_request_body_size = create_u64_histogram(
            &meter,
            body_name.as_str(),
            body_unit.as_str(),
            "Size of HTTP server request bodies.",
        );
        HTTPMetricsLayerState { server_active_requests, server_request_body_size, meter }
    }
}

} // verus!
