//! Request-scoped data captured at request entry.

use vstd::prelude::*;
use crate::clock::{elapsed_nanos, now_instant};
use crate::content_length::{parse_content_length, spec_content_length};
use crate::labels::{
    decimal_string, labels_server_active_request, spec_body_size_labels, spec_common_labels,
    spec_duration_labels, Label,
};
use crate::version::{protocol_name, spec_protocol_name, spec_version_label, version_label, HttpVersion};

verus! {

/// Everything the deferred recorder needs that must be read from the request
/// before it is forwarded downstream: the start timestamp, the label values,
/// and the request body size when the `Content-Length` header gives one.
pub struct RequestCapture {
    /// Monotonic timestamp captured before downstream dispatch.
    pub duration_start: std::time::Instant,
    /// HTTP method string as received.
    pub method: String,
    /// Matched-route template, when the framework attached one.
    pub route: Option<String>,
    /// Always `"http"` in this version.
    pub network_protocol_name: String,
    /// Mapped protocol version string, possibly empty.
    pub network_protocol_version: String,
    /// Scheme of the request URI, possibly empty.
    pub url_scheme: String,
    /// Parsed `Content-Length` value, when present and parseable.
    pub request_body_size: Option<u64>,
}

impl RequestCapture {
    /// A capture as request entry produces it: the protocol name is `"http"`.
    pub open spec fn wf(&self) -> bool {
        self.network_protocol_name@ == spec_protocol_name()
    }

    /// The label set shared by the `+1` and `-1` additions of this request.
    pub open spec fn spec_active_labels(&self) -> Seq<(Seq<char>, Seq<char>)> {
        spec_common_labels(self.method@, self.url_scheme@)
    }

    /// The label set of this request's duration observation.
    pub open spec fn spec_duration_labels(&self, status: u16) -> Seq<(Seq<char>, Seq<char>)> {
        spec_duration_labels(
            status,
            self.method@,
            self.network_protocol_name@,
            self.network_protocol_version@,
            self.url_scheme@,
            self.route.deep_view(),
        )
    }

    /// The label set of this request's body-size observation.
    pub open spec fn spec_body_size_labels(&self, status: u16) -> Seq<(Seq<char>, Seq<char>)> {
        spec_body_size_labels(status, self.method@, self.url_scheme@, self.route.deep_view())
    }

    /// Whole nanoseconds since `duration_start`; depends on the clock.
    pub fn elapsed_nanoseconds(&self) -> u128 {
        elapsed_nanos(&self.duration_start)
    }
}

/// Builds the label set of the duration histogram for a completed request.
pub fn extract_labels_server_request_duration(c: &RequestCapture, status: u16) -> (r: Vec<Label>)
    ensures
        r.deep_view() == c.spec_duration_labels(status),
{
    let mut r: Vec<Label> = Vec::new();
    r.push(Label { key: String::from_str("http.response.status_code"), value: decimal_string(status) });
    r.push(Label { key: String::from_str("http.request.method"), value: c.method.clone() });
    r.push(Label { key: String::from_str("network.protocol.name"), value: c.network_protocol_name.clone() });
    r.push(Label { key: String::from_str("network.protocol.version"), value: c.network_protocol_version.clone() });
    r.push(Label { key: String::from_str("url.scheme"), value: c.url_scheme.clone() });
    match &c.route {
        Some(route) => {
            r.push(Label { key: String::from_str("http.route"), value: route.clone() });
        },
        None => {},
    }
    proof {
        assert(r.deep_view() =~= c.spec_duration_labels(status));
    }
    r
}

/// Builds the label set of the body-size histogram for a completed request.
pub fn labels_server_request_body_size(c: &RequestCapture, status: u16) -> (r: Vec<Label>)
    ensures
        r.deep_view() == c.spec_body_size_labels(status),
{
    let mut r = labels_server_active_request(&c.method, &c.url_scheme);
    r.push(Label { key: String::from_str("http.response.status_code"), value: decimal_string(status) });
    match &c.route {
        Some(route) => {
            r.push(Label { key: String::from_str("http.route"), value: route.clone() });
        },
        None => {},
    }
    proof {
        assert(r.deep_view() =~= c.spec_body_size_labels(status));
    }
    r
}

/// Builds the capture for one request from its plain attributes, stamping the
/// start time, mapping the protocol version, and parsing `Content-Length`.
pub fn capture_request(
    method: String,
    url_scheme: String,
    protocol_version: HttpVersion,
    route: Option<String>,
    content_length: Option<String>,
) -> (c: RequestCapture)
    ensures
        c.method == method,
        c.url_scheme == url_scheme,
        c.route == route,
        c.network_protocol_name@ == spec_protocol_name(),
        c.network_protocol_version@ == spec_version_label(protocol_version),
        c.request_body_size == (match content_length {
            Some(h) => spec_content_length(h@),
            None => None::<u64>,
        }),
        c.wf(),
{
    let request_body_size = match &content_length {
        Some(h) => parse_content_length(h.as_str()),
        None => None,
    };
    RequestCapture {
        duration_start: now_instant(),
        method,
        route,
        network_protocol_name: protocol_name(),
        network_protocol_version: version_label(&protocol_version),
        url_scheme,
        request_body_size,
    }
}

} // verus!
