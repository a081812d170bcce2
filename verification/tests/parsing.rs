//! Tests of version mapping, Content-Length parsing, status formatting, and
//! label derivation.

use tower_otel_http_metrics::capture::{
    capture_request, extract_labels_server_request_duration, labels_server_request_body_size,
};
use tower_otel_http_metrics::content_length::parse_content_length;
use tower_otel_http_metrics::labels::{
    common_http_server_labels, decimal_string, labels_server_active_request,
};
use tower_otel_http_metrics::version::{protocol_name, version_label, HttpVersion};

#[test]
fn version_mapping_follows_the_convention() {
    assert_eq!(version_label(&HttpVersion::V09), "0.9");
    assert_eq!(version_label(&HttpVersion::V10), "1.0");
    assert_eq!(version_label(&HttpVersion::V11), "1.1");
    assert_eq!(version_label(&HttpVersion::V2), "2.0");
    assert_eq!(version_label(&HttpVersion::V3), "3.0");
    assert_eq!(version_label(&HttpVersion::Unknown), "");
}

#[test]
fn protocol_name_is_http() {
    assert_eq!(protocol_name(), "http");
}

#[test]
fn content_length_parses_plain_digits() {
    assert_eq!(parse_content_length("128"), Some(128));
    assert_eq!(parse_content_length("0"), Some(0));
    assert_eq!(parse_content_length("007"), Some(7));
    assert_eq!(parse_content_length("18446744073709551615"), Some(u64::MAX));
}

#[test]
fn content_length_accepts_one_leading_plus() {
    assert_eq!(parse_content_length("+5"), Some(5));
    assert_eq!(parse_content_length("++5"), None);
    assert_eq!(parse_content_length("+"), None);
}

#[test]
fn content_length_rejects_malformed_text() {
    assert_eq!(parse_content_length(""), None);
    assert_eq!(parse_content_length("abc"), None);
    assert_eq!(parse_content_length("12a"), None);
    assert_eq!(parse_content_length(" 1"), None);
    assert_eq!(parse_content_length("1 "), None);
    assert_eq!(parse_content_length("-1"), None);
    assert_eq!(parse_content_length("1.5"), None);
}

#[test]
fn content_length_rejects_values_beyond_u64() {
    assert_eq!(parse_content_length("18446744073709551616"), None);
    assert_eq!(parse_content_length("99999999999999999999999"), None);
}

#[test]
fn status_codes_format_as_decimal_strings() {
    assert_eq!(decimal_string(200), "200");
    assert_eq!(decimal_string(201), "201");
    assert_eq!(decimal_string(404), "404");
    assert_eq!(decimal_string(0), "0");
    assert_eq!(decimal_string(65535), "65535");
}

#[test]
fn common_labels_hold_method_and_scheme() {
    let labels = common_http_server_labels(&String::from("GET"), &String::from("https"));
    assert_eq!(labels.len(), 2);
    assert_eq!(labels[0].key, "http.request.method");
    assert_eq!(labels[0].value, "GET");
    assert_eq!(labels[1].key, "url.scheme");
    assert_eq!(labels[1].value, "https");
}

#[test]
fn active_request_labels_match_common_labels() {
    let a = labels_server_active_request(&String::from("POST"), &String::from("http"));
    let c = common_http_server_labels(&String::from("POST"), &String::from("http"));
    assert_eq!(a, c);
}

#[test]
fn capture_parses_header_and_maps_version() {
    let c = capture_request(
        String::from("POST"),
        String::from("https"),
        HttpVersion::V2,
        Some(String::from("/users/:id")),
        Some(String::from("128")),
    );
    assert_eq!(c.method, "POST");
    assert_eq!(c.url_scheme, "https");
    assert_eq!(c.network_protocol_name, "http");
    assert_eq!(c.network_protocol_version, "2.0");
    assert_eq!(c.route.as_deref(), Some("/users/:id"));
    assert_eq!(c.request_body_size, Some(128));
}

#[test]
fn capture_leaves_bad_content_length_absent() {
    let c = capture_request(
        String::from("GET"),
        String::from("http"),
        HttpVersion::V11,
        None,
        Some(String::from("abc")),
    );
    assert_eq!(c.request_body_size, None);
    let c2 = capture_request(
        String::from("GET"),
        String::from("http"),
        HttpVersion::V11,
        None,
        None,
    );
    assert_eq!(c2.request_body_size, None);
}

#[test]
fn duration_labels_include_route_only_when_matched() {
    let with_route = capture_request(
        String::from("GET"),
        String::from("http"),
        HttpVersion::V11,
        Some(String::from("/")),
        None,
    );
    let labels = extract_labels_server_request_duration(&with_route, 200);
    let pairs: Vec<(&str, &str)> =
        labels.iter().map(|l| (l.key.as_str(), l.value.as_str())).collect();
    assert_eq!(
        pairs,
        vec![
            ("http.response.status_code", "200"),
            ("http.request.method", "GET"),
            ("network.protocol.name", "http"),
            ("network.protocol.version", "1.1"),
            ("url.scheme", "http"),
            ("http.route", "/"),
        ]
    );

    let without_route = capture_request(
        String::from("PUT"),
        String::from("http"),
        HttpVersion::V11,
        None,
        None,
    );
    let labels = extract_labels_server_request_duration(&without_route, 404);
    assert_eq!(labels.len(), 5);
    assert!(labels.iter().all(|l| l.key != "http.route"));
    assert_eq!(labels[0].value, "404");
}

#[test]
fn body_size_labels_hold_common_status_and_route() {
    let c = capture_request(
        String::from("POST"),
        String::from("https"),
        HttpVersion::V2,
        Some(String::from("/users/:id")),
        Some(String::from("128")),
    );
    let labels = labels_server_request_body_size(&c, 201);
    let pairs: Vec<(&str, &str)> =
        labels.iter().map(|l| (l.key.as_str(), l.value.as_str())).collect();
    assert_eq!(
        pairs,
        vec![
            ("http.request.method", "POST"),
            ("url.scheme", "https"),
            ("http.response.status_code", "201"),
            ("http.route", "/users/:id"),
        ]
    );
}
