//! The protocol name and version labels of a request.

use vstd::prelude::*;

verus! {

/// HTTP protocol version of an inbound request, as the middleware
/// distinguishes it for the `network.protocol.version` label.
///
/// Callers classify their framework's version value into this type at the
/// request edge; versions the vocabulary does not know map to `Unknown`.
#[derive(Clone, Copy, Debug, PartialEq, Eq, Structural)]
pub enum HttpVersion {
    V09,
    V10,
    V11,
    V2,
    V3,
    Unknown,
}

/// The `network.protocol.version` label value for a protocol version:
/// `"0.9"`, `"1.0"`, `"1.1"`, `"2.0"`, `"3.0"`, or empty when unknown.
pub open spec fn spec_version_label(v: HttpVersion) -> Seq<char> {
    match v {
        HttpVersion::V09 => "0.9"@,
        HttpVersion::V10 => "1.0"@,
        HttpVersion::V11 => "1.1"@,
        HttpVersion::V2 => "2.0"@,
        HttpVersion::V3 => "3.0"@,
        HttpVersion::Unknown => Seq::<char>::empty(),
    }
}

/// Maps a protocol version to its `network.protocol.version` label value.
pub fn version_label(v: &HttpVersion) -> (r: String)
    ensures
        r@ == spec_version_label(*v),
{
    match v {
        HttpVersion::V09 => String::from_str("0.9"),
        HttpVersion::V10 => String::from_str("1.0"),
        HttpVersion::V11 => String::from_str("1.1"),
        HttpVersion::V2 => String::from_str("2.0"),
        HttpVersion::V3 => String::from_str("3.0"),
        HttpVersion::Unknown => String::new(),
    }
}

/// The `network.protocol.name` label value; always `"http"` here.
pub open spec fn spec_protocol_name() -> Seq<char> {
    "http"@
}

/// The protocol name the middleware reports for every request.
pub fn protocol_name() -> (r: String)
    ensures
        r@ == spec_protocol_name(),
{
    String::from_str("http")
}

} // verus!
