//! Core of an OpenTelemetry-conformant HTTP server metrics middleware.
//!
//! The crate derives semantic-convention label sets from a captured request,
//! defers recording until the downstream handler completes, and keeps the
//! `http.server.active_requests` up/down counter balanced on every exit path
//! (success, error, or cancellation). Instruments are emitted through an
//! OpenTelemetry meter supplied by the caller.

pub mod capture;
pub mod clock;
pub mod content_length;
pub mod errors;
pub mod instruments;
pub mod labels;
pub mod laws;
pub mod observe;
pub mod otel;
pub mod recorder;
pub mod version;
