//! Errors reported while building the middleware.

use vstd::prelude::*;

verus! {

/// What went wrong while constructing the middleware.
#[derive(Debug)]
enum ErrorKind {
    /// Uncategorized failure surfaced from the meter.
    Other(String),
    /// Invalid configuration detected before any instrument was created.
    Config(String),
}

/// Error returned by [`crate::instruments::HTTPMetricsLayerBuilder::build`].
#[derive(Debug)]
pub struct Error {
    inner: ErrorKind,
}

impl Error {
    /// The human-readable reason carried by this error.
    pub closed spec fn spec_message(&self) -> Seq<char> {
        match self.inner {
            ErrorKind::Other(m) => m@,
            ErrorKind::Config(m) => m@,
        }
    }

    /// Whether this error reports an invalid configuration.
    pub closed spec fn spec_is_config(&self) -> bool {
        self.inner is Config
    }

    /// An error for a builder misconfiguration.
    pub fn config(message: String) -> (r: Error)
        ensures
            r.spec_is_config(),
            r.spec_message() == message@,
    {
        Error { inner: ErrorKind::Config(message) }
    }

    /// An uncategorized construction-time error.
    pub fn other(message: String) -> (r: Error)
        ensures
            !r.spec_is_config(),
            r.spec_message() == message@,
    {
        Error { inner: ErrorKind::Other(message) }
    }

    /// True exactly when this error reports an invalid configuration.
    pub fn is_config(&self) -> (r: bool)
        ensures
            r == self.spec_is_config(),
    {
        match &self.inner {
            ErrorKind::Config(_) => true,
            ErrorKind::Other(_) => false,
        }
    }

    /// The reason carried by this error.
    pub fn message(&self) -> (r: String)
        ensures
            r@ == self.spec_message(),
    {
        match &self.inner {
            ErrorKind::Config(m) => m.clone(),
            ErrorKind::Other(m) => m.clone(),
        }
    }
}

} // verus!
