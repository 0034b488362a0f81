//! Adapter between a sandboxed edge platform's HTTP types and a generic
//! wire-level request/response shape.
//!
//! Inbound platform requests are translated into [`http::GenericRequest`],
//! outbound generic responses back into [`http::PlatformResponse`], and the
//! platform's configuration store is exposed through the key/value lookup of
//! [`env::EnvCloudflare`]. Every translation either preserves the data
//! exactly, byte for byte, or fails with a typed [`AdapterError`]; nothing is
//! silently dropped, merged or re-encoded.

use vstd::prelude::*;

pub mod env;
pub mod http;
pub mod text;

verus! {

/// The failures a translation or an execution can surface.
///
/// Every error aborts the current request's processing; no partial result is
/// ever handed back beside one of these.
#[derive(Debug, PartialEq, Eq)]
pub enum AdapterError {
    /// The method token is none of the nine supported verbs; carries the
    /// offending token for diagnostics.
    UnsupportedMethod(String),
    /// The platform could not produce the target URI of the inbound request.
    UriError,
    /// The platform failed while reading the inbound request body.
    BodyReadError,
    /// The platform failed while constructing its native response object.
    ResponseBuildError,
    /// A response header value is not valid UTF-8 text.
    HeaderEncodingError,
    /// The outbound call failed in transport, or its reply carried a status
    /// outside the success and redirect classes.
    ExecutionFailure,
}

} // verus!
