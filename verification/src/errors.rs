//! The closed taxonomy of everything a call can fail with, and the
//! structured error body the server reports rejections in.

use vstd::prelude::*;

use crate::common::ApiResult;

verus! {

/// A transport-level failure, as the logic of this crate sees it: the
/// status code when the server answered with a non-success status, or the
/// kind of local failure otherwise.
#[derive(Debug, Clone, Copy, PartialEq, Eq, Structural)]
pub enum TransportError {
    /// The request could not be completed at all (connection, timeout,
    /// malformed response framing).
    Request,
    /// The server answered with this non-success status code.
    Status(u16),
    /// The body of a completed response did not decode as the declared shape.
    Decode,
}

/// One error record reported by the server: an identifier, a status code,
/// and optional human-readable title and detail.
#[derive(Debug, Clone)]
pub struct ApiError {
    /// The error id.
    pub id: u128,
    /// The error status.
    pub status: i32,
    /// The error title.
    pub title: Option<String>,
    /// Details about the error.
    pub detail: Option<String>,
}

/// A structured error body: a non-success result discriminator together
/// with the reported records, kept in server-provided order.
#[derive(Debug, Clone)]
pub struct ApiErrors {
    pub result: ApiResult,
    /// A list of errors.
    pub errors: Vec<ApiError>,
}

/// Every failure a call can produce. The set is closed: each call site
/// branches on exactly these four causes, and none is recovered internally.
#[derive(Debug)]
pub enum Errors {
    /// A failure while constructing or joining a request URL.
    ParseUrl(url::ParseError),
    /// A transport-level failure, surfaced verbatim; this core never retries.
    Http(TransportError),
    /// An authenticated endpoint was invoked on a client with no session;
    /// raised before any request is constructed.
    MissingTokens,
    /// A transmitted but rejected call: the server returned a non-success
    /// status with a body that parsed as a structured error.
    HttpWithBody(ApiErrors),
}

} // verus!
