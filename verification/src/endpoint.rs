//! The declarative shape of an endpoint and the planned call a dispatch
//! produces: what a transport needs to execute one request.

use vstd::prelude::*;

verus! {

/// The HTTP method of an endpoint.
#[derive(Debug, Clone, Copy, PartialEq, Eq, Structural)]
pub enum Method {
    Get,
    Post,
    Put,
    Delete,
}

/// Where the request value travels in the outgoing call. Declared per
/// request type, never inferred at runtime.
#[derive(Debug, Clone, Copy, PartialEq, Eq, Structural)]
pub enum Placement {
    /// The request value is encoded as the JSON body.
    JsonBody,
    /// The request value is encoded as query-string parameters.
    Query,
    /// The call carries no payload.
    Empty,
}

/// The fixed, declarative description of one endpoint: its method, its
/// payload placement, and whether a session is required. The path is
/// rendered separately, from the fields of the request value.
#[derive(Debug, Clone, Copy, PartialEq, Eq, Structural)]
pub struct Descriptor {
    pub method: Method,
    pub placement: Placement,
    pub requires_auth: bool,
}

/// A fully planned call, ready for a transport to execute. Only a value of
/// this type can be sent: a dispatch that fails the authentication gate
/// never produces one, so no request leaves for such a call.
#[derive(Debug)]
pub struct PlannedRequest {
    pub method: Method,
    /// The rendered path reference, as substituted from the request value.
    pub path: String,
    /// The path resolved against the client's base URL.
    pub url: url::Url,
    /// The bearer credential to attach; present exactly on authenticated calls.
    pub bearer: Option<String>,
    pub placement: Placement,
}

} // verus!
