//! The canonical envelopes the API wraps every payload in, and the small
//! request records shared by several endpoints.

use vstd::prelude::*;

verus! {

/// The `result` discriminator the server sends with every payload:
/// `"ok"` or `"error"` on the wire.
#[derive(Debug, Clone, Copy, PartialEq, Eq, Structural)]
pub enum ApiResult {
    Okay,
    Error,
}

/// The `{id, type, attributes}` envelope wrapping every resource the API
/// returns. Identifiers travel as 128-bit values, rendered hyphenated on
/// the wire. The `kind` discriminator is redundant with the static type of
/// `attributes` and is not validated against it by this core.
#[derive(Debug, Clone)]
pub struct ApiObject<T> {
    pub id: u128,
    pub kind: String,
    pub attributes: T,
}

/// A `{data}` envelope around one resource.
#[derive(Debug, Clone)]
pub struct ApiData<T> {
    pub data: T,
}

/// An acknowledgement without payload.
#[derive(Debug, Clone, Copy, PartialEq, Eq, Structural)]
pub struct NoData;

/// A `{result}` acknowledgement body.
#[derive(Debug, Clone)]
pub struct SimpleApiResponse {
    pub result: ApiResult,
}

/// A `{result, data}` envelope around one resource.
#[derive(Debug, Clone)]
pub struct ApiObjectResult<T> {
    pub result: ApiResult,
    pub data: T,
}

/// A paginated listing: the returned page and its window.
#[derive(Debug, Clone)]
pub struct Results<T> {
    pub results: Vec<T>,
    pub limit: i32,
    pub offset: i32,
    pub total: i32,
}

/// The window parameters of a plain listing call.
#[derive(Debug, Clone, PartialEq, Eq, Structural)]
pub struct ListRequest {
    pub limit: i32,
    pub offset: i32,
}

} // verus!
