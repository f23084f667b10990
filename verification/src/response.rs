//! Response unification: given one completed transport exchange and the two
//! declared shapes (success payload, structured error body), produce the
//! single typed result every call site consumes; and the declared
//! post-processing projections applied to a unified success value.

use vstd::prelude::*;

use crate::common::{ApiData, NoData};
use crate::errors::{ApiErrors, Errors, TransportError};

verus! {

/// Whether a status code counts as success at the HTTP layer.
pub open spec fn spec_is_success(status: u16) -> bool {
    200 <= status < 300
}

/// Classify a status code: a non-success status makes the transport surface
/// the exchange as failed, and the body is then read as the structured
/// error shape rather than the success shape.
pub fn status_is_success(status: u16) -> (b: bool)
    ensures
        b == spec_is_success(status),
{
    200 <= status && status < 300
}

/// One completed transport exchange, after the body was decoded as the
/// shape the status classification called for.
#[derive(Debug)]
pub enum RawResponse<T> {
    /// The transport reported success; the body was decoded as the declared
    /// success shape, or failed to decode.
    Succeeded(Result<T, TransportError>),
    /// The transport surfaced the exchange as failed; the body was decoded
    /// as the structured error shape, or failed to decode.
    Rejected(TransportError, Result<ApiErrors, TransportError>),
}

/// Unify one exchange into the typed result.
///
/// A failed exchange whose body parsed as a structured error yields
/// `HttpWithBody` carrying that body whole — every reported record, in
/// server-provided order. A failed exchange whose body did not parse yields
/// the original transport failure. A successful exchange yields the decoded
/// payload, or — when the body did not match the declared contract — the
/// decode failure in the transport category (both malformed-body cases
/// deliberately collapse there).
pub fn unify_response<T>(raw: RawResponse<T>) -> (r: Result<T, Errors>)
    ensures
        raw matches RawResponse::Succeeded(Ok(t)) ==> r == Ok::<T, Errors>(t),
        raw matches RawResponse::Succeeded(Err(d)) ==> r == Err::<T, Errors>(Errors::Http(d)),
        raw matches RawResponse::Rejected(e, Ok(body)) ==> r == Err::<T, Errors>(
            Errors::HttpWithBody(body),
        ),
        raw matches RawResponse::Rejected(e, Err(_)) ==> r == Err::<T, Errors>(Errors::Http(e)),
{
    match raw {
        RawResponse::Succeeded(Ok(t)) => Ok(t),
        RawResponse::Succeeded(Err(d)) => Err(Errors::Http(d)),
        RawResponse::Rejected(_, Ok(body)) => Err(Errors::HttpWithBody(body)),
        RawResponse::Rejected(e, Err(_)) => Err(Errors::Http(e)),
    }
}

/// Projection: discard the payload of a successful call, keeping only an
/// acknowledgement; failures pass through unchanged.
pub fn project_discard<T>(r: Result<T, Errors>) -> (out: Result<NoData, Errors>)
    ensures
        r is Ok <==> out is Ok,
        r matches Err(e) ==> out == Err::<NoData, Errors>(e),
{
    match r {
        Ok(_) => Ok(NoData),
        Err(e) => Err(e),
    }
}

/// Projection: unwrap one level of the `{data}` envelope of a successful
/// call; failures pass through unchanged. The unwrap is lossless: the inner
/// value is returned exactly as parsed.
pub fn project_data<T>(r: Result<ApiData<T>, Errors>) -> (out: Result<T, Errors>)
    ensures
        r matches Ok(d) ==> out == Ok::<T, Errors>(d.data),
        r matches Err(e) ==> out == Err::<T, Errors>(e),
{
    match r {
        Ok(d) => Ok(d.data),
        Err(e) => Err(e),
    }
}

} // verus!
