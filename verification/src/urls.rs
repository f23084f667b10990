//! Trusted boundary to the URL library: the opaque URL type and the one
//! operation the dispatch logic needs, resolving a rendered path against
//! the client's base URL.

use vstd::prelude::*;

verus! {

/// Declares url::Url, the parsed absolute URL a client is based at and a
/// planned call targets; opaque to the verified logic.
#[verifier::external_type_specification]
#[verifier::external_body]
pub struct ExUrl(url::Url);

/// Declares url::ParseError, the failure url::Url::join reports; carried
/// verbatim inside the URL-construction error variant.
#[verifier::external_type_specification]
#[verifier::external_body]
pub struct ExUrlParseError(url::ParseError);

/// What url::Url::join returns: the reference `path` resolved against the
/// absolute base, or nothing where the URL grammar refuses the reference.
/// The resolution is a pure function of its two arguments, so the result
/// carries this name and every contract downstream speaks of it.
pub uninterp spec fn spec_join(base: url::Url, path: Seq<char>) -> Option<url::Url>;

/// Relies on url::Url::join: resolves a path reference against an absolute
/// base URL, returning the parse error when the reference cannot be parsed
/// with that base. The result depends on the two arguments alone; it is
/// `spec_join(*base, path@)`, and the call fails exactly where that name
/// holds nothing.
#[verifier::external_body]
pub(crate) fn join_url(base: &url::Url, path: &str) -> (r: Result<url::Url, url::ParseError>)
    ensures
        r is Ok <==> spec_join(*base, path@) is Some,
        r matches Ok(u) ==> Some(u) == spec_join(*base, path@),
{
    base.join(path)
}

} // verus!
