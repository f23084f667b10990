//! The client: the base URL, the token store, and the one generic dispatch
//! every endpoint goes through.

use vstd::prelude::*;

use crate::endpoint::{Descriptor, PlannedRequest};
use crate::errors::Errors;
use crate::token::AuthTokens;
use crate::urls::{join_url, spec_join};

verus! {

/// A client instance: the base URL every endpoint path is resolved against,
/// and the token store holding the current session, if any. The transport
/// handle that executes planned calls lives outside this core.
#[derive(Debug)]
pub struct Client {
    /// The base URL, immutable after construction.
    pub base_url: url::Url,
    /// The current credential pair; present only after an authentication
    /// exchange (out of scope here) stored it.
    pub tokens: Option<AuthTokens>,
}

impl Client {
    /// A client is well formed when any stored token pair is.
    pub open spec fn wf(&self) -> bool {
        self.tokens matches Some(t) ==> t.wf()
    }

    pub fn new(base_url: url::Url, tokens: Option<AuthTokens>) -> (c: Client)
        requires
            (tokens matches Some(t) ==> t.wf()),
        ensures
            c.base_url == base_url,
            c.tokens == tokens,
            c.wf(),
    {
        Client { base_url, tokens }
    }

    /// The single authentication gate: the current credential pair, or
    /// `MissingTokens` when no session exists. Every authenticated endpoint
    /// passes through here before a request is constructed.
    pub fn require_tokens(&self) -> (r: Result<&AuthTokens, Errors>)
        ensures
            r is Ok <==> self.tokens is Some,
            r matches Ok(t) ==> self.tokens == Some(*t),
            r is Err ==> r == Err::<&AuthTokens, Errors>(Errors::MissingTokens),
    {
        match &self.tokens {
            Some(t) => Ok(t),
            None => Err(Errors::MissingTokens),
        }
    }

    /// Store a credential pair, e.g. after an authentication exchange.
    /// The base URL is untouched.
    pub fn set_tokens(&mut self, tokens: AuthTokens)
        requires
            tokens.wf(),
        ensures
            final(self).tokens == Some(tokens),
            final(self).base_url == old(self).base_url,
            final(self).wf(),
    {
        self.tokens = Some(tokens);
    }

    /// Plan one call from its declared descriptor and its rendered path.
    ///
    /// The authentication gate runs first: an authenticated endpoint on a
    /// client with no session fails with `MissingTokens` before any URL is
    /// built, and no planned request — hence no network call — comes out of
    /// such an invocation. Otherwise the call succeeds exactly where the
    /// path resolves against the base URL, the planned call's target is
    /// that resolved URL (`spec_join`), and it carries the declared method
    /// and placement, with the session attached as bearer exactly when the
    /// endpoint is authenticated.
    pub fn plan(&self, desc: Descriptor, path: String) -> (r: Result<PlannedRequest, Errors>)
        ensures
            (desc.requires_auth && self.tokens is None) <==> r == Err::<PlannedRequest, Errors>(
                Errors::MissingTokens,
            ),
            r is Ok <==> (!(desc.requires_auth && self.tokens is None) && spec_join(
                self.base_url,
                path@,
            ) is Some),
            r matches Ok(p) ==> {
                &&& p.method == desc.method
                &&& p.placement == desc.placement
                &&& p.path == path
                &&& Some(p.url) == spec_join(self.base_url, path@)
                &&& (desc.requires_auth ==> (self.tokens matches Some(t) && p.bearer == Some(
                    t.session,
                )))
                &&& (!desc.requires_auth ==> p.bearer is None)
            },
            r matches Err(e) ==> (e is MissingTokens || e is ParseUrl),
    {
        let bearer: Option<String> = if desc.requires_auth {
            match self.require_tokens() {
                Ok(t) => Some(t.session.clone()),
                Err(e) => {
                    return Err(e);
                },
            }
        } else {
            None
        };
        match join_url(&self.base_url, path.as_str()) {
            Ok(u) => Ok(
                PlannedRequest {
                    method: desc.method,
                    path,
                    url: u,
                    bearer,
                    placement: desc.placement,
                },
            ),
            Err(e) => Err(Errors::ParseUrl(e)),
        }
    }
}

} // verus!
