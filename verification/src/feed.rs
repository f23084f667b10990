//! Manga feed endpoints: the chapter feed of one manga, and the feed of the
//! manga the logged user follows.

use vstd::prelude::*;

use crate::client::Client;
use crate::common::{ApiObject, ApiObjectResult, Results};
use crate::endpoint::{Descriptor, Method, Placement, PlannedRequest};
use crate::errors::Errors;
use crate::paths::{lemma_uuid_str_no_slash, spec_uuid_str, uuid_hyphenated_lower};
use crate::urls::spec_join;

verus! {

/// The window and filters of a feed query, shared by the feed endpoints.
#[derive(Debug, Clone, PartialEq, Eq, Structural)]
pub struct MangaFeedQuery {
    pub limit: i32,
    pub offset: i32,
}

/// The attributes of a chapter resource.
#[derive(Debug, Clone)]
pub struct ChapterAttributes {
    pub volume: Option<String>,
    pub chapter: Option<String>,
    pub title: Option<String>,
    pub version: i32,
}

/// A chapter, in the canonical resource envelope.
pub type Chapter = ApiObject<ChapterAttributes>;

/// A page of chapter results: what a feed call returns.
pub type ChapterList = Results<ApiObjectResult<Chapter>>;

/// Get the logged user's followed-manga feed (requires authentication).
///
/// Call to `GET /user/follows/manga/feed`: the query travels as the
/// declared payload; a session is required.
#[derive(Debug, Clone, PartialEq, Eq, Structural)]
pub struct FollowedMangaFeed {
    pub query: MangaFeedQuery,
}

impl FollowedMangaFeed {
    pub fn new(query: MangaFeedQuery) -> (r: Self)
        ensures
            r.query == query,
    {
        FollowedMangaFeed { query }
    }

    /// The declared endpoint descriptor.
    pub fn descriptor() -> (d: Descriptor)
        ensures
            d == (Descriptor {
                method: Method::Get,
                placement: Placement::JsonBody,
                requires_auth: true,
            }),
    {
        Descriptor { method: Method::Get, placement: Placement::JsonBody, requires_auth: true }
    }

    /// The static path of the endpoint.
    pub fn path(&self) -> (p: String)
        ensures
            p@ == "/user/follows/manga/feed"@,
    {
        String::from_str("/user/follows/manga/feed")
    }
}

/// Manga feed: the chapter list of the specified manga.
///
/// Call to `GET /manga/{id}/feed`: the identifier is a templated path
/// parameter; the query travels as query-string parameters; no session
/// required.
#[derive(Debug, Clone, PartialEq, Eq, Structural)]
pub struct MangaFeed {
    /// Substituted into the path, not part of the query.
    pub manga_id: u128,
    pub query: MangaFeedQuery,
}

/// The rendered path of the feed of one manga.
pub open spec fn spec_manga_feed_path(id: u128) -> Seq<char> {
    "/manga/"@ + spec_uuid_str(id) + "/feed"@
}

impl MangaFeed {
    pub fn new(manga_id: u128, query: MangaFeedQuery) -> (r: Self)
        ensures
            r.manga_id == manga_id,
            r.query == query,
    {
        MangaFeed { manga_id, query }
    }

    /// The declared endpoint descriptor.
    pub fn descriptor() -> (d: Descriptor)
        ensures
            d == (Descriptor {
                method: Method::Get,
                placement: Placement::Query,
                requires_auth: false,
            }),
    {
        Descriptor { method: Method::Get, placement: Placement::Query, requires_auth: false }
    }

    /// The path with the identifier substituted in its declared position.
    pub fn path(&self) -> (p: String)
        ensures
            p@ == spec_manga_feed_path(self.manga_id),
    {
        let mut p = String::from_str("/manga/");
        let rendered = uuid_hyphenated_lower(self.manga_id);
        p.append(rendered.as_str());
        p.append("/feed");
        p
    }
}

impl Client {
    /// Plan fetching the followed-manga feed. Requires a session: with an
    /// empty token store the result is `MissingTokens` and no request is
    /// planned.
    pub fn plan_followed_manga_feed(&self, request: &FollowedMangaFeed) -> (r: Result<
        PlannedRequest,
        Errors,
    >)
        ensures
            self.tokens is None <==> r == Err::<PlannedRequest, Errors>(Errors::MissingTokens),
            r is Ok <==> (self.tokens is Some && spec_join(self.base_url, "/user/follows/manga/feed"@) is Some),
            r matches Ok(p) ==> {
                &&& p.method == Method::Get
                &&& p.placement == Placement::JsonBody
                &&& Some(p.url) == spec_join(self.base_url, "/user/follows/manga/feed"@)
                &&& (self.tokens matches Some(t) && p.bearer == Some(t.session))
                &&& p.path@ == "/user/follows/manga/feed"@
            },
            r matches Err(e) ==> (e is MissingTokens || e is ParseUrl),
    {
        self.plan(FollowedMangaFeed::descriptor(), request.path())
    }

    /// Plan fetching the feed of one manga. Unauthenticated.
    ///
    /// See `lemma_manga_feed_path_param_once` for where the identifier
    /// stands in the rendered path.
    pub fn plan_manga_feed(&self, request: &MangaFeed) -> (r: Result<PlannedRequest, Errors>)
        ensures
            r is Ok <==> spec_join(self.base_url, spec_manga_feed_path(request.manga_id)) is Some,
            r matches Ok(p) ==> {
                &&& p.method == Method::Get
                &&& p.placement == Placement::Query
                &&& Some(p.url) == spec_join(self.base_url, spec_manga_feed_path(request.manga_id))
                &&& p.bearer is None
                &&& p.path@ == spec_manga_feed_path(request.manga_id)
            },
            r matches Err(e) ==> e is ParseUrl,
    {
        self.plan(MangaFeed::descriptor(), request.path())
    }
}

/// The feed path of one manga carries the identifier's external form
/// exactly once: it stands at position 7, and no other window of the path
/// equals it.
pub proof fn lemma_manga_feed_path_param_once(id: u128)
    ensures
        spec_manga_feed_path(id).len() == 48,
        spec_manga_feed_path(id).subrange(7, 43) == spec_uuid_str(id),
        forall|i: int|
            0 <= i && i + 36 <= spec_manga_feed_path(id).len() && #[trigger] spec_manga_feed_path(
                id,
            ).subrange(i, i + 36) == spec_uuid_str(id) ==> i == 7,
{
    reveal_strlit("/manga/");
    reveal_strlit("/feed");
    assert(spec_manga_feed_path(id).subrange(7, 43) =~= spec_uuid_str(id));
    lemma_uuid_str_no_slash(id);
    assert forall|i: int|
        0 <= i && i + 36 <= spec_manga_feed_path(id).len() && #[trigger] spec_manga_feed_path(
            id,
        ).subrange(i, i + 36) == spec_uuid_str(id) implies i == 7 by {
        if i < 7 {
            assert(spec_manga_feed_path(id)[6] == '/');
            assert(spec_manga_feed_path(id).subrange(i, i + 36)[6 - i] == spec_uuid_str(id)[6 - i]);
            assert(false);
        }
        if i > 7 {
            assert(spec_manga_feed_path(id)[43] == '/');
            assert(spec_manga_feed_path(id).subrange(i, i + 36)[43 - i] == spec_uuid_str(id)[43
                - i]);
            assert(false);
        }
    }
}

} // verus!
