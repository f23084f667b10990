//! Scanlation-group endpoints: listing, creation, viewing, updating,
//! deletion, and following. The templated paths substitute the group
//! identifier in hyphenated form; the lemmas at the end show the rendered
//! path carries that external form exactly once, at its declared position.

use vstd::prelude::*;

use crate::account::User;
use crate::client::Client;
use crate::common::{ApiObject, ApiObjectResult, ListRequest, Results};
use crate::endpoint::{Descriptor, Method, Placement, PlannedRequest};
use crate::errors::Errors;
use crate::paths::{lemma_uuid_str_no_slash, spec_uuid_str, uuid_hyphenated_lower};
use crate::urls::spec_join;

verus! {

/// The attributes of a scanlation group. Creation and update instants are
/// held as Unix timestamps in seconds.
#[derive(Debug, Clone)]
pub struct ScanlationGroupAttributes {
    pub name: String,
    pub leader: User,
    pub version: i32,
    pub created_at: i64,
    pub updated_at: i64,
}

/// A scanlation group, in the canonical resource envelope.
pub type ScanlationGroup = ApiObject<ScanlationGroupAttributes>;

/// The `{result, data}` envelope around one group.
pub type ScanlationGroupResult = ApiObjectResult<ScanlationGroup>;

/// A page of group results.
pub type GroupResults = Results<ScanlationGroupResult>;

/// Search for scanlation groups.
///
/// Call to `GET /group`: the fields travel as query-string parameters; no
/// session required.
#[derive(Debug, Clone)]
pub struct GroupListRequest {
    pub limit: i32,
    pub offset: i32,
    /// Maximum 100 per request.
    pub ids: Vec<u128>,
    pub name: String,
}

impl GroupListRequest {
    pub fn new(limit: i32, offset: i32, ids: Vec<u128>, name: String) -> (r: Self)
        ensures
            r.limit == limit,
            r.offset == offset,
            r.ids == ids,
            r.name == name,
    {
        GroupListRequest { limit, offset, ids, name }
    }

    /// The declared endpoint descriptor.
    pub fn descriptor() -> (d: Descriptor)
        ensures
            d == (Descriptor {
                method: Method::Get,
                placement: Placement::Query,
                requires_auth: false,
            }),
    {
        Descriptor { method: Method::Get, placement: Placement::Query, requires_auth: false }
    }
}

/// Create (or, under `PUT`, update) a group.
///
/// Call to `POST /group` or `PUT /group`: the fields travel as the JSON
/// body; a session is required.
#[derive(Debug, Clone)]
pub struct CreateGroupRequest {
    pub name: String,
    pub leader: Option<u128>,
    pub members: Option<Vec<u128>>,
    pub version: i32,
}

impl CreateGroupRequest {
    /// A fresh request always declares version 1.
    pub fn new(name: String, leader: Option<u128>, members: Option<Vec<u128>>) -> (r: Self)
        ensures
            r.name == name,
            r.leader == leader,
            r.members == members,
            r.version == 1,
    {
        CreateGroupRequest { name, leader, members, version: 1 }
    }

    /// The declared descriptor of the creation endpoint.
    pub fn descriptor() -> (d: Descriptor)
        ensures
            d == (Descriptor {
                method: Method::Post,
                placement: Placement::JsonBody,
                requires_auth: true,
            }),
    {
        Descriptor { method: Method::Post, placement: Placement::JsonBody, requires_auth: true }
    }

    /// The declared descriptor of the update endpoint.
    pub fn update_descriptor() -> (d: Descriptor)
        ensures
            d == (Descriptor {
                method: Method::Put,
                placement: Placement::JsonBody,
                requires_auth: true,
            }),
    {
        Descriptor { method: Method::Put, placement: Placement::JsonBody, requires_auth: true }
    }
}

/// The rendered path of the endpoints addressing one group.
pub open spec fn spec_group_id_path(id: u128) -> Seq<char> {
    "/group/"@ + spec_uuid_str(id)
}

/// The rendered path of the endpoints following/unfollowing one group.
pub open spec fn spec_group_follow_path(id: u128) -> Seq<char> {
    "/group/"@ + spec_uuid_str(id) + "/follow"@
}

/// Render `/group/{id}`.
fn group_id_path(id: u128) -> (p: String)
    ensures
        p@ == spec_group_id_path(id),
{
    let mut p = String::from_str("/group/");
    let rendered = uuid_hyphenated_lower(id);
    p.append(rendered.as_str());
    p
}

/// Render `/group/{id}/follow`.
fn group_follow_path(id: u128) -> (p: String)
    ensures
        p@ == spec_group_follow_path(id),
{
    let mut p = group_id_path(id);
    p.append("/follow");
    p
}

impl Client {
    /// Plan a group search. Listing is unauthenticated.
    pub fn plan_list_group(&self, request: &GroupListRequest) -> (r: Result<
        PlannedRequest,
        Errors,
    >)
        ensures
            r is Ok <==> spec_join(self.base_url, "/group"@) is Some,
            r matches Ok(p) ==> {
                &&& p.method == Method::Get
                &&& p.placement == Placement::Query
                &&& Some(p.url) == spec_join(self.base_url, "/group"@)
                &&& p.bearer is None
                &&& p.path@ == "/group"@
            },
            r matches Err(e) ==> e is ParseUrl,
    {
        self.plan(GroupListRequest::descriptor(), String::from_str("/group"))
    }

    /// Plan a group creation. Requires a session: with an empty token store
    /// the result is `MissingTokens` and no request is planned.
    pub fn plan_create_group(&self, request: &CreateGroupRequest) -> (r: Result<
        PlannedRequest,
        Errors,
    >)
        ensures
            self.tokens is None <==> r == Err::<PlannedRequest, Errors>(Errors::MissingTokens),
            r is Ok <==> (self.tokens is Some && spec_join(self.base_url, "/group"@) is Some),
            r matches Ok(p) ==> {
                &&& p.method == Method::Post
                &&& p.placement == Placement::JsonBody
                &&& Some(p.url) == spec_join(self.base_url, "/group"@)
                &&& (self.tokens matches Some(t) && p.bearer == Some(t.session))
                &&& p.path@ == "/group"@
            },
            r matches Err(e) ==> (e is MissingTokens || e is ParseUrl),
    {
        self.plan(CreateGroupRequest::descriptor(), String::from_str("/group"))
    }

    /// Plan viewing one group. Unauthenticated; the identifier is
    /// substituted into the path in its hyphenated form.
    pub fn plan_view_group(&self, id: u128) -> (r: Result<PlannedRequest, Errors>)
        ensures
            r is Ok <==> spec_join(self.base_url, spec_group_id_path(id)) is Some,
            r matches Ok(p) ==> {
                &&& p.method == Method::Get
                &&& p.placement == Placement::Empty
                &&& Some(p.url) == spec_join(self.base_url, spec_group_id_path(id))
                &&& p.bearer is None
                &&& p.path@ == spec_group_id_path(id)
            },
            r matches Err(e) ==> e is ParseUrl,
    {
        let desc = Descriptor {
            method: Method::Get,
            placement: Placement::Empty,
            requires_auth: false,
        };
        self.plan(desc, group_id_path(id))
    }

    /// Plan a group update. Requires a session.
    pub fn plan_update_group(&self, request: &CreateGroupRequest) -> (r: Result<
        PlannedRequest,
        Errors,
    >)
        ensures
            self.tokens is None <==> r == Err::<PlannedRequest, Errors>(Errors::MissingTokens),
            r is Ok <==> (self.tokens is Some && spec_join(self.base_url, "/group"@) is Some),
            r matches Ok(p) ==> {
                &&& p.method == Method::Put
                &&& p.placement == Placement::JsonBody
                &&& Some(p.url) == spec_join(self.base_url, "/group"@)
                &&& (self.tokens matches Some(t) && p.bearer == Some(t.session))
                &&& p.path@ == "/group"@
            },
            r matches Err(e) ==> (e is MissingTokens || e is ParseUrl),
    {
        self.plan(CreateGroupRequest::update_descriptor(), String::from_str("/group"))
    }

    /// Plan a group deletion. Requires a session: with an empty token store
    /// the result is `MissingTokens` and no request is planned.
    pub fn plan_delete_group(&self, id: u128) -> (r: Result<PlannedRequest, Errors>)
        ensures
            self.tokens is None <==> r == Err::<PlannedRequest, Errors>(Errors::MissingTokens),
            r is Ok <==> (self.tokens is Some && spec_join(self.base_url, spec_group_id_path(id)) is Some),
            r matches Ok(p) ==> {
                &&& p.method == Method::Delete
                &&& p.placement == Placement::Empty
                &&& Some(p.url) == spec_join(self.base_url, spec_group_id_path(id))
                &&& (self.tokens matches Some(t) && p.bearer == Some(t.session))
                &&& p.path@ == spec_group_id_path(id)
            },
            r matches Err(e) ==> (e is MissingTokens || e is ParseUrl),
    {
        let desc = Descriptor {
            method: Method::Delete,
            placement: Placement::Empty,
            requires_auth: true,
        };
        self.plan(desc, group_id_path(id))
    }

    /// Plan following a group. Requires a session.
    pub fn plan_follow_group(&self, id: u128) -> (r: Result<PlannedRequest, Errors>)
        ensures
            self.tokens is None <==> r == Err::<PlannedRequest, Errors>(Errors::MissingTokens),
            r is Ok <==> (self.tokens is Some && spec_join(self.base_url, spec_group_follow_path(id)) is Some),
            r matches Ok(p) ==> {
                &&& p.method == Method::Post
                &&& p.placement == Placement::Empty
                &&& Some(p.url) == spec_join(self.base_url, spec_group_follow_path(id))
                &&& (self.tokens matches Some(t) && p.bearer == Some(t.session))
                &&& p.path@ == spec_group_follow_path(id)
            },
            r matches Err(e) ==> (e is MissingTokens || e is ParseUrl),
    {
        let desc = Descriptor {
            method: Method::Post,
            placement: Placement::Empty,
            requires_auth: true,
        };
        self.plan(desc, group_follow_path(id))
    }

    /// Plan unfollowing a group. Requires a session.
    pub fn plan_unfollow_group(&self, id: u128) -> (r: Result<PlannedRequest, Errors>)
        ensures
            self.tokens is None <==> r == Err::<PlannedRequest, Errors>(Errors::MissingTokens),
            r is Ok <==> (self.tokens is Some && spec_join(self.base_url, spec_group_follow_path(id)) is Some),
            r matches Ok(p) ==> {
                &&& p.method == Method::Delete
                &&& p.placement == Placement::Empty
                &&& Some(p.url) == spec_join(self.base_url, spec_group_follow_path(id))
                &&& (self.tokens matches Some(t) && p.bearer == Some(t.session))
                &&& p.path@ == spec_group_follow_path(id)
            },
            r matches Err(e) ==> (e is MissingTokens || e is ParseUrl),
    {
        let desc = Descriptor {
            method: Method::Delete,
            placement: Placement::Empty,
            requires_auth: true,
        };
        self.plan(desc, group_follow_path(id))
    }

    /// Plan listing the groups the logged user follows. Requires a session;
    /// the window travels as query-string parameters.
    pub fn plan_followed_groups(&self, request: &ListRequest) -> (r: Result<
        PlannedRequest,
        Errors,
    >)
        ensures
            self.tokens is None <==> r == Err::<PlannedRequest, Errors>(Errors::MissingTokens),
            r is Ok <==> (self.tokens is Some && spec_join(self.base_url, "/user/follows/group"@) is Some),
            r matches Ok(p) ==> {
                &&& p.method == Method::Delete
                &&& p.placement == Placement::Query
                &&& Some(p.url) == spec_join(self.base_url, "/user/follows/group"@)
                &&& (self.tokens matches Some(t) && p.bearer == Some(t.session))
                &&& p.path@ == "/user/follows/group"@
            },
            r matches Err(e) ==> (e is MissingTokens || e is ParseUrl),
    {
        let desc = Descriptor {
            method: Method::Delete,
            placement: Placement::Query,
            requires_auth: true,
        };
        self.plan(desc, String::from_str("/user/follows/group"))
    }
}

/// The path addressing one group carries the identifier's external form
/// exactly once: it stands at position 7, and no other window of the path
/// equals it.
pub proof fn lemma_group_id_path_param_once(id: u128)
    ensures
        spec_group_id_path(id).len() == 43,
        spec_group_id_path(id).subrange(7, 43) == spec_uuid_str(id),
        forall|i: int|
            0 <= i && i + 36 <= spec_group_id_path(id).len() && #[trigger] spec_group_id_path(
                id,
            ).subrange(i, i + 36) == spec_uuid_str(id) ==> i == 7,
{
    reveal_strlit("/group/");
    assert(spec_group_id_path(id).subrange(7, 43) =~= spec_uuid_str(id));
    lemma_uuid_str_no_slash(id);
    assert forall|i: int|
        0 <= i && i + 36 <= spec_group_id_path(id).len() && #[trigger] spec_group_id_path(
            id,
        ).subrange(i, i + 36) == spec_uuid_str(id) implies i == 7 by {
        if i < 7 {
            assert(spec_group_id_path(id)[6] == '/');
            assert(spec_group_id_path(id).subrange(i, i + 36)[6 - i] == spec_uuid_str(id)[6 - i]);
            assert(false);
        }
    }
}

/// The follow path carries the identifier's external form exactly once: it
/// stands at position 7, and no other window of the path equals it.
pub proof fn lemma_group_follow_path_param_once(id: u128)
    ensures
        spec_group_follow_path(id).len() == 50,
        spec_group_follow_path(id).subrange(7, 43) == spec_uuid_str(id),
        forall|i: int|
            0 <= i && i + 36 <= spec_group_follow_path(id).len() && #[trigger] spec_group_follow_path(
                id,
            ).subrange(i, i + 36) == spec_uuid_str(id) ==> i == 7,
{
    reveal_strlit("/group/");
    reveal_strlit("/follow");
    assert(spec_group_follow_path(id).subrange(7, 43) =~= spec_uuid_str(id));
    lemma_uuid_str_no_slash(id);
    assert forall|i: int|
        0 <= i && i + 36 <= spec_group_follow_path(id).len() && #[trigger] spec_group_follow_path(
            id,
        ).subrange(i, i + 36) == spec_uuid_str(id) implies i == 7 by {
        if i < 7 {
            assert(spec_group_follow_path(id)[6] == '/');
            assert(spec_group_follow_path(id).subrange(i, i + 36)[6 - i] == spec_uuid_str(id)[6
                - i]);
            assert(false);
        }
        if i > 7 {
            assert(spec_group_follow_path(id)[43] == '/');
            assert(spec_group_follow_path(id).subrange(i, i + 36)[43 - i] == spec_uuid_str(id)[43
                - i]);
            assert(false);
        }
    }
}

} // verus!
