use content_client::account::{
    ActivateAccountReq, CompleteAccountRecoverReq, CreateAccountReq, RecoverAccountReq,
    ResendActivationCodeReq, UserAttributes,
};
use content_client::client::Client;
use content_client::common::{ApiData, ApiObject, ListRequest};
use content_client::endpoint::{Method, Placement};
use content_client::errors::Errors;
use content_client::feed::{FollowedMangaFeed, MangaFeed, MangaFeedQuery};
use content_client::group::{CreateGroupRequest, GroupListRequest};
use content_client::response::{project_data, unify_response, RawResponse};
use content_client::token::AuthTokens;

fn base() -> url::Url {
    url::Url::parse("https://api.example.org").unwrap()
}

fn tokens() -> AuthTokens {
    AuthTokens { session: String::from("s3ss10n"), refresh: String::from("r3fr3sh") }
}

fn anonymous() -> Client {
    Client::new(base(), None)
}

fn logged_in() -> Client {
    Client::new(base(), Some(tokens()))
}

#[test]
fn require_tokens_fails_on_empty_store() {
    let c = anonymous();
    assert!(matches!(c.require_tokens(), Err(Errors::MissingTokens)));
}

#[test]
fn require_tokens_returns_the_pair() {
    let c = logged_in();
    let t = c.require_tokens().unwrap();
    assert_eq!(t.session, "s3ss10n");
    assert_eq!(t.refresh, "r3fr3sh");
}

#[test]
fn set_tokens_stores_the_pair() {
    let mut c = anonymous();
    c.set_tokens(tokens());
    assert!(c.require_tokens().is_ok());
}

#[test]
fn account_creation_plans_without_session() {
    let c = anonymous();
    let req = CreateAccountReq::new(
        String::from("alice"),
        String::from("p"),
        String::from("a@x.com"),
    );
    let plan = c.plan_create_account(&req).unwrap();
    assert!(matches!(plan.method, Method::Post));
    assert!(matches!(plan.placement, Placement::JsonBody));
    assert!(plan.bearer.is_none());
    assert_eq!(plan.path, "/account/create");
    assert_eq!(plan.url.as_str(), "https://api.example.org/account/create");
}

#[test]
fn account_creation_success_payload_projects_to_user() {
    let c = anonymous();
    let req = CreateAccountReq::new(
        String::from("alice"),
        String::from("p"),
        String::from("a@x.com"),
    );
    assert!(c.plan_create_account(&req).is_ok());
    let body = ApiData {
        data: ApiObject {
            id: 7,
            kind: String::from("user"),
            attributes: UserAttributes { username: String::from("alice"), version: 1 },
        },
    };
    let unified = unify_response(RawResponse::Succeeded(Ok(body)));
    let user = project_data(unified).unwrap();
    assert_eq!(user.attributes.username, "alice");
    assert_eq!(user.attributes.version, 1);
    assert_eq!(user.kind, "user");
}

#[test]
fn group_deletion_fails_fast_without_session() {
    let c = anonymous();
    let r = c.plan_delete_group(7);
    assert!(matches!(r, Err(Errors::MissingTokens)));
}

#[test]
fn authenticated_endpoints_fail_fast_without_session() {
    let c = anonymous();
    let group_req = CreateGroupRequest::new(String::from("g"), None, None);
    assert!(matches!(c.plan_create_group(&group_req), Err(Errors::MissingTokens)));
    assert!(matches!(c.plan_update_group(&group_req), Err(Errors::MissingTokens)));
    assert!(matches!(c.plan_follow_group(1), Err(Errors::MissingTokens)));
    assert!(matches!(c.plan_unfollow_group(1), Err(Errors::MissingTokens)));
    let window = ListRequest { limit: 10, offset: 0 };
    assert!(matches!(c.plan_followed_groups(&window), Err(Errors::MissingTokens)));
    let feed = FollowedMangaFeed::new(MangaFeedQuery { limit: 10, offset: 0 });
    assert!(matches!(c.plan_followed_manga_feed(&feed), Err(Errors::MissingTokens)));
}

#[test]
fn joining_against_a_base_that_cannot_be_one_fails_with_parse_url() {
    let base = url::Url::parse("data:text/plain,hello").unwrap();
    let c = Client::new(base, None);
    let req = GroupListRequest::new(10, 0, Vec::new(), String::from("x"));
    assert!(matches!(c.plan_list_group(&req), Err(Errors::ParseUrl(_))));
}

#[test]
fn group_creation_attaches_the_session_as_bearer() {
    let c = logged_in();
    let req = CreateGroupRequest::new(String::from("g"), None, None);
    let plan = c.plan_create_group(&req).unwrap();
    assert!(matches!(plan.method, Method::Post));
    assert!(matches!(plan.placement, Placement::JsonBody));
    assert_eq!(plan.bearer.as_deref(), Some("s3ss10n"));
    assert_eq!(plan.path, "/group");
    assert_eq!(plan.url.as_str(), "https://api.example.org/group");
}

#[test]
fn fresh_group_request_declares_version_one() {
    let req = CreateGroupRequest::new(String::from("g"), Some(5), None);
    assert_eq!(req.version, 1);
    assert_eq!(req.name, "g");
    assert_eq!(req.leader, Some(5));
}

#[test]
fn group_listing_is_unauthenticated_query() {
    let c = anonymous();
    let req = GroupListRequest::new(10, 0, Vec::new(), String::from("x"));
    let plan = c.plan_list_group(&req).unwrap();
    assert!(matches!(plan.method, Method::Get));
    assert!(matches!(plan.placement, Placement::Query));
    assert!(plan.bearer.is_none());
    assert_eq!(plan.path, "/group");
}

#[test]
fn view_group_path_substitutes_the_identifier_once() {
    let c = anonymous();
    let id: u128 = 0x123e4567_e89b_12d3_a456_426614174000;
    let plan = c.plan_view_group(id).unwrap();
    let rendered = "123e4567-e89b-12d3-a456-426614174000";
    assert_eq!(plan.path, format!("/group/{}", rendered));
    assert_eq!(plan.path.matches(rendered).count(), 1);
    assert_eq!(
        plan.url.as_str(),
        "https://api.example.org/group/123e4567-e89b-12d3-a456-426614174000"
    );
}

#[test]
fn follow_group_path_substitutes_the_identifier_once() {
    let c = logged_in();
    let id: u128 = 0x123e4567_e89b_12d3_a456_426614174000;
    let plan = c.plan_follow_group(id).unwrap();
    let rendered = "123e4567-e89b-12d3-a456-426614174000";
    assert_eq!(plan.path, format!("/group/{}/follow", rendered));
    assert_eq!(plan.path.matches(rendered).count(), 1);
    assert!(matches!(plan.method, Method::Post));
}

#[test]
fn unfollow_group_uses_delete_on_the_follow_path() {
    let c = logged_in();
    let plan = c.plan_unfollow_group(1).unwrap();
    assert!(matches!(plan.method, Method::Delete));
    assert_eq!(plan.path, "/group/00000000-0000-0000-0000-000000000001/follow");
}

#[test]
fn followed_groups_is_an_authenticated_query_listing() {
    let c = logged_in();
    let window = ListRequest { limit: 25, offset: 50 };
    let plan = c.plan_followed_groups(&window).unwrap();
    assert!(matches!(plan.method, Method::Delete));
    assert!(matches!(plan.placement, Placement::Query));
    assert_eq!(plan.path, "/user/follows/group");
    assert_eq!(plan.bearer.as_deref(), Some("s3ss10n"));
}

#[test]
fn group_deletion_with_session_plans_a_delete() {
    let c = logged_in();
    let id: u128 = 0x123e4567_e89b_12d3_a456_426614174000;
    let plan = c.plan_delete_group(id).unwrap();
    assert!(matches!(plan.method, Method::Delete));
    assert!(matches!(plan.placement, Placement::Empty));
    assert_eq!(plan.path, "/group/123e4567-e89b-12d3-a456-426614174000");
    assert_eq!(plan.bearer.as_deref(), Some("s3ss10n"));
}

#[test]
fn group_update_with_session_plans_a_put() {
    let c = logged_in();
    let req = CreateGroupRequest::new(String::from("g"), None, None);
    let plan = c.plan_update_group(&req).unwrap();
    assert!(matches!(plan.method, Method::Put));
    assert!(matches!(plan.placement, Placement::JsonBody));
    assert_eq!(plan.path, "/group");
    assert_eq!(plan.bearer.as_deref(), Some("s3ss10n"));
}

#[test]
fn recovery_endpoints_use_their_declared_paths() {
    let c = anonymous();
    let resend = ResendActivationCodeReq::new(String::from("a@x.com"));
    let plan = c.plan_resend_activation_code(&resend).unwrap();
    assert_eq!(plan.path, "/account/activate/resend");
    assert!(matches!(plan.placement, Placement::JsonBody));

    let recover = RecoverAccountReq::new(String::from("a@x.com"));
    let plan = c.plan_recover_account(&recover).unwrap();
    assert_eq!(plan.path, "/account/recover");

    let complete = CompleteAccountRecoverReq::new(String::from("c0de"), String::from("new-p"));
    let plan = c.plan_complete_account_recover(&complete).unwrap();
    assert_eq!(plan.path, "/account/recover/c0de");
    assert!(matches!(plan.method, Method::Post));
    assert!(plan.bearer.is_none());
}

#[test]
fn activation_path_substitutes_the_code() {
    let c = anonymous();
    let req = ActivateAccountReq::new(String::from("abc123"));
    let plan = c.plan_activate_account(&req).unwrap();
    assert!(matches!(plan.method, Method::Get));
    assert!(matches!(plan.placement, Placement::Empty));
    assert_eq!(plan.path, "/account/activate/abc123");
}

#[test]
fn manga_feed_path_substitutes_the_identifier() {
    let c = anonymous();
    let req = MangaFeed::new(3, MangaFeedQuery { limit: 100, offset: 0 });
    let plan = c.plan_manga_feed(&req).unwrap();
    assert!(matches!(plan.method, Method::Get));
    assert!(matches!(plan.placement, Placement::Query));
    assert_eq!(plan.path, "/manga/00000000-0000-0000-0000-000000000003/feed");
    assert!(plan.bearer.is_none());
}

#[test]
fn followed_manga_feed_is_authenticated() {
    let c = logged_in();
    let req = FollowedMangaFeed::new(MangaFeedQuery { limit: 10, offset: 0 });
    let plan = c.plan_followed_manga_feed(&req).unwrap();
    assert_eq!(plan.path, "/user/follows/manga/feed");
    assert_eq!(plan.bearer.as_deref(), Some("s3ss10n"));
}
