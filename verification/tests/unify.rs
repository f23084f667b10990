use content_client::common::{ApiData, ApiObject, ApiResult};
use content_client::errors::{ApiError, ApiErrors, Errors, TransportError};
use content_client::group::ScanlationGroupResult;
use content_client::paths::uuid_hyphenated_lower;
use content_client::response::{project_data, project_discard, status_is_success, unify_response, RawResponse};
use content_client::account::UserAttributes;

fn sample_errors(records: Vec<ApiError>) -> ApiErrors {
    ApiErrors { result: ApiResult::Error, errors: records }
}

#[test]
fn success_body_passes_through() {
    let raw: RawResponse<i32> = RawResponse::Succeeded(Ok(7));
    let r = unify_response(raw);
    assert!(matches!(r, Ok(7)));
}

#[test]
fn success_status_malformed_body_degrades_to_transport() {
    let raw: RawResponse<i32> = RawResponse::Succeeded(Err(TransportError::Decode));
    let r = unify_response(raw);
    assert!(matches!(r, Err(Errors::Http(TransportError::Decode))));
}

#[test]
fn error_status_with_structured_body_yields_http_with_body() {
    let records = vec![
        ApiError { id: 1, status: 400, title: Some(String::from("InvalidName")), detail: None },
        ApiError { id: 2, status: 400, title: None, detail: Some(String::from("second")) },
    ];
    let raw: RawResponse<i32> =
        RawResponse::Rejected(TransportError::Status(400), Ok(sample_errors(records)));
    let r = unify_response(raw);
    match r {
        Err(Errors::HttpWithBody(body)) => {
            assert!(matches!(body.result, ApiResult::Error));
            assert_eq!(body.errors.len(), 2);
            assert_eq!(body.errors[0].id, 1);
            assert_eq!(body.errors[0].title.as_deref(), Some("InvalidName"));
            assert_eq!(body.errors[1].id, 2);
            assert_eq!(body.errors[1].detail.as_deref(), Some("second"));
        },
        _ => panic!("expected a structured error"),
    }
}

#[test]
fn error_status_without_structured_body_yields_original_failure() {
    let raw: RawResponse<i32> =
        RawResponse::Rejected(TransportError::Status(503), Err(TransportError::Decode));
    let r = unify_response(raw);
    assert!(matches!(r, Err(Errors::Http(TransportError::Status(503)))));
}

#[test]
fn group_creation_rejected_with_one_record() {
    let records = vec![ApiError {
        id: 42,
        status: 400,
        title: Some(String::from("InvalidName")),
        detail: None,
    }];
    let raw: RawResponse<ScanlationGroupResult> =
        RawResponse::Rejected(TransportError::Status(400), Ok(sample_errors(records)));
    let r = unify_response(raw);
    match r {
        Err(Errors::HttpWithBody(body)) => {
            assert_eq!(body.errors.len(), 1);
            assert_eq!(body.errors[0].status, 400);
            assert_eq!(body.errors[0].title.as_deref(), Some("InvalidName"));
            assert!(body.errors[0].detail.is_none());
        },
        _ => panic!("expected a structured error"),
    }
}

#[test]
fn project_data_unwraps_the_envelope() {
    let user = ApiObject {
        id: 9,
        kind: String::from("user"),
        attributes: UserAttributes { username: String::from("alice"), version: 1 },
    };
    let r = project_data(Ok(ApiData { data: user }));
    match r {
        Ok(u) => {
            assert_eq!(u.id, 9);
            assert_eq!(u.attributes.username, "alice");
            assert_eq!(u.attributes.version, 1);
        },
        _ => panic!("expected the unwrapped payload"),
    }
}

#[test]
fn project_discard_keeps_failures() {
    let r: Result<i32, Errors> = Err(Errors::MissingTokens);
    assert!(matches!(project_discard(r), Err(Errors::MissingTokens)));
    let ok: Result<i32, Errors> = Ok(3);
    assert!(project_discard(ok).is_ok());
}

#[test]
fn status_classification_bounds() {
    assert!(status_is_success(200));
    assert!(status_is_success(299));
    assert!(!status_is_success(199));
    assert!(!status_is_success(300));
    assert!(!status_is_success(400));
    assert!(!status_is_success(503));
}

#[test]
fn identifier_renders_hyphenated_lower() {
    let id: u128 = 0x123e4567_e89b_12d3_a456_426614174000;
    let s = uuid_hyphenated_lower(id);
    assert_eq!(s, "123e4567-e89b-12d3-a456-426614174000");
    assert_eq!(s, uuid::Uuid::from_u128(id).hyphenated().to_string());
}

#[test]
fn identifier_rendering_of_zero() {
    let s = uuid_hyphenated_lower(0);
    assert_eq!(s, "00000000-0000-0000-0000-000000000000");
    assert_eq!(s, uuid::Uuid::from_u128(0).hyphenated().to_string());
}

#[test]
fn identifier_rendering_of_max() {
    let s = uuid_hyphenated_lower(u128::MAX);
    assert_eq!(s, "ffffffff-ffff-ffff-ffff-ffffffffffff");
    assert_eq!(s, uuid::Uuid::from_u128(u128::MAX).hyphenated().to_string());
}
