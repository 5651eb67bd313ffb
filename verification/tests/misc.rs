use license_hub::errors::{AppError, ErrorCode};
use license_hub::models::Product;
use license_hub::paging::{page_index, page_request, text_filter, PagingResponse};
use license_hub::response::{is_error_status, ApiResponse};
use license_hub::storage::{sts_response, sts_role_request, StsCredentials};

#[test]
fn error_code_details() {
    let all = [
        (ErrorCode::Success, "Ok", 0),
        (ErrorCode::UserAlreadyExists, "User already exists", 1001),
        (ErrorCode::UserNotFound, "User not found", 1002),
        (ErrorCode::UserOrPasswordError, "User or password error", 1003),
        (ErrorCode::TokenCreationFailed, "Token creation failed", 1004),
        (ErrorCode::DefaultRoleNotFound, "Default role not found", 1005),
        (ErrorCode::DatabaseError, "Database error", 5001),
    ];
    let mut codes = Vec::new();
    for (c, m, n) in all {
        assert_eq!(c.details(), (m, n));
        codes.push(n);
    }
    codes.sort();
    codes.dedup();
    assert_eq!(codes.len(), 7);
}

#[test]
fn api_responses() {
    let ok = ApiResponse::success(vec![1, 2]);
    assert_eq!((ok.code, ok.message.as_str(), ok.data), (0, "Ok", Some(vec![1, 2])));
    let e: ApiResponse<u8> = ApiResponse::error_with_code(ErrorCode::UserNotFound);
    assert_eq!((e.code, e.message.as_str(), e.data), (1002, "User not found", None));
    let d: ApiResponse<u8> = ApiResponse::error_with_message("connection refused".into());
    assert_eq!((d.code, d.message.as_str()), (5001, "connection refused"));
}

#[test]
fn error_constructors() {
    match AppError::not_found("apps", Some(3)) {
        AppError::NotFound { resource, id } => assert_eq!((resource.as_str(), id), ("apps", Some(3))),
        other => panic!("{:?}", other),
    }
    assert!(matches!(AppError::user_already_exists(), AppError::UserAlreadyExists));
    assert!(matches!(AppError::auth_failed("x"), AppError::AuthFailed(ref m) if m == "x"));
    assert!(matches!(AppError::message("y"), AppError::Message(ref m) if m == "y"));
}

#[test]
fn paging_defaults() {
    assert_eq!(page_request(None, None), (1, 20));
    assert_eq!(page_request(Some(3), Some(50)), (3, 50));
    assert_eq!(page_index(1), 0);
    assert_eq!(page_index(7), 6);
    assert_eq!(text_filter(Some("abc".into())).as_deref(), Some("abc"));
    assert_eq!(text_filter(Some("".into())), None);
    assert_eq!(text_filter(None), None);
    let page = PagingResponse { list: vec![Product { id: 1, name: "p".into(), price: 1999, description: None }], total: 1, page: 1 };
    assert_eq!(page.list[0].price, 1999);
}

#[test]
fn error_statuses() {
    assert!(!is_error_status(200));
    assert!(!is_error_status(399));
    assert!(is_error_status(400));
    assert!(is_error_status(503));
}

#[test]
fn storage_credentials() {
    let r = sts_role_request("acs:ram::1:role/oss", 3600);
    assert_eq!((r.role_arn.as_str(), r.session_name.as_str(), r.duration_secs), ("acs:ram::1:role/oss", "salvo", 3600));
    assert!(r.policy.is_none());
    match sts_response(None) {
        Err(AppError::Message(m)) => assert_eq!(m, "credentials is none"),
        other => panic!("{:?}", other),
    }
    let c = StsCredentials {
        access_key_id: "id".into(),
        access_key_secret: "secret".into(),
        security_token: "tok".into(),
        expiration: "2024-01-01T00:00:00Z".into(),
    };
    let s = sts_response(Some(c)).unwrap();
    assert_eq!((s.access_key_id.as_str(), s.expiration.as_str()), ("id", "2024-01-01T00:00:00Z"));
}
