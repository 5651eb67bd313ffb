use license_hub::accounts::{
    apply_user_update, bearer_token, change_password_check, hash_password, login_check,
    payload_user_of, prepare_new_user, register_check, update_user, validate_user_create, validate_user_update, AuthPayload,
    HasId, StoredUser, UserCreatePayload, UserRecord, UserUpdatePayload,
};
use license_hub::errors::AppError;

fn stored(password: &str) -> StoredUser {
    StoredUser { id: 3, username: "alice".into(), password_hash: hash_password(password).unwrap() }
}

fn payload(password: &str) -> AuthPayload {
    AuthPayload { username: "alice".into(), password: password.into() }
}

#[test]
fn hashes_verify_their_password() {
    let h = hash_password("s3cret!").unwrap();
    assert!(bcrypt::verify("s3cret!", &h).unwrap());
    assert!(!bcrypt::verify("other", &h).unwrap());
    assert_ne!(h, hash_password("s3cret!").unwrap());
    assert!(h.starts_with("$2b$10$"));
}

#[test]
fn login_outcomes() {
    match login_check(&payload("x"), None, "user") {
        Err(AppError::NotFound { resource, id }) => assert_eq!((resource.as_str(), id), ("user", None)),
        other => panic!("{:?}", other),
    }
    let ok = login_check(&payload("s3cret!"), Some((stored("s3cret!"), Some("admin".into()))), "user").unwrap();
    assert_eq!(ok, (3, "admin".to_string()));
    let ok = login_check(&payload("s3cret!"), Some((stored("s3cret!"), None)), "user").unwrap();
    assert_eq!(ok.1, "user");
    let wrong = login_check(&payload("wrong"), Some((stored("s3cret!"), None)), "user");
    assert!(wrong.is_ok());
    let broken = StoredUser { id: 3, username: "alice".into(), password_hash: "not-a-hash".into() };
    match login_check(&payload("s3cret!"), Some((broken, None)), "user") {
        Err(AppError::AuthFailed(m)) => assert_eq!(m, "User or password error"),
        other => panic!("{:?}", other),
    }
}

#[test]
fn registration_outcomes() {
    assert!(matches!(register_check(true, Some((2, "user".into()))), Err(AppError::UserAlreadyExists)));
    match register_check(false, None) {
        Err(AppError::NotFound { resource, .. }) => assert_eq!(resource, "role"),
        other => panic!("{:?}", other),
    }
    assert_eq!(register_check(false, Some((2, "user".into()))).unwrap(), (2, "user".to_string()));
}

#[test]
fn password_change_outcomes() {
    match change_password_check(None, "a", "b") {
        Err(AppError::AuthFailed(m)) => assert_eq!(m, "User not found"),
        other => panic!("{:?}", other),
    }
    let h = change_password_check(Some(stored("old-pass")), "old-pass", "new-pass").unwrap();
    assert!(bcrypt::verify("new-pass", &h).unwrap());
    let broken = StoredUser { id: 1, username: "b".into(), password_hash: "$2b$xx".into() };
    match change_password_check(Some(broken), "old", "new-pass") {
        Err(AppError::AuthFailed(m)) => assert_eq!(m, "Old password incorrect"),
        other => panic!("{:?}", other),
    }
}

#[test]
fn new_users() {
    let u = prepare_new_user(UserCreatePayload { username: "bob".into(), password: "hunter22".into(), role_id: None }, 2)
        .unwrap();
    assert_eq!(u.username, "bob");
    assert_eq!(u.role_id, 2);
    assert!(bcrypt::verify("hunter22", &u.password_hash).unwrap());
    let u = prepare_new_user(UserCreatePayload { username: "c".into(), password: "p".into(), role_id: Some(9) }, 2).unwrap();
    assert_eq!(u.role_id, 9);
}

#[test]
fn user_updates() {
    let before = UserRecord { username: "a".into(), password_hash: "h".into(), role_id: 1, balance: 10 };
    let none = UserUpdatePayload { id: None, username: None, password: None, role_id: None, balance: None };
    assert_eq!(none.get_id(), 0);
    let same = apply_user_update(before, none).unwrap();
    assert_eq!((same.username.as_str(), same.password_hash.as_str(), same.role_id, same.balance), ("a", "h", 1, 10));
    let req = UserUpdatePayload { id: Some(8), username: Some("z".into()), password: Some("new-pass".into()), role_id: None, balance: Some(-5) };
    assert_eq!(req.get_id(), 8);
    let changed = apply_user_update(same, req).unwrap();
    assert_eq!((changed.username.as_str(), changed.role_id, changed.balance), ("z", 1, -5));
    assert!(bcrypt::verify("new-pass", &changed.password_hash).unwrap());
}

#[test]
fn user_payload_validation() {
    let ok = UserCreatePayload { username: "bob".into(), password: "123456".into(), role_id: None };
    assert!(validate_user_create(&ok).is_ok());
    let blank = UserCreatePayload { username: " \t".into(), password: "123456".into(), role_id: None };
    assert!(matches!(validate_user_create(&blank), Err(AppError::DataNotFound)));
    let short = UserCreatePayload { username: "bob".into(), password: "12345".into(), role_id: None };
    assert!(matches!(validate_user_create(&short), Err(AppError::DataNotFound)));
    let wide = UserCreatePayload { username: "bob".into(), password: "密码".into(), role_id: None };
    assert!(validate_user_create(&wide).is_ok());
    let upd = UserUpdatePayload { id: None, username: Some("".into()), password: None, role_id: None, balance: None };
    assert!(validate_user_update(&upd).is_err());
    let upd = UserUpdatePayload { id: None, username: None, password: Some("123".into()), role_id: None, balance: None };
    assert!(validate_user_update(&upd).is_err());
    let upd = UserUpdatePayload { id: None, username: Some("x".into()), password: None, role_id: None, balance: None };
    assert!(validate_user_update(&upd).is_ok());
}

#[test]
fn bearer_tokens() {
    assert_eq!(bearer_token(Some("Bearer abc.def.ghi")).as_deref(), Some("abc.def.ghi"));
    assert_eq!(bearer_token(Some("Bearer ")).as_deref(), Some(""));
    assert_eq!(bearer_token(Some("bearer abc")), None);
    assert_eq!(bearer_token(Some("Basic abc")), None);
    assert_eq!(bearer_token(None), None);
    let token = "eyJ.中.x";
    assert_eq!(bearer_token(Some(&format!("Bearer {}", token))).as_deref(), Some(token));
}

#[test]
fn updating_a_missing_user_is_not_found() {
    let none = UserUpdatePayload { id: None, username: Some("n".into()), password: None, role_id: None, balance: None };
    match update_user(12, None, none) {
        Err(AppError::NotFound { resource, id }) => assert_eq!((resource.as_str(), id), ("users", Some(12))),
        other => panic!("unexpected {:?}", other),
    }
    let before = UserRecord { username: "a".into(), password_hash: "h".into(), role_id: 1, balance: 10 };
    let req = UserUpdatePayload { id: None, username: Some("n".into()), password: None, role_id: None, balance: None };
    let u = update_user(12, Some(before), req).unwrap();
    assert_eq!((u.username.as_str(), u.password_hash.as_str(), u.role_id), ("n", "h", 1));
}

#[test]
fn generic_user_creation_names_the_user_by_uuid() {
    let bytes = [7u8; 16];
    let req = UserCreatePayload { username: "dora".into(), password: "pa55word".into(), role_id: None };
    let u = payload_user_of(req, 4, bytes).unwrap();
    assert_eq!(u.user_id, uuid::Builder::from_random_bytes(bytes).into_uuid().to_string());
    assert_eq!(u.user_id.len(), 36);
    assert_eq!((u.username.as_str(), u.role_id), ("dora", 4));
    assert!(bcrypt::verify("pa55word", &u.password_hash).unwrap());
}
