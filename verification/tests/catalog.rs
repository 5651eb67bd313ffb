use license_hub::accounts::HasId;
use license_hub::catalog::{
    apply_app_update, apply_reg_code_update, apply_reg_code_update_at, new_reg_code,
    new_reg_code_at, prepare_new_app, apply_app_update_payload, app_fields_of, update_app, update_reg_code, validate_app_create, validate_app_update, AddAppReq,
    AppRecord, CreateRegCodeReq, UpdateAppReq, UpdateRegCodeReq,
};
use license_hub::errors::AppError;
use license_hub::registration::Instant;

fn add_req(name: &str) -> AddAppReq {
    AddAppReq {
        name: name.into(),
        app_id: "com.example".into(),
        app_vername: "1.0".into(),
        app_vercode: 1,
        app_download_url: "https://d".into(),
        app_res_url: "https://r".into(),
        app_update_info: None,
        app_valid_key: None,
        trial_days: None,
        sort_order: 0,
        status: 1,
    }
}

fn no_change(id: i32) -> UpdateAppReq {
    UpdateAppReq {
        id,
        name: None,
        app_id: None,
        app_vername: None,
        app_vercode: None,
        app_download_url: None,
        app_res_url: None,
        app_update_info: None,
        app_valid_key: None,
        trial_days: None,
        sort_order: None,
        status: None,
    }
}

fn record() -> AppRecord {
    prepare_new_app(add_req("Tool")).unwrap().record
}

#[test]
fn app_validation() {
    assert!(validate_app_create(&add_req("Tool")).is_ok());
    assert!(validate_app_create(&add_req("  ")).is_err());
    let mut u = no_change(1);
    assert!(validate_app_update(&u).is_ok());
    u.name = Some("\u{3000}".into());
    assert!(validate_app_update(&u).is_err());
}

#[test]
fn new_app_defaults() {
    let a = prepare_new_app(add_req("Tool")).unwrap();
    assert_eq!(a.record.app_valid_key, "");
    assert_eq!(a.record.trial_days, 0);
    assert_eq!(a.record.name, "Tool");
    let mut req = add_req("Tool");
    req.app_valid_key = Some("k".into());
    req.trial_days = Some(7);
    let b = prepare_new_app(req).unwrap();
    assert_eq!((b.record.app_valid_key.as_str(), b.record.trial_days), ("k", 7));
}

#[test]
fn app_updates() {
    let unchanged = apply_app_update(record(), no_change(5));
    assert_eq!(unchanged.name, "Tool");
    assert_eq!(no_change(5).get_id(), 5);
    let mut req = no_change(5);
    req.name = Some("New".into());
    req.app_update_info = Some("notes".into());
    req.status = Some(0);
    let once = apply_app_update(record(), req);
    let mut again = no_change(5);
    again.name = Some("New".into());
    again.app_update_info = Some("notes".into());
    again.status = Some(0);
    let twice = apply_app_update(apply_app_update(record(), again), {
        let mut r = no_change(5);
        r.name = Some("New".into());
        r.app_update_info = Some("notes".into());
        r.status = Some(0);
        r
    });
    assert_eq!(once.name, "New");
    assert_eq!(once.app_update_info.as_deref(), Some("notes"));
    assert_eq!(once.status, 0);
    assert_eq!(once.app_id, "com.example");
    assert_eq!((twice.name, twice.status), (once.name.clone(), once.status));
}

fn code_req() -> CreateRegCodeReq {
    CreateRegCodeReq {
        code: "ABC".into(),
        app_id: 1,
        bind_device_info: None,
        valid_days: 30,
        max_devices: 1,
        status: 0,
        code_type: 0,
        expire_time: None,
        total_count: None,
    }
}

fn no_code_change() -> UpdateRegCodeReq {
    UpdateRegCodeReq {
        code: None,
        app_id: None,
        bind_device_info: None,
        valid_days: None,
        max_devices: None,
        status: None,
        binding_time: None,
        code_type: None,
        expire_time: None,
        total_count: None,
        use_count: None,
        device_id: None,
    }
}

#[test]
fn new_codes_are_unused() {
    let now = Instant { secs: 1_700_000_000, nanos: 5 };
    let c = new_reg_code_at(code_req(), now);
    assert_eq!((c.use_count, c.created_at, c.updated_at), (0, now, now));
    assert!(c.device_id.is_none() && c.binding_time.is_none());
    let d = new_reg_code(code_req()).unwrap();
    assert_eq!(d.created_at, d.updated_at);
    assert_eq!(d.code, "ABC");
}

#[test]
fn code_updates() {
    let t0 = Instant { secs: 100, nanos: 0 };
    let t1 = Instant { secs: 200, nanos: 0 };
    let c = new_reg_code_at(code_req(), t0);
    let mut req = no_code_change();
    req.use_count = Some(4);
    req.device_id = Some("dev".into());
    let u = apply_reg_code_update_at(c, req, t1);
    assert_eq!((u.use_count, u.device_id.as_deref(), u.created_at, u.updated_at), (4, Some("dev"), t0, t1));
    let (v, at) = apply_reg_code_update(u, no_code_change()).unwrap();
    assert_eq!(v.updated_at, at);
    assert_eq!(v.use_count, 4);
}

#[test]
fn updating_missing_records_is_not_found() {
    match update_reg_code(5, None, no_code_change()) {
        Err(AppError::NotFound { resource, id }) => assert_eq!((resource.as_str(), id), ("reg_codes", Some(5))),
        other => panic!("unexpected {:?}", other),
    }
    let c = new_reg_code_at(code_req(), Instant { secs: 10, nanos: 0 });
    let mut req = no_code_change();
    req.status = Some(3);
    let (u, at) = update_reg_code(5, Some(c), req).unwrap();
    assert_eq!((u.status, u.created_at, u.updated_at), (3, Instant { secs: 10, nanos: 0 }, at));
    match update_app(7, None, no_change(7)) {
        Err(AppError::NotFound { resource, id }) => assert_eq!((resource.as_str(), id), ("apps", Some(7))),
        other => panic!("unexpected {:?}", other),
    }
    let mut r = no_change(7);
    r.sort_order = Some(42);
    let a = update_app(7, Some(record()), r).unwrap();
    assert_eq!((a.sort_order, a.name.as_str()), (42, "Tool"));
}

#[test]
fn generic_endpoints_leave_key_and_trial_alone() {
    let mut req = add_req("Tool");
    req.app_valid_key = Some("k".into());
    req.trial_days = Some(7);
    let f = app_fields_of(req);
    assert_eq!((f.name.as_str(), f.sort_order), ("Tool", add_req("Tool").sort_order));
    let mut stored = record();
    stored.app_valid_key = "old-key".into();
    stored.trial_days = 3;
    let mut upd = no_change(1);
    upd.app_valid_key = Some("new-key".into());
    upd.trial_days = Some(30);
    upd.status = Some(9);
    upd.name = Some("Renamed".into());
    let a = apply_app_update_payload(stored, upd);
    assert_eq!((a.app_valid_key.as_str(), a.trial_days, a.status, a.name.as_str()), ("old-key", 3, 9, "Renamed"));
}
