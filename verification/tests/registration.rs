use license_hub::errors::AppError;
use license_hub::registration::{
    after_app_lookup, after_code_lookup, after_code_lookup_at, after_store, begin_validation,
    check_reg_code, check_validation_defined, code_expiry, instant_of_reading, Instant, RegCode, RegCodeValidateReq,
    RegCodeValidateResp, ValidationStep, MAX_UTC_SECS, MIN_UTC_SECS, SECS_PER_DAY,
};

fn at(secs: i64) -> Instant {
    Instant { secs, nanos: 0 }
}

fn time_code(created: i64, days: i32, expire: Option<Instant>, device: Option<&str>) -> RegCode {
    RegCode {
        code_type: 0,
        status: 0,
        valid_days: days,
        created_at: at(created),
        expire_time: expire,
        total_count: None,
        use_count: 0,
        device_id: device.map(|d| d.to_string()),
    }
}

fn count_code(total: Option<i32>, used: i32, device: Option<&str>) -> RegCode {
    RegCode {
        code_type: 1,
        status: 0,
        valid_days: 0,
        created_at: at(1_700_000_000),
        expire_time: None,
        total_count: total,
        use_count: used,
        device_id: device.map(|d| d.to_string()),
    }
}

fn message(e: &AppError) -> String {
    match e {
        AppError::Message(m) => m.clone(),
        other => panic!("unexpected error {:?}", other),
    }
}

#[test]
fn utc_limits_match_chrono() {
    assert_eq!(chrono::DateTime::<chrono::Utc>::MIN_UTC.timestamp(), MIN_UTC_SECS);
    assert_eq!(chrono::DateTime::<chrono::Utc>::MAX_UTC.timestamp(), MAX_UTC_SECS);
}

#[test]
fn expiry_from_valid_days_matches_chrono() {
    let created = chrono::DateTime::from_timestamp(1_700_000_123, 456).unwrap();
    let expected = created + chrono::Duration::days(30);
    let mut rc = time_code(1_700_000_123, 30, None, None);
    rc.created_at.nanos = 456;
    let e = code_expiry(&rc);
    assert_eq!(e.secs, expected.timestamp());
    assert_eq!(e.nanos, expected.timestamp_subsec_nanos());
}

#[test]
fn is_after_orders_seconds_then_nanos() {
    assert!(at(10).is_after(&at(9)));
    assert!(!at(9).is_after(&at(10)));
    assert!(Instant { secs: 5, nanos: 2 }.is_after(&Instant { secs: 5, nanos: 1 }));
    assert!(!at(5).is_after(&at(5)));
}

#[test]
fn time_code_first_use_binds_device() {
    let rc = time_code(1_000, 1, None, None);
    let device = "dev-1".to_string();
    let (resp, upd) = check_reg_code(&rc, &device, at(1_000 + 3_600)).unwrap();
    assert_eq!(
        resp,
        RegCodeValidateResp { code_type: 0, expire_time: Some(at(1_000 + SECS_PER_DAY)), remaining_count: None }
    );
    let upd = upd.expect("first use stores the binding");
    assert_eq!(upd.device_id.as_deref(), Some("dev-1"));
    assert_eq!(upd.status, 1);
    assert_eq!(upd.use_count, 0);
    assert_eq!(upd.expire_time, None);
}

#[test]
fn time_code_bound_elsewhere_still_accepted_without_change() {
    let rc = time_code(1_000, 10, None, Some("owner"));
    let (resp, upd) = check_reg_code(&rc, &"intruder".to_string(), at(2_000)).unwrap();
    assert_eq!(resp.expire_time, Some(at(1_000 + 10 * SECS_PER_DAY)));
    assert!(upd.is_none());
}

#[test]
fn time_code_expires_strictly_after_expiry() {
    let exp = at(5_000);
    let rc = time_code(1_000, 0, Some(exp), None);
    assert!(check_reg_code(&rc, &"d".to_string(), at(5_000)).is_ok());
    let err = check_reg_code(&rc, &"d".to_string(), Instant { secs: 5_000, nanos: 1 }).unwrap_err();
    assert_eq!(message(&err), "code expired");
}

#[test]
fn explicit_expiry_overrides_valid_days() {
    let rc = time_code(1_000, 365, Some(at(1_500)), None);
    let err = check_reg_code(&rc, &"d".to_string(), at(2_000)).unwrap_err();
    assert_eq!(message(&err), "code expired");
}

#[test]
fn count_code_spends_one_use() {
    let rc = count_code(Some(3), 1, None);
    let (resp, upd) = check_reg_code(&rc, &"dev".to_string(), at(0)).unwrap();
    assert_eq!(resp, RegCodeValidateResp { code_type: 1, expire_time: None, remaining_count: Some(1) });
    let upd = upd.unwrap();
    assert_eq!(upd.use_count, 2);
    assert_eq!(upd.status, 1);
    assert_eq!(upd.device_id.as_deref(), Some("dev"));
}

#[test]
fn count_code_keeps_existing_binding() {
    let rc = count_code(Some(3), 0, Some("first"));
    let (_, upd) = check_reg_code(&rc, &"second".to_string(), at(0)).unwrap();
    assert_eq!(upd.unwrap().device_id.as_deref(), Some("first"));
}

#[test]
fn count_code_is_exhausted_after_its_uses() {
    let mut rc = count_code(Some(3), 0, None);
    let mut remaining = Vec::new();
    for _ in 0..3 {
        let (resp, upd) = check_reg_code(&rc, &"dev".to_string(), at(0)).unwrap();
        remaining.push(resp.remaining_count.unwrap());
        rc = upd.unwrap();
    }
    assert_eq!(remaining, vec![2, 1, 0]);
    assert_eq!(rc.use_count, 3);
    let err = check_reg_code(&rc, &"dev".to_string(), at(0)).unwrap_err();
    assert_eq!(message(&err), "code used up");
}

#[test]
fn count_code_without_total_is_used_up() {
    let rc = count_code(None, 0, None);
    let err = check_reg_code(&rc, &"dev".to_string(), at(0)).unwrap_err();
    assert_eq!(message(&err), "code used up");
}

#[test]
fn unknown_code_type_is_invalid() {
    let mut rc = count_code(Some(3), 0, None);
    rc.code_type = 7;
    let err = check_reg_code(&rc, &"dev".to_string(), at(0)).unwrap_err();
    assert_eq!(message(&err), "invalid code type");
}

#[test]
fn validation_defined_excludes_overflow() {
    assert!(check_validation_defined(&time_code(0, 30, None, None)));
    assert!(!check_validation_defined(&time_code(MAX_UTC_SECS - 10, 1, None, None)));
    assert!(check_validation_defined(&time_code(MAX_UTC_SECS - 10, 1, Some(at(0)), None)));
    assert!(check_validation_defined(&count_code(Some(i32::MAX), 0, None)));
    assert!(!check_validation_defined(&count_code(Some(i32::MAX), -1, None)));
    assert!(check_validation_defined(&count_code(Some(5), 9, None)));
}

fn request() -> RegCodeValidateReq {
    RegCodeValidateReq { app_key: "key-1".into(), code: "ABC".into(), device_id: "dev".into() }
}

#[test]
fn validation_steps_for_unknown_app_and_code() {
    let req = request();
    match begin_validation(&req) {
        ValidationStep::FindApp { app_key } => assert_eq!(app_key, "key-1"),
        _ => panic!("expected app lookup"),
    }
    match after_app_lookup(&req, None) {
        ValidationStep::Reply(Err(AppError::NotFound { resource, id })) => {
            assert_eq!(resource, "apps");
            assert_eq!(id, None);
        }
        _ => panic!("expected not found"),
    }
    match after_app_lookup(&req, Some(4)) {
        ValidationStep::FindCode { code, app_id } => {
            assert_eq!(code, "ABC");
            assert_eq!(app_id, 4);
        }
        _ => panic!("expected code lookup"),
    }
    match after_code_lookup_at(&req, None, at(0)) {
        ValidationStep::Reply(Err(AppError::NotFound { resource, id })) => {
            assert_eq!(resource, "reg_code");
            assert_eq!(id, None);
        }
        _ => panic!("expected not found"),
    }
}

#[test]
fn validation_steps_store_then_reply() {
    let req = request();
    let rc = count_code(Some(2), 0, None);
    let step = after_code_lookup_at(&req, Some(rc), at(0));
    let response = match step {
        ValidationStep::Store { record, response } => {
            assert_eq!(record.use_count, 1);
            assert_eq!(record.device_id.as_deref(), Some("dev"));
            response
        }
        _ => panic!("expected a store"),
    };
    match after_store(response, Ok(())) {
        ValidationStep::Reply(Ok(r)) => assert_eq!(r.remaining_count, Some(1)),
        _ => panic!("expected the answer"),
    }
    match after_store(response, Err(AppError::Database("down".into()))) {
        ValidationStep::Reply(Err(AppError::Database(m))) => assert_eq!(m, "down"),
        _ => panic!("expected the store error"),
    }
}

#[test]
fn validation_step_replies_without_store_for_bound_time_code() {
    let req = request();
    let rc = time_code(1_700_000_000, 36500, None, Some("dev"));
    match after_code_lookup(&req, Some(rc)) {
        (ValidationStep::Reply(Ok(r)), Some(now)) => {
            assert_eq!(r.code_type, 0);
            assert!(now.secs > 1_600_000_000);
        }
        _ => panic!("expected a direct answer"),
    }
}

#[test]
fn expired_code_is_refused_later_too() {
    let rc = time_code(0, 1, None, None);
    for t in [SECS_PER_DAY + 1, 2 * SECS_PER_DAY, 1_000 * SECS_PER_DAY] {
        assert_eq!(message(&check_reg_code(&rc, &"d".to_string(), at(t)).unwrap_err()), "code expired");
    }
    for t in [0, SECS_PER_DAY / 2, SECS_PER_DAY] {
        assert!(check_reg_code(&rc, &"d".to_string(), at(t)).is_ok());
    }
}

#[test]
fn time_code_after_binding_keeps_expiry_and_needs_no_store() {
    let rc = time_code(100, 2, None, None);
    let (first, upd) = check_reg_code(&rc, &"a".to_string(), at(200)).unwrap();
    let bound = upd.unwrap();
    let (second, upd2) = check_reg_code(&bound, &"b".to_string(), at(200)).unwrap();
    assert_eq!(first, second);
    assert!(upd2.is_none());
}

#[test]
fn leap_second_expiry_follows_the_calendar() {
    let leap = chrono::NaiveDate::from_ymd_opt(2016, 12, 31)
        .unwrap()
        .and_hms_nano_opt(23, 59, 59, 1_500_000_000)
        .unwrap()
        .and_utc();
    for days in [-3i32, -1, 0, 1, 30] {
        let mut rc = time_code(0, days, None, None);
        rc.created_at = Instant { secs: leap.timestamp(), nanos: leap.timestamp_subsec_nanos() };
        assert!(check_validation_defined(&rc));
        let expected = leap + chrono::Duration::days(days as i64);
        let e = code_expiry(&rc);
        assert_eq!((e.secs, e.nanos), (expected.timestamp(), expected.timestamp_subsec_nanos()), "days {}", days);
    }
}

#[test]
fn negative_spent_count_is_used_up_after_the_extra_uses() {
    let mut rc = count_code(Some(1), -1, None);
    let device = "d".to_string();
    let mut remaining = Vec::new();
    for _ in 0..2 {
        let (resp, upd) = check_reg_code(&rc, &device, at(0)).unwrap();
        remaining.push(resp.remaining_count);
        rc = upd.unwrap();
    }
    assert_eq!(remaining, vec![Some(1), Some(0)]);
    assert_eq!(rc.use_count, 1);
    for t in [0, 1_000_000] {
        let e = check_reg_code(&rc, &device, at(t)).err().unwrap();
        assert_eq!(message(&e), "code used up");
    }
}

#[test]
fn clock_readings_become_instants() {
    assert_eq!(instant_of_reading(Some((1_700_000_000, 7))), Some(Instant { secs: 1_700_000_000, nanos: 7 }));
    assert_eq!(instant_of_reading(Some((MAX_UTC_SECS as u64, 0))), Some(Instant { secs: MAX_UTC_SECS, nanos: 0 }));
    assert_eq!(instant_of_reading(Some((MAX_UTC_SECS as u64 + 1, 0))), None);
    assert_eq!(instant_of_reading(None), None);
}
