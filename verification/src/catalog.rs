//! The licensed apps and their registration codes as the administration
//! endpoints create and change them.
use crate::accounts::HasId;
use crate::errors::{is_not_found, AppError};
use crate::registration::{current_instant, Instant};
use crate::text::{blank, is_blank};
use vstd::prelude::*;

verus! {

/// A request to register an app.
#[derive(Debug)]
pub struct AddAppReq {
    pub name: String,
    pub app_id: String,
    pub app_vername: String,
    pub app_vercode: i32,
    pub app_download_url: String,
    pub app_res_url: String,
    pub app_update_info: Option<String>,
    /// The key devices present to validate codes; empty when absent.
    pub app_valid_key: Option<String>,
    /// Days of trial; 0 when absent.
    pub trial_days: Option<i32>,
    pub sort_order: i32,
    pub status: i16,
}

/// An app as stored.
#[derive(Debug)]
pub struct AppRecord {
    pub name: String,
    pub app_id: String,
    pub app_vername: String,
    pub app_vercode: i32,
    pub app_download_url: String,
    pub app_res_url: String,
    pub app_update_info: Option<String>,
    pub app_valid_key: String,
    pub trial_days: i32,
    pub sort_order: i32,
    pub status: i16,
}

/// A request to change app `id`; absent fields are left as they are.
#[derive(Debug)]
pub struct UpdateAppReq {
    pub id: i32,
    pub name: Option<String>,
    pub app_id: Option<String>,
    pub app_vername: Option<String>,
    pub app_vercode: Option<i32>,
    pub app_download_url: Option<String>,
    pub app_res_url: Option<String>,
    pub app_update_info: Option<String>,
    pub app_valid_key: Option<String>,
    pub trial_days: Option<i32>,
    pub sort_order: Option<i32>,
    pub status: Option<i16>,
}

impl HasId for UpdateAppReq {
    /// The id of the app to change.
    fn get_id(&self) -> (r: i32)
        ensures
            r == self.id,
    {
        self.id
    }
}

/// A new app ready to be stored, with its creation time.
#[derive(Debug)]
pub struct NewApp {
    pub record: AppRecord,
    pub created_at: Instant,
}

/// Checks an app to be registered: its name must not be blank.
pub fn validate_app_create(req: &AddAppReq) -> (r: Result<(), AppError>)
    ensures
        r is Ok <==> !is_blank(req.name@),
        r matches Err(e) ==> e is DataNotFound,
{
    if blank(req.name.as_str()) {
        Err(AppError::DataNotFound)
    } else {
        Ok(())
    }
}

/// Checks an app change: a new name must not be blank.
pub fn validate_app_update(req: &UpdateAppReq) -> (r: Result<(), AppError>)
    ensures
        r is Ok <==> match req.name {
            Some(n) => !is_blank(n@),
            None => true,
        },
        r matches Err(e) ==> e is DataNotFound,
{
    match &req.name {
        Some(n) => if blank(n.as_str()) {
            return Err(AppError::DataNotFound);
        },
        None => {},
    }
    Ok(())
}

/// The app to store for `req`, created now: its key is empty and its trial
/// is 0 days when the request gives none. `AppError::Clock` when the clock
/// cannot be read.
pub fn prepare_new_app(req: AddAppReq) -> (res: Result<NewApp, AppError>)
    ensures
        res matches Err(e) ==> e is Clock,
        res matches Ok(r) ==> {
            &&& r.record.name == req.name
            &&& r.record.app_id == req.app_id
            &&& r.record.app_vername == req.app_vername
            &&& r.record.app_vercode == req.app_vercode
            &&& r.record.app_download_url == req.app_download_url
            &&& r.record.app_res_url == req.app_res_url
            &&& r.record.app_update_info == req.app_update_info
            &&& r.record.app_valid_key@ == match req.app_valid_key {
                Some(k) => k@,
                None => Seq::<char>::empty(),
            }
            &&& r.record.trial_days == match req.trial_days {
                Some(d) => d,
                None => 0i32,
            }
            &&& r.record.sort_order == req.sort_order
            &&& r.record.status == req.status
            &&& r.created_at.nanos < 1_000_000_000
            &&& 0 <= r.created_at.secs
        },
{
    let created_at = match current_instant() {
        Some(t) => t,
        None => {
            return Err(AppError::Clock);
        },
    };
    let app_valid_key = match req.app_valid_key {
        Some(k) => k,
        None => String::new(),
    };
    let trial_days = match req.trial_days {
        Some(d) => d,
        None => 0,
    };
    Ok(NewApp {
        record: AppRecord {
            name: req.name,
            app_id: req.app_id,
            app_vername: req.app_vername,
            app_vercode: req.app_vercode,
            app_download_url: req.app_download_url,
            app_res_url: req.app_res_url,
            app_update_info: req.app_update_info,
            app_valid_key,
            trial_days,
            sort_order: req.sort_order,
            status: req.status,
        },
        created_at,
    })
}

/// `o` if given, else `current`.
pub open spec fn or_keep<T>(o: Option<T>, current: T) -> T {
    match o {
        Some(v) => v,
        None => current,
    }
}

/// `o` (kept optional) if given, else `current`.
pub open spec fn or_keep_opt<T>(o: Option<T>, current: Option<T>) -> Option<T> {
    match o {
        Some(v) => Some(v),
        None => current,
    }
}

/// The app `a` changed by `req`.
pub open spec fn updated_app(a: AppRecord, req: UpdateAppReq) -> AppRecord {
    AppRecord {
        name: or_keep(req.name, a.name),
        app_id: or_keep(req.app_id, a.app_id),
        app_vername: or_keep(req.app_vername, a.app_vername),
        app_vercode: or_keep(req.app_vercode, a.app_vercode),
        app_download_url: or_keep(req.app_download_url, a.app_download_url),
        app_res_url: or_keep(req.app_res_url, a.app_res_url),
        app_update_info: or_keep_opt(req.app_update_info, a.app_update_info),
        app_valid_key: or_keep(req.app_valid_key, a.app_valid_key),
        trial_days: or_keep(req.trial_days, a.trial_days),
        sort_order: or_keep(req.sort_order, a.sort_order),
        status: or_keep(req.status, a.status),
    }
}

/// The app `app` changed by `req`: each field that `req` gives replaces the
/// stored one.
pub fn apply_app_update(app: AppRecord, req: UpdateAppReq) -> (r: AppRecord)
    ensures
        r == updated_app(app, req),
{
    AppRecord {
        name: match req.name {
            Some(v) => v,
            None => app.name,
        },
        app_id: match req.app_id {
            Some(v) => v,
            None => app.app_id,
        },
        app_vername: match req.app_vername {
            Some(v) => v,
            None => app.app_vername,
        },
        app_vercode: match req.app_vercode {
            Some(v) => v,
            None => app.app_vercode,
        },
        app_download_url: match req.app_download_url {
            Some(v) => v,
            None => app.app_download_url,
        },
        app_res_url: match req.app_res_url {
            Some(v) => v,
            None => app.app_res_url,
        },
        app_update_info: match req.app_update_info {
            Some(v) => Some(v),
            None => app.app_update_info,
        },
        app_valid_key: match req.app_valid_key {
            Some(v) => v,
            None => app.app_valid_key,
        },
        trial_days: match req.trial_days {
            Some(v) => v,
            None => app.trial_days,
        },
        sort_order: match req.sort_order {
            Some(v) => v,
            None => app.sort_order,
        },
        status: match req.status {
            Some(v) => v,
            None => app.status,
        },
    }
}

/// The app `a` changed by `req` as the generic administration endpoints
/// apply it: the name, identifiers, version, links, update notes, order and
/// status that `req` gives replace the stored ones; the validation key and
/// the trial days are never changed there.
pub open spec fn payload_updated_app(a: AppRecord, req: UpdateAppReq) -> AppRecord {
    AppRecord {
        name: or_keep(req.name, a.name),
        app_id: or_keep(req.app_id, a.app_id),
        app_vername: or_keep(req.app_vername, a.app_vername),
        app_vercode: or_keep(req.app_vercode, a.app_vercode),
        app_download_url: or_keep(req.app_download_url, a.app_download_url),
        app_res_url: or_keep(req.app_res_url, a.app_res_url),
        app_update_info: or_keep_opt(req.app_update_info, a.app_update_info),
        app_valid_key: a.app_valid_key,
        trial_days: a.trial_days,
        sort_order: or_keep(req.sort_order, a.sort_order),
        status: or_keep(req.status, a.status),
    }
}

/// The app `app` changed by `req` through the generic administration
/// endpoints (see `payload_updated_app`).
pub fn apply_app_update_payload(app: AppRecord, req: UpdateAppReq) -> (r: AppRecord)
    ensures
        r == payload_updated_app(app, req),
{
    AppRecord {
        name: match req.name {
            Some(v) => v,
            None => app.name,
        },
        app_id: match req.app_id {
            Some(v) => v,
            None => app.app_id,
        },
        app_vername: match req.app_vername {
            Some(v) => v,
            None => app.app_vername,
        },
        app_vercode: match req.app_vercode {
            Some(v) => v,
            None => app.app_vercode,
        },
        app_download_url: match req.app_download_url {
            Some(v) => v,
            None => app.app_download_url,
        },
        app_res_url: match req.app_res_url {
            Some(v) => v,
            None => app.app_res_url,
        },
        app_update_info: match req.app_update_info {
            Some(v) => Some(v),
            None => app.app_update_info,
        },
        app_valid_key: app.app_valid_key,
        trial_days: app.trial_days,
        sort_order: match req.sort_order {
            Some(v) => v,
            None => app.sort_order,
        },
        status: match req.status {
            Some(v) => v,
            None => app.status,
        },
    }
}

/// The stored fields of an app created through the generic administration
/// endpoints: everything but the validation key and the trial days, which
/// are left to the store's defaults, and the creation time, which the store
/// sets.
#[derive(Debug)]
pub struct AppFields {
    pub name: String,
    pub app_id: String,
    pub app_vername: String,
    pub app_vercode: i32,
    pub app_download_url: String,
    pub app_res_url: String,
    pub app_update_info: Option<String>,
    pub sort_order: i32,
    pub status: i16,
}

/// The fields to store for `req` through the generic administration
/// endpoints; a validation key or trial days that `req` gives are ignored.
pub fn app_fields_of(req: AddAppReq) -> (r: AppFields)
    ensures
        r.name == req.name,
        r.app_id == req.app_id,
        r.app_vername == req.app_vername,
        r.app_vercode == req.app_vercode,
        r.app_download_url == req.app_download_url,
        r.app_res_url == req.app_res_url,
        r.app_update_info == req.app_update_info,
        r.sort_order == req.sort_order,
        r.status == req.status,
{
    AppFields {
        name: req.name,
        app_id: req.app_id,
        app_vername: req.app_vername,
        app_vercode: req.app_vercode,
        app_download_url: req.app_download_url,
        app_res_url: req.app_res_url,
        app_update_info: req.app_update_info,
        sort_order: req.sort_order,
        status: req.status,
    }
}

/// Through the generic endpoints an app update never touches the
/// validation key or the trial days; it differs from the app endpoints'
/// own update only in those two fields.
pub proof fn law_payload_update_keeps_key_and_trial(a: AppRecord, req: UpdateAppReq)
    ensures
        payload_updated_app(a, req).app_valid_key == a.app_valid_key,
        payload_updated_app(a, req).trial_days == a.trial_days,
        payload_updated_app(a, req) == (AppRecord {
            app_valid_key: a.app_valid_key,
            trial_days: a.trial_days,
            ..updated_app(a, req)
        }),
{
}

/// Changes the app `id`, found as `found`, by `req`: an app that does not
/// exist is not found; otherwise see `apply_app_update`.
pub fn update_app(id: i32, found: Option<AppRecord>, req: UpdateAppReq) -> (r: Result<AppRecord, AppError>)
    ensures
        match found {
            None => r matches Err(e) && is_not_found(e, "apps"@, Some(id)),
            Some(a) => r matches Ok(u) && u == updated_app(a, req),
        },
{
    match found {
        None => Err(AppError::not_found("apps", Some(id))),
        Some(a) => Ok(apply_app_update(a, req)),
    }
}

/// A change that gives no field leaves an app as it is.
pub proof fn law_empty_app_update_is_identity(a: AppRecord, req: UpdateAppReq)
    requires
        req.name is None,
        req.app_id is None,
        req.app_vername is None,
        req.app_vercode is None,
        req.app_download_url is None,
        req.app_res_url is None,
        req.app_update_info is None,
        req.app_valid_key is None,
        req.trial_days is None,
        req.sort_order is None,
        req.status is None,
    ensures
        updated_app(a, req) == a,
{
}

/// Through the app endpoints' own update, every field the request gives
/// replaces the stored one and every other field is kept.
pub proof fn law_app_update_sets_given_fields(a: AppRecord, req: UpdateAppReq)
    ensures
        req.name matches Some(v) ==> updated_app(a, req).name == v,
        req.name is None ==> updated_app(a, req).name == a.name,
        req.app_id matches Some(v) ==> updated_app(a, req).app_id == v,
        req.app_id is None ==> updated_app(a, req).app_id == a.app_id,
        req.app_vername matches Some(v) ==> updated_app(a, req).app_vername == v,
        req.app_vername is None ==> updated_app(a, req).app_vername == a.app_vername,
        req.app_vercode matches Some(v) ==> updated_app(a, req).app_vercode == v,
        req.app_vercode is None ==> updated_app(a, req).app_vercode == a.app_vercode,
        req.app_download_url matches Some(v) ==> updated_app(a, req).app_download_url == v,
        req.app_download_url is None ==> updated_app(a, req).app_download_url == a.app_download_url,
        req.app_res_url matches Some(v) ==> updated_app(a, req).app_res_url == v,
        req.app_res_url is None ==> updated_app(a, req).app_res_url == a.app_res_url,
        req.app_update_info matches Some(v) ==> updated_app(a, req).app_update_info == Some(v),
        req.app_update_info is None ==> updated_app(a, req).app_update_info == a.app_update_info,
        req.app_valid_key matches Some(v) ==> updated_app(a, req).app_valid_key == v,
        req.app_valid_key is None ==> updated_app(a, req).app_valid_key == a.app_valid_key,
        req.trial_days matches Some(v) ==> updated_app(a, req).trial_days == v,
        req.trial_days is None ==> updated_app(a, req).trial_days == a.trial_days,
        req.sort_order matches Some(v) ==> updated_app(a, req).sort_order == v,
        req.sort_order is None ==> updated_app(a, req).sort_order == a.sort_order,
        req.status matches Some(v) ==> updated_app(a, req).status == v,
        req.status is None ==> updated_app(a, req).status == a.status,
{
}

/// Through the generic endpoints, every field the request gives replaces
/// the stored one, except the validation key and the trial days, which are
/// always kept, as is every field the request does not give.
pub proof fn law_payload_update_sets_given_fields(a: AppRecord, req: UpdateAppReq)
    ensures
        req.name matches Some(v) ==> payload_updated_app(a, req).name == v,
        req.name is None ==> payload_updated_app(a, req).name == a.name,
        req.app_id matches Some(v) ==> payload_updated_app(a, req).app_id == v,
        req.app_id is None ==> payload_updated_app(a, req).app_id == a.app_id,
        req.app_vername matches Some(v) ==> payload_updated_app(a, req).app_vername == v,
        req.app_vername is None ==> payload_updated_app(a, req).app_vername == a.app_vername,
        req.app_vercode matches Some(v) ==> payload_updated_app(a, req).app_vercode == v,
        req.app_vercode is None ==> payload_updated_app(a, req).app_vercode == a.app_vercode,
        req.app_download_url matches Some(v) ==> payload_updated_app(a, req).app_download_url == v,
        req.app_download_url is None ==> payload_updated_app(a, req).app_download_url == a.app_download_url,
        req.app_res_url matches Some(v) ==> payload_updated_app(a, req).app_res_url == v,
        req.app_res_url is None ==> payload_updated_app(a, req).app_res_url == a.app_res_url,
        req.app_update_info matches Some(v) ==> payload_updated_app(a, req).app_update_info == Some(v),
        req.app_update_info is None ==> payload_updated_app(a, req).app_update_info == a.app_update_info,
        req.sort_order matches Some(v) ==> payload_updated_app(a, req).sort_order == v,
        req.sort_order is None ==> payload_updated_app(a, req).sort_order == a.sort_order,
        req.status matches Some(v) ==> payload_updated_app(a, req).status == v,
        req.status is None ==> payload_updated_app(a, req).status == a.status,
        payload_updated_app(a, req).app_valid_key == a.app_valid_key,
        payload_updated_app(a, req).trial_days == a.trial_days,
{
}

/// Applying the same change twice is applying it once.
pub proof fn law_app_update_idempotent(a: AppRecord, req: UpdateAppReq)
    ensures
        updated_app(updated_app(a, req), req) == updated_app(a, req),
{
}

/// A request to create a registration code.
#[derive(Debug)]
pub struct CreateRegCodeReq {
    pub code: String,
    pub app_id: i32,
    /// Information about the devices bound to the code (JSON).
    pub bind_device_info: Option<String>,
    pub valid_days: i32,
    pub max_devices: i32,
    pub status: i16,
    pub code_type: i16,
    pub expire_time: Option<Instant>,
    pub total_count: Option<i32>,
}

/// A registration code as stored.
#[derive(Debug)]
pub struct RegCodeRecord {
    pub code: String,
    pub app_id: i32,
    pub bind_device_info: Option<String>,
    pub valid_days: i32,
    pub max_devices: i32,
    pub status: i16,
    pub binding_time: Option<Instant>,
    pub code_type: i16,
    pub expire_time: Option<Instant>,
    pub total_count: Option<i32>,
    pub use_count: i32,
    pub device_id: Option<String>,
    pub created_at: Instant,
    pub updated_at: Instant,
}

/// The code to store for `req`, created at `now`: unused and unbound.
pub open spec fn fresh_reg_code(req: CreateRegCodeReq, now: Instant) -> RegCodeRecord {
    RegCodeRecord {
        code: req.code,
        app_id: req.app_id,
        bind_device_info: req.bind_device_info,
        valid_days: req.valid_days,
        max_devices: req.max_devices,
        status: req.status,
        binding_time: None,
        code_type: req.code_type,
        expire_time: req.expire_time,
        total_count: req.total_count,
        use_count: 0,
        device_id: None,
        created_at: now,
        updated_at: now,
    }
}

/// The code to store for `req`, created at `now` (see `fresh_reg_code`).
pub fn new_reg_code_at(req: CreateRegCodeReq, now: Instant) -> (r: RegCodeRecord)
    ensures
        r == fresh_reg_code(req, now),
{
    RegCodeRecord {
        code: req.code,
        app_id: req.app_id,
        bind_device_info: req.bind_device_info,
        valid_days: req.valid_days,
        max_devices: req.max_devices,
        status: req.status,
        binding_time: None,
        code_type: req.code_type,
        expire_time: req.expire_time,
        total_count: req.total_count,
        use_count: 0,
        device_id: None,
        created_at: now,
        updated_at: now,
    }
}

/// The code to store for `req`, created now; `AppError::Clock` when the
/// clock cannot be read.
pub fn new_reg_code(req: CreateRegCodeReq) -> (r: Result<RegCodeRecord, AppError>)
    ensures
        match r {
            Ok(c) => c == fresh_reg_code(req, c.created_at) && c.created_at.nanos < 1_000_000_000
                && 0 <= c.created_at.secs,
            Err(e) => e is Clock,
        },
{
    match current_instant() {
        Some(now) => Ok(new_reg_code_at(req, now)),
        None => Err(AppError::Clock),
    }
}

/// A request to change a registration code; absent fields are left as they
/// are (an optional field cannot be cleared).
#[derive(Debug)]
pub struct UpdateRegCodeReq {
    pub code: Option<String>,
    pub app_id: Option<i32>,
    pub bind_device_info: Option<String>,
    pub valid_days: Option<i32>,
    pub max_devices: Option<i32>,
    pub status: Option<i16>,
    pub binding_time: Option<Instant>,
    pub code_type: Option<i16>,
    pub expire_time: Option<Instant>,
    pub total_count: Option<i32>,
    pub use_count: Option<i32>,
    pub device_id: Option<String>,
}

/// The code `c` changed by `req` at time `now`.
pub open spec fn updated_reg_code(c: RegCodeRecord, req: UpdateRegCodeReq, now: Instant) -> RegCodeRecord {
    RegCodeRecord {
        code: or_keep(req.code, c.code),
        app_id: or_keep(req.app_id, c.app_id),
        bind_device_info: or_keep_opt(req.bind_device_info, c.bind_device_info),
        valid_days: or_keep(req.valid_days, c.valid_days),
        max_devices: or_keep(req.max_devices, c.max_devices),
        status: or_keep(req.status, c.status),
        binding_time: or_keep_opt(req.binding_time, c.binding_time),
        code_type: or_keep(req.code_type, c.code_type),
        expire_time: or_keep_opt(req.expire_time, c.expire_time),
        total_count: or_keep_opt(req.total_count, c.total_count),
        use_count: or_keep(req.use_count, c.use_count),
        device_id: or_keep_opt(req.device_id, c.device_id),
        created_at: c.created_at,
        updated_at: now,
    }
}

/// The code `c` changed by `req` at time `now`: each field that `req` gives
/// replaces the stored one, and the code is marked updated at `now`.
pub fn apply_reg_code_update_at(c: RegCodeRecord, req: UpdateRegCodeReq, now: Instant) -> (r:
    RegCodeRecord)
    ensures
        r == updated_reg_code(c, req, now),
{
    RegCodeRecord {
        code: match req.code {
            Some(v) => v,
            None => c.code,
        },
        app_id: match req.app_id {
            Some(v) => v,
            None => c.app_id,
        },
        bind_device_info: match req.bind_device_info {
            Some(v) => Some(v),
            None => c.bind_device_info,
        },
        valid_days: match req.valid_days {
            Some(v) => v,
            None => c.valid_days,
        },
        max_devices: match req.max_devices {
            Some(v) => v,
            None => c.max_devices,
        },
        status: match req.status {
            Some(v) => v,
            None => c.status,
        },
        binding_time: match req.binding_time {
            Some(v) => Some(v),
            None => c.binding_time,
        },
        code_type: match req.code_type {
            Some(v) => v,
            None => c.code_type,
        },
        expire_time: match req.expire_time {
            Some(v) => Some(v),
            None => c.expire_time,
        },
        total_count: match req.total_count {
            Some(v) => Some(v),
            None => c.total_count,
        },
        use_count: match req.use_count {
            Some(v) => v,
            None => c.use_count,
        },
        device_id: match req.device_id {
            Some(v) => Some(v),
            None => c.device_id,
        },
        created_at: c.created_at,
        updated_at: now,
    }
}

/// The code `c` changed by `req` now; the time of the change is returned
/// with it. `AppError::Clock` when the clock cannot be read.
pub fn apply_reg_code_update(c: RegCodeRecord, req: UpdateRegCodeReq) -> (r: Result<
    (RegCodeRecord, Instant),
    AppError,
>)
    ensures
        match r {
            Ok((u, now)) => u == updated_reg_code(c, req, now) && now.nanos < 1_000_000_000
                && 0 <= now.secs,
            Err(e) => e is Clock,
        },
{
    match current_instant() {
        Some(now) => Ok((apply_reg_code_update_at(c, req, now), now)),
        None => Err(AppError::Clock),
    }
}

/// Changes the registration code `id`, found as `found`, by `req`: a code
/// that does not exist is not found; otherwise see `apply_reg_code_update`.
pub fn update_reg_code(id: i32, found: Option<RegCodeRecord>, req: UpdateRegCodeReq) -> (r: Result<
    (RegCodeRecord, Instant),
    AppError,
>)
    ensures
        match found {
            None => r matches Err(e) && is_not_found(e, "reg_codes"@, Some(id)),
            Some(c) => match r {
                Ok((u, now)) => u == updated_reg_code(c, req, now) && now.nanos < 1_000_000_000
                    && 0 <= now.secs,
                Err(e) => e is Clock,
            },
        },
{
    match found {
        None => Err(AppError::not_found("reg_codes", Some(id))),
        Some(c) => apply_reg_code_update(c, req),
    }
}

/// An update of a registration code sets every field the request gives to
/// the given value and keeps every other field; it keeps the creation time
/// and marks the code updated at `now`.
pub proof fn law_reg_code_update_sets_given_fields(c: RegCodeRecord, req: UpdateRegCodeReq, now: Instant)
    ensures
        req.code matches Some(v) ==> updated_reg_code(c, req, now).code == v,
        req.code is None ==> updated_reg_code(c, req, now).code == c.code,
        req.app_id matches Some(v) ==> updated_reg_code(c, req, now).app_id == v,
        req.app_id is None ==> updated_reg_code(c, req, now).app_id == c.app_id,
        req.bind_device_info matches Some(v) ==> updated_reg_code(c, req, now).bind_device_info == Some(v),
        req.bind_device_info is None ==> updated_reg_code(c, req, now).bind_device_info == c.bind_device_info,
        req.valid_days matches Some(v) ==> updated_reg_code(c, req, now).valid_days == v,
        req.valid_days is None ==> updated_reg_code(c, req, now).valid_days == c.valid_days,
        req.max_devices matches Some(v) ==> updated_reg_code(c, req, now).max_devices == v,
        req.max_devices is None ==> updated_reg_code(c, req, now).max_devices == c.max_devices,
        req.status matches Some(v) ==> updated_reg_code(c, req, now).status == v,
        req.status is None ==> updated_reg_code(c, req, now).status == c.status,
        req.binding_time matches Some(v) ==> updated_reg_code(c, req, now).binding_time == Some(v),
        req.binding_time is None ==> updated_reg_code(c, req, now).binding_time == c.binding_time,
        req.code_type matches Some(v) ==> updated_reg_code(c, req, now).code_type == v,
        req.code_type is None ==> updated_reg_code(c, req, now).code_type == c.code_type,
        req.expire_time matches Some(v) ==> updated_reg_code(c, req, now).expire_time == Some(v),
        req.expire_time is None ==> updated_reg_code(c, req, now).expire_time == c.expire_time,
        req.total_count matches Some(v) ==> updated_reg_code(c, req, now).total_count == Some(v),
        req.total_count is None ==> updated_reg_code(c, req, now).total_count == c.total_count,
        req.use_count matches Some(v) ==> updated_reg_code(c, req, now).use_count == v,
        req.use_count is None ==> updated_reg_code(c, req, now).use_count == c.use_count,
        req.device_id matches Some(v) ==> updated_reg_code(c, req, now).device_id == Some(v),
        req.device_id is None ==> updated_reg_code(c, req, now).device_id == c.device_id,
        updated_reg_code(c, req, now).created_at == c.created_at,
        updated_reg_code(c, req, now).updated_at == now,
{
}

/// A new registration code stores every field the request gives unchanged,
/// has spent no use, is bound to no device, and is created and updated at
/// `now`.
pub proof fn law_fresh_code_keeps_request(req: CreateRegCodeReq, now: Instant)
    ensures
        fresh_reg_code(req, now).code == req.code,
        fresh_reg_code(req, now).app_id == req.app_id,
        fresh_reg_code(req, now).bind_device_info == req.bind_device_info,
        fresh_reg_code(req, now).valid_days == req.valid_days,
        fresh_reg_code(req, now).max_devices == req.max_devices,
        fresh_reg_code(req, now).status == req.status,
        fresh_reg_code(req, now).code_type == req.code_type,
        fresh_reg_code(req, now).expire_time == req.expire_time,
        fresh_reg_code(req, now).total_count == req.total_count,
        fresh_reg_code(req, now).use_count == 0,
        fresh_reg_code(req, now).device_id is None,
        fresh_reg_code(req, now).binding_time is None,
        fresh_reg_code(req, now).created_at == now,
        fresh_reg_code(req, now).updated_at == now,
{
}

/// Applying the same change to a code twice (at the same time) is applying
/// it once; a change keeps the creation time.
pub proof fn law_reg_code_update_idempotent(c: RegCodeRecord, req: UpdateRegCodeReq, now: Instant)
    ensures
        updated_reg_code(updated_reg_code(c, req, now), req, now) == updated_reg_code(c, req, now),
        updated_reg_code(c, req, now).created_at == c.created_at,
{
}

} // verus!
