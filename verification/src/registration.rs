//! Registration codes: the rules by which a code is accepted for a device,
//! and the steps of a validation request.
use crate::errors::{is_message, is_not_found, AppError};
use crate::text::{copy_opt_text, opt_view};
use vstd::prelude::*;

verus! {

/// Seconds since the Unix epoch of the earliest representable UTC instant
/// (in year -262143).
pub const MIN_UTC_SECS: i64 = -8334601228800;

/// Seconds since the Unix epoch of the latest representable UTC instant
/// (December 31 of year 262142, 23:59:59).
pub const MAX_UTC_SECS: i64 = 8210266876799;

/// Seconds in one day.
pub const SECS_PER_DAY: i64 = 86400;

/// Code type of a code that is valid until an expiry time.
pub const CODE_TYPE_TIME: i16 = 0;

/// Code type of a code that is valid for a number of uses.
pub const CODE_TYPE_COUNT: i16 = 1;

/// Status of a code that has been used.
pub const STATUS_IN_USE: i16 = 1;

/// A UTC instant: whole seconds since the Unix epoch and the nanoseconds
/// within that second.
#[derive(Clone, Copy, Debug, PartialEq, Eq, Structural)]
pub struct Instant {
    pub secs: i64,
    pub nanos: u32,
}

/// `a` is strictly earlier than `b`.
pub open spec fn instant_lt(a: Instant, b: Instant) -> bool {
    a.secs < b.secs || (a.secs == b.secs && a.nanos < b.nanos)
}

impl Instant {
    /// Whether `self` is strictly later than `other`.
    pub fn is_after(&self, other: &Instant) -> (r: bool)
        ensures
            r == instant_lt(*other, *self),
    {
        self.secs > other.secs || (self.secs == other.secs && self.nanos > other.nanos)
    }
}

/// `t` is inside a leap second (its nanoseconds count past one second).
pub open spec fn in_leap_second(t: Instant) -> bool {
    t.nanos >= 1_000_000_000
}

/// The seconds of `t` moved by `days` whole days. Moving a leap second
/// leaves it: forward, to the same second of the later day; backward, to the
/// second after it.
pub open spec fn add_days_secs(t: Instant, days: int) -> int {
    if in_leap_second(t) && days < 0 {
        t.secs + 1 + days * SECS_PER_DAY
    } else {
        t.secs + days * SECS_PER_DAY
    }
}

/// `t` moved by `days` whole days (see `add_days_secs`); a leap second that
/// is moved by a non-zero number of days loses its extra second.
pub open spec fn add_days(t: Instant, days: int) -> Instant {
    Instant {
        secs: add_days_secs(t, days) as i64,
        nanos: if in_leap_second(t) && days != 0 {
            (t.nanos - 1_000_000_000) as u32
        } else {
            t.nanos
        },
    }
}

/// The system clock's time type, carried opaquely.
#[verifier::external_type_specification]
#[verifier::external_body]
pub struct ExSystemTime(std::time::SystemTime);

/// `SystemTime::now`: the system clock's reading, which is not stated.
#[verifier::external_body]
fn system_now() -> (t: std::time::SystemTime) {
    std::time::SystemTime::now()
}

/// `SystemTime::duration_since(UNIX_EPOCH)`, as whole seconds and the
/// nanoseconds within the last second, or `None` (the error) when `t` is
/// earlier than the epoch. Claimed: the nanoseconds are below one second, as
/// `Duration::subsec_nanos` documents; which reading comes back is not stated.
#[verifier::external_body]
fn since_unix_epoch(t: std::time::SystemTime) -> (r: Option<(u64, u32)>)
    ensures
        r matches Some((_, n)) ==> n < 1_000_000_000,
{
    match t.duration_since(std::time::UNIX_EPOCH) {
        Ok(d) => Some((d.as_secs(), d.subsec_nanos())),
        Err(_) => None,
    }
}

/// The instant of a clock reading `reading` (seconds and nanoseconds since
/// the Unix epoch, `None` for a clock before the epoch): `None` when there
/// is no reading or it lies past the latest representable instant.
pub fn instant_of_reading(reading: Option<(u64, u32)>) -> (r: Option<Instant>)
    ensures
        match reading {
            Some((secs, nanos)) => if secs <= MAX_UTC_SECS {
                r == Some(Instant { secs: secs as i64, nanos })
            } else {
                r is None
            },
            None => r is None,
        },
{
    match reading {
        Some((secs, nanos)) => if secs <= MAX_UTC_SECS as u64 {
            Some(Instant { secs: secs as i64, nanos })
        } else {
            None
        },
        None => None,
    }
}

/// The current UTC time (see `instant_of_reading`).
pub(crate) fn current_instant() -> (r: Option<Instant>)
    ensures
        r matches Some(t) ==> t.nanos < 1_000_000_000 && 0 <= t.secs <= MAX_UTC_SECS,
{
    instant_of_reading(since_unix_epoch(system_now()))
}

/// A registration code as the validation rules read it.
#[derive(Debug)]
pub struct RegCode {
    /// `CODE_TYPE_TIME` or `CODE_TYPE_COUNT`; other values are invalid.
    pub code_type: i16,
    pub status: i16,
    /// Days of validity from creation, when no explicit expiry is set.
    pub valid_days: i32,
    pub created_at: Instant,
    /// Explicit expiry; overrides `created_at + valid_days`.
    pub expire_time: Option<Instant>,
    /// Number of uses allowed (absent means none).
    pub total_count: Option<i32>,
    pub use_count: i32,
    /// The device the code is bound to, once bound.
    pub device_id: Option<String>,
}

/// The value of a `RegCode`, with texts as character sequences.
pub struct RegCodeView {
    pub code_type: i16,
    pub status: i16,
    pub valid_days: i32,
    pub created_at: Instant,
    pub expire_time: Option<Instant>,
    pub total_count: Option<i32>,
    pub use_count: i32,
    pub device_id: Option<Seq<char>>,
}

impl View for RegCode {
    type V = RegCodeView;

    open spec fn view(&self) -> RegCodeView {
        RegCodeView {
            code_type: self.code_type,
            status: self.status,
            valid_days: self.valid_days,
            created_at: self.created_at,
            expire_time: self.expire_time,
            total_count: self.total_count,
            use_count: self.use_count,
            device_id: opt_view(self.device_id),
        }
    }
}

/// A device's request to validate a code of an app.
#[derive(Debug)]
pub struct RegCodeValidateReq {
    /// The app's validation key.
    pub app_key: String,
    pub code: String,
    pub device_id: String,
}

/// The answer to an accepted validation.
#[derive(Clone, Copy, Debug, PartialEq, Eq, Structural)]
pub struct RegCodeValidateResp {
    pub code_type: i16,
    /// For time codes: when the code expires.
    pub expire_time: Option<Instant>,
    /// For count codes: the uses left after this one.
    pub remaining_count: Option<i32>,
}

/// The expiry of a time code: its explicit expiry, else creation plus its
/// days of validity.
pub open spec fn expiry(rc: RegCodeView) -> Instant {
    match rc.expire_time {
        Some(e) => e,
        None => add_days(rc.created_at, rc.valid_days as int),
    }
}

/// The number of uses a count code allows.
pub open spec fn count_limit(rc: RegCodeView) -> int {
    match rc.total_count {
        Some(t) => t as int,
        None => 0,
    }
}

/// The inputs on which validation is defined: a computed expiry (a leap
/// second included) must be a representable instant, and the difference
/// between allowed and spent uses must fit in an `i32`.
pub open spec fn validation_defined(rc: RegCodeView) -> bool {
    &&& (rc.code_type == CODE_TYPE_TIME && rc.expire_time is None) ==> MIN_UTC_SECS
        <= add_days_secs(rc.created_at, rc.valid_days as int) <= MAX_UTC_SECS
    &&& (rc.code_type == CODE_TYPE_COUNT && rc.use_count < count_limit(rc)) ==> count_limit(rc)
        - rc.use_count <= i32::MAX
}

/// Why a validation is refused.
#[derive(Clone, Copy, Debug, PartialEq, Eq, Structural)]
pub enum Rejection {
    Expired,
    UsedUp,
    InvalidType,
}

/// The refusal, if any, of validating `rc` at time `now`.
pub open spec fn rejection(rc: RegCodeView, now: Instant) -> Option<Rejection> {
    if rc.code_type == CODE_TYPE_TIME {
        if instant_lt(expiry(rc), now) {
            Some(Rejection::Expired)
        } else {
            None
        }
    } else if rc.code_type == CODE_TYPE_COUNT {
        if rc.use_count >= count_limit(rc) {
            Some(Rejection::UsedUp)
        } else {
            None
        }
    } else {
        Some(Rejection::InvalidType)
    }
}

/// The message of a refusal.
pub open spec fn rejection_message(j: Rejection) -> Seq<char> {
    match j {
        Rejection::Expired => "code expired"@,
        Rejection::UsedUp => "code used up"@,
        Rejection::InvalidType => "invalid code type"@,
    }
}

/// The answer to an accepted validation of `rc`.
pub open spec fn accepted_response(rc: RegCodeView) -> RegCodeValidateResp {
    if rc.code_type == CODE_TYPE_TIME {
        RegCodeValidateResp { code_type: CODE_TYPE_TIME, expire_time: Some(expiry(rc)), remaining_count: None }
    } else {
        RegCodeValidateResp {
            code_type: CODE_TYPE_COUNT,
            expire_time: None,
            remaining_count: Some((count_limit(rc) - rc.use_count - 1) as i32),
        }
    }
}

/// The record to store after an accepted validation of `rc` from `device`,
/// or `None` when nothing changes. A time code is bound (and marked in use)
/// on its first validation only; a count code spends one use, is marked in
/// use, and is bound if it was not.
pub open spec fn record_after(rc: RegCodeView, device: Seq<char>) -> Option<RegCodeView> {
    if rc.code_type == CODE_TYPE_TIME {
        if rc.device_id is None {
            Some(RegCodeView { device_id: Some(device), status: STATUS_IN_USE, ..rc })
        } else {
            None
        }
    } else {
        Some(
            RegCodeView {
                use_count: (rc.use_count + 1) as i32,
                device_id: if rc.device_id is None {
                    Some(device)
                } else {
                    rc.device_id
                },
                status: STATUS_IN_USE,
                ..rc
            },
        )
    }
}

/// Decides `validation_defined`.
pub fn check_validation_defined(rc: &RegCode) -> (r: bool)
    ensures
        r == validation_defined(rc@),
{
    let time_ok = if rc.code_type == CODE_TYPE_TIME && rc.expire_time.is_none() {
        let step: i128 = if rc.created_at.nanos >= 1_000_000_000 && rc.valid_days < 0 {
            1
        } else {
            0
        };
        let days: i128 = rc.valid_days as i128;
        assert(-0x1_0000_0000_0000 <= days * 86400 <= 0x1_0000_0000_0000) by (nonlinear_arith)
            requires
                -0x8000_0000 <= days < 0x8000_0000,
        ;
        let span: i128 = days * 86400;
        let sum: i128 = rc.created_at.secs as i128 + step + span;
        MIN_UTC_SECS as i128 <= sum && sum <= MAX_UTC_SECS as i128
    } else {
        true
    };
    let limit: i64 = match rc.total_count {
        Some(t) => t as i64,
        None => 0,
    };
    let count_ok = if rc.code_type == CODE_TYPE_COUNT && (rc.use_count as i64) < limit {
        limit - rc.use_count as i64 <= i32::MAX as i64
    } else {
        true
    };
    time_ok && count_ok
}

/// The expiry of a time code (see `expiry`).
pub fn code_expiry(rc: &RegCode) -> (e: Instant)
    requires
        rc.code_type == CODE_TYPE_TIME,
        validation_defined(rc@),
    ensures
        e == expiry(rc@),
{
    match rc.expire_time {
        Some(e) => e,
        None => {
            let t = rc.created_at;
            let moved: i64 = t.secs + (rc.valid_days as i64) * SECS_PER_DAY;
            if t.nanos >= 1_000_000_000 && rc.valid_days != 0 {
                let secs: i64 = if rc.valid_days < 0 {
                    moved + 1
                } else {
                    moved
                };
                Instant { secs, nanos: t.nanos - 1_000_000_000 }
            } else {
                Instant { secs: moved, nanos: t.nanos }
            }
        },
    }
}

/// Applies the validation rules to `rc` for `device` at time `now`: a
/// refusal, or the answer together with the record to store (if any).
pub fn check_reg_code(rc: &RegCode, device: &String, now: Instant) -> (r: Result<
    (RegCodeValidateResp, Option<RegCode>),
    AppError,
>)
    requires
        validation_defined(rc@),
    ensures
        match rejection(rc@, now) {
            Some(j) => r matches Err(e) && is_message(e, rejection_message(j)),
            None => r matches Ok((resp, upd)) && resp == accepted_response(rc@) && match upd {
                Some(u) => record_after(rc@, device@) == Some(u@),
                None => record_after(rc@, device@) is None,
            },
        },
{
    if rc.code_type == CODE_TYPE_TIME {
        let exp = code_expiry(rc);
        if now.is_after(&exp) {
            return Err(AppError::message("code expired"));
        }
        let resp = RegCodeValidateResp {
            code_type: CODE_TYPE_TIME,
            expire_time: Some(exp),
            remaining_count: None,
        };
        if rc.device_id.is_none() {
            let upd = RegCode {
                code_type: rc.code_type,
                status: STATUS_IN_USE,
                valid_days: rc.valid_days,
                created_at: rc.created_at,
                expire_time: rc.expire_time,
                total_count: rc.total_count,
                use_count: rc.use_count,
                device_id: Some(device.clone()),
            };
            Ok((resp, Some(upd)))
        } else {
            Ok((resp, None))
        }
    } else if rc.code_type == CODE_TYPE_COUNT {
        let total: i32 = match rc.total_count {
            Some(t) => t,
            None => 0,
        };
        let used = rc.use_count;
        if used >= total {
            return Err(AppError::message("code used up"));
        }
        let device_id = if rc.device_id.is_none() {
            Some(device.clone())
        } else {
            copy_opt_text(&rc.device_id)
        };
        let upd = RegCode {
            code_type: rc.code_type,
            status: STATUS_IN_USE,
            valid_days: rc.valid_days,
            created_at: rc.created_at,
            expire_time: rc.expire_time,
            total_count: rc.total_count,
            use_count: used + 1,
            device_id,
        };
        let resp = RegCodeValidateResp {
            code_type: CODE_TYPE_COUNT,
            expire_time: None,
            remaining_count: Some(total - used - 1),
        };
        Ok((resp, Some(upd)))
    } else {
        Err(AppError::message("invalid code type"))
    }
}

/// What a validation request needs next. A request runs through
/// `begin_validation`, `after_app_lookup`, `after_code_lookup` and, when a
/// record is to be stored, `after_store`; the caller performs each lookup
/// or store and hands back its result.
#[derive(Debug)]
pub enum ValidationStep {
    /// Find the id of the app whose validation key is `app_key`.
    FindApp { app_key: String },
    /// Find the code `code` of the app `app_id`.
    FindCode { code: String, app_id: i32 },
    /// Store `record`, the code after this validation; then answer `response`.
    Store { record: RegCode, response: RegCodeValidateResp },
    /// Answer the request.
    Reply(Result<RegCodeValidateResp, AppError>),
}

/// The first step of validating `req`: find its app.
pub fn begin_validation(req: &RegCodeValidateReq) -> (s: ValidationStep)
    ensures
        s matches ValidationStep::FindApp { app_key } && app_key@ == req.app_key@,
{
    ValidationStep::FindApp { app_key: req.app_key.clone() }
}

/// The step after the app lookup: an unknown app is refused, a known one
/// has its code looked up.
pub fn after_app_lookup(req: &RegCodeValidateReq, app_id: Option<i32>) -> (s: ValidationStep)
    ensures
        match app_id {
            None => s matches ValidationStep::Reply(Err(e)) && is_not_found(e, "apps"@, None),
            Some(id) => s matches ValidationStep::FindCode { code, app_id: a } && code@ == req.code@
                && a == id,
        },
{
    match app_id {
        None => ValidationStep::Reply(Err(AppError::not_found("apps", None))),
        Some(id) => ValidationStep::FindCode { code: req.code.clone(), app_id: id },
    }
}

/// `s` is the step after looking up the code, found as `found`, of a request
/// from device `device` decided at time `now`.
pub open spec fn step_after_code(
    device: Seq<char>,
    found: Option<RegCodeView>,
    now: Instant,
    s: ValidationStep,
) -> bool {
    match found {
        None => s matches ValidationStep::Reply(Err(e)) && is_not_found(e, "reg_code"@, None),
        Some(rc) => match rejection(rc, now) {
            Some(j) => s matches ValidationStep::Reply(Err(e)) && is_message(
                e,
                rejection_message(j),
            ),
            None => match record_after(rc, device) {
                Some(u) => s matches ValidationStep::Store { record, response } && record@ == u
                    && response == accepted_response(rc),
                None => s matches ValidationStep::Reply(Ok(resp)) && resp == accepted_response(rc),
            },
        },
    }
}

/// The view of an optional registration code.
pub open spec fn opt_code_view(o: Option<RegCode>) -> Option<RegCodeView> {
    match o {
        Some(rc) => Some(rc@),
        None => None,
    }
}

/// The step after the code lookup, decided at time `now`.
pub fn after_code_lookup_at(req: &RegCodeValidateReq, found: Option<RegCode>, now: Instant) -> (s:
    ValidationStep)
    requires
        found matches Some(rc) ==> validation_defined(rc@),
    ensures
        step_after_code(req.device_id@, opt_code_view(found), now, s),
{
    match found {
        None => ValidationStep::Reply(Err(AppError::not_found("reg_code", None))),
        Some(rc) => match check_reg_code(&rc, &req.device_id, now) {
            Err(e) => ValidationStep::Reply(Err(e)),
            Ok((response, Some(record))) => ValidationStep::Store { record, response },
            Ok((response, None)) => ValidationStep::Reply(Ok(response)),
        },
    }
}

/// The step after the code lookup, decided at the current time, which is
/// returned with it; when the clock cannot be read, the request is answered
/// with `AppError::Clock` and no time is returned.
pub fn after_code_lookup(req: &RegCodeValidateReq, found: Option<RegCode>) -> (r: (
    ValidationStep,
    Option<Instant>,
))
    requires
        found matches Some(rc) ==> validation_defined(rc@),
    ensures
        match r.1 {
            Some(now) => step_after_code(req.device_id@, opt_code_view(found), now, r.0)
                && now.nanos < 1_000_000_000 && 0 <= now.secs,
            None => r.0 matches ValidationStep::Reply(Err(e)) && e is Clock,
        },
{
    match current_instant() {
        Some(now) => (after_code_lookup_at(req, found, now), Some(now)),
        None => (ValidationStep::Reply(Err(AppError::Clock)), None),
    }
}

/// The step after storing the updated code: its answer, or the store's error.
pub fn after_store(response: RegCodeValidateResp, stored: Result<(), AppError>) -> (s:
    ValidationStep)
    ensures
        match stored {
            Ok(()) => s matches ValidationStep::Reply(Ok(r)) && r == response,
            Err(e) => s matches ValidationStep::Reply(Err(e2)) && e2 == e,
        },
{
    match stored {
        Ok(()) => ValidationStep::Reply(Ok(response)),
        Err(e) => ValidationStep::Reply(Err(e)),
    }
}

/// A time code is decided against its expiry instant: the stored expiry
/// when there is one, else creation plus the days of validity. It is
/// refused (as expired) exactly when that instant is before `now`, and an
/// accepted validation answers with that same instant and no count.
pub proof fn law_time_answer_names_expiry(rc: RegCodeView, now: Instant)
    requires
        rc.code_type == CODE_TYPE_TIME,
    ensures
        ({
            let e = match rc.expire_time {
                Some(x) => x,
                None => add_days(rc.created_at, rc.valid_days as int),
            };
            &&& rejection(rc, now) is None <==> !instant_lt(e, now)
            &&& rejection(rc, now) is Some ==> rejection(rc, now) == Some(Rejection::Expired)
            &&& accepted_response(rc).code_type == CODE_TYPE_TIME
            &&& accepted_response(rc).expire_time == Some(e)
            &&& accepted_response(rc).remaining_count is None
        }),
{
}

/// An accepted count code answers with no expiry and the uses left after
/// this one: allowed minus spent minus one.
pub proof fn law_count_answer_names_uses_left(rc: RegCodeView, now: Instant)
    requires
        rc.code_type == CODE_TYPE_COUNT,
        rejection(rc, now) is None,
    ensures
        accepted_response(rc).code_type == CODE_TYPE_COUNT,
        accepted_response(rc).expire_time is None,
        accepted_response(rc).remaining_count == Some(
            ((match rc.total_count {
                Some(t) => t as int,
                None => 0,
            }) - rc.use_count - 1) as i32,
        ),
        rc.use_count < match rc.total_count {
            Some(t) => t as int,
            None => 0,
        },
{
}

/// After the code lookup: an unknown code is not found; a refused code is
/// answered with the refusal's message and nothing is stored; an accepted
/// count code, and an accepted time code not yet bound, are stored as
/// changed before the answer; an accepted bound time code is answered
/// directly. Every accepted answer is the code's answer.
pub proof fn law_step_after_lookup(device: Seq<char>, found: Option<RegCodeView>, now: Instant, s: ValidationStep)
    requires
        step_after_code(device, found, now, s),
    ensures
        found is None ==> (s matches ValidationStep::Reply(Err(e)) && is_not_found(e, "reg_code"@, None)),
        found matches Some(rc) ==> match rejection(rc, now) {
            Some(j) => s matches ValidationStep::Reply(Err(e)) && is_message(e, rejection_message(j)),
            None => if rc.code_type == CODE_TYPE_COUNT || rc.device_id is None {
                s matches ValidationStep::Store { record, response } && record_after(rc, device) == Some(record@)
                    && response == accepted_response(rc) && record@.status == STATUS_IN_USE
            } else {
                s matches ValidationStep::Reply(Ok(resp)) && resp == accepted_response(rc)
            },
        },
{
}

/// Once a code is bound to a device, no accepted validation rebinds it:
/// whatever device asks, the stored record (if any) keeps the bound device.
pub proof fn law_binding_is_permanent(rc: RegCodeView, device: Seq<char>, now: Instant)
    requires
        rc.device_id is Some,
        rejection(rc, now) is None,
    ensures
        match record_after(rc, device) {
            Some(u) => u.device_id == rc.device_id,
            None => true,
        },
{
}

/// A first accepted validation binds an unbound code to the asking device.
pub proof fn law_first_validation_binds(rc: RegCodeView, device: Seq<char>, now: Instant)
    requires
        rc.device_id is None,
        rejection(rc, now) is None,
    ensures
        record_after(rc, device) matches Some(u) && u.device_id == Some(device) && u.status
            == STATUS_IN_USE,
{
}

/// An accepted validation of a count code spends exactly one use, and the
/// answer reports the uses that are left: allowed minus spent.
pub proof fn law_count_spends_one_use(rc: RegCodeView, device: Seq<char>, now: Instant)
    requires
        rc.code_type == CODE_TYPE_COUNT,
        validation_defined(rc),
        rejection(rc, now) is None,
    ensures
        record_after(rc, device) matches Some(u) && u.use_count == rc.use_count + 1 && count_limit(
            u,
        ) == count_limit(rc) && accepted_response(rc).remaining_count == Some(
            (count_limit(u) - u.use_count) as i32,
        ) && count_limit(u) - u.use_count >= 0,
{
}

/// Validation never lets spent uses pass the allowed uses, nor lowers them:
/// an accepted validation raises `use_count` by one, to at most
/// `count_limit`, and keeps the limit.
pub proof fn law_count_within_limit(rc: RegCodeView, device: Seq<char>, now: Instant)
    requires
        rc.code_type == CODE_TYPE_COUNT,
        rejection(rc, now) is None,
    ensures
        record_after(rc, device) matches Some(u) && rc.use_count < u.use_count <= count_limit(u)
            && count_limit(u) == count_limit(rc),
{
}

/// A count code refused as used up stays so: nothing is stored, and it is
/// refused again at any time.
pub proof fn law_used_up_is_final(rc: RegCodeView, now: Instant, later: Instant)
    requires
        rc.code_type == CODE_TYPE_COUNT,
        rejection(rc, now) == Some(Rejection::UsedUp),
    ensures
        rejection(rc, later) == Some(Rejection::UsedUp),
{
}

/// The code after `k` accepted validations from `device`.
pub open spec fn after_uses(rc: RegCodeView, device: Seq<char>, k: nat) -> RegCodeView
    decreases k,
{
    if k == 0 {
        rc
    } else {
        match record_after(after_uses(rc, device, (k - 1) as nat), device) {
            Some(u) => u,
            None => after_uses(rc, device, (k - 1) as nat),
        }
    }
}

/// A count code with `u` of `n` uses spent (`u` may be negative) is
/// accepted exactly `n - u` more times, at any time and from any device,
/// each answer reporting the uses left, and then refused as used up.
pub proof fn law_count_exhaustion(rc: RegCodeView, device: Seq<char>, now: Instant, k: nat)
    requires
        rc.code_type == CODE_TYPE_COUNT,
        validation_defined(rc),
        rc.use_count <= count_limit(rc),
        k <= count_limit(rc) - rc.use_count,
    ensures
        after_uses(rc, device, k).use_count == rc.use_count + k,
        after_uses(rc, device, k).code_type == CODE_TYPE_COUNT,
        count_limit(after_uses(rc, device, k)) == count_limit(rc),
        validation_defined(after_uses(rc, device, k)),
        k < count_limit(rc) - rc.use_count ==> rejection(after_uses(rc, device, k), now) is None
            && accepted_response(after_uses(rc, device, k)).remaining_count == Some(
            (count_limit(rc) - rc.use_count - k - 1) as i32,
        ),
        k == count_limit(rc) - rc.use_count ==> rejection(after_uses(rc, device, k), now) == Some(
            Rejection::UsedUp,
        ),
    decreases k,
{
    if k > 0 {
        law_count_exhaustion(rc, device, now, (k - 1) as nat);
    }
}

/// The code after `k` validation requests from `device` at time `now`,
/// accepted or refused: an accepted request stores `record_after` (if
/// anything), a refused one stores nothing.
pub open spec fn after_calls(rc: RegCodeView, device: Seq<char>, now: Instant, k: nat) -> RegCodeView
    decreases k,
{
    if k == 0 {
        rc
    } else {
        let p = after_calls(rc, device, now, (k - 1) as nat);
        if rejection(p, now) is None {
            match record_after(p, device) {
                Some(u) => u,
                None => p,
            }
        } else {
            p
        }
    }
}

/// The uses spent by a count code with `u` of `n` spent, after `k` more
/// requests: one more per request until `n` is reached, none once `u >= n`.
pub open spec fn spent_after(u: int, n: int, k: int) -> int {
    if u >= n {
        u
    } else if u + k <= n {
        u + k
    } else {
        n
    }
}

proof fn lemma_after_calls(rc: RegCodeView, device: Seq<char>, now: Instant, k: nat)
    requires
        rc.code_type == CODE_TYPE_COUNT,
        validation_defined(rc),
    ensures
        after_calls(rc, device, now, k).code_type == CODE_TYPE_COUNT,
        after_calls(rc, device, now, k).total_count == rc.total_count,
        after_calls(rc, device, now, k).use_count == spent_after(
            rc.use_count as int,
            count_limit(rc),
            k as int,
        ),
    decreases k,
{
    if k > 0 {
        lemma_after_calls(rc, device, now, (k - 1) as nat);
    }
}

/// Successive validation requests for a count code with `u` of `n` uses
/// spent: the `i`-th request is accepted exactly when `u + i <= n`,
/// answering `n - u - i` uses left; spent uses never go down and never pass
/// the larger of `u` and `n`; a refused request stores nothing, and once a
/// request is refused as used up so is every later one. Count codes do not
/// depend on the time.
pub proof fn law_count_sequence(rc: RegCodeView, device: Seq<char>, now: Instant, i: nat)
    requires
        rc.code_type == CODE_TYPE_COUNT,
        validation_defined(rc),
        i >= 1,
    ensures
        rejection(after_calls(rc, device, now, (i - 1) as nat), now) is None <==> rc.use_count + i
            <= count_limit(rc),
        rc.use_count + i <= count_limit(rc) ==> accepted_response(
            after_calls(rc, device, now, (i - 1) as nat),
        ).remaining_count == Some((count_limit(rc) - rc.use_count - i) as i32),
        rc.use_count + i > count_limit(rc) ==> rejection(
            after_calls(rc, device, now, (i - 1) as nat),
            now,
        ) == Some(Rejection::UsedUp) && after_calls(rc, device, now, i) == after_calls(
            rc,
            device,
            now,
            (i - 1) as nat,
        ) && rejection(after_calls(rc, device, now, i), now) == Some(Rejection::UsedUp),
        after_calls(rc, device, now, (i - 1) as nat).use_count <= after_calls(
            rc,
            device,
            now,
            i,
        ).use_count,
        after_calls(rc, device, now, i).use_count <= if rc.use_count >= count_limit(rc) {
            rc.use_count as int
        } else {
            count_limit(rc)
        },
        forall|t: Instant| #[trigger]
            rejection(after_calls(rc, device, now, i), t) == rejection(
                after_calls(rc, device, now, i),
                now,
            ),
{
    lemma_after_calls(rc, device, now, (i - 1) as nat);
    lemma_after_calls(rc, device, now, i);
}

/// Expiry only moves forward in time: a time code refused at `t1` is refused
/// at every later `t2`, and one accepted at `t2` was accepted at every
/// earlier `t1`.
pub proof fn law_expiry_is_final(rc: RegCodeView, t1: Instant, t2: Instant)
    requires
        rc.code_type == CODE_TYPE_TIME,
        !instant_lt(t2, t1),
    ensures
        rejection(rc, t1) is Some ==> rejection(rc, t2) is Some,
        rejection(rc, t2) is None ==> rejection(rc, t1) is None,
{
}

/// Validating a time code does not move its expiry, and once bound it is
/// accepted again (without any further change) until that expiry.
pub proof fn law_time_code_stable(rc: RegCodeView, device: Seq<char>, other: Seq<char>, now: Instant)
    requires
        rc.code_type == CODE_TYPE_TIME,
        rejection(rc, now) is None,
    ensures
        match record_after(rc, device) {
            Some(u) => expiry(u) == expiry(rc) && rejection(u, now) is None && record_after(
                u,
                other,
            ) is None && accepted_response(u) == accepted_response(rc),
            None => true,
        },
{
}

} // verus!
