//! Accounts: password hashing, login, registration, password changes, the
//! validation of user payloads, and the bearer token of a request.
use crate::errors::{is_auth_failed, is_not_found, AppError};
use crate::registration::{current_instant, Instant};
use crate::text::{blank, chars_of, digit_char, has_prefix, is_blank, prefix_at, string_of};
use vstd::prelude::*;

verus! {

/// The bcrypt cost with which passwords are hashed.
pub const HASH_COST: u32 = 10;

/// Whether `password` matches the bcrypt hash `hash`, or `None` when `hash`
/// is not a readable bcrypt hash. It depends on the two texts alone.
pub uninterp spec fn bcrypt_verdict(password: Seq<char>, hash: Seq<char>) -> Option<bool>;

/// `bcrypt::verify`: whether `password` matches `hash`; an error (with its
/// text) when `hash` cannot be read.
#[verifier::external_body]
fn bcrypt_verify(password: &str, hash: &str) -> (r: Result<bool, String>)
    ensures
        match bcrypt_verdict(password@, hash@) {
            Some(b) => r matches Ok(c) && c == b,
            None => r is Err,
        },
{
    bcrypt::verify(password, hash).map_err(|e| e.to_string())
}

/// The first seven characters of a bcrypt hash at `cost` (4 to 31): the
/// version `$2b$`, the cost in two digits, and `$`.
pub open spec fn bcrypt_prefix(cost: u32) -> Seq<char> {
    seq!['$', '2', 'b', '$', digit_char((cost / 10) as nat), digit_char((cost % 10) as nat), '$']
}

/// `bcrypt::hash`: a hash of `password` at `cost` with a fresh random salt,
/// or an error (with its text). Claimed: a cost outside 4 to 31 is an
/// error; a hash it returns verifies `password` and begins with
/// `bcrypt_prefix(cost)`. The salt and digest that follow depend on the
/// random salt and are not stated; nor is when the random source fails.
#[verifier::external_body]
fn bcrypt_hash(password: &str, cost: u32) -> (r: Result<String, String>)
    ensures
        !(4 <= cost <= 31) ==> r is Err,
        r matches Ok(h) ==> bcrypt_verdict(password@, h@) == Some(true) && h@.len() >= 7
            && h@.take(7) == bcrypt_prefix(cost),
{
    bcrypt::hash(password, cost).map_err(|e| e.to_string())
}

/// `h` is a bcrypt hash at `HASH_COST` that verifies `password`.
pub open spec fn is_password_hash(password: Seq<char>, h: Seq<char>) -> bool {
    &&& bcrypt_verdict(password, h) == Some(true)
    &&& h.len() >= 7
    &&& h.take(7) == bcrypt_prefix(HASH_COST)
}

/// A hash of `password` at `HASH_COST`, or `AppError::Hash` when hashing fails.
pub fn hash_password(password: &str) -> (r: Result<String, AppError>)
    ensures
        r matches Ok(h) ==> is_password_hash(password@, h@),
        r matches Err(e) ==> e is Hash,
{
    match bcrypt_hash(password, HASH_COST) {
        Ok(h) => Ok(h),
        Err(m) => Err(AppError::Hash(m)),
    }
}

/// Credentials submitted to log in or register.
#[derive(Debug)]
pub struct AuthPayload {
    pub username: String,
    pub password: String,
}

/// A stored user, as login reads it.
#[derive(Debug)]
pub struct StoredUser {
    pub id: i32,
    pub username: String,
    /// The bcrypt hash of the user's password.
    pub password_hash: String,
}

/// Decides a login with `payload` for the user found by name (with the name
/// of the user's role, if it has one). Unknown users are not found; a stored
/// hash that cannot be read fails authentication. A readable hash lets the
/// login through whether or not the password matches it. The result is the
/// user's id and the role to put in the token: the user's role, else
/// `default_role`.
pub fn login_check(
    payload: &AuthPayload,
    found: Option<(StoredUser, Option<String>)>,
    default_role: &str,
) -> (r: Result<(i32, String), AppError>)
    ensures
        match found {
            None => r matches Err(e) && is_not_found(e, "user"@, None),
            Some((u, role)) => match bcrypt_verdict(payload.password@, u.password_hash@) {
                None => r matches Err(e) && is_auth_failed(e, "User or password error"@),
                Some(_) => r matches Ok((id, name)) && id == u.id && name@ == match role {
                    Some(n) => n@,
                    None => default_role@,
                },
            },
        },
{
    match found {
        None => Err(AppError::not_found("user", None)),
        Some((user, role)) => {
            match bcrypt_verify(payload.password.as_str(), user.password_hash.as_str()) {
                Err(_) => Err(AppError::auth_failed("User or password error")),
                Ok(_) => {
                    let role_name = match role {
                        Some(n) => n,
                        None => default_role.to_owned(),
                    };
                    Ok((user.id, role_name))
                },
            }
        },
    }
}

/// Decides a registration: a taken name is refused, and the role for new
/// users must exist. The result is that role's id and name.
pub fn register_check(name_taken: bool, user_role: Option<(i32, String)>) -> (r: Result<
    (i32, String),
    AppError,
>)
    ensures
        name_taken ==> (r matches Err(e) && e is UserAlreadyExists),
        !name_taken ==> match user_role {
            None => r matches Err(e) && is_not_found(e, "role"@, None),
            Some((id, name)) => r matches Ok((i, n)) && i == id && n == name,
        },
{
    if name_taken {
        return Err(AppError::user_already_exists());
    }
    match user_role {
        None => Err(AppError::not_found("role", None)),
        Some((id, name)) => Ok((id, name)),
    }
}

/// Decides a password change of the calling user (`None` when it no longer
/// exists). A stored hash that cannot be read fails authentication; a
/// readable one lets the change through whether or not `old_password`
/// matches it. The result is the hash of `new_password` to store.
pub fn change_password_check(user: Option<StoredUser>, old_password: &str, new_password: &str) -> (r:
    Result<String, AppError>)
    ensures
        match user {
            None => r matches Err(e) && is_auth_failed(e, "User not found"@),
            Some(u) => match bcrypt_verdict(old_password@, u.password_hash@) {
                None => r matches Err(e) && is_auth_failed(e, "Old password incorrect"@),
                Some(_) => match r {
                    Ok(h) => is_password_hash(new_password@, h@),
                    Err(e) => e is Hash,
                },
            },
        },
{
    let user = match user {
        None => {
            return Err(AppError::auth_failed("User not found"));
        },
        Some(u) => u,
    };
    match bcrypt_verify(old_password, user.password_hash.as_str()) {
        Err(_) => Err(AppError::auth_failed("Old password incorrect")),
        Ok(_) => hash_password(new_password),
    }
}

/// A request to create a user.
#[derive(Debug)]
pub struct UserCreatePayload {
    pub username: String,
    pub password: String,
    /// The role; the default role when absent.
    pub role_id: Option<i32>,
}

/// A user ready to be stored.
#[derive(Debug)]
pub struct NewUser {
    pub username: String,
    pub password_hash: String,
    pub role_id: i32,
    pub created_at: Instant,
}

/// The user to store for `req`: its password hashed, its role defaulted to
/// `default_role_id`, created now. The password is hashed first; a failure
/// of the hashing, then of the clock, is the error.
pub fn prepare_new_user(req: UserCreatePayload, default_role_id: i32) -> (r: Result<NewUser, AppError>)
    ensures
        match r {
            Ok(u) => u.username == req.username && is_password_hash(req.password@, u.password_hash@)
                && u.role_id == match req.role_id {
                Some(id) => id,
                None => default_role_id,
            } && u.created_at.nanos < 1_000_000_000 && 0 <= u.created_at.secs,
            Err(e) => e is Hash || e is Clock,
        },
{
    let password_hash = hash_password(req.password.as_str())?;
    let role_id = match req.role_id {
        Some(id) => id,
        None => default_role_id,
    };
    let created_at = match current_instant() {
        Some(t) => t,
        None => {
            return Err(AppError::Clock);
        },
    };
    Ok(NewUser { username: req.username, password_hash, role_id, created_at })
}

/// The text of the version-4 UUID built from the random bytes `bytes`; it
/// depends on the bytes alone.
pub uninterp spec fn uuid_v4_text(bytes: Seq<u8>) -> Seq<char>;

/// `uuid::Builder::from_random_bytes(bytes).into_uuid()`, written in its
/// hyphenated lower-case form (`to_string`). Claimed: the text is
/// `uuid_v4_text` of the bytes and has 36 characters
/// (`Hyphenated::LENGTH`); the digits themselves are not stated.
#[verifier::external_body]
fn uuid_v4_of(bytes: [u8; 16]) -> (r: String)
    ensures
        r@ == uuid_v4_text(bytes@),
        r@.len() == 36,
{
    uuid::Builder::from_random_bytes(bytes).into_uuid().to_string()
}

/// A user as the generic administration endpoints store it.
#[derive(Debug)]
pub struct PayloadUser {
    /// The user's public identifier, a UUID.
    pub user_id: String,
    pub username: String,
    pub password_hash: String,
    pub role_id: i32,
}

/// The user to store for `req` through the generic administration
/// endpoints: identified by the UUID made from `random_bytes`, its password
/// hashed, its role defaulted to `default_role_id`; the store sets the
/// creation time. `AppError::Hash` when hashing fails.
pub fn payload_user_of(req: UserCreatePayload, default_role_id: i32, random_bytes: [u8; 16]) -> (r:
    Result<PayloadUser, AppError>)
    ensures
        match r {
            Ok(u) => u.user_id@ == uuid_v4_text(random_bytes@) && u.user_id@.len() == 36
                && u.username == req.username && is_password_hash(req.password@, u.password_hash@)
                && u.role_id == match req.role_id {
                Some(id) => id,
                None => default_role_id,
            },
            Err(e) => e is Hash,
        },
{
    let user_id = uuid_v4_of(random_bytes);
    let password_hash = hash_password(req.password.as_str())?;
    let role_id = match req.role_id {
        Some(id) => id,
        None => default_role_id,
    };
    Ok(PayloadUser { user_id, username: req.username, password_hash, role_id })
}

/// A request to change a user; absent fields are left as they are.
#[derive(Debug)]
pub struct UserUpdatePayload {
    pub id: Option<i32>,
    pub username: Option<String>,
    pub password: Option<String>,
    pub role_id: Option<i32>,
    pub balance: Option<i64>,
}

/// Access to the id a request is about.
pub trait HasId {
    fn get_id(&self) -> i32;
}

impl HasId for UserUpdatePayload {
    /// The id of the user to change; 0 when the request names none.
    fn get_id(&self) -> (r: i32)
        ensures
            r == match self.id {
                Some(id) => id,
                None => 0i32,
            },
    {
        match self.id {
            Some(id) => id,
            None => 0,
        }
    }
}

/// A stored user, as an update changes it.
#[derive(Debug)]
pub struct UserRecord {
    pub username: String,
    pub password_hash: String,
    pub role_id: i32,
    pub balance: i64,
}

/// `r` is the outcome of changing `user` by `req`: each field that `req`
/// gives replaces the stored one, a new password being stored as its hash;
/// the only failure is the hashing of a new password.
pub open spec fn user_update_outcome(user: UserRecord, req: UserUpdatePayload, r: Result<UserRecord, AppError>) -> bool {
    match r {
        Ok(u) => u.username == match req.username {
            Some(n) => n,
            None => user.username,
        } && match req.password {
            Some(p) => is_password_hash(p@, u.password_hash@),
            None => u.password_hash == user.password_hash,
        } && u.role_id == match req.role_id {
            Some(x) => x,
            None => user.role_id,
        } && u.balance == match req.balance {
            Some(x) => x,
            None => user.balance,
        },
        Err(e) => req.password is Some && e is Hash,
    }
}

/// A successful user update sets every field the request gives (a new
/// password as a hash that verifies it at the service's cost) and keeps
/// every other field; only hashing a given password can fail.
pub proof fn law_user_update_sets_given_fields(
    user: UserRecord,
    req: UserUpdatePayload,
    r: Result<UserRecord, AppError>,
)
    requires
        user_update_outcome(user, req, r),
    ensures
        r matches Ok(u) ==> {
            &&& req.username matches Some(n) ==> u.username == n
            &&& req.username is None ==> u.username == user.username
            &&& req.password matches Some(p) ==> bcrypt_verdict(p@, u.password_hash@) == Some(true)
                && u.password_hash@.take(7) == bcrypt_prefix(HASH_COST)
            &&& req.password is None ==> u.password_hash == user.password_hash
            &&& req.role_id matches Some(x) ==> u.role_id == x
            &&& req.role_id is None ==> u.role_id == user.role_id
            &&& req.balance matches Some(x) ==> u.balance == x
            &&& req.balance is None ==> u.balance == user.balance
        },
        r is Err ==> req.password is Some,
{
}

/// The user `user` changed by `req` (see `user_update_outcome`).
pub fn apply_user_update(user: UserRecord, req: UserUpdatePayload) -> (r: Result<UserRecord, AppError>)
    ensures
        user_update_outcome(user, req, r),
{
    let username = match req.username {
        Some(n) => n,
        None => user.username,
    };
    let password_hash = match req.password {
        Some(p) => hash_password(p.as_str())?,
        None => user.password_hash,
    };
    let role_id = match req.role_id {
        Some(x) => x,
        None => user.role_id,
    };
    let balance = match req.balance {
        Some(x) => x,
        None => user.balance,
    };
    Ok(UserRecord { username, password_hash, role_id, balance })
}

/// Changes the user `id`, found as `found`, by `req`: a user that does not
/// exist is not found; otherwise see `apply_user_update`.
pub fn update_user(id: i32, found: Option<UserRecord>, req: UserUpdatePayload) -> (r: Result<UserRecord, AppError>)
    ensures
        match found {
            None => r matches Err(e) && is_not_found(e, "users"@, Some(id)),
            Some(u) => user_update_outcome(u, req, r),
        },
{
    match found {
        None => Err(AppError::not_found("users", Some(id))),
        Some(u) => apply_user_update(u, req),
    }
}

/// A password is too short when its UTF-8 encoding has fewer than 6 bytes.
pub open spec fn too_short(password: Seq<char>) -> bool {
    (vstd::utf8::encode_utf8(password).len() as usize) < 6
}

/// Checks a user to be created: its name must not be blank and its password
/// must not be too short.
pub fn validate_user_create(req: &UserCreatePayload) -> (r: Result<(), AppError>)
    ensures
        r is Ok <==> !is_blank(req.username@) && !too_short(req.password@),
        r matches Err(e) ==> e is DataNotFound,
{
    if blank(req.username.as_str()) {
        return Err(AppError::DataNotFound);
    }
    if req.password.as_str().len() < 6 {
        return Err(AppError::DataNotFound);
    }
    Ok(())
}

/// Checks a user change: a new name must not be blank and a new password
/// must not be too short.
pub fn validate_user_update(req: &UserUpdatePayload) -> (r: Result<(), AppError>)
    ensures
        r is Ok <==> (match req.username {
            Some(n) => !is_blank(n@),
            None => true,
        }) && (match req.password {
            Some(p) => !too_short(p@),
            None => true,
        }),
        r matches Err(e) ==> e is DataNotFound,
{
    match &req.username {
        Some(n) => if blank(n.as_str()) {
            return Err(AppError::DataNotFound);
        },
        None => {},
    }
    match &req.password {
        Some(p) => if p.as_str().len() < 6 {
            return Err(AppError::DataNotFound);
        },
        None => {},
    }
    Ok(())
}

/// The token of an `Authorization` header value `Bearer <token>`.
pub open spec fn spec_bearer_token(header: Option<Seq<char>>) -> Option<Seq<char>> {
    match header {
        Some(h) => if has_prefix(h, "Bearer "@) {
            Some(h.skip(7))
        } else {
            None
        },
        None => None,
    }
}

/// The bearer token of an optional `Authorization` header value.
pub fn bearer_token(header: Option<&str>) -> (r: Option<String>)
    ensures
        match spec_bearer_token(
            match header {
                Some(h) => Some(h@),
                None => None,
            },
        ) {
            Some(t) => r matches Some(s) && s@ == t,
            None => r is None,
        },
{
    match header {
        None => None,
        Some(h) => {
            let chars = chars_of(h);
            let prefix = chars_of("Bearer ");
            proof {
                reveal_strlit("Bearer ");
                assert(chars@.skip(0) =~= chars@);
            }
            if prefix_at(&chars, 0, &prefix) {
                let mut rest: Vec<char> = Vec::new();
                let n = chars.len();
                let mut i: usize = 7;
                while i < n
                    invariant
                        n == chars@.len(),
                        7 <= i <= n,
                        rest@ == chars@.subrange(7, i as int),
                    decreases n - i,
                {
                    rest.push(chars[i]);
                    assert(chars@.subrange(7, i + 1) == chars@.subrange(7, i as int).push(
                        chars@[i as int],
                    ));
                    i = i + 1;
                }
                assert(rest@ =~= chars@.skip(7));
                Some(string_of(&rest))
            } else {
                None
            }
        },
    }
}

/// A token sent as `Bearer <token>` is read back unchanged.
pub proof fn law_bearer_round_trip(token: Seq<char>)
    ensures
        spec_bearer_token(Some("Bearer "@ + token)) == Some(token),
{
    reveal_strlit("Bearer ");
    let h = "Bearer "@ + token;
    assert(h.take(7) =~= "Bearer "@);
    assert(h.skip(7) =~= token);
}

} // verus!
