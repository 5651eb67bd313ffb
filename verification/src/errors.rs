use vstd::prelude::*;

verus! {

/// Application error codes, each with a fixed message and numeric code.
#[derive(Clone, Copy, Debug, PartialEq, Eq, Structural)]
pub enum ErrorCode {
    Success,
    UserAlreadyExists,
    UserNotFound,
    UserOrPasswordError,
    TokenCreationFailed,
    DefaultRoleNotFound,
    DatabaseError,
}

/// The numeric code of an error code.
pub open spec fn code_number(c: ErrorCode) -> u16 {
    match c {
        ErrorCode::Success => 0,
        ErrorCode::UserAlreadyExists => 1001,
        ErrorCode::UserNotFound => 1002,
        ErrorCode::UserOrPasswordError => 1003,
        ErrorCode::TokenCreationFailed => 1004,
        ErrorCode::DefaultRoleNotFound => 1005,
        ErrorCode::DatabaseError => 5001,
    }
}

/// The message text of an error code.
pub open spec fn code_message(c: ErrorCode) -> Seq<char> {
    match c {
        ErrorCode::Success => "Ok"@,
        ErrorCode::UserAlreadyExists => "User already exists"@,
        ErrorCode::UserNotFound => "User not found"@,
        ErrorCode::UserOrPasswordError => "User or password error"@,
        ErrorCode::TokenCreationFailed => "Token creation failed"@,
        ErrorCode::DefaultRoleNotFound => "Default role not found"@,
        ErrorCode::DatabaseError => "Database error"@,
    }
}

impl ErrorCode {
    /// The message and numeric code of this error code.
    pub fn details(&self) -> (r: (&'static str, u16))
        ensures
            r.0@ == code_message(*self),
            r.1 == code_number(*self),
    {
        match self {
            ErrorCode::Success => ("Ok", 0),
            ErrorCode::UserAlreadyExists => ("User already exists", 1001),
            ErrorCode::UserNotFound => ("User not found", 1002),
            ErrorCode::UserOrPasswordError => ("User or password error", 1003),
            ErrorCode::TokenCreationFailed => ("Token creation failed", 1004),
            ErrorCode::DefaultRoleNotFound => ("Default role not found", 1005),
            ErrorCode::DatabaseError => ("Database error", 5001),
        }
    }
}

/// Distinct error codes have distinct numeric codes, and only `Success` has code 0.
pub proof fn lemma_code_numbers_distinct(a: ErrorCode, b: ErrorCode)
    ensures
        code_number(a) == code_number(b) <==> a == b,
        code_number(a) == 0 <==> a == ErrorCode::Success,
{
}

/// Errors reported by the service's operations.
#[derive(Debug)]
pub enum AppError {
    /// A looked-up record does not exist.
    NotFound { resource: String, id: Option<i32> },
    /// A rule of the service refused the request.
    Message(String),
    /// The request itself is malformed.
    BadRequest(String),
    /// A payment provider reported a failure.
    PaymentError(String),
    /// Authentication failed.
    AuthFailed(String),
    /// A user with that name already exists.
    UserAlreadyExists,
    /// A payload failed validation.
    DataNotFound,
    /// The database reported an error.
    Database(String),
    /// Password hashing failed.
    Hash(String),
    /// The system clock could not be read as a representable UTC time.
    Clock,
}

/// `e` is `AppError::Message` with text `m`.
pub open spec fn is_message(e: AppError, m: Seq<char>) -> bool {
    e matches AppError::Message(s) && s@ == m
}

/// `e` is `AppError::NotFound` for `resource` and `id`.
pub open spec fn is_not_found(e: AppError, resource: Seq<char>, id: Option<i32>) -> bool {
    e matches AppError::NotFound { resource: r, id: i } && r@ == resource && i == id
}

/// `e` is `AppError::AuthFailed` with text `m`.
pub open spec fn is_auth_failed(e: AppError, m: Seq<char>) -> bool {
    e matches AppError::AuthFailed(s) && s@ == m
}

/// `e` is `AppError::BadRequest` with text `m`.
pub open spec fn is_bad_request(e: AppError, m: Seq<char>) -> bool {
    e matches AppError::BadRequest(s) && s@ == m
}

/// `e` is `AppError::PaymentError` with text `m`.
pub open spec fn is_payment_error(e: AppError, m: Seq<char>) -> bool {
    e matches AppError::PaymentError(s) && s@ == m
}

impl AppError {
    /// The error for a missing `resource` (optionally with its id).
    pub fn not_found(resource: &str, id: Option<i32>) -> (r: AppError)
        ensures
            is_not_found(r, resource@, id),
    {
        AppError::NotFound { resource: resource.to_owned(), id }
    }

    /// The error for a user name that is already taken.
    pub fn user_already_exists() -> (r: AppError)
        ensures
            r is UserAlreadyExists,
    {
        AppError::UserAlreadyExists
    }

    /// The error for a failed authentication, with its reason.
    pub fn auth_failed(message: &str) -> (r: AppError)
        ensures
            is_auth_failed(r, message@),
    {
        AppError::AuthFailed(message.to_owned())
    }

    /// A refusal with the given text.
    pub fn message(text: &str) -> (r: AppError)
        ensures
            is_message(r, text@),
    {
        AppError::Message(text.to_owned())
    }
}

} // verus!
