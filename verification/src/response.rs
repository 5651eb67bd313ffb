//! The envelope in which every endpoint answers.
use crate::errors::{code_message, code_number, ErrorCode};
use vstd::prelude::*;

verus! {

/// An endpoint's answer: a numeric code (0 for success), a message, and the
/// data of a success.
#[derive(Debug)]
pub struct ApiResponse<T> {
    pub code: u16,
    pub message: String,
    pub data: Option<T>,
}

impl<T> ApiResponse<T> {
    /// A success carrying `data`.
    pub fn success(data: T) -> (r: Self)
        ensures
            r.code == code_number(ErrorCode::Success),
            r.message@ == code_message(ErrorCode::Success),
            r.data == Some(data),
    {
        let (message, code) = ErrorCode::Success.details();
        ApiResponse { code, message: message.to_owned(), data: Some(data) }
    }

    /// A failure reporting `error_code`.
    pub fn error_with_code(error_code: ErrorCode) -> (r: Self)
        ensures
            r.code == code_number(error_code),
            r.message@ == code_message(error_code),
            r.data is None,
    {
        let (message, code) = error_code.details();
        ApiResponse { code, message: message.to_owned(), data: None }
    }

    /// A database failure reporting `message`.
    pub fn error_with_message(message: String) -> (r: Self)
        ensures
            r.code == code_number(ErrorCode::DatabaseError),
            r.message == message,
            r.data is None,
    {
        let (_, code) = ErrorCode::DatabaseError.details();
        ApiResponse { code, message, data: None }
    }
}

/// Whether an HTTP status is an error worth logging (400 and above).
pub fn is_error_status(status: u16) -> (r: bool)
    ensures
        r == (status >= 400),
{
    status >= 400
}

/// A response has code 0 exactly when it is a success: the failures that
/// `error_with_code` and `error_with_message` build never carry code 0.
pub proof fn law_zero_code_means_success(c: ErrorCode)
    ensures
        code_number(ErrorCode::Success) == 0,
        c != ErrorCode::Success ==> code_number(c) != 0,
        code_number(ErrorCode::DatabaseError) != 0,
{
}

} // verus!
