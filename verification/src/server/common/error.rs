//! The server's errors and the response each one produces.

use vstd::prelude::*;
use crate::error::{FrameworkError, json_error_text, describes};

verus! {

/// The standard library's I/O error.
#[verifier::external_type_specification]
#[verifier::external_body]
pub struct ExIoError(std::io::Error);

/// serde_json's JSON value.
#[verifier::external_type_specification]
#[verifier::external_body]
pub struct ExJsonValue(serde_json::Value);

/// Calls `<std::io::Error as Display>::fmt` through `format!`. Nothing is stated
/// of the text: it describes the machine's error.
#[verifier::external_body]
fn io_error_text(e: &std::io::Error) -> String {
    format!("{}", e)
}

/// Application errors.
#[derive(Debug)]
pub enum AppError {
    Watchdog(FrameworkError),
    Io(std::io::Error),
    Serialization(serde_json::Error),
    InvalidInput(String),
    NotFound(String),
}

/// The HTTP status of each error: 500 for failures of the system, 400 for
/// invalid input, 404 for what is not found.
pub open spec fn app_error_status(e: AppError) -> u16 {
    match e {
        AppError::Watchdog(_) => 500,
        AppError::Io(_) => 500,
        AppError::Serialization(_) => 500,
        AppError::InvalidInput(_) => 400,
        AppError::NotFound(_) => 404,
    }
}

/// API error response format.
#[derive(Debug)]
pub struct ApiErrorResponse {
    pub status: u16,
    pub message: String,
    pub data: Option<serde_json::Value>,
}

impl ApiErrorResponse {
    /// An error response with no data.
    pub fn new(status: u16, message: String) -> (r: Self)
        ensures
            r.status == status,
            r.message == message,
            r.data is None,
    {
        ApiErrorResponse { status, message, data: None }
    }
}

impl AppError {
    /// The HTTP status of this error.
    pub fn status_code(&self) -> (status: u16)
        ensures
            status == app_error_status(*self),
    {
        match self {
            AppError::Watchdog(_) => 500,
            AppError::Io(_) => 500,
            AppError::Serialization(_) => 500,
            AppError::InvalidInput(_) => 400,
            AppError::NotFound(_) => 404,
        }
    }

    /// The body of the response to this error: its status, and a message naming
    /// the kind of error followed by its detail.
    pub fn error_response(&self) -> (r: ApiErrorResponse)
        ensures
            r.status == app_error_status(*self),
            r.data is None,
            match *self {
                AppError::Watchdog(e) => r.message@.len() >= 16 && r.message@.subrange(0, 16)
                    == "Watchdog error: "@ && describes(e, r.message@.subrange(16, r.message@.len() as int)),
                AppError::Io(_) => r.message@.len() >= 10 && r.message@.subrange(0, 10) == "IO error: "@,
                AppError::Serialization(_) => r.message@.len() >= 21 && r.message@.subrange(0, 21)
                    == "Serialization error: "@,
                AppError::InvalidInput(s) => r.message@ == "Invalid input: "@ + s@,
                AppError::NotFound(s) => r.message@ == "Not found: "@ + s@,
            },
    {
        let (prefix, detail) = match self {
            AppError::Watchdog(e) => ("Watchdog error: ", e.message()),
            AppError::Io(e) => ("IO error: ", io_error_text(e)),
            AppError::Serialization(e) => ("Serialization error: ", json_error_text(e)),
            AppError::InvalidInput(s) => ("Invalid input: ", s.clone()),
            AppError::NotFound(s) => ("Not found: ", s.clone()),
        };
        let mut message = String::from_str(prefix);
        let ghost p = message@;
        message.append(detail.as_str());
        proof {
            reveal_strlit("Watchdog error: ");
            reveal_strlit("IO error: ");
            reveal_strlit("Serialization error: ");
            assert(message@.subrange(0, p.len() as int) =~= p);
            assert(message@.subrange(p.len() as int, message@.len() as int) =~= detail@);
        }
        ApiErrorResponse::new(self.status_code(), message)
    }
}

} // verus!
