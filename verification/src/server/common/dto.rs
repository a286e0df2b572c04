//! The standard API response wrapper.

use vstd::prelude::*;
use crate::error::{FrameworkError, describes};

verus! {

/// Standard API response wrapper: an HTTP status, a message, and optional data.
#[derive(Debug, Clone)]
pub struct ApiResponse<T> {
    pub status: u16,
    pub message: String,
    pub data: Option<T>,
}

impl<T> ApiResponse<T> {
    /// A success response with data.
    pub fn success(data: T) -> (r: Self)
        ensures
            r.status == 200,
            r.message@ == "success"@,
            r.data == Some(data),
    {
        ApiResponse { status: 200, message: String::from_str("success"), data: Some(data) }
    }

    /// A success response with a message and no data.
    pub fn success_with_message(message: String) -> (r: Self)
        ensures
            r.status == 200,
            r.message == message,
            r.data is None,
    {
        ApiResponse { status: 200, message, data: None }
    }

    /// An error response.
    pub fn error(status: u16, message: String) -> (r: Self)
        ensures
            r.status == status,
            r.message == message,
            r.data is None,
    {
        ApiResponse { status, message, data: None }
    }
}

/// `text` is `prefix` followed by the message of `e`.
pub open spec fn reports(text: Seq<char>, prefix: Seq<char>, e: FrameworkError) -> bool {
    &&& text.len() >= prefix.len()
    &&& text.subrange(0, prefix.len() as int) == prefix
    &&& describes(e, text.subrange(prefix.len() as int, text.len() as int))
}

/// A success response with the literal `text` as its message.
pub fn ok_message<T>(text: &str) -> (r: ApiResponse<T>)
    ensures
        r.status == 200,
        r.message@ == text@,
        r.data is None,
{
    ApiResponse::success_with_message(String::from_str(text))
}

/// An error response with `status` and the literal `text` as its message.
pub fn error_message<T>(status: u16, text: &str) -> (r: ApiResponse<T>)
    ensures
        r.status == status,
        r.message@ == text@,
        r.data is None,
{
    ApiResponse::error(status, String::from_str(text))
}

/// A 500 response whose message is `prefix` followed by the message of `e`.
pub fn failure<T>(prefix: &str, e: &FrameworkError) -> (r: ApiResponse<T>)
    ensures
        r.status == 500,
        reports(r.message@, prefix@, *e),
        r.data is None,
{
    let mut m = String::from_str(prefix);
    let detail = e.message();
    let ghost p = m@;
    m.append(detail.as_str());
    proof {
        assert(m@.subrange(0, p.len() as int) =~= p);
        assert(m@.subrange(p.len() as int, m@.len() as int) =~= detail@);
    }
    ApiResponse::error(500, m)
}

} // verus!
