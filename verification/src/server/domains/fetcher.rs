//! Fetcher domain: its requests and the responses of its handlers.

use vstd::prelude::*;
use crate::error::FrameworkError;
use crate::server::common::dto::{ApiResponse, error_message, failure, ok_message, reports};

pub mod dto;

use dto::AddFetcherRequest;

verus! {

/// The only fetcher type the server supports.
pub open spec fn supported_fetcher_type() -> Seq<char> {
    "ArxivFetcher"@
}

/// The available fetcher types.
pub fn fetcher_types_response() -> (r: ApiResponse<Vec<String>>)
    ensures
        r.status == 200,
        r.message@ == "success"@,
        r.data matches Some(types) && types@.map_values(|s: String| s@) == seq![supported_fetcher_type()],
{
    let mut types: Vec<String> = Vec::new();
    types.push(String::from_str("ArxivFetcher"));
    assert(types@.map_values(|s: String| s@) =~= seq![supported_fetcher_type()]);
    ApiResponse::success(types)
}

/// The response to listing a user's fetchers, given the watchdog's outcome.
pub fn user_fetchers_response(outcome: Result<Vec<String>, FrameworkError>) -> (r: ApiResponse<Vec<String>>)
    ensures
        outcome matches Ok(names) ==> r.status == 200 && r.message@ == "success"@ && r.data == Some(names),
        outcome matches Err(e) ==> r.data is None && r.status == 500 && reports(r.message@, "Failed to add fetcher: "@, e),
{
    match outcome {
        Ok(names) => ApiResponse::success(names),
        Err(e) => failure("Failed to add fetcher: ", &e),
    }
}

/// The 400 response for a request whose fetcher type is not supported, none otherwise.
pub fn check_fetcher_type(req: &AddFetcherRequest) -> (rejection: Option<ApiResponse<()>>)
    ensures
        rejection is Some == (req.fetcher_type@ != supported_fetcher_type()),
        rejection matches Some(r) ==> r.status == 400 && r.message@ == "Unsupported fetcher type"@ && r.data is None,
{
    let supported = String::from_str("ArxivFetcher");
    if req.fetcher_type != supported {
        Some(error_message(400, "Unsupported fetcher type"))
    } else {
        None
    }
}

/// The response to adding a fetcher, given the watchdog's outcome.
pub fn fetcher_added_response(outcome: &Result<(), FrameworkError>) -> (r: ApiResponse<()>)
    ensures
        outcome is Ok ==> r.status == 200 && r.message@ == "Fetcher added successfully"@,
        outcome matches Err(e) ==> r.status == 500 && reports(r.message@, "Failed to add fetcher: "@, *e),
        r.data is None,
{
    match outcome {
        Ok(()) => ok_message("Fetcher added successfully"),
        Err(e) => failure("Failed to add fetcher: ", e),
    }
}

/// The response to removing a fetcher, given the watchdog's outcome.
pub fn fetcher_removed_response(outcome: &Result<(), FrameworkError>) -> (r: ApiResponse<()>)
    ensures
        outcome is Ok ==> r.status == 200 && r.message@ == "Fetcher removed successfully"@,
        outcome matches Err(e) ==> r.status == 500 && reports(r.message@, "Failed to remove fetcher: "@, *e),
        r.data is None,
{
    match outcome {
        Ok(()) => ok_message("Fetcher removed successfully"),
        Err(e) => failure("Failed to remove fetcher: ", e),
    }
}

} // verus!
