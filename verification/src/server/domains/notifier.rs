//! Notifier domain: its requests and the responses of its handlers.

use vstd::prelude::*;
use crate::error::FrameworkError;
use crate::server::common::dto::{ApiResponse, error_message, failure, ok_message, reports};

pub mod dto;

use dto::{AddNotifierRequest, UserNotifierResponse};

verus! {

/// The console notifier type's name.
pub open spec fn console_type() -> Seq<char> {
    "ArxivConsoleNotifier"@
}

/// The email notifier type's name.
pub open spec fn email_type() -> Seq<char> {
    "ArxivEmailNotifier"@
}

/// The available notifier types.
pub fn notifier_types_response() -> (r: ApiResponse<Vec<String>>)
    ensures
        r.status == 200,
        r.message@ == "success"@,
        r.data matches Some(types) && types@.map_values(|s: String| s@) == seq![console_type(), email_type()],
{
    let mut types: Vec<String> = Vec::new();
    types.push(String::from_str("ArxivConsoleNotifier"));
    types.push(String::from_str("ArxivEmailNotifier"));
    assert(types@.map_values(|s: String| s@) =~= seq![console_type(), email_type()]);
    ApiResponse::success(types)
}

/// The notifier reported for any user: a default console notifier.
pub fn user_notifier_response(user_id: String) -> (r: ApiResponse<UserNotifierResponse>)
    ensures
        r.status == 200,
        r.message@ == "success"@,
        r.data matches Some(d) && d.user_id == user_id && d.notifier_name@ == "default_notifier"@
            && d.notifier_type@ == console_type(),
{
    ApiResponse::success(
        UserNotifierResponse {
            user_id,
            notifier_name: String::from_str("default_notifier"),
            notifier_type: String::from_str("ArxivConsoleNotifier"),
        },
    )
}

/// Which notifier a request asks for, or why it is refused.
pub enum NotifierChoice {
    /// A console notifier.
    Console,
    /// An email notifier sending to this address.
    Email(String),
    /// The request is refused with this response.
    Rejected(ApiResponse<()>),
}

/// The notifier that an add request asks for: a console notifier; an email
/// notifier, which needs an address; anything else is refused.
pub fn choose_notifier(req: &AddNotifierRequest) -> (choice: NotifierChoice)
    ensures
        req.notifier_type@ == console_type() ==> choice is Console,
        req.notifier_type@ == email_type() ==> match req.email_address {
            Some(a) => choice matches NotifierChoice::Email(addr) && addr == a,
            None => choice matches NotifierChoice::Rejected(r) && r.status == 400 && r.message@
                == "Email address is required for email notifier"@ && r.data is None,
        },
        req.notifier_type@ != console_type() && req.notifier_type@ != email_type() ==> (
        choice matches NotifierChoice::Rejected(r) && r.status == 400 && r.message@
            == "Unsupported notifier type"@ && r.data is None),
{
    let console = String::from_str("ArxivConsoleNotifier");
    let email = String::from_str("ArxivEmailNotifier");
    proof {
        reveal_strlit("ArxivConsoleNotifier");
        reveal_strlit("ArxivEmailNotifier");
        assert(console_type()[5] != email_type()[5]);
    }
    if req.notifier_type == console {
        NotifierChoice::Console
    } else if req.notifier_type == email {
        match &req.email_address {
            Some(a) => NotifierChoice::Email(a.clone()),
            None => NotifierChoice::Rejected(error_message(400, "Email address is required for email notifier")),
        }
    } else {
        NotifierChoice::Rejected(error_message(400, "Unsupported notifier type"))
    }
}

/// The response to adding a console notifier, given the watchdog's outcome.
pub fn console_notifier_added_response(outcome: &Result<(), FrameworkError>) -> (r: ApiResponse<()>)
    ensures
        outcome is Ok ==> r.status == 200 && r.message@ == "Console notifier added successfully"@,
        outcome matches Err(e) ==> r.status == 500 && reports(r.message@, "Failed to add console notifier: "@, *e),
        r.data is None,
{
    match outcome {
        Ok(()) => ok_message("Console notifier added successfully"),
        Err(e) => failure("Failed to add console notifier: ", e),
    }
}

/// The response to adding an email notifier, given the watchdog's outcome.
pub fn email_notifier_added_response(outcome: &Result<(), FrameworkError>) -> (r: ApiResponse<()>)
    ensures
        outcome is Ok ==> r.status == 200 && r.message@ == "Email notifier added successfully"@,
        outcome matches Err(e) ==> r.status == 500 && reports(r.message@, "Failed to add email notifier: "@, *e),
        r.data is None,
{
    match outcome {
        Ok(()) => ok_message("Email notifier added successfully"),
        Err(e) => failure("Failed to add email notifier: ", e),
    }
}

/// The response when an email notifier could not be created, with the error's text.
pub fn email_notifier_failed_response(error: &str) -> (r: ApiResponse<()>)
    ensures
        r.status == 500,
        r.message@ == "Failed to create email notifier: "@ + error@,
        r.data is None,
{
    let mut m = String::from_str("Failed to create email notifier: ");
    m.append(error);
    ApiResponse::error(500, m)
}

/// The response to a request to remove a notifier.
pub fn notifier_removal_response(notifier_name: &str) -> (r: ApiResponse<()>)
    ensures
        r.status == 200,
        r.message@ == "Notifier '"@ + notifier_name@ + "' removal requested"@,
        r.data is None,
{
    let mut m = String::from_str("Notifier '");
    m.append(notifier_name);
    m.append("' removal requested");
    ApiResponse::success_with_message(m)
}

} // verus!
