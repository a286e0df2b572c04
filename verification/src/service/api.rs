//! The subscription API's data and the responses of its handlers.

use vstd::prelude::*;
use crate::error::FrameworkError;
use crate::subscription::Subscription;

verus! {

/// An API error.
pub struct ApiError {
    pub error: String,
}

impl ApiError {
    /// The API error for a framework error: its message.
    pub fn from_framework_error(err: &FrameworkError) -> (e: ApiError)
        ensures
            crate::error::describes(*err, e.error@),
    {
        ApiError { error: err.message() }
    }
}

/// A response of the subscription API: success with data, or an error message.
pub struct ApiResponse<T> {
    pub success: bool,
    pub data: Option<T>,
    pub error: Option<String>,
}

impl<T> ApiResponse<T> {
    /// A successful response carrying `data`.
    pub fn success(data: T) -> (r: Self)
        ensures
            r.success,
            r.data == Some(data),
            r.error is None,
    {
        ApiResponse { success: true, data: Some(data), error: None }
    }

    /// A failed response with `error`.
    pub fn error(error: String) -> (r: Self)
        ensures
            !r.success,
            r.data is None,
            r.error == Some(error),
    {
        ApiResponse { success: false, data: None, error: Some(error) }
    }
}

/// Request to create a new subscription.
#[derive(Clone)]
pub struct CreateSubscriptionRequest<C> {
    pub user_id: String,
    pub criteria: C,
}

/// Request to update an existing subscription.
#[derive(Clone)]
pub struct UpdateSubscriptionRequest<C> {
    pub criteria: C,
}

/// Response for subscription operations.
pub struct SubscriptionResponse {
    pub message: String,
}

/// Response containing subscription details.
pub struct SubscriptionDetailsResponse<C> {
    pub user_id: String,
    pub criteria: C,
}

/// A successful response with a message.
fn message_response(text: &str) -> (r: ApiResponse<SubscriptionResponse>)
    ensures
        r.success,
        r.error is None,
        r.data matches Some(d) && d.message@ == text@,
{
    ApiResponse::success(SubscriptionResponse { message: String::from_str(text) })
}

/// A failed response whose error is `prefix` followed by `detail`.
fn prefixed_error<T>(prefix: &str, detail: &str) -> (r: ApiResponse<T>)
    ensures
        !r.success,
        r.data is None,
        r.error matches Some(e) && e@ == prefix@ + detail@,
{
    let mut e = String::from_str(prefix);
    e.append(detail);
    ApiResponse::error(e)
}

/// The subscription built from a create request.
pub fn subscription_from_request<C>(req: CreateSubscriptionRequest<C>) -> (s: Subscription<C>)
    ensures
        s.user_id == req.user_id,
        s.criteria == req.criteria,
{
    Subscription::new(req.user_id, req.criteria)
}

/// The response to creating a subscription, given the service's outcome (its
/// error shown as text).
pub fn create_subscription_response(outcome: &Result<(), String>) -> (r: ApiResponse<SubscriptionResponse>)
    ensures
        r.success == outcome is Ok,
        r.success ==> r.error is None,
        outcome is Ok ==> (r.data matches Some(d) && d.message@ == "Subscription created successfully"@),
        outcome matches Err(e) ==> (r.data is None && (r.error matches Some(m) && m@ == "Failed to create subscription: "@ + e@)),
{
    match outcome {
        Ok(()) => message_response("Subscription created successfully"),
        Err(e) => prefixed_error("Failed to create subscription: ", e.as_str()),
    }
}

/// The response to removing a subscription, given the service's outcome.
pub fn remove_subscription_response<C>(outcome: &Result<Option<Subscription<C>>, String>) -> (r: ApiResponse<SubscriptionResponse>)
    ensures
        r.success == outcome matches Ok(Some(_)),
        r.success ==> r.error is None,
        outcome matches Ok(Some(_)) ==> (r.data matches Some(d) && d.message@ == "Subscription removed successfully"@),
        outcome matches Ok(None) ==> (r.data is None && (r.error matches Some(m) && m@ == "Subscription not found"@)),
        outcome matches Err(e) ==> (r.data is None && (r.error matches Some(m) && m@ == "Failed to remove subscription: "@ + e@)),
{
    match outcome {
        Ok(Some(_)) => message_response("Subscription removed successfully"),
        Ok(None) => ApiResponse::error(String::from_str("Subscription not found")),
        Err(e) => prefixed_error("Failed to remove subscription: ", e.as_str()),
    }
}

/// The response to looking up a subscription, given the service's outcome.
pub fn get_subscription_response<C>(outcome: Result<Option<Subscription<C>>, String>) -> (r: ApiResponse<SubscriptionDetailsResponse<C>>)
    ensures
        r.success == outcome matches Ok(Some(_)),
        r.success ==> r.error is None,
        outcome matches Ok(Some(s)) ==> (r.data matches Some(d) && d.user_id == s.user_id && d.criteria == s.criteria),
        outcome matches Ok(None) ==> (r.data is None && (r.error matches Some(m) && m@ == "Subscription not found"@)),
        outcome matches Err(e) ==> (r.data is None && (r.error matches Some(m) && m@ == "Failed to get subscription: "@ + e@)),
{
    match outcome {
        Ok(Some(s)) => ApiResponse::success(SubscriptionDetailsResponse { user_id: s.user_id, criteria: s.criteria }),
        Ok(None) => ApiResponse::error(String::from_str("Subscription not found")),
        Err(e) => prefixed_error("Failed to get subscription: ", e.as_str()),
    }
}

/// The details of each subscription, in order.
pub open spec fn details_match<C>(details: Seq<SubscriptionDetailsResponse<C>>, subs: Seq<Subscription<C>>) -> bool {
    &&& details.len() == subs.len()
    &&& forall|i: int|
        0 <= i < subs.len() ==> #[trigger] details[i].user_id == subs[i].user_id && details[i].criteria
            == subs[i].criteria
}

/// The response to listing subscriptions, given the service's outcome.
pub fn list_subscriptions_response<C>(outcome: Result<Vec<Subscription<C>>, String>) -> (r: ApiResponse<Vec<SubscriptionDetailsResponse<C>>>)
    ensures
        r.success == outcome is Ok,
        r.success ==> r.error is None,
        outcome matches Ok(subs) ==> (r.data matches Some(d) && details_match(d@, subs@)),
        outcome matches Err(e) ==> (r.data is None && (r.error matches Some(m) && m@ == "Failed to list subscriptions: "@ + e@)),
{
    match outcome {
        Ok(subs) => {
            let ghost orig = subs@;
            let mut rest = subs;
            let mut details: Vec<SubscriptionDetailsResponse<C>> = Vec::new();
            while rest.len() > 0
                invariant
                    details@.len() + rest@.len() == orig.len(),
                    rest@ == orig.skip(details@.len() as int),
                    forall|i: int|
                        0 <= i < details@.len() ==> #[trigger] details@[i].user_id == orig[i].user_id
                            && details@[i].criteria == orig[i].criteria,
                decreases rest@.len(),
            {
                let ghost before = rest@;
                let s = rest.remove(0);
                proof {
                    assert(s == orig[details@.len() as int]);
                    assert(rest@ =~= orig.skip(details@.len() as int + 1));
                }
                details.push(SubscriptionDetailsResponse { user_id: s.user_id, criteria: s.criteria });
            }
            ApiResponse::success(details)
        },
        Err(e) => prefixed_error("Failed to list subscriptions: ", e.as_str()),
    }
}

} // verus!
