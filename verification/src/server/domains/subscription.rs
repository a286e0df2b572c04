//! Subscription domain: its requests and the decisions of its handlers.

use vstd::prelude::*;
use crate::error::FrameworkError;
use crate::server::common::dto::{ApiResponse, failure, ok_message, reports};
use crate::server::common::utils::{check_duplicate_name, duplicate_message};
use crate::service::arxiv::criteria::ArxivCriteria;
use crate::subscription::{Subscription, SubscriptionCriteria as Criteria};
use crate::subscription::manager::SubscriptionManager;

pub mod dto;
pub mod model;
pub mod subscription_dto;

use dto::{CreateSubscriptionRequest, SubscriptionResponse};

verus! {

/// Request to remove a subscription, as the removal route's path gives it.
pub struct RemoveSubscriptionRequest {
    pub user_id: String,
    pub subscription_id: String,
}

/// The response listing a user's subscription identifiers.
pub fn user_subscriptions_response(ids: Vec<String>) -> (r: ApiResponse<Vec<String>>)
    ensures
        r.status == 200,
        r.message@ == "success"@,
        r.data == Some(ids),
{
    ApiResponse::success(ids)
}

/// The subscription a create request asks for, unless the user already has a
/// subscription with that identifier: then the 409 response.
pub fn plan_subscription(existing_ids: &[String], req: CreateSubscriptionRequest) -> (planned: Result<Subscription<ArxivCriteria>, ApiResponse<()>>)
    ensures
        planned is Err == existing_ids@.map_values(|s: String| s@).contains(req.subscription_id@),
        planned matches Ok(s) ==> {
            &&& s.user_id == req.user_id
            &&& s.criteria.spec_id() == req.subscription_id@
            &&& s.criteria.spec_keywords() == req.keywords@
        },
        planned matches Err(r) ==> r.status == 409 && r.message@ == duplicate_message("Subscription"@) && r.data is None,
{
    match check_duplicate_name(existing_ids, req.subscription_id.as_str(), "Subscription") {
        Some(conflict) => Err(conflict),
        None => {
            let criteria = ArxivCriteria::new(req.subscription_id, req.keywords);
            Ok(Subscription::new(req.user_id, criteria))
        },
    }
}

/// The subscription a create request asks for, unless `manager` already holds
/// a subscription with that identifier, of any user: then the 409 response.
pub fn plan_subscription_for(manager: &SubscriptionManager<ArxivCriteria>, req: CreateSubscriptionRequest) -> (planned: Result<Subscription<ArxivCriteria>, ApiResponse<()>>)
    requires
        manager.wf(),
    ensures
        planned is Err == manager.map().contains_key(req.subscription_id@),
        planned matches Ok(s) ==> {
            &&& s.user_id == req.user_id
            &&& s.criteria.spec_id() == req.subscription_id@
            &&& s.criteria.spec_keywords() == req.keywords@
        },
        planned matches Err(r) ==> r.status == 409 && r.message@ == duplicate_message("Subscription"@) && r.data is None,
{
    let store = manager.get_subscriptions();
    let ids = store.keys();
    proof {
        store.lemma_order_contains(req.subscription_id@);
    }
    plan_subscription(ids.as_slice(), req)
}

/// The response to creating the subscription `subscription_id` of `user_id`,
/// given the watchdog's outcome.
pub fn subscription_created_response(user_id: String, subscription_id: String, outcome: &Result<(), FrameworkError>) -> (r: ApiResponse<SubscriptionResponse>)
    ensures
        outcome is Ok ==> r.status == 200 && r.message@ == "success"@ && (r.data matches Some(d) && d.user_id == user_id
            && d.subscription_id == subscription_id),
        outcome matches Err(e) ==> r.status == 500 && r.data is None && reports(
            r.message@,
            "Failed to create subscription: "@,
            *e,
        ),
{
    match outcome {
        Ok(()) => ApiResponse::success(SubscriptionResponse { user_id, subscription_id }),
        Err(e) => failure("Failed to create subscription: ", e),
    }
}

/// The response to removing a subscription, given the watchdog's outcome.
pub fn subscription_removed_response(outcome: &Result<(), FrameworkError>) -> (r: ApiResponse<()>)
    ensures
        outcome is Ok ==> r.status == 200 && r.message@ == "Subscription removed successfully"@,
        outcome matches Err(e) ==> r.status == 500 && reports(r.message@, "Failed to remove subscription: "@, *e),
        r.data is None,
{
    match outcome {
        Ok(()) => ok_message("Subscription removed successfully"),
        Err(e) => failure("Failed to remove subscription: ", e),
    }
}

} // verus!
