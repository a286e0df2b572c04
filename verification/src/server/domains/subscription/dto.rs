//! Subscription requests and responses.

use vstd::prelude::*;

verus! {

/// Request to create a new subscription.
#[derive(Debug, Clone)]
pub struct CreateSubscriptionRequest {
    pub user_id: String,
    pub subscription_id: String,
    pub keywords: Vec<String>,
}

/// Response for subscription operations.
#[derive(Debug, Clone)]
pub struct SubscriptionResponse {
    pub user_id: String,
    pub subscription_id: String,
}

/// Response for getting a user's subscriptions.
#[derive(Debug, Clone)]
pub struct UserSubscriptionsResponse {
    pub user_id: String,
    pub subscription_ids: Vec<String>,
}

/// Request to remove a subscription.
pub struct RemoveSubscriptionRequest {
    pub user_id: String,
    pub subscription_id: String,
}

} // verus!
