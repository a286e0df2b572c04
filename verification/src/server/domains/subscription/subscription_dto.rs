//! Subscription requests and responses keyed by criteria identifier.

use vstd::prelude::*;

verus! {

/// Request to create a new subscription.
#[derive(Debug, Clone)]
pub struct CreateSubscriptionRequest {
    pub user_id: String,
    pub criteria_id: String,
    pub keywords: Vec<String>,
}

/// Response for subscription operations.
#[derive(Debug, Clone)]
pub struct SubscriptionResponse {
    pub user_id: String,
    pub criteria_id: String,
}

/// Request to remove a subscription.
#[derive(Debug, Clone)]
pub struct RemoveSubscriptionRequest {
    pub criteria_id: String,
}

} // verus!
