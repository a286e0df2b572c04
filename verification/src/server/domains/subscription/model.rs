//! Subscription domain model.

use vstd::prelude::*;

verus! {

/// Subscription criteria for matching content: an identifier and keywords.
#[derive(Debug, Clone, Hash, PartialEq, Eq)]
pub struct SubscriptionCriteria {
    pub id: String,
    pub keywords: Vec<String>,
}

impl SubscriptionCriteria {
    /// Criteria with identifier `id` and `keywords`.
    pub fn new(id: String, keywords: Vec<String>) -> (c: Self)
        ensures
            c.id == id,
            c.keywords == keywords,
    {
        SubscriptionCriteria { id, keywords }
    }
}

} // verus!
