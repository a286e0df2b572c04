//! Subscriptions: which user wants which content.

use vstd::prelude::*;

pub mod manager;

pub use manager::SubscriptionManager;

verus! {

/// The criteria of a subscription: an identifier, and a decision about which
/// content the subscription wants. Implementors define their own matching;
/// nothing is assumed of an implementation beyond what its own contract says.
pub trait SubscriptionCriteria: Sized + Clone {
    /// The type of content that these criteria judge.
    type Content;

    /// Checks whether the content matches these criteria.
    fn matches(&self, content: &Self::Content) -> bool;

    /// The unique identifier of these criteria.
    fn id(&self) -> &String;
}

/// `accepted` is an answer that `criteria.matches(content)` can give.
pub open spec fn answers_match<C: SubscriptionCriteria>(criteria: C, content: C::Content, accepted: bool) -> bool {
    call_ensures(C::matches, (&criteria, &content), accepted)
}

/// `id` is an identifier that `criteria.id()` can give.
pub open spec fn gives_id<C: SubscriptionCriteria>(criteria: C, id: Seq<char>) -> bool {
    exists|r: &String| call_ensures(C::id, (&criteria,), r) && r@ == id
}

/// Every identifier that `criteria.id()` can give is `id`: the criteria's
/// identifier is fixed.
pub open spec fn always_gives_id<C: SubscriptionCriteria>(criteria: C, id: Seq<char>) -> bool {
    forall|r: &String| #[trigger] call_ensures(C::id, (&criteria,), r) ==> r@ == id
}

/// A user's subscription with its criteria.
#[derive(Debug, Clone)]
pub struct Subscription<C> {
    pub user_id: String,
    pub criteria: C,
}

impl<C> Subscription<C> {
    /// Creates a subscription of `user_id` with `criteria`.
    pub fn new(user_id: String, criteria: C) -> (s: Self)
        ensures
            s.user_id == user_id,
            s.criteria == criteria,
    {
        Subscription { user_id, criteria }
    }
}

} // verus!
