//! Notifications, and the notifiers that deliver them.

use vstd::prelude::*;
use crate::clock::{reading_seconds, unix_timestamp_now};
use std::time::{Duration, SystemTimeError};

pub mod actor;
pub mod composition;
pub mod console;
pub mod email;
pub mod registry;

pub use composition::CompositeNotifier;
pub use console::ConsoleNotifier;
pub use email::EmailNotifier;
pub use registry::NotifierRegistry;

verus! {

/// A notification to be sent to a user.
#[derive(Debug, Clone)]
pub struct Notification<T> {
    pub user_id: String,
    pub title: String,
    pub content: T,
    pub timestamp: u64,
}

/// The title of the notifications that a content update produces.
pub open spec fn subscription_update_title() -> Seq<char> {
    "Subscription Update"@
}

impl<T> Notification<T> {
    /// A notification stamped with the current time in seconds since the Unix epoch.
    pub fn new(user_id: String, title: String, content: T) -> (n: Self)
        ensures
            n.user_id == user_id,
            n.title == title,
            n.content == content,
            exists|since: Result<Duration, SystemTimeError>| n.timestamp == reading_seconds(since),
    {
        Notification { user_id, title, content, timestamp: unix_timestamp_now() }
    }

    /// The notification that tells `user_id` of new content matching one of
    /// their subscriptions.
    pub fn subscription_update(user_id: String, content: T, timestamp: u64) -> (n: Self)
        ensures
            n.user_id == user_id,
            n.title@ == subscription_update_title(),
            n.content == content,
            n.timestamp == timestamp,
    {
        Notification {
            user_id,
            title: String::from_str("Subscription Update"),
            content,
            timestamp,
        }
    }
}

} // verus!
