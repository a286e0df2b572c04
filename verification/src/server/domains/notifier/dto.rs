//! Notifier requests and responses.

use vstd::prelude::*;

verus! {

/// A notifier type.
#[derive(Debug, Clone)]
pub struct NotifierType {
    pub name: String,
}

/// Request to add a new notifier.
#[derive(Debug, Clone)]
pub struct AddNotifierRequest {
    pub user_id: String,
    pub notifier_name: String,
    pub notifier_type: String,
    pub email_address: Option<String>,
}

/// Request to remove a notifier.
#[derive(Debug, Clone)]
pub struct RemoveNotifierRequest {
    pub user_id: String,
    pub notifier_name: String,
}

/// Response for getting a user's current notifier.
#[derive(Debug, Clone)]
pub struct UserNotifierResponse {
    pub user_id: String,
    pub notifier_name: String,
    pub notifier_type: String,
}

} // verus!
