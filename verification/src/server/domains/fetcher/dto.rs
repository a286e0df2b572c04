//! Fetcher requests.

use vstd::prelude::*;

verus! {

/// A fetcher type.
#[derive(Debug, Clone)]
pub struct FetcherType {
    pub name: String,
}

/// Request to add a new fetcher.
#[derive(Debug, Clone)]
pub struct AddFetcherRequest {
    pub user_id: String,
    pub fetcher_name: String,
    pub fetcher_type: String,
}

/// Request to remove a fetcher.
#[derive(Debug, Clone)]
pub struct RemoveFetcherRequest {
    pub user_id: String,
    pub fetcher_name: String,
}

} // verus!
