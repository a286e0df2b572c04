//! The result of fetching content from an external source.

use std::collections::HashMap;
use vstd::prelude::*;

verus! {

/// Result of a fetch operation.
#[derive(Debug, Clone)]
pub struct FetchResult<T> {
    pub content: T,
    pub metadata: HashMap<String, String>,
    pub timestamp: u64,
}

} // verus!
