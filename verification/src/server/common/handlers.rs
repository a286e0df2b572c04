//! The response of the health check.

use vstd::prelude::*;
use crate::server::common::dto::{ApiResponse, ok_message};

verus! {

/// The health check's response: 200 with a fixed message.
pub fn health_check_response() -> (r: ApiResponse<()>)
    ensures
        r.status == 200,
        r.message@ == "Watchdog API server is running"@,
        r.data is None,
{
    ok_message("Watchdog API server is running")
}

} // verus!
