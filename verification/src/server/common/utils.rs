//! Checking names for duplicates.

use vstd::prelude::*;
use crate::server::common::dto::ApiResponse;

verus! {

/// The message for a duplicate name of `resource_type`.
pub open spec fn duplicate_message(resource_type: Seq<char>) -> Seq<char> {
    resource_type + " with this name already exists"@
}

/// The 409 response if `new_name` is among `existing_names`, none otherwise.
pub fn check_duplicate_name(existing_names: &[String], new_name: &str, resource_type: &str) -> (conflict: Option<ApiResponse<()>>)
    ensures
        conflict is Some == existing_names@.map_values(|s: String| s@).contains(new_name@),
        conflict matches Some(r) ==> r.status == 409 && r.message@ == duplicate_message(resource_type@)
            && r.data is None,
{
    let name = String::from_str(new_name);
    let mut i: usize = 0;
    while i < existing_names.len()
        invariant
            i <= existing_names@.len(),
            name@ == new_name@,
            forall|j: int| 0 <= j < i ==> existing_names@[j]@ != new_name@,
        decreases existing_names@.len() - i,
    {
        if existing_names[i] == name {
            proof {
                assert(existing_names@.map_values(|s: String| s@)[i as int] == new_name@);
            }
            let mut message = String::from_str(resource_type);
            message.append(" with this name already exists");
            return Some(ApiResponse::error(409, message));
        }
        i = i + 1;
    }
    proof {
        let names = existing_names@.map_values(|s: String| s@);
        if names.contains(new_name@) {
            let j = choose|j: int| 0 <= j < names.len() && names[j] == new_name@;
            assert(existing_names@[j]@ == new_name@);
        }
    }
    None
}

} // verus!
