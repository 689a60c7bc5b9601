use vstd::prelude::*;

verus! {

/// An HTTP status in the success class (200 to 299).
pub open spec fn is_success_spec(status: u16) -> bool {
    200 <= status && status < 300
}

/// Whether an HTTP status is in the success class.
pub fn is_success(status: u16) -> (r: bool)
    ensures
        r == is_success_spec(status),
{
    200 <= status && status < 300
}

} // verus!
