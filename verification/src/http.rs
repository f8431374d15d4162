use vstd::prelude::*;

verus! {

/// Whether an HTTP status code lies in the success range (2xx).
pub open spec fn spec_is_success(status: u16) -> bool {
    200 <= status < 300
}

/// Success test on an HTTP status code; both clients of the pipeline treat
/// exactly the 2xx range as success.
pub fn is_success(status: u16) -> (r: bool)
    ensures
        r == spec_is_success(status),
{
    200 <= status && status < 300
}

} // verus!
