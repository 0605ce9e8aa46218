//! Classification of HTTP status codes observed on the webhook response.

use vstd::prelude::*;

verus! {

/// A status code counts as success exactly when it lies in the 2xx range.
pub open spec fn is_success_code(status: u16) -> bool {
    200 <= status < 300
}

/// Decides whether a response status means the webhook was delivered:
/// any 2xx status is success, every other status is a failure.
pub fn status_is_success(status: u16) -> (r: bool)
    ensures
        r == is_success_code(status),
{
    200 <= status && status < 300
}

} // verus!
