//! Paging of list requests.

use vstd::prelude::*;

verus! {

/// How many entries a page holds when the request does not say.
pub fn default_limit() -> (n: i64)
    ensures
        n == 50,
{
    50
}

/// Where a page starts when the request does not say.
pub fn default_offset() -> (n: i64)
    ensures
        n == 0,
{
    0
}

} // verus!
