use vstd::prelude::*;

verus! {

/// Adds two integers; the caller keeps the sum within `u64`.
pub fn add(left: u64, right: u64) -> (sum: u64)
    requires
        left + right <= u64::MAX,
    ensures
        sum == left + right,
{
    left + right
}

} // verus!
