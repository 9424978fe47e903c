//! Order reduction shared by both kinds: an order `n != 0` is carried as
//! `|n| - 1`, which fits in 32 bits even for `i32::MIN`.
use vstd::prelude::*;

verus! {

/// `|n| - 1`, the number of recurrence steps above order one.
pub open spec fn reduced_order(n: i32) -> int {
    if n < 0 {
        -(n + 1)
    } else {
        n - 1
    }
}

/// Computes `|n| - 1` without forming `-n`.
pub fn reduce_order(n: i32) -> (r: u32)
    requires
        n != 0,
    ensures
        r == reduced_order(n),
{
    if n < 0 {
        (-(n + 1)) as u32
    } else {
        (n - 1) as u32
    }
}

} // verus!
