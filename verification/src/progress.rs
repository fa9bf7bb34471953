//! Transfer-progress arithmetic.
//!
//! During a clone or fetch the caller receives `(received_objects,
//! total_objects)` samples and renders them as a percentage. The division
//! lives here so that it is proved safe for every sample, including the
//! `total_objects == 0` case that a remote can report before counting.

use vstd::prelude::*;

verus! {

/// The percentage that a `(received, total)` progress sample stands for:
/// zero while the total is still unknown, and never above one hundred.
pub open spec fn spec_percentage(received: nat, total: nat) -> nat {
    if total == 0 {
        0
    } else if received >= total {
        100
    } else {
        (100 * received) / total
    }
}

/// Percentage of objects received so far, tolerating `total == 0`.
pub fn progress_percentage(received: usize, total: usize) -> (p: usize)
    ensures
        p == spec_percentage(received as nat, total as nat),
        p <= 100,
{
    if total == 0 {
        0
    } else if received >= total {
        100
    } else {
        let wide: u128 = (received as u128) * 100 / (total as u128);
        proof {
            assert(100 * (received as int) / (total as int) < 100) by (nonlinear_arith)
                requires
                    0 < total,
                    received < total,
            ;
        }
        wide as usize
    }
}

} // verus!
