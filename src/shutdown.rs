//! The shutdown coordinator's time budget.
use vstd::prelude::*;

verus! {

/// Total time the root waits for its children after the stop signal.
pub const GRACE_PERIOD_MILLIS: u64 = 5000;

/// What is left of the grace period after `elapsed_millis`.
pub fn remaining_grace(elapsed_millis: u64) -> (r: u64)
    ensures
        r == (if elapsed_millis < GRACE_PERIOD_MILLIS {
            (GRACE_PERIOD_MILLIS - elapsed_millis) as u64
        } else {
            0
        }),
{
    if elapsed_millis < GRACE_PERIOD_MILLIS {
        GRACE_PERIOD_MILLIS - elapsed_millis
    } else {
        0
    }
}

} // verus!
