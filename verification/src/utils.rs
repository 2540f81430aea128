//! Deadline arithmetic over plain time values.
//!
//! The clock itself is an external collaborator: callers read the current
//! time there and hand it in as `now`.

use vstd::prelude::*;

verus! {

/// Utility functions for the escrow service.
pub struct Utils;

impl Utils {
    /// Deadline for a transaction: the current time plus a duration.
    /// Saturates at the largest representable time value on overflow.
    pub fn calculate_deadline(now: u64, duration: u64) -> (r: u64)
        ensures
            now + duration <= u64::MAX ==> r == now + duration,
            now + duration > u64::MAX ==> r == u64::MAX,
    {
        if duration > u64::MAX - now {
            u64::MAX
        } else {
            now + duration
        }
    }

    /// Whether the current time is strictly past the given deadline.
    pub fn is_past_deadline(now: u64, deadline: u64) -> (r: bool)
        ensures
            r == (now > deadline),
    {
        now > deadline
    }
}

} // verus!
