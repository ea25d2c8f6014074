//! The time at which an operation runs.

use vstd::prelude::*;

verus! {

/// The current slot and wall-clock time, as the runtime reports them
/// to the operation that is being processed.
#[derive(Clone, Copy, Debug, PartialEq, Eq)]
pub struct Clock {
    /// The current slot.
    pub slot: u64,
    /// The current time in seconds since the Unix epoch.
    pub unix_timestamp: i64,
}

} // verus!
