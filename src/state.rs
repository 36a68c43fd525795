//! The tri-state synchronization status of a lineage.
use vstd::prelude::*;

verus! {

/// Where a lineage stands: never synced, backfilling, or caught up with now.
#[derive(Clone, Copy, Debug, PartialEq, Eq, Structural)]
pub enum Status {
    Pending,
    Synchronized,
    Unsynchronized,
}

impl Default for Status {
    fn default() -> (r: Status)
        ensures
            r == Status::Unsynchronized,
    {
        Status::Unsynchronized
    }
}

} // verus!
