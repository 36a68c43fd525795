//! The catalog's record of a tracked instrument and its sync metadata.
use crate::base::Status;
use crate::clock::{in_calendar_range, year_start, year_start_of, MS_PER_DAY};
use crate::cursor::Status as Cursor;
use crate::state::Status as SyncState;
use vstd::prelude::*;

verus! {

/// How far back a newly tracked asset starts syncing, in days before now;
/// the start is moved back to January 1st of that year.
pub const HISTORY_DAYS: i64 = 3650;

/// Sync metadata of an asset: its cursor, the provider's symbol for it, and
/// whether it has caught up with now.
#[derive(Clone, Debug)]
pub struct AssetSync {
    pub last: i64,
    pub symbol: String,
    pub synchronized: bool,
}

/// A tracked instrument. `id` is the store's identifier in hex.
#[derive(Clone, Debug)]
pub struct Asset {
    pub id: String,
    pub status: Status,
    pub sync: AssetSync,
    pub ticker: String,
    pub watchlist: bool,
}

impl AssetSync {
    /// Mirrors a lineage cursor into the asset's sync metadata.
    pub fn record(&mut self, cursor: &Cursor)
        ensures
            final(self).last == cursor.last,
            final(self).synchronized == (cursor.status == SyncState::Synchronized),
            final(self).symbol == old(self).symbol,
    {
        self.last = cursor.last;
        self.synchronized = cursor.status == SyncState::Synchronized;
    }
}

/// The instant from which a newly tracked asset starts syncing: the start of
/// the year that holds the instant `HISTORY_DAYS` days before `now`.
pub fn initial_sync_start(now: i64) -> (r: Option<i64>)
    requires
        now - HISTORY_DAYS * MS_PER_DAY >= i64::MIN,
    ensures
        in_calendar_range(now - HISTORY_DAYS * MS_PER_DAY) ==> r is Some,
        r matches Some(v) ==> v == year_start_of(now - HISTORY_DAYS * MS_PER_DAY),
{
    year_start(now - HISTORY_DAYS * MS_PER_DAY)
}

} // verus!
