//! The per-lineage cursor and the decisions of one backfill or realtime tick.
//!
//! A lineage is one (asset, interval) pair. Its cursor `last` marks how far
//! the bars are synced. A backfill tick asks the provider for the window
//! `[last, last + window_length)`; when the provider answers, the cursor
//! moves to the window's end, or, once that end is past now, to now, and the
//! lineage is synchronized. A provider failure leaves the cursor as it was,
//! so the next tick asks for the same window.
use crate::clock::utc_now_ms;
use crate::state::Status as SyncState;
use vstd::prelude::*;
use vstd::string::*;

verus! {

/// The persisted cursor of one lineage.
#[derive(Clone, Debug)]
pub struct Status {
    pub asset: String,
    pub interval: String,
    pub last: i64,
    pub status: SyncState,
}

/// The mathematical content of a cursor.
pub struct CursorView {
    pub asset: Seq<char>,
    pub interval: Seq<char>,
    pub last: int,
    pub state: SyncState,
}

impl View for Status {
    type V = CursorView;

    open spec fn view(&self) -> CursorView {
        CursorView {
            asset: self.asset@,
            interval: self.interval@,
            last: self.last as int,
            state: self.status,
        }
    }
}

/// A time span `[from, to)` requested from the provider in one fetch.
#[derive(Clone, Copy, Debug, PartialEq, Eq, Structural)]
pub struct Window {
    pub from: i64,
    pub to: i64,
}

/// What a backfill tick reports to the scheduler.
#[derive(Clone, Copy, Debug, PartialEq, Eq, Structural)]
pub enum TickReport {
    /// Bars were fetched and the cursor is still behind now.
    Behind,
    /// Bars were fetched and the window reached past now: the lineage is synchronized.
    CaughtUp,
    /// The provider failed; the cursor is unchanged.
    FetchFailed,
}

/// A new cursor at the epoch start, not yet synced.
pub open spec fn initial_cursor(asset: Seq<char>, interval: Seq<char>, epoch_start: int) -> CursorView {
    CursorView { asset, interval, last: epoch_start, state: SyncState::Unsynchronized }
}

/// Moves the cursor to `new_last`; when the window ends after now, to now instead,
/// and the lineage is synchronized. A cursor that has a cursor record and is not
/// synchronized is pending; a synchronized one stays synchronized.
pub open spec fn advance_cursor(c: CursorView, new_last: int, window_end: int, now: int) -> CursorView {
    if window_end > now {
        CursorView { last: now, state: SyncState::Synchronized, ..c }
    } else if c.state == SyncState::Synchronized {
        CursorView { last: new_last, ..c }
    } else {
        CursorView { last: new_last, state: SyncState::Pending, ..c }
    }
}

/// The start of the next backfill window.
pub open spec fn window_from(c: CursorView) -> int {
    c.last
}

/// The end of the next backfill window.
pub open spec fn window_to(c: CursorView, window_length: int) -> int {
    c.last + window_length
}

/// The cursor after one backfill tick.
pub open spec fn backfill_cursor(c: CursorView, window_length: int, fetched: bool, now: int) -> CursorView {
    if fetched {
        let to = window_to(c, window_length);
        advance_cursor(c, to, to, now)
    } else {
        c
    }
}

/// The report of one backfill tick.
pub open spec fn backfill_report(c: CursorView, window_length: int, fetched: bool, now: int) -> TickReport {
    if !fetched {
        TickReport::FetchFailed
    } else if window_to(c, window_length) > now {
        TickReport::CaughtUp
    } else {
        TickReport::Behind
    }
}

/// The cursor after one realtime tick: moved to now when the provider answered.
pub open spec fn realtime_cursor(c: CursorView, fetched: bool, now: int) -> CursorView {
    if fetched {
        CursorView { last: now, ..c }
    } else {
        c
    }
}

/// A window fits the machine's instants.
pub open spec fn window_fits(c: CursorView, window_length: int) -> bool {
    i64::MIN <= window_to(c, window_length) <= i64::MAX
}

impl Status {
    /// A cursor for a lineage that has none yet: at the epoch start, unsynchronized.
    pub fn new(asset: &str, interval: &str, epoch_start: i64) -> (r: Status)
        ensures
            r@ == initial_cursor(asset@, interval@, epoch_start as int),
    {
        Status {
            asset: String::from_str(asset),
            interval: String::from_str(interval),
            last: epoch_start,
            status: SyncState::Unsynchronized,
        }
    }

    /// Sets the cursor to `new_last`, or clamps it to `now` and marks the
    /// lineage synchronized when `window_end` is past `now`.
    pub fn advance(&mut self, new_last: i64, window_end: i64, now: i64)
        ensures
            final(self)@ == advance_cursor(old(self)@, new_last as int, window_end as int, now as int),
    {
        if window_end > now {
            self.last = now;
            self.status = SyncState::Synchronized;
        } else {
            self.last = new_last;
            if self.status != SyncState::Synchronized {
                self.status = SyncState::Pending;
            }
        }
    }

    /// The next backfill window, `[last, last + window_length)`.
    pub fn backfill_window(&self, window_length: i64) -> (r: Window)
        requires
            window_fits(self@, window_length as int),
        ensures
            r.from == window_from(self@),
            r.to == window_to(self@, window_length as int),
    {
        Window { from: self.last, to: self.last + window_length }
    }
}

/// The stored cursor of a lineage, or a new one at the epoch start when there is none.
pub fn get_or_create(found: Option<Status>, asset: &str, interval: &str, epoch_start: i64) -> (r: Status)
    ensures
        found matches Some(c) ==> r == c,
        found is None ==> r@ == initial_cursor(asset@, interval@, epoch_start as int),
{
    match found {
        Some(c) => c,
        None => Status::new(asset, interval, epoch_start),
    }
}

/// The trailing window `[now - length, now]` that a realtime tick requests.
pub fn realtime_window(now: i64, length: i64) -> (r: Window)
    requires
        i64::MIN <= now - length <= i64::MAX,
    ensures
        r.from == now - length,
        r.to == now,
{
    Window { from: now - length, to: now }
}

/// Completes a backfill tick at time `now`, given whether the provider
/// answered for the cursor's window.
pub fn backfill_tick_at(cursor: &mut Status, window_length: i64, fetched: bool, now: i64) -> (r: TickReport)
    requires
        window_fits(old(cursor)@, window_length as int),
    ensures
        final(cursor)@ == backfill_cursor(old(cursor)@, window_length as int, fetched, now as int),
        r == backfill_report(old(cursor)@, window_length as int, fetched, now as int),
{
    if !fetched {
        return TickReport::FetchFailed;
    }
    let window = cursor.backfill_window(window_length);
    let caught_up = window.to > now;
    cursor.advance(window.to, window.to, now);
    if caught_up {
        TickReport::CaughtUp
    } else {
        TickReport::Behind
    }
}

/// Completes a backfill tick at the current time; `None`, changing nothing,
/// when the system clock cannot be read.
pub fn backfill_tick(cursor: &mut Status, window_length: i64, fetched: bool) -> (r: Option<TickReport>)
    requires
        window_fits(old(cursor)@, window_length as int),
    ensures
        r is None ==> final(cursor)@ == old(cursor)@,
        r matches Some(report) ==> exists|now: int|
            now >= 0 && final(cursor)@ == backfill_cursor(old(cursor)@, window_length as int, fetched, now)
                && report == backfill_report(old(cursor)@, window_length as int, fetched, now),
{
    match utc_now_ms() {
        Some(now) => Some(backfill_tick_at(cursor, window_length, fetched, now)),
        None => None,
    }
}

/// Completes a realtime tick at time `now`, given whether the provider answered.
pub fn realtime_tick_at(cursor: &mut Status, fetched: bool, now: i64)
    ensures
        final(cursor)@ == realtime_cursor(old(cursor)@, fetched, now as int),
{
    if fetched {
        cursor.last = now;
    }
}

} // verus!
