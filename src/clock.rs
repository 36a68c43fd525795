//! Instants are `i64` milliseconds since the Unix epoch, in UTC. The system
//! clock is read through std; the calendar work (rendering a date, finding
//! the start of a year) is done by chrono.
use vstd::prelude::*;

verus! {

pub const MS_PER_HOUR: i64 = 3_600_000;

pub const MS_PER_DAY: i64 = 86_400_000;

/// 0000-01-01T00:00:00.000Z.
pub const EARLIEST_MS: i64 = -62_167_219_200_000;

/// 9999-12-31T23:59:59.999Z.
pub const LATEST_MS: i64 = 253_402_300_799_999;

/// An instant whose year has four digits.
pub open spec fn in_calendar_range(ms: int) -> bool {
    EARLIEST_MS <= ms <= LATEST_MS
}

/// The `YYYY-MM-DD` text of the UTC date that holds the instant.
pub uninterp spec fn date_text_of(ms: int) -> Seq<char>;

/// The first instant of the UTC year that holds the instant.
pub uninterp spec fn year_start_of(ms: int) -> int;

/// Relies on std's `SystemTime::duration_since(UNIX_EPOCH)` applied to
/// `SystemTime::now()`: the milliseconds elapsed since the Unix epoch, or
/// `None` when the clock reads before the epoch or too far after it for an `i64`.
#[verifier::external_body]
pub fn utc_now_ms() -> (r: Option<i64>)
    ensures
        r matches Some(v) ==> v >= 0,
{
    match std::time::SystemTime::now().duration_since(std::time::UNIX_EPOCH) {
        Ok(elapsed) => i64::try_from(elapsed.as_millis()).ok(),
        Err(_) => None,
    }
}

/// Relies on chrono's `DateTime::from_timestamp_millis` and `DateTime::format`
/// with `%Y-%m-%d`: `None` only outside chrono's range, which holds every
/// four-digit year.
#[verifier::external_body]
pub fn date_text(ms: i64) -> (r: Option<String>)
    ensures
        in_calendar_range(ms as int) ==> r is Some,
        r matches Some(s) ==> s@ == date_text_of(ms as int),
{
    match chrono::DateTime::from_timestamp_millis(ms) {
        Some(t) => Some(t.format("%Y-%m-%d").to_string()),
        None => None,
    }
}

/// Relies on chrono's `DateTime::from_timestamp_millis`, `Datelike::year`,
/// `TimeZone::with_ymd_and_hms` on `Utc` and `DateTime::timestamp_millis`:
/// January 1st, midnight, of the instant's year; `None` only outside chrono's
/// range, which holds every four-digit year.
#[verifier::external_body]
pub fn year_start(ms: i64) -> (r: Option<i64>)
    ensures
        in_calendar_range(ms as int) ==> r is Some,
        r matches Some(v) ==> v == year_start_of(ms as int),
{
    match chrono::DateTime::from_timestamp_millis(ms) {
        Some(t) => match chrono::TimeZone::with_ymd_and_hms(&chrono::Utc, chrono::Datelike::year(&t), 1, 1, 0, 0, 0)
            .single() {
            Some(s) => Some(s.timestamp_millis()),
            None => None,
        },
        None => None,
    }
}

} // verus!
