use market_sync::bar::{AggregateTickerResponseResult, Data};
use market_sync::clock::{date_text, utc_now_ms, MS_PER_DAY, MS_PER_HOUR};
use market_sync::cursor::{
    backfill_tick, backfill_tick_at, get_or_create, realtime_tick_at, realtime_window,
    Status, TickReport, Window,
};
use market_sync::request::{aggregate_request, copy_response};
use market_sync::state::Status as SyncState;
use market_sync::store::{apply_backfill_tick, BarStore};
use market_sync::timeframe::{Timeframe, Timespan};

const JAN_1_2020: i64 = 1_577_836_800_000;
const JAN_31_2020: i64 = JAN_1_2020 + 30 * MS_PER_DAY;
const MAR_1_2020: i64 = JAN_1_2020 + 60 * MS_PER_DAY;
const MAR_5_2020: i64 = JAN_1_2020 + 64 * MS_PER_DAY;
const WINDOW: i64 = 30 * MS_PER_DAY;

fn aggregate(timestamp: i64, open: i64, close: i64) -> AggregateTickerResponseResult {
    AggregateTickerResponseResult {
        close,
        high: close.max(open),
        low: close.min(open),
        open,
        timestamp,
        transaction_numbers: 1,
        volume: 1_000_000,
        volume_weighted: close,
    }
}

/// A provider that answers every window with one bar a day.
fn daily_bars(window: Window) -> Vec<Data> {
    let mut out = Vec::new();
    let mut t = window.from;
    while t < window.to {
        out.push(Data::from_result(&aggregate(t, 100_000_000, 101_000_000), Timeframe::OneDay));
        t += MS_PER_DAY;
    }
    out
}

#[test]
fn new_cursor_starts_unsynchronized_at_epoch() {
    let c = get_or_create(None, "XAUUSD", "1m", JAN_1_2020);
    assert_eq!(c.asset, "XAUUSD");
    assert_eq!(c.interval, "1m");
    assert_eq!(c.last, JAN_1_2020);
    assert_eq!(c.status, SyncState::Unsynchronized);
}

#[test]
fn stored_cursor_is_returned_unchanged() {
    let stored = Status { asset: "XAUUSD".to_string(), interval: "1m".to_string(), last: 42, status: SyncState::Pending };
    let c = get_or_create(Some(stored), "XAUUSD", "1m", JAN_1_2020);
    assert_eq!(c.last, 42);
    assert_eq!(c.status, SyncState::Pending);
}

#[test]
fn advance_moves_cursor_and_marks_pending() {
    let mut c = Status::new("XAUUSD", "1m", JAN_1_2020);
    c.advance(JAN_31_2020, JAN_31_2020, MAR_5_2020);
    assert_eq!(c.last, JAN_31_2020);
    assert_eq!(c.status, SyncState::Pending);
}

#[test]
fn advance_past_now_clamps_and_synchronizes() {
    let mut c = Status::new("XAUUSD", "1m", MAR_1_2020);
    c.advance(MAR_1_2020 + WINDOW, MAR_1_2020 + WINDOW, MAR_5_2020);
    assert_eq!(c.last, MAR_5_2020);
    assert_eq!(c.status, SyncState::Synchronized);
}

#[test]
fn backfill_of_two_months_takes_three_ticks() {
    let mut store = BarStore::new();
    let mut c = Status::new("XAUUSD", "1d", JAN_1_2020);
    let mut windows = Vec::new();
    let mut reports = Vec::new();
    while c.status != SyncState::Synchronized {
        let w = c.backfill_window(WINDOW);
        windows.push(w);
        let bars = daily_bars(w);
        reports.push(apply_backfill_tick(&mut store, &mut c, WINDOW, &Some(bars), MAR_5_2020));
        assert!(reports.len() <= 10);
    }
    assert_eq!(
        windows,
        vec![
            Window { from: JAN_1_2020, to: JAN_31_2020 },
            Window { from: JAN_31_2020, to: MAR_1_2020 },
            Window { from: MAR_1_2020, to: MAR_1_2020 + WINDOW },
        ]
    );
    assert_eq!(reports, vec![TickReport::Behind, TickReport::Behind, TickReport::CaughtUp]);
    assert_eq!(c.last, MAR_5_2020);
    assert_eq!(c.status, SyncState::Synchronized);
    assert_eq!(store.len(), 90);
}

#[test]
fn backfill_tick_count_is_ceiling_of_span_over_window() {
    // 100 days at 7-day windows: ceil(100 / 7) = 15 ticks.
    let now = JAN_1_2020 + 100 * MS_PER_DAY;
    let window = 7 * MS_PER_DAY;
    let mut c = Status::new("EURUSD", "1h", JAN_1_2020);
    let mut ticks = 0;
    let mut last = c.last;
    while c.status != SyncState::Synchronized {
        backfill_tick_at(&mut c, window, true, now);
        assert!(c.last >= last);
        last = c.last;
        ticks += 1;
    }
    assert_eq!(ticks, 15);
    assert_eq!(c.last, now);
}

#[test]
fn whole_number_of_windows_needs_one_more_tick() {
    // 60 days at 30-day windows: the second window ends exactly at now, which
    // is not past it, so a third tick is needed.
    let mut c = Status::new("EURUSD", "1h", JAN_1_2020);
    assert_eq!(backfill_tick_at(&mut c, WINDOW, true, MAR_1_2020), TickReport::Behind);
    assert_eq!(backfill_tick_at(&mut c, WINDOW, true, MAR_1_2020), TickReport::Behind);
    assert_eq!(c.status, SyncState::Pending);
    assert_eq!(backfill_tick_at(&mut c, WINDOW, true, MAR_1_2020), TickReport::CaughtUp);
    assert_eq!(c.last, MAR_1_2020);
}

#[test]
fn epoch_at_now_catches_up_in_one_tick() {
    let mut c = Status::new("EURUSD", "1h", MAR_5_2020);
    assert_eq!(backfill_tick_at(&mut c, WINDOW, true, MAR_5_2020), TickReport::CaughtUp);
    assert_eq!(c.last, MAR_5_2020);
    assert_eq!(c.status, SyncState::Synchronized);
}

#[test]
fn same_window_twice_stores_no_duplicates() {
    let mut store = BarStore::new();
    let bars = daily_bars(Window { from: JAN_1_2020, to: JAN_31_2020 });
    assert_eq!(store.upsert_all(&bars), 30);
    let first = store.list();
    assert_eq!(store.upsert_all(&bars), 0);
    assert_eq!(store.list(), first);
    assert_eq!(store.len(), 30);
}

#[test]
fn overlapping_windows_store_each_bar_once() {
    let mut store = BarStore::new();
    store.upsert_all(&daily_bars(Window { from: JAN_1_2020, to: JAN_31_2020 }));
    let added = store.upsert_all(&daily_bars(Window { from: JAN_1_2020 + 20 * MS_PER_DAY, to: MAR_1_2020 }));
    assert_eq!(added, 30);
    assert_eq!(store.len(), 60);
}

#[test]
fn same_instant_other_timeframe_is_another_bar() {
    let mut store = BarStore::new();
    let daily = Data::from_result(&aggregate(JAN_1_2020, 100_000_000, 101_000_000), Timeframe::OneDay);
    let hourly = Data::from_result(&aggregate(JAN_1_2020, 100_000_000, 101_000_000), Timeframe::OneHour);
    assert!(store.upsert(daily));
    assert!(store.upsert(hourly));
    assert!(!store.upsert(daily));
    assert!(store.contains_key(&hourly));
    assert_eq!(store.len(), 2);
}

#[test]
fn failed_fetch_keeps_cursor_and_retries_window() {
    let mut store = BarStore::new();
    let mut c = Status::new("XAUUSD", "1d", JAN_1_2020);
    let first = Some(daily_bars(c.backfill_window(WINDOW)));
    apply_backfill_tick(&mut store, &mut c, WINDOW, &first, MAR_5_2020);
    let before = c.clone();
    let window_before = c.backfill_window(WINDOW);
    let report = apply_backfill_tick(&mut store, &mut c, WINDOW, &None, MAR_5_2020);
    assert_eq!(report, TickReport::FetchFailed);
    assert_eq!(c.last, before.last);
    assert_eq!(c.status, before.status);
    assert_eq!(store.len(), 30);
    assert_eq!(c.backfill_window(WINDOW), window_before);
    assert_eq!(window_before, Window { from: JAN_31_2020, to: MAR_1_2020 });
}

#[test]
fn synchronized_cursor_follows_realtime_ticks() {
    let mut c = Status::new("XAUUSD", "1m", MAR_1_2020);
    backfill_tick_at(&mut c, WINDOW, true, MAR_5_2020);
    assert_eq!(c.status, SyncState::Synchronized);
    realtime_tick_at(&mut c, true, MAR_5_2020 + MS_PER_HOUR);
    assert_eq!(c.last, MAR_5_2020 + MS_PER_HOUR);
    realtime_tick_at(&mut c, false, MAR_5_2020 + 2 * MS_PER_HOUR);
    assert_eq!(c.last, MAR_5_2020 + MS_PER_HOUR);
    backfill_tick_at(&mut c, WINDOW, true, MAR_5_2020 + 3 * MS_PER_HOUR);
    assert_eq!(c.status, SyncState::Synchronized);
    assert_eq!(c.last, MAR_5_2020 + 3 * MS_PER_HOUR);
}

#[test]
fn realtime_window_trails_now_by_six_hours() {
    assert_eq!(
        realtime_window(MAR_5_2020, 6 * MS_PER_HOUR),
        Window { from: MAR_5_2020 - 6 * MS_PER_HOUR, to: MAR_5_2020 }
    );
}

#[test]
fn ticks_at_the_current_time() {
    let start = utc_now_ms().unwrap();
    let mut c = Status::new("XAUUSD", "1m", start - 40 * MS_PER_DAY);
    assert_eq!(backfill_tick(&mut c, WINDOW, true), Some(TickReport::Behind));
    assert_eq!(c.last, start - 10 * MS_PER_DAY);
    assert_eq!(backfill_tick(&mut c, WINDOW, true), Some(TickReport::CaughtUp));
    assert!(c.last >= start);
    assert_eq!(c.status, SyncState::Synchronized);
}

#[test]
fn request_for_first_window_uses_dates() {
    let w = Window { from: JAN_1_2020, to: JAN_31_2020 };
    let q = aggregate_request("C:XAUUSD", Timeframe::FiveMinutes, w).unwrap();
    assert_eq!(q.from, "2020-01-01");
    assert_eq!(q.to, "2020-01-31");
    assert_eq!(q.ticker, "C:XAUUSD");
    assert_eq!(q.key, "");
    assert_eq!(q.multiplier, 5);
    assert_eq!(q.timespan, Timespan::Minute);
}

#[test]
fn date_text_renders_utc_date() {
    assert_eq!(date_text(MAR_5_2020 + 23 * MS_PER_HOUR).unwrap(), "2020-03-05");
    assert_eq!(date_text(0).unwrap(), "1970-01-01");
    assert_eq!(date_text(-1).unwrap(), "1969-12-31");
}

#[test]
fn copy_response_reports_fetch() {
    let ok = copy_response(true);
    assert!(ok.result);
    assert_eq!(ok.response, "Trading data has been copied successfully.");
    let failed = copy_response(false);
    assert!(!failed.result);
    assert_eq!(failed.response, "Failed to retrieve trading data.");
}
