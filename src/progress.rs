//! How a lineage's cursor evolves over many ticks.
use crate::cursor::{
    backfill_cursor, backfill_report, initial_cursor, realtime_cursor, window_from, window_to,
    window_fits, CursorView, TickReport,
};
use crate::state::Status as SyncState;
use vstd::prelude::*;

verus! {

/// One tick of a lineage: which path ran, whether the provider answered, and
/// the wall-clock time at which the tick completed.
pub enum Tick {
    Backfill { fetched: bool, now: int },
    Realtime { fetched: bool, now: int },
}

pub open spec fn tick_now(t: Tick) -> int {
    match t {
        Tick::Backfill { now, .. } => now,
        Tick::Realtime { now, .. } => now,
    }
}

pub open spec fn apply_tick(c: CursorView, window_length: int, t: Tick) -> CursorView {
    match t {
        Tick::Backfill { fetched, now } => backfill_cursor(c, window_length, fetched, now),
        Tick::Realtime { fetched, now } => realtime_cursor(c, fetched, now),
    }
}

/// The cursor after the ticks `ts`, in order.
pub open spec fn run_ticks(c: CursorView, window_length: int, ts: Seq<Tick>) -> CursorView
    decreases ts.len(),
{
    if ts.len() == 0 {
        c
    } else {
        apply_tick(run_ticks(c, window_length, ts.drop_last()), window_length, ts.last())
    }
}

/// The ticks complete at non-decreasing wall-clock times, none before the cursor.
pub open spec fn clock_ordered(c: CursorView, ts: Seq<Tick>) -> bool {
    &&& forall|i: int, j: int| 0 <= i <= j < ts.len() ==> tick_now(ts[i]) <= tick_now(ts[j])
    &&& ts.len() > 0 ==> c.last <= tick_now(ts[0])
}

/// Successful backfill ticks at a fixed `now`, the way the scheduler runs
/// them: ticking stops once the lineage is synchronized.
pub open spec fn backfill_run(c: CursorView, window_length: int, now: int, k: nat) -> CursorView
    decreases k,
{
    if k == 0 {
        c
    } else {
        let before = backfill_run(c, window_length, now, (k - 1) as nat);
        if before.state == SyncState::Synchronized {
            before
        } else {
            backfill_cursor(before, window_length, true, now)
        }
    }
}

proof fn lemma_tick_moves_forward(c: CursorView, window_length: int, t: Tick)
    requires
        window_length > 0,
        c.last <= tick_now(t),
    ensures
        c.last <= apply_tick(c, window_length, t).last <= tick_now(t),
{
}

proof fn lemma_run_moves_forward(c: CursorView, window_length: int, ts: Seq<Tick>)
    requires
        window_length > 0,
        clock_ordered(c, ts),
    ensures
        ts.len() > 0 ==> run_ticks(c, window_length, ts).last <= tick_now(ts.last()),
        forall|j: int|
            0 <= j <= ts.len() ==> #[trigger] run_ticks(c, window_length, ts.take(j)).last <= run_ticks(
                c,
                window_length,
                ts,
            ).last,
    decreases ts.len(),
{
    assert(ts.take(ts.len() as int) =~= ts);
    if ts.len() > 0 {
        let rest = ts.drop_last();
        assert(clock_ordered(c, rest));
        lemma_run_moves_forward(c, window_length, rest);
        let before = run_ticks(c, window_length, rest);
        if rest.len() > 0 {
            assert(tick_now(rest.last()) <= tick_now(ts.last()));
        } else {
            assert(before == c);
        }
        lemma_tick_moves_forward(before, window_length, ts.last());
        assert forall|j: int| 0 <= j <= ts.len() implies #[trigger] run_ticks(
            c,
            window_length,
            ts.take(j),
        ).last <= run_ticks(c, window_length, ts).last by {
            if j < ts.len() {
                assert(ts.take(j) =~= rest.take(j));
            }
        }
    }
}

/// Whatever the ticks, backfill or realtime, answered or failed, the cursor
/// never moves back, provided the clock does not run backwards and starts
/// no earlier than the cursor.
pub proof fn lemma_cursor_monotone(c: CursorView, window_length: int, ts: Seq<Tick>)
    requires
        window_length > 0,
        clock_ordered(c, ts),
    ensures
        forall|j: int, k: int|
            0 <= j <= k <= ts.len() ==> run_ticks(c, window_length, ts.take(j)).last <= run_ticks(
                c,
                window_length,
                ts.take(k),
            ).last,
{
    assert forall|j: int, k: int| 0 <= j <= k <= ts.len() implies run_ticks(
        c,
        window_length,
        ts.take(j),
    ).last <= run_ticks(c, window_length, ts.take(k)).last by {
        let tk = ts.take(k);
        assert(clock_ordered(c, tk));
        lemma_run_moves_forward(c, window_length, tk);
        assert(tk.take(j) =~= ts.take(j));
    }
}

proof fn lemma_backfill_run_steps(c: CursorView, window_length: int, now: int, k: nat)
    requires
        window_length > 0,
        c.last <= now,
        c.state != SyncState::Synchronized,
        k <= (now - c.last) / window_length,
    ensures
        backfill_run(c, window_length, now, k).state != SyncState::Synchronized,
        backfill_run(c, window_length, now, k).last == c.last + k * window_length,
    decreases k,
{
    let q = (now - c.last) / window_length;
    assert(q * window_length <= now - c.last) by {
        vstd::arithmetic::div_mod::lemma_fundamental_div_mod(now - c.last, window_length);
    }
    if k > 0 {
        lemma_backfill_run_steps(c, window_length, now, (k - 1) as nat);
        assert(k * window_length <= q * window_length) by (nonlinear_arith)
            requires
                k <= q,
                window_length > 0,
        ;
        assert((k - 1) * window_length + window_length == k * window_length) by (nonlinear_arith);
        let before = backfill_run(c, window_length, now, (k - 1) as nat);
        assert(window_to(before, window_length) == c.last + k * window_length);
        assert(window_to(before, window_length) <= now);
    } else {
        assert(k * window_length == 0) by (nonlinear_arith)
            requires
                k == 0,
        ;
    }
}

proof fn lemma_backfill_run_settles(c: CursorView, window_length: int, now: int, k: nat, m: nat)
    requires
        backfill_run(c, window_length, now, k).state == SyncState::Synchronized,
        k <= m,
    ensures
        backfill_run(c, window_length, now, m) == backfill_run(c, window_length, now, k),
    decreases m,
{
    if m > k {
        lemma_backfill_run_settles(c, window_length, now, k, (m - 1) as nat);
    }
}

/// With a provider that always answers and the clock at `now`, a lineage
/// that is not yet synchronized and whose cursor is at or before now is
/// behind for `(now - last) / window_length` ticks, each moving the cursor
/// by one window, and synchronized by the next tick, with the cursor at now.
pub proof fn lemma_backfill_reaches_now(c: CursorView, window_length: int, now: int)
    requires
        window_length > 0,
        c.last <= now,
        c.state != SyncState::Synchronized,
    ensures
        forall|k: nat|
            k <= (now - c.last) / window_length ==> #[trigger] backfill_run(
                c,
                window_length,
                now,
                k,
            ).state != SyncState::Synchronized && backfill_run(c, window_length, now, k).last == c.last
                + k * window_length,
        backfill_run(c, window_length, now, ((now - c.last) / window_length + 1) as nat).state
            == SyncState::Synchronized,
        backfill_run(c, window_length, now, ((now - c.last) / window_length + 1) as nat).last == now,
{
    let q = (now - c.last) / window_length;
    assert(q >= 0) by {
        vstd::arithmetic::div_mod::lemma_div_pos_is_pos(now - c.last, window_length);
    }
    assert forall|k: nat| k <= q implies #[trigger] backfill_run(
        c,
        window_length,
        now,
        k,
    ).state != SyncState::Synchronized && backfill_run(c, window_length, now, k).last == c.last + k
        * window_length by {
        lemma_backfill_run_steps(c, window_length, now, k);
    }
    lemma_backfill_run_steps(c, window_length, now, q as nat);
    assert(now - c.last < q * window_length + window_length) by {
        vstd::arithmetic::div_mod::lemma_fundamental_div_mod(now - c.last, window_length);
        vstd::arithmetic::div_mod::lemma_mod_bound(now - c.last, window_length);
    }
    assert(c.last + q * window_length + window_length > now);
}

/// From a new cursor at `epoch_start`, with a provider that always answers
/// and the clock at `now`, the lineage becomes synchronized after exactly
/// ⌈(now − epoch_start) / window_length⌉ ticks, when that quotient is not a
/// whole number, and the cursor is non-decreasing throughout.
pub proof fn lemma_backfill_tick_count(
    asset: Seq<char>,
    interval: Seq<char>,
    epoch_start: int,
    window_length: int,
    now: int,
)
    requires
        window_length > 0,
        epoch_start <= now,
        (now - epoch_start) % window_length != 0,
    ensures
        ({
            let c = initial_cursor(asset, interval, epoch_start);
            let n = (now - epoch_start + window_length - 1) / window_length;
            &&& n >= 1
            &&& forall|k: nat|
                k < n ==> #[trigger] backfill_run(c, window_length, now, k).state
                    != SyncState::Synchronized
            &&& backfill_run(c, window_length, now, n as nat).state == SyncState::Synchronized
            &&& backfill_run(c, window_length, now, n as nat).last == now
            &&& forall|j: nat, k: nat|
                #![trigger backfill_run(c, window_length, now, j), backfill_run(c, window_length, now, k)]
                j <= k ==> backfill_run(c, window_length, now, j).last <= backfill_run(
                    c,
                    window_length,
                    now,
                    k,
                ).last
        }),
{
    let c = initial_cursor(asset, interval, epoch_start);
    let d = now - epoch_start;
    let q = d / window_length;
    let r = d % window_length;
    assert(d == q * window_length + r && 0 <= r < window_length) by {
        vstd::arithmetic::div_mod::lemma_fundamental_div_mod(d, window_length);
        vstd::arithmetic::div_mod::lemma_mod_bound(d, window_length);
    }
    assert(q >= 0) by {
        vstd::arithmetic::div_mod::lemma_div_pos_is_pos(d, window_length);
    }
    assert((d + window_length - 1) / window_length == q + 1) by {
        assert(d + window_length - 1 == (q + 1) * window_length + (r - 1)) by (nonlinear_arith)
            requires
                d == q * window_length + r,
        ;
        vstd::arithmetic::div_mod::lemma_div_basics(window_length);
        vstd::arithmetic::div_mod::lemma_fundamental_div_mod_converse(
            d + window_length - 1,
            window_length,
            q + 1,
            r - 1,
        );
    }
    lemma_backfill_reaches_now(c, window_length, now);
    let n = q + 1;
    assert forall|j: nat, k: nat|
        #![trigger backfill_run(c, window_length, now, j), backfill_run(c, window_length, now, k)]
        j <= k implies backfill_run(c, window_length, now, j).last <= backfill_run(
            c,
            window_length,
            now,
            k,
        ).last by {
        if k <= q {
            assert(j * window_length <= k * window_length) by (nonlinear_arith)
                requires
                    j <= k,
                    window_length > 0,
            ;
            lemma_backfill_run_steps(c, window_length, now, j);
            lemma_backfill_run_steps(c, window_length, now, k);
        } else {
            lemma_backfill_run_settles(c, window_length, now, n as nat, k);
            if j <= q {
                assert(j * window_length <= q * window_length) by (nonlinear_arith)
                    requires
                        j <= q,
                        window_length > 0,
                ;
                lemma_backfill_run_steps(c, window_length, now, j);
            } else {
                lemma_backfill_run_settles(c, window_length, now, n as nat, j);
            }
        }
    }
}

/// While a lineage backfills towards `now`, every window it requests fits
/// the machine's instants as long as one window past now does: the
/// executable tick can run each step of `backfill_run`.
pub proof fn lemma_backfill_windows_fit(c: CursorView, window_length: int, now: int)
    requires
        window_length > 0,
        i64::MIN <= c.last <= now,
        now + window_length <= i64::MAX,
        c.state != SyncState::Synchronized,
    ensures
        forall|k: nat|
            k <= (now - c.last) / window_length ==> window_fits(
                #[trigger] backfill_run(c, window_length, now, k),
                window_length,
            ),
{
    assert forall|k: nat| k <= (now - c.last) / window_length implies window_fits(
        #[trigger] backfill_run(c, window_length, now, k),
        window_length,
    ) by {
        let q = (now - c.last) / window_length;
        lemma_backfill_run_steps(c, window_length, now, k);
        assert(q * window_length <= now - c.last) by {
            vstd::arithmetic::div_mod::lemma_fundamental_div_mod(now - c.last, window_length);
            vstd::arithmetic::div_mod::lemma_mod_bound(now - c.last, window_length);
        }
        assert(k * window_length <= q * window_length) by (nonlinear_arith)
            requires
                k <= q,
                window_length > 0,
        ;
        assert(k * window_length >= 0) by (nonlinear_arith)
            requires
                window_length > 0,
        ;
    }
}

/// A tick whose fetch failed leaves the cursor as it was, so the next tick
/// requests the same window.
pub proof fn lemma_failed_tick_keeps_window(c: CursorView, window_length: int, now: int)
    ensures
        backfill_cursor(c, window_length, false, now) == c,
        backfill_report(c, window_length, false, now) == TickReport::FetchFailed,
        window_from(backfill_cursor(c, window_length, false, now)) == window_from(c),
        window_to(backfill_cursor(c, window_length, false, now), window_length) == window_to(
            c,
            window_length,
        ),
{
}

/// A synchronized lineage stays synchronized whatever ticks follow, and each
/// answered realtime tick leaves its cursor at the time of that tick.
pub proof fn lemma_synchronized_is_final(c: CursorView, window_length: int, ts: Seq<Tick>)
    requires
        c.state == SyncState::Synchronized,
    ensures
        run_ticks(c, window_length, ts).state == SyncState::Synchronized,
        forall|k: int|
            1 <= k <= ts.len() && #[trigger] ts[k - 1] == (Tick::Realtime { fetched: true, now: tick_now(ts[k - 1]) })
                ==> run_ticks(c, window_length, ts.take(k)).last == tick_now(ts[k - 1]),
    decreases ts.len(),
{
    if ts.len() > 0 {
        lemma_synchronized_is_final(c, window_length, ts.drop_last());
    }
    assert forall|k: int|
        1 <= k <= ts.len() && #[trigger] ts[k - 1] == (Tick::Realtime { fetched: true, now: tick_now(ts[k - 1]) })
        implies run_ticks(c, window_length, ts.take(k)).last == tick_now(ts[k - 1]) by {
        let tk = ts.take(k);
        assert(tk.drop_last() =~= ts.take(k - 1));
        assert(tk.last() == ts[k - 1]);
    }
}

} // verus!
