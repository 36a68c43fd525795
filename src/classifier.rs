//! Labels interior bars Bullish, Bearish or Sideways from their own change and
//! the direction of their neighbours.
use crate::bar::{Data, DataAnalysis, UNIT};
use crate::base::BaseResponse;
use crate::timeframe::Analysis;
use vstd::prelude::*;
use vstd::string::*;

verus! {

/// A bar's change must exceed this, in either direction, to count as a move.
pub const MOVE_THRESHOLD: i64 = 2_000_000;

/// The close must lie closer than this to the bar's extreme in the direction of the move.
pub const WICK_THRESHOLD: i64 = 250_000;

/// Target of a bullish bar, from the change of the bar after it.
pub open spec fn bullish_target(next_change: int, current: int) -> int {
    if next_change >= 5 * UNIT {
        50 * UNIT
    } else if next_change >= 4 * UNIT {
        40 * UNIT
    } else if next_change >= 3 * UNIT {
        30 * UNIT
    } else if next_change >= 2 * UNIT {
        20 * UNIT
    } else if next_change >= 1 * UNIT {
        10 * UNIT
    } else {
        current
    }
}

/// Target of a bearish bar, from the change of the bar after it.
pub open spec fn bearish_target(next_change: int, current: int) -> int {
    if next_change <= -5 * UNIT {
        50 * UNIT
    } else if next_change <= -4 * UNIT {
        40 * UNIT
    } else if next_change <= -3 * UNIT {
        30 * UNIT
    } else if next_change <= -2 * UNIT {
        20 * UNIT
    } else if next_change <= -1 * UNIT {
        10 * UNIT
    } else {
        current
    }
}

pub open spec fn rises_sharply(d: Data) -> bool {
    d.change.amount > MOVE_THRESHOLD && d.price.high - d.price.close < WICK_THRESHOLD
}

pub open spec fn falls_sharply(d: Data) -> bool {
    d.change.amount < -MOVE_THRESHOLD && d.price.close - d.price.low < WICK_THRESHOLD
}

/// The analysis of `cur`, given the bars just before and after it.
pub open spec fn classify(prev: Data, cur: Data, next: Data) -> DataAnalysis {
    if rises_sharply(cur) && prev.change.amount > 0 {
        DataAnalysis {
            classification: Analysis::Bullish,
            target: bullish_target(next.change.amount as int, cur.analysis.target as int) as i64,
            ..cur.analysis
        }
    } else if !rises_sharply(cur) && falls_sharply(cur) && prev.change.amount < 0 {
        DataAnalysis {
            classification: Analysis::Bearish,
            target: bearish_target(next.change.amount as int, cur.analysis.target as int) as i64,
            ..cur.analysis
        }
    } else {
        DataAnalysis { classification: Analysis::Sideways, ..cur.analysis }
    }
}

/// Bar `i` of `bars` with its analysis recomputed.
pub open spec fn relabeled(bars: Seq<Data>, i: int) -> Data {
    Data { analysis: classify(bars[i - 1], bars[i], bars[i + 1]), ..bars[i] }
}

/// Bar `i` is interior and gets a label other than Sideways.
pub open spec fn is_marked(bars: Seq<Data>, i: int) -> bool {
    &&& 1 <= i < bars.len() - 1
    &&& classify(bars[i - 1], bars[i], bars[i + 1]).classification != Analysis::Sideways
}

fn bullish_target_of(next_change: i64, current: i64) -> (r: i64)
    ensures
        r == bullish_target(next_change as int, current as int),
{
    if next_change >= 5 * UNIT {
        50 * UNIT
    } else if next_change >= 4 * UNIT {
        40 * UNIT
    } else if next_change >= 3 * UNIT {
        30 * UNIT
    } else if next_change >= 2 * UNIT {
        20 * UNIT
    } else if next_change >= UNIT {
        10 * UNIT
    } else {
        current
    }
}

fn bearish_target_of(next_change: i64, current: i64) -> (r: i64)
    ensures
        r == bearish_target(next_change as int, current as int),
{
    if next_change <= -5 * UNIT {
        50 * UNIT
    } else if next_change <= -4 * UNIT {
        40 * UNIT
    } else if next_change <= -3 * UNIT {
        30 * UNIT
    } else if next_change <= -2 * UNIT {
        20 * UNIT
    } else if next_change <= -UNIT {
        10 * UNIT
    } else {
        current
    }
}

/// The analysis of the middle of three consecutive bars.
pub fn classify_bar(prev: &Data, cur: &Data, next: &Data) -> (r: DataAnalysis)
    ensures
        r == classify(*prev, *cur, *next),
{
    let rises = cur.change.amount > MOVE_THRESHOLD
        && (cur.price.high as i128) - (cur.price.close as i128) < WICK_THRESHOLD as i128;
    let falls = cur.change.amount < -MOVE_THRESHOLD
        && (cur.price.close as i128) - (cur.price.low as i128) < WICK_THRESHOLD as i128;
    if rises && prev.change.amount > 0 {
        DataAnalysis {
            classification: Analysis::Bullish,
            prediction: cur.analysis.prediction,
            target: bullish_target_of(next.change.amount, cur.analysis.target),
        }
    } else if !rises && falls && prev.change.amount < 0 {
        DataAnalysis {
            classification: Analysis::Bearish,
            prediction: cur.analysis.prediction,
            target: bearish_target_of(next.change.amount, cur.analysis.target),
        }
    } else {
        DataAnalysis {
            classification: Analysis::Sideways,
            prediction: cur.analysis.prediction,
            target: cur.analysis.target,
        }
    }
}

/// Classifies every interior bar of `bars` (in ascending time order) and
/// returns, in index order, each bar whose label is not Sideways, with its
/// position and its new analysis. These are the bars to persist.
pub fn analyze(bars: &Vec<Data>) -> (r: Vec<(usize, Data)>)
    ensures
        forall|k: int|
            0 <= k < r@.len() ==> is_marked(bars@, r@[k].0 as int) && r@[k].1 == relabeled(
                bars@,
                r@[k].0 as int,
            ),
        forall|j: int, k: int| 0 <= j < k < r@.len() ==> r@[j].0 < r@[k].0,
        forall|i: int| #[trigger]
            is_marked(bars@, i) ==> exists|k: int| 0 <= k < r@.len() && r@[k].0 == i,
{
    let mut out: Vec<(usize, Data)> = Vec::new();
    let n = bars.len();
    if n < 3 {
        return out;
    }
    let mut i: usize = 1;
    while i < n - 1
        invariant
            n == bars@.len(),
            n >= 3,
            1 <= i <= n - 1,
            forall|k: int|
                0 <= k < out@.len() ==> is_marked(bars@, out@[k].0 as int) && out@[k].1
                    == relabeled(bars@, out@[k].0 as int),
            forall|k: int| 0 <= k < out@.len() ==> out@[k].0 < i,
            forall|j: int, k: int| 0 <= j < k < out@.len() ==> out@[j].0 < out@[k].0,
            forall|m: int|
                1 <= m < i && #[trigger] is_marked(bars@, m) ==> exists|k: int|
                    0 <= k < out@.len() && out@[k].0 == m,
        decreases n - 1 - i,
    {
        let analysis = classify_bar(&bars[i - 1], &bars[i], &bars[i + 1]);
        if analysis.classification != Analysis::Sideways {
            let cur = bars[i];
            let bar = Data {
                analysis,
                change: cur.change,
                datetime: cur.datetime,
                price: cur.price,
                timeframe: cur.timeframe,
                volume: cur.volume,
            };
            let ghost before = out@;
            out.push((i, bar));
            assert forall|m: int|
                1 <= m < i + 1 && #[trigger] is_marked(bars@, m) implies exists|k: int|
                0 <= k < out@.len() && out@[k].0 == m by {
                if m < i {
                    let k = choose|k: int| 0 <= k < before.len() && before[k].0 == m;
                    assert(out@[k] == before[k]);
                } else {
                    assert(out@[before.len() as int].0 == m);
                }
            }
        }
        i = i + 1;
    }
    out
}

/// The outcome reported for one classifier run.
pub fn analysis_response(marked: &Vec<(usize, Data)>) -> (r: BaseResponse)
    ensures
        r.result == (marked@.len() > 0),
        r.result ==> r.response@ == "Trading data analyzed successfully."@,
        !r.result ==> r.response@.len() == 0,
{
    if marked.len() > 0 {
        BaseResponse { response: String::from_str("Trading data analyzed successfully."), result: true }
    } else {
        BaseResponse::empty()
    }
}

} // verus!
