//! OHLCV bars in fixed-point form and their construction from provider
//! aggregates.
//!
//! Every decimal quantity (price, volume, change, percentage, target) is an
//! `i64` counted in millionths: the value `1.5` is held as `1_500_000`.
use crate::timeframe::{Analysis, Timeframe};
use vstd::prelude::*;

verus! {

/// One whole unit in the fixed-point representation.
pub const UNIT: i64 = 1_000_000;

#[derive(Clone, Copy, Debug, PartialEq, Eq, Structural)]
pub struct DataPrice {
    pub close: i64,
    pub high: i64,
    pub low: i64,
    pub open: i64,
}

#[derive(Clone, Copy, Debug, PartialEq, Eq, Structural)]
pub struct DataChange {
    pub amount: i64,
    pub percentage: i64,
}

#[derive(Clone, Copy, Debug, PartialEq, Eq, Structural)]
pub struct DataAnalysis {
    pub classification: Analysis,
    pub prediction: Analysis,
    pub target: i64,
}

/// A stored bar. `datetime` is its opening instant in UTC milliseconds since
/// the Unix epoch; (`datetime`, `timeframe`) identifies it within an asset.
#[derive(Clone, Copy, Debug, PartialEq, Eq, Structural)]
pub struct Data {
    pub analysis: DataAnalysis,
    pub change: DataChange,
    pub datetime: i64,
    pub price: DataPrice,
    pub timeframe: Timeframe,
    pub volume: i64,
}

/// One aggregate as the provider reports it, in fixed-point form;
/// `timestamp` is in UTC milliseconds since the Unix epoch.
#[derive(Clone, Copy, Debug, PartialEq, Eq, Structural)]
pub struct AggregateTickerResponseResult {
    pub close: i64,
    pub high: i64,
    pub low: i64,
    pub open: i64,
    pub timestamp: i64,
    pub transaction_numbers: i64,
    pub volume: i64,
    pub volume_weighted: i64,
}

/// Division rounding toward zero, for a non-zero divisor.
pub open spec fn div_toward_zero(a: int, b: int) -> int {
    let q = abs(a) / abs(b);
    if (a >= 0) == (b > 0) {
        q
    } else {
        -q
    }
}

pub open spec fn abs(x: int) -> int {
    if x >= 0 {
        x
    } else {
        -x
    }
}

/// The nearest `i64` to `x`.
pub open spec fn saturate(x: int) -> i64 {
    if x < i64::MIN {
        i64::MIN
    } else if x > i64::MAX {
        i64::MAX
    } else {
        x as i64
    }
}

/// Close minus open.
pub open spec fn change_amount(r: AggregateTickerResponseResult) -> int {
    r.close - r.open
}

/// The change as a percentage of the open, in millionths of a percent;
/// zero when the open is zero.
pub open spec fn change_percentage(r: AggregateTickerResponseResult) -> int {
    if r.open == 0 {
        0
    } else {
        div_toward_zero(change_amount(r) * 100 * UNIT, r.open as int)
    }
}

pub open spec fn fresh_analysis() -> DataAnalysis {
    DataAnalysis { classification: Analysis::Sideways, prediction: Analysis::Sideways, target: 0 }
}

/// The bar stored for an aggregate. A change too large for an `i64` is
/// held at the nearest `i64`.
pub open spec fn bar_of(r: AggregateTickerResponseResult, timeframe: Timeframe) -> Data {
    Data {
        analysis: fresh_analysis(),
        change: DataChange {
            amount: saturate(change_amount(r)),
            percentage: saturate(change_percentage(r)),
        },
        datetime: r.timestamp,
        price: DataPrice { close: r.close, high: r.high, low: r.low, open: r.open },
        timeframe,
        volume: r.volume,
    }
}

fn saturate_i128(x: i128) -> (r: i64)
    ensures
        r == saturate(x as int),
{
    if x < i64::MIN as i128 {
        i64::MIN
    } else if x > i64::MAX as i128 {
        i64::MAX
    } else {
        x as i64
    }
}

impl Data {
    /// The bar for one provider aggregate, with its change derived from open
    /// and close.
    pub fn from_result(result: &AggregateTickerResponseResult, timeframe: Timeframe) -> (r: Data)
        ensures
            r == bar_of(*result, timeframe),
    {
        let amount: i128 = result.close as i128 - result.open as i128;
        let percentage: i128 = if result.open == 0 {
            0
        } else {
            let scaled: i128 = amount * 100_000_000i128;
            let open: i128 = result.open as i128;
            let magnitude: i128 = if scaled >= 0 {
                scaled
            } else {
                -scaled
            };
            let divisor: i128 = if open > 0 {
                open
            } else {
                -open
            };
            let q: i128 = magnitude / divisor;
            if (scaled >= 0) == (open > 0) {
                q
            } else {
                -q
            }
        };
        assert(percentage == change_percentage(*result));
        Data {
            analysis: DataAnalysis {
                classification: Analysis::Sideways,
                prediction: Analysis::Sideways,
                target: 0,
            },
            change: DataChange { amount: saturate_i128(amount), percentage: saturate_i128(percentage) },
            datetime: result.timestamp,
            price: DataPrice {
                close: result.close,
                high: result.high,
                low: result.low,
                open: result.open,
            },
            timeframe,
            volume: result.volume,
        }
    }
}

/// The bars to store for a provider response: one per aggregate, in the provider's order.
pub fn bars_from_results(results: &Vec<AggregateTickerResponseResult>, timeframe: Timeframe) -> (r: Vec<Data>)
    ensures
        r@.len() == results@.len(),
        forall|i: int| 0 <= i < results@.len() ==> #[trigger] r@[i] == bar_of(results@[i], timeframe),
{
    let mut out: Vec<Data> = Vec::new();
    let mut i: usize = 0;
    while i < results.len()
        invariant
            i <= results@.len(),
            out@.len() == i,
            forall|k: int| 0 <= k < i ==> #[trigger] out@[k] == bar_of(results@[k], timeframe),
        decreases results@.len() - i,
    {
        out.push(Data::from_result(&results[i], timeframe));
        i = i + 1;
    }
    out
}

} // verus!
