//! The aggregate provider's request for one window of bars, and the outcome
//! reported for a fetch.
use crate::base::BaseResponse;
use crate::clock::{date_text, date_text_of, in_calendar_range};
use crate::cursor::Window;
use crate::timeframe::{get_multiplier, get_timespan, multiplier_of, timespan_of, Timeframe, Timespan};
use vstd::prelude::*;
use vstd::string::*;

verus! {

/// Parameters of an aggregate request. `from` and `to` are `YYYY-MM-DD`
/// dates; `key` is left empty for the transport to fill in.
#[derive(Clone, Debug)]
pub struct AggregateTickerRequest {
    pub from: String,
    pub key: String,
    pub multiplier: i64,
    pub ticker: String,
    pub timespan: Timespan,
    pub to: String,
}

/// The request for the bars of `symbol` at `timeframe` over `window`.
/// Both ends of the window must fall in a four-digit year for the request to exist.
pub fn aggregate_request(symbol: &str, timeframe: Timeframe, window: Window) -> (r: Option<AggregateTickerRequest>)
    ensures
        in_calendar_range(window.from as int) && in_calendar_range(window.to as int) ==> r is Some,
        r matches Some(q) ==> {
            &&& q.ticker@ == symbol@
            &&& q.key@.len() == 0
            &&& q.multiplier == multiplier_of(timeframe)
            &&& q.timespan == timespan_of(timeframe)
            &&& q.from@ == date_text_of(window.from as int)
            &&& q.to@ == date_text_of(window.to as int)
        },
{
    let from = match date_text(window.from) {
        Some(text) => text,
        None => return None,
    };
    let to = match date_text(window.to) {
        Some(text) => text,
        None => return None,
    };
    Some(
        AggregateTickerRequest {
            from,
            key: String::new(),
            multiplier: get_multiplier(&timeframe),
            ticker: String::from_str(symbol),
            timespan: get_timespan(&timeframe),
            to,
        },
    )
}

/// The outcome reported for one fetch of bars.
pub fn copy_response(fetched: bool) -> (r: BaseResponse)
    ensures
        r.result == fetched,
        fetched ==> r.response@ == "Trading data has been copied successfully."@,
        !fetched ==> r.response@ == "Failed to retrieve trading data."@,
{
    if fetched {
        BaseResponse {
            response: String::from_str("Trading data has been copied successfully."),
            result: true,
        }
    } else {
        BaseResponse { response: String::from_str("Failed to retrieve trading data."), result: false }
    }
}

} // verus!
