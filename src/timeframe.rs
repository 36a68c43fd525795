//! Bar timeframes, the provider's timespans and the classifier's labels.
use crate::text::same_text;
use vstd::prelude::*;
use vstd::string::*;

verus! {

/// Directional label that the classifier gives a bar.
#[derive(Clone, Copy, Debug, PartialEq, Eq, Structural)]
pub enum Analysis {
    Bearish,
    Bullish,
    Sideways,
}

impl Default for Analysis {
    fn default() -> (r: Analysis)
        ensures
            r == Analysis::Sideways,
    {
        Analysis::Sideways
    }
}

/// The span that one bar covers.
#[derive(Clone, Copy, Debug, PartialEq, Eq, Structural)]
pub enum Timeframe {
    FifteenMinutes,
    FiveMinutes,
    FourHours,
    OneDay,
    OneHour,
    OneMinute,
    OneMonth,
    ThirtyMinutes,
}

impl Default for Timeframe {
    fn default() -> (r: Timeframe)
        ensures
            r == Timeframe::OneDay,
    {
        Timeframe::OneDay
    }
}

/// The unit in which the aggregate provider counts a bar's span.
#[derive(Clone, Copy, Debug, PartialEq, Eq, Structural)]
pub enum Timespan {
    Day,
    Hour,
    Minute,
    Month,
    Quarter,
    Second,
    Week,
    Year,
}

impl Default for Timespan {
    fn default() -> (r: Timespan)
        ensures
            r == Timespan::Hour,
    {
        Timespan::Hour
    }
}

/// The interval text of a timeframe.
pub open spec fn interval_text(t: Timeframe) -> Seq<char> {
    match t {
        Timeframe::OneMinute => "1m"@,
        Timeframe::FiveMinutes => "5m"@,
        Timeframe::FifteenMinutes => "15m"@,
        Timeframe::ThirtyMinutes => "30m"@,
        Timeframe::OneHour => "1h"@,
        Timeframe::FourHours => "4h"@,
        Timeframe::OneDay => "1d"@,
        Timeframe::OneMonth => "1M"@,
    }
}

/// How many timespan units one bar of the timeframe covers.
pub open spec fn multiplier_of(t: Timeframe) -> i64 {
    match t {
        Timeframe::OneMinute => 1,
        Timeframe::FiveMinutes => 5,
        Timeframe::FifteenMinutes => 15,
        Timeframe::ThirtyMinutes => 30,
        Timeframe::OneHour => 1,
        Timeframe::FourHours => 4,
        Timeframe::OneDay => 1,
        Timeframe::OneMonth => 1,
    }
}

/// The timespan unit in which the timeframe is counted.
pub open spec fn timespan_of(t: Timeframe) -> Timespan {
    match t {
        Timeframe::OneMinute => Timespan::Minute,
        Timeframe::FiveMinutes => Timespan::Minute,
        Timeframe::FifteenMinutes => Timespan::Minute,
        Timeframe::ThirtyMinutes => Timespan::Minute,
        Timeframe::OneHour => Timespan::Hour,
        Timeframe::FourHours => Timespan::Hour,
        Timeframe::OneDay => Timespan::Day,
        Timeframe::OneMonth => Timespan::Month,
    }
}

/// The timeframe an interval text names; any unknown text means one day.
pub open spec fn timeframe_of(s: Seq<char>) -> Timeframe {
    if s == "1m"@ {
        Timeframe::OneMinute
    } else if s == "5m"@ {
        Timeframe::FiveMinutes
    } else if s == "15m"@ {
        Timeframe::FifteenMinutes
    } else if s == "30m"@ {
        Timeframe::ThirtyMinutes
    } else if s == "1h"@ {
        Timeframe::OneHour
    } else if s == "4h"@ {
        Timeframe::FourHours
    } else if s == "1d"@ {
        Timeframe::OneDay
    } else if s == "1M"@ {
        Timeframe::OneMonth
    } else {
        Timeframe::OneDay
    }
}

pub fn get_interval(timeframe: &Timeframe) -> (r: String)
    ensures
        r@ == interval_text(*timeframe),
{
    match timeframe {
        Timeframe::OneMinute => String::from_str("1m"),
        Timeframe::FiveMinutes => String::from_str("5m"),
        Timeframe::FifteenMinutes => String::from_str("15m"),
        Timeframe::ThirtyMinutes => String::from_str("30m"),
        Timeframe::OneHour => String::from_str("1h"),
        Timeframe::FourHours => String::from_str("4h"),
        Timeframe::OneDay => String::from_str("1d"),
        Timeframe::OneMonth => String::from_str("1M"),
    }
}

pub fn get_multiplier(timeframe: &Timeframe) -> (r: i64)
    ensures
        r == multiplier_of(*timeframe),
        r >= 1,
{
    match timeframe {
        Timeframe::OneMinute => 1,
        Timeframe::FiveMinutes => 5,
        Timeframe::FifteenMinutes => 15,
        Timeframe::ThirtyMinutes => 30,
        Timeframe::OneHour => 1,
        Timeframe::FourHours => 4,
        Timeframe::OneDay => 1,
        Timeframe::OneMonth => 1,
    }
}

pub fn get_timeframe(interval: &str) -> (r: Timeframe)
    ensures
        r == timeframe_of(interval@),
{
    if same_text(interval, "1m") {
        Timeframe::OneMinute
    } else if same_text(interval, "5m") {
        Timeframe::FiveMinutes
    } else if same_text(interval, "15m") {
        Timeframe::FifteenMinutes
    } else if same_text(interval, "30m") {
        Timeframe::ThirtyMinutes
    } else if same_text(interval, "1h") {
        Timeframe::OneHour
    } else if same_text(interval, "4h") {
        Timeframe::FourHours
    } else if same_text(interval, "1d") {
        Timeframe::OneDay
    } else if same_text(interval, "1M") {
        Timeframe::OneMonth
    } else {
        Timeframe::default()
    }
}

pub fn get_timespan(timeframe: &Timeframe) -> (r: Timespan)
    ensures
        r == timespan_of(*timeframe),
{
    match timeframe {
        Timeframe::OneMinute => Timespan::Minute,
        Timeframe::FiveMinutes => Timespan::Minute,
        Timeframe::FifteenMinutes => Timespan::Minute,
        Timeframe::ThirtyMinutes => Timespan::Minute,
        Timeframe::OneHour => Timespan::Hour,
        Timeframe::FourHours => Timespan::Hour,
        Timeframe::OneDay => Timespan::Day,
        Timeframe::OneMonth => Timespan::Month,
    }
}

/// Reading back the interval text of a timeframe gives the same timeframe.
pub proof fn lemma_interval_round_trip(t: Timeframe)
    ensures
        timeframe_of(interval_text(t)) == t,
{
    reveal_strlit("1m");
    reveal_strlit("5m");
    reveal_strlit("15m");
    reveal_strlit("30m");
    reveal_strlit("1h");
    reveal_strlit("4h");
    reveal_strlit("1d");
    reveal_strlit("1M");
    let s = interval_text(t);
    assert(s.len() == 2 ==> s != "15m"@ && s != "30m"@);
    assert(s.len() == 3 ==> s != "1m"@ && s != "5m"@ && s != "1h"@ && s != "4h"@ && s != "1d"@ && s != "1M"@);
    assert(s[0] != '1' ==> s != "1m"@ && s != "15m"@ && s != "1h"@ && s != "1d"@ && s != "1M"@);
    assert(s[0] != '5' ==> s != "5m"@);
    assert(s[0] != '3' ==> s != "30m"@);
    assert(s[0] != '4' ==> s != "4h"@);
    assert(s.len() == 2 && s[1] != 'm' ==> s != "1m"@);
    assert(s.len() == 2 && s[1] != 'h' ==> s != "1h"@);
    assert(s.len() == 2 && s[1] != 'd' ==> s != "1d"@);
}

} // verus!
