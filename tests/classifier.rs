use market_sync::bar::{bars_from_results, AggregateTickerResponseResult, Data, UNIT};
use market_sync::classifier::{analysis_response, analyze, classify_bar};
use market_sync::timeframe::{Analysis, Timeframe};

fn aggregate(timestamp: i64, open: i64, high: i64, low: i64, close: i64) -> AggregateTickerResponseResult {
    AggregateTickerResponseResult {
        close,
        high,
        low,
        open,
        timestamp,
        transaction_numbers: 10,
        volume: 5 * UNIT,
        volume_weighted: close,
    }
}

/// A bar from prices given in hundredths.
fn bar(t: i64, open: i64, high: i64, low: i64, close: i64) -> Data {
    let c = UNIT / 100;
    Data::from_result(&aggregate(t, open * c, high * c, low * c, close * c), Timeframe::OneMinute)
}

#[test]
fn rising_bar_after_rise_is_bullish_with_target_from_next() {
    // closes 100, 103, 101; the middle bar rose by 3 and closed 0.10 below its high.
    let bars = vec![
        bar(0, 9_900, 10_010, 9_890, 10_000),
        bar(60_000, 10_000, 10_310, 9_990, 10_300),
        bar(120_000, 9_800, 10_150, 9_790, 10_100),
    ];
    let marked = analyze(&bars);
    assert_eq!(marked.len(), 1);
    assert_eq!(marked[0].0, 1);
    assert_eq!(marked[0].1.analysis.classification, Analysis::Bullish);
    assert_eq!(marked[0].1.analysis.target, 30 * UNIT);
    assert_eq!(marked[0].1.price, bars[1].price);
    assert_eq!(marked[0].1.datetime, bars[1].datetime);
}

#[test]
fn bullish_target_keeps_default_when_next_bar_falls() {
    let bars = vec![
        bar(0, 9_900, 10_010, 9_890, 10_000),
        bar(60_000, 10_000, 10_310, 9_990, 10_300),
        bar(120_000, 10_300, 10_310, 10_090, 10_100),
    ];
    let marked = analyze(&bars);
    assert_eq!(marked.len(), 1);
    assert_eq!(marked[0].1.analysis.classification, Analysis::Bullish);
    assert_eq!(marked[0].1.analysis.target, 0);
}

#[test]
fn falling_bar_after_fall_is_bearish() {
    let bars = vec![
        bar(0, 10_100, 10_110, 9_990, 10_000),
        bar(60_000, 10_000, 10_010, 9_690, 9_700),
        bar(120_000, 9_700, 9_710, 9_190, 9_200),
    ];
    let marked = analyze(&bars);
    assert_eq!(marked.len(), 1);
    assert_eq!(marked[0].1.analysis.classification, Analysis::Bearish);
    assert_eq!(marked[0].1.analysis.target, 50 * UNIT);
}

#[test]
fn rise_after_fall_is_sideways() {
    let prev = bar(0, 10_100, 10_110, 9_990, 10_000);
    let cur = bar(60_000, 10_000, 10_310, 9_990, 10_300);
    let next = bar(120_000, 10_300, 10_800, 10_290, 10_800);
    assert_eq!(classify_bar(&prev, &cur, &next).classification, Analysis::Sideways);
    assert!(analyze(&vec![prev, cur, next]).is_empty());
}

#[test]
fn thresholds_are_strict() {
    let prev = bar(0, 9_900, 10_010, 9_890, 10_000);
    let next = bar(120_000, 10_200, 10_800, 10_190, 10_700);
    // change of exactly 2 is not a move
    let two = bar(60_000, 10_000, 10_210, 9_990, 10_200);
    assert_eq!(classify_bar(&prev, &two, &next).classification, Analysis::Sideways);
    // close exactly 0.25 below the high is too far
    let wick = bar(60_000, 10_000, 10_325, 9_990, 10_300);
    assert_eq!(classify_bar(&prev, &wick, &next).classification, Analysis::Sideways);
    let ok = bar(60_000, 10_000, 10_324, 9_990, 10_300);
    assert_eq!(classify_bar(&prev, &ok, &next).classification, Analysis::Bullish);
}

#[test]
fn bullish_targets_follow_table() {
    let prev = bar(0, 9_900, 10_010, 9_890, 10_000);
    let cur = bar(60_000, 10_000, 10_310, 9_990, 10_300);
    let cases = [(500, 50), (450, 40), (300, 30), (299, 20), (100, 10)];
    for (change, target) in cases {
        let next = bar(120_000, 10_000, 10_000 + change, 10_000, 10_000 + change);
        assert_eq!(classify_bar(&prev, &cur, &next).target, target * UNIT);
    }
    let small = bar(120_000, 10_000, 10_099, 10_000, 10_099);
    assert_eq!(classify_bar(&prev, &cur, &small).target, 0);
}

#[test]
fn bearish_targets_follow_table() {
    let prev = bar(0, 10_100, 10_110, 9_990, 10_000);
    let cur = bar(60_000, 10_000, 10_010, 9_690, 9_700);
    let cases = [(-600, 50), (-400, 40), (-350, 30), (-200, 20), (-150, 10)];
    for (change, target) in cases {
        let next = bar(120_000, 10_000, 10_000, 10_000 + change, 10_000 + change);
        assert_eq!(classify_bar(&prev, &cur, &next).target, target * UNIT);
    }
}

#[test]
fn first_and_last_bars_are_never_labelled() {
    let bars = vec![bar(0, 10_000, 10_310, 9_990, 10_300), bar(60_000, 10_000, 10_310, 9_990, 10_300)];
    assert!(analyze(&bars).is_empty());
    assert!(analyze(&vec![]).is_empty());
}

#[test]
fn several_labels_come_in_index_order() {
    let bars = vec![
        bar(0, 9_900, 10_010, 9_890, 10_000),
        bar(60_000, 10_000, 10_310, 9_990, 10_300),
        bar(120_000, 10_300, 10_610, 10_290, 10_600),
        bar(180_000, 10_600, 10_610, 10_590, 10_600),
        bar(240_000, 10_600, 10_610, 10_590, 10_600),
    ];
    let marked = analyze(&bars);
    let indices: Vec<usize> = marked.iter().map(|m| m.0).collect();
    assert_eq!(indices, vec![1, 2]);
    assert!(analysis_response(&marked).result);
    assert_eq!(analysis_response(&marked).response, "Trading data analyzed successfully.");
    assert!(!analysis_response(&vec![]).result);
}

#[test]
fn change_is_close_minus_open_with_percentage() {
    let d = Data::from_result(&aggregate(7, 100 * UNIT, 104 * UNIT, 99 * UNIT, 103 * UNIT), Timeframe::OneHour);
    assert_eq!(d.change.amount, 3 * UNIT);
    assert_eq!(d.change.percentage, 3 * UNIT);
    assert_eq!(d.datetime, 7);
    assert_eq!(d.timeframe, Timeframe::OneHour);
    assert_eq!(d.volume, 5 * UNIT);
    assert_eq!(d.analysis.classification, Analysis::Sideways);
    let third = Data::from_result(&aggregate(0, 3 * UNIT, 4 * UNIT, 3 * UNIT, 4 * UNIT), Timeframe::OneHour);
    assert_eq!(third.change.percentage, 33_333_333);
    let down = Data::from_result(&aggregate(0, 3 * UNIT, 3 * UNIT, 2 * UNIT, 2 * UNIT), Timeframe::OneHour);
    assert_eq!(down.change.amount, -UNIT);
    assert_eq!(down.change.percentage, -33_333_333);
}

#[test]
fn every_aggregate_gives_a_bar() {
    let zero_open = Data::from_result(&aggregate(0, 0, UNIT, 0, UNIT), Timeframe::OneDay);
    assert_eq!(zero_open.change.amount, UNIT);
    assert_eq!(zero_open.change.percentage, 0);
    // prices below zero, as oil futures once traded
    let negative = Data::from_result(&aggregate(0, -10 * UNIT, -5 * UNIT, -10 * UNIT, -5 * UNIT), Timeframe::OneDay);
    assert_eq!(negative.change.amount, 5 * UNIT);
    assert_eq!(negative.change.percentage, -50 * UNIT);
    assert_eq!(negative.price.open, -10 * UNIT);
    let odd = Data::from_result(&aggregate(0, -5, 1, -5, 1), Timeframe::OneDay);
    assert_eq!(odd.change.amount, 6);
    assert_eq!(odd.change.percentage, -120_000_000);
    let huge = Data::from_result(&aggregate(0, 1, i64::MAX, 1, i64::MAX), Timeframe::OneDay);
    assert_eq!(huge.change.amount, i64::MAX - 1);
    assert_eq!(huge.change.percentage, i64::MAX);
    let crash = Data::from_result(&aggregate(0, i64::MAX, i64::MAX, i64::MIN, i64::MIN), Timeframe::OneDay);
    assert_eq!(crash.change.amount, i64::MIN);
    assert_eq!(crash.change.percentage, -200_000_000);
}

#[test]
fn response_results_keep_order() {
    let results = vec![
        aggregate(1, UNIT, UNIT, UNIT, UNIT),
        aggregate(2, 0, UNIT, 0, UNIT),
        aggregate(3, 2 * UNIT, 2 * UNIT, UNIT, UNIT),
    ];
    let bars = bars_from_results(&results, Timeframe::OneMinute);
    let times: Vec<i64> = bars.iter().map(|b| b.datetime).collect();
    assert_eq!(times, vec![1, 2, 3]);
    assert_eq!(bars[1].change.percentage, 0);
    assert_eq!(bars[2].change.amount, -UNIT);
}
