use jarvis_tibber_price_exporter::reconcile::{plan_run, stamp};
use jarvis_tibber_price_exporter::time::Timestamp;
use jarvis_tibber_price_exporter::types::{Price, SpotPrice, State};

const HOUR: i64 = 3600;
const DAY: i64 = 86_400;

fn hour(day: i64, h: i64) -> Timestamp {
    Timestamp::new(day * DAY + h * HOUR, 0)
}

fn record(day: i64, h: i64) -> SpotPrice {
    SpotPrice {
        id: Some(format!("id-{}-{}", day, h)),
        source: Some("tibber".to_string()),
        from: hour(day, h),
        till: hour(day, h + 1),
        market_price: Price::from_bits(f64::to_bits(0.25 + h as f64)),
        market_price_tax: Price::from_bits(f64::to_bits(0.05)),
        sourcing_markup_price: Price::from_bits(f64::to_bits(0.0)),
        energy_tax_price: Price::from_bits(f64::to_bits(0.0)),
    }
}

fn day_of_records(day: i64) -> Vec<SpotPrice> {
    (0..24).map(|h| record(day, h)).collect()
}

#[test]
fn first_run_writes_all_24_and_caches_the_future_ones() {
    let fetched = day_of_records(100);
    let now = Timestamp::new(100 * DAY + 10 * HOUR + 1800, 0);
    let plan = plan_run(now, None, &fetched);
    assert_eq!(plan.writes, fetched);
    let state = plan.state.expect("a first run with records persists a document");
    assert_eq!(state.last_from, hour(100, 23));
    assert_eq!(state.future_spot_prices.len(), 14);
    assert_eq!(state.future_spot_prices, fetched[10..].to_vec());
}

#[test]
fn next_day_writes_all_48_and_moves_the_cursor_to_the_latest_start() {
    let mut fetched = day_of_records(101);
    fetched.extend(day_of_records(102));
    let now = hour(101, 13);
    let plan = plan_run(now, Some(hour(100, 23)), &fetched);
    assert_eq!(plan.writes.len(), 48);
    assert_eq!(plan.writes, fetched);
    let state = plan.state.expect("document");
    assert_eq!(state.last_from, hour(102, 23));
    assert_eq!(state.future_spot_prices.len(), 48 - 13);
}

#[test]
fn same_day_again_writes_nothing_and_leaves_the_document_alone() {
    let fetched = day_of_records(100);
    let plan = plan_run(hour(100, 23), Some(hour(100, 23)), &fetched);
    assert!(plan.writes.is_empty());
    assert_eq!(plan.state, None);
}

#[test]
fn running_twice_on_the_same_records_writes_nothing_the_second_time() {
    let fetched = day_of_records(7);
    let first = plan_run(hour(7, 3), None, &fetched);
    let cursor = first.state.expect("document").last_from;
    let second = plan_run(hour(7, 4), Some(cursor), &fetched);
    assert!(second.writes.is_empty());
    assert_eq!(second.state, None);
}

#[test]
fn only_records_that_start_after_the_cursor_are_written() {
    let fetched = day_of_records(5);
    let plan = plan_run(hour(5, 0), Some(hour(5, 20)), &fetched);
    assert_eq!(plan.writes, fetched[21..].to_vec());
    let state = plan.state.expect("document");
    assert_eq!(state.last_from, hour(5, 23));
    assert!(state.last_from.after(&hour(5, 20)));
    // a record that starts exactly at the cursor is not new
    assert!(!plan.writes.contains(&fetched[20]));
}

#[test]
fn a_window_that_ends_exactly_now_is_not_future() {
    let fetched = day_of_records(5);
    let plan = plan_run(hour(5, 12), None, &fetched);
    let state = plan.state.expect("document");
    assert_eq!(state.future_spot_prices, fetched[12..].to_vec());
    assert!(!state.future_spot_prices.contains(&fetched[11]));
}

#[test]
fn nanoseconds_decide_between_equal_seconds() {
    let mut r = record(1, 1);
    r.from = Timestamp::new(50, 5);
    r.till = Timestamp::new(50 + HOUR, 5);
    let fetched = vec![r.clone()];
    assert!(plan_run(Timestamp::new(0, 0), Some(Timestamp::new(50, 5)), &fetched).writes.is_empty());
    assert_eq!(plan_run(Timestamp::new(0, 0), Some(Timestamp::new(50, 4)), &fetched).writes.len(), 1);
    let at_end = plan_run(Timestamp::new(50 + HOUR, 5), None, &fetched).state.expect("document");
    assert!(at_end.future_spot_prices.is_empty());
    let before_end = plan_run(Timestamp::new(50 + HOUR, 4), None, &fetched).state.expect("document");
    assert_eq!(before_end.future_spot_prices.len(), 1);
}

#[test]
fn an_empty_fetch_plans_nothing() {
    let plan = plan_run(hour(1, 1), None, &Vec::new());
    assert!(plan.writes.is_empty());
    assert_eq!(plan.state, None);
    let plan = plan_run(hour(1, 1), Some(hour(0, 0)), &Vec::new());
    assert!(plan.writes.is_empty());
    assert_eq!(plan.state, None);
}

#[test]
fn the_cursor_is_the_start_of_the_record_written_last() {
    // not in chronological order: the last written record sets the cursor
    let fetched = vec![record(3, 5), record(3, 2)];
    let plan = plan_run(hour(3, 0), None, &fetched);
    assert_eq!(plan.state.expect("document").last_from, hour(3, 2));
}

#[test]
fn stamping_sets_identifier_and_source_and_keeps_the_rest() {
    let mut bare = record(2, 9);
    bare.id = None;
    bare.source = None;
    let out = stamp(&bare, "abc".to_string(), "home");
    assert_eq!(out.id, Some("abc".to_string()));
    assert_eq!(out.source, Some("home".to_string()));
    assert_eq!(out.from, bare.from);
    assert_eq!(out.till, bare.till);
    assert_eq!(f64::from_bits(out.market_price.to_bits()), 9.25);
    assert_eq!(out.market_price_tax, bare.market_price_tax);
    assert_eq!(out.sourcing_markup_price, bare.sourcing_markup_price);
    assert_eq!(out.energy_tax_price, bare.energy_tax_price);
    // an earlier identifier is replaced
    let again = stamp(&out, "def".to_string(), "other");
    assert_eq!(again.id, Some("def".to_string()));
    assert_eq!(again.source, Some("other".to_string()));
}

#[test]
fn a_document_can_be_copied() {
    let state = State { future_spot_prices: day_of_records(1), last_from: hour(1, 23) };
    assert_eq!(state.clone(), state);
}
