use chrono::{DateTime, Duration, TimeZone, Utc};
use jarvis_tibber_price_exporter::time::{current_time, Timestamp, WINDOW_SECONDS};

fn of(dt: &DateTime<Utc>) -> Timestamp {
    Timestamp::new(dt.timestamp(), dt.timestamp_subsec_nanos())
}

#[test]
fn instants_are_ordered_by_seconds_then_nanoseconds() {
    let a = Timestamp::new(10, 500);
    assert!(Timestamp::new(11, 0).after(&a));
    assert!(Timestamp::new(10, 501).after(&a));
    assert!(!Timestamp::new(10, 500).after(&a));
    assert!(!Timestamp::new(10, 499).after(&a));
    assert!(!Timestamp::new(9, 999_999_999).after(&a));
    assert!(Timestamp::new(0, 0).after(&Timestamp::new(-1, 999_999_999)));
}

#[test]
fn a_window_lasts_one_hour() {
    assert_eq!(WINDOW_SECONDS, 3600);
    assert_eq!(Timestamp::new(0, 7).end_of_window(), Some(Timestamp::new(3600, 7)));
    assert_eq!(Timestamp::new(-3600, 0).end_of_window(), Some(Timestamp::new(0, 0)));
    assert_eq!(
        Timestamp::new(i64::MAX - 3600, 1).end_of_window(),
        Some(Timestamp::new(i64::MAX, 1))
    );
    assert_eq!(Timestamp::new(i64::MAX - 3599, 0).end_of_window(), None);
    assert_eq!(Timestamp::new(i64::MAX, 0).end_of_window(), None);
}

#[test]
fn the_order_agrees_with_the_calendar() {
    let a = Utc.with_ymd_and_hms(2023, 3, 25, 23, 0, 0).unwrap();
    let b = Utc.with_ymd_and_hms(2023, 3, 26, 0, 0, 0).unwrap();
    let c = b + Duration::nanoseconds(1);
    let all = [a, b, c];
    for x in all.iter() {
        for y in all.iter() {
            assert_eq!(of(x).after(&of(y)), x > y);
        }
    }
}

#[test]
fn the_end_of_a_window_agrees_with_the_calendar() {
    let starts = [
        Utc.with_ymd_and_hms(2023, 3, 25, 23, 0, 0).unwrap(),
        Utc.with_ymd_and_hms(2024, 2, 29, 23, 30, 0).unwrap(),
        Utc.with_ymd_and_hms(1969, 12, 31, 23, 59, 59).unwrap() + Duration::nanoseconds(123),
    ];
    for start in starts.iter() {
        assert_eq!(of(start).end_of_window(), Some(of(&(*start + Duration::hours(1)))));
    }
}

#[test]
fn the_clock_is_read() {
    let now = current_time();
    // 2020-01-01T00:00:00Z
    assert!(now.after(&Timestamp::new(1_577_836_800, 0)));
    assert!(now.nanos < 1_000_000_000);
}
