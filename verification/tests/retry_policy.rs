use jarvis_tibber_price_exporter::error::ErrorKind;
use jarvis_tibber_price_exporter::retry::{jittered_delay, Decision, RetryPolicy};

#[test]
fn standard_policy_waits_100_then_200_then_gives_up() {
    let policy = RetryPolicy::standard();
    assert_eq!(policy.base_delay_millis, 100);
    assert_eq!(policy.max_attempts, 3);
    assert_eq!(policy.decide(1, ErrorKind::Transient), Decision::Retry { delay_millis: 100 });
    assert_eq!(policy.decide(2, ErrorKind::Transient), Decision::Retry { delay_millis: 200 });
    assert_eq!(policy.decide(3, ErrorKind::Transient), Decision::GiveUp);
    assert_eq!(policy.decide(4, ErrorKind::Transient), Decision::GiveUp);
}

#[test]
fn fatal_and_storage_failures_are_never_retried() {
    let policy = RetryPolicy::standard();
    assert_eq!(policy.decide(1, ErrorKind::Fatal), Decision::GiveUp);
    assert_eq!(policy.decide(1, ErrorKind::Storage), Decision::GiveUp);
}

#[test]
fn backoff_doubles_and_is_capped() {
    let policy = RetryPolicy { base_delay_millis: 100, max_attempts: 60 };
    assert_eq!(policy.backoff_millis(0), 100);
    assert_eq!(policy.backoff_millis(1), 100);
    assert_eq!(policy.backoff_millis(2), 200);
    assert_eq!(policy.backoff_millis(3), 400);
    assert_eq!(policy.backoff_millis(11), 102_400);
    assert_eq!(policy.backoff_millis(26), 3_355_443_200);
    assert_eq!(policy.backoff_millis(27), 4_294_967_295);
    assert_eq!(policy.backoff_millis(59), 4_294_967_295);
    let huge = RetryPolicy { base_delay_millis: u64::MAX, max_attempts: 2 };
    assert_eq!(huge.backoff_millis(1), 4_294_967_295);
    let none = RetryPolicy { base_delay_millis: 0, max_attempts: 5 };
    assert_eq!(none.backoff_millis(4), 0);
}

#[test]
fn jitter_never_lengthens_a_delay_and_does_shorten_it() {
    let mut shorter = false;
    let mut i = 0;
    while i < 200 {
        let d = jittered_delay(1_000_000);
        assert!(d <= 1_000_000);
        if d < 1_000_000 {
            shorter = true;
        }
        i += 1;
    }
    assert!(shorter);
    assert_eq!(jittered_delay(0), 0);
    assert!(jittered_delay(u64::MAX) <= 4_294_967_295);
}
