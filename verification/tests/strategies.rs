use std::time::Duration;

use stream_reconnect::{DefaultRetries, ExpBackoffStrategy};

fn take(strategy: &mut ExpBackoffStrategy, n: usize) -> Vec<Duration> {
    (0..n).map(|_| strategy.next_delay()).collect()
}

#[test]
fn default_schedule_doubles_up_to_thirty_minutes_and_stays_there() {
    let mut schedule = DefaultRetries.schedule();
    let secs: Vec<u64> = take(&mut schedule, 13).iter().map(|d| d.as_secs()).collect();
    assert_eq!(secs, vec![4, 8, 16, 32, 64, 128, 256, 512, 1024, 1800, 1800, 1800, 1800]);
    let mut again = ExpBackoffStrategy::default();
    assert_eq!(again.next_delay(), Duration::from_millis(4_000));
}

#[test]
fn schedule_grows_by_its_factor_and_is_capped() {
    let mut s = ExpBackoffStrategy::new(100, 3, 1_000);
    assert_eq!(
        take(&mut s, 5),
        vec![
            Duration::from_millis(100),
            Duration::from_millis(300),
            Duration::from_millis(900),
            Duration::from_millis(1_000),
            Duration::from_millis(1_000)
        ]
    );
}

#[test]
fn minimum_above_maximum_starts_at_maximum() {
    let mut s = ExpBackoffStrategy::new(5_000, 2, 1_000);
    assert_eq!(take(&mut s, 3), vec![Duration::from_millis(1_000); 3]);
}

#[test]
fn factor_one_keeps_the_wait_and_factor_zero_drops_it() {
    let mut s = ExpBackoffStrategy::new(250, 1, 1_000);
    assert_eq!(take(&mut s, 3), vec![Duration::from_millis(250); 3]);
    let mut z = ExpBackoffStrategy::new(10, 0, 100);
    assert_eq!(
        take(&mut z, 3),
        vec![Duration::from_millis(10), Duration::ZERO, Duration::ZERO]
    );
}

#[test]
fn growth_past_the_integer_range_is_capped() {
    let start = u64::MAX / 2 + 1;
    let mut s = ExpBackoffStrategy::new(start, 2, u64::MAX);
    assert_eq!(
        take(&mut s, 3),
        vec![
            Duration::from_millis(start),
            Duration::from_millis(u64::MAX),
            Duration::from_millis(u64::MAX)
        ]
    );
}
