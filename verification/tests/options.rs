use std::sync::atomic::{AtomicU8, Ordering};
use std::sync::Arc;
use std::time::Duration;

use stream_reconnect::{DefaultRetries, NoCallback, ReconnectOptions};

#[test]
fn new_options_exit_on_first_failure_with_default_schedule() {
    let options = ReconnectOptions::new();
    assert!(options.exit_if_first_connect_fails());
    assert_eq!(*options.retries_to_attempt_fn(), DefaultRetries);
    assert_eq!(*options.on_connect_callback(), NoCallback);
    assert_eq!(*options.on_disconnect_callback(), NoCallback);
    assert_eq!(*options.on_connect_fail_callback(), NoCallback);
    assert_eq!(*options.on_exhausted_callback(), NoCallback);
}

#[test]
fn exit_flag_can_be_cleared_and_set_again() {
    let options = ReconnectOptions::new().with_exit_if_first_connect_fails(false);
    assert!(!options.exit_if_first_connect_fails());
    let options = options.with_exit_if_first_connect_fails(true);
    assert!(options.exit_if_first_connect_fails());
}

#[test]
fn retries_generator_is_kept_and_yields_its_schedule() {
    let options = ReconnectOptions::new().with_retries_generator(|| {
        vec![
            Duration::from_secs(2),
            Duration::from_secs(2),
            Duration::from_secs(2),
        ]
    });
    let schedule: Vec<Duration> = (options.retries_to_attempt_fn())().into_iter().collect();
    assert_eq!(schedule, vec![Duration::from_secs(2); 3]);
    // a fresh schedule every time the generator is called
    let again: Vec<Duration> = (options.retries_to_attempt_fn())().into_iter().collect();
    assert_eq!(again.len(), 3);
    assert!(options.exit_if_first_connect_fails());
}

#[test]
fn each_callback_lands_in_its_own_slot() {
    let counters: Vec<Arc<AtomicU8>> = (0..4).map(|_| Arc::new(AtomicU8::new(0))).collect();
    let (c0, c1, c2, c3) = (
        counters[0].clone(),
        counters[1].clone(),
        counters[2].clone(),
        counters[3].clone(),
    );
    let options = ReconnectOptions::new()
        .with_on_connect_callback(move || {
            c0.fetch_add(1, Ordering::Relaxed);
        })
        .with_on_disconnect_callback(move || {
            c1.fetch_add(10, Ordering::Relaxed);
        })
        .with_on_connect_fail_callback(move || {
            c2.fetch_add(20, Ordering::Relaxed);
        })
        .with_on_exhausted_callback(move || {
            c3.fetch_add(30, Ordering::Relaxed);
        })
        .with_exit_if_first_connect_fails(false);

    (options.on_connect_callback())();
    (options.on_disconnect_callback())();
    (options.on_connect_fail_callback())();
    (options.on_exhausted_callback())();
    (options.on_connect_fail_callback())();

    assert_eq!(counters[0].load(Ordering::Relaxed), 1);
    assert_eq!(counters[1].load(Ordering::Relaxed), 10);
    assert_eq!(counters[2].load(Ordering::Relaxed), 40);
    assert_eq!(counters[3].load(Ordering::Relaxed), 30);
    assert!(!options.exit_if_first_connect_fails());
    assert_eq!(*options.retries_to_attempt_fn(), DefaultRetries);
}

#[test]
fn options_can_be_cloned() {
    let options = ReconnectOptions::new()
        .with_exit_if_first_connect_fails(false)
        .with_retries_generator(|| vec![Duration::from_millis(100)]);
    let copy = options.clone();
    assert!(!copy.exit_if_first_connect_fails());
    let schedule: Vec<Duration> = (copy.retries_to_attempt_fn())().into_iter().collect();
    assert_eq!(schedule, vec![Duration::from_millis(100)]);
}
