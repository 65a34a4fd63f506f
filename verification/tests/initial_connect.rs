use std::iter::once;
use std::sync::atomic::{AtomicU8, Ordering};
use std::sync::Arc;
use std::time::Duration;

use stream_reconnect::{
    initial_connect_step, DefaultRetries, InitialStep, NoCallback, ReconnectOptions,
};

/// The retry schedule slot of the options: a fresh schedule of waits.
trait Schedule {
    fn waits(&self) -> Box<dyn Iterator<Item = Duration>>;
}

impl Schedule for DefaultRetries {
    fn waits(&self) -> Box<dyn Iterator<Item = Duration>> {
        let mut strategy = self.schedule();
        Box::new(std::iter::from_fn(move || Some(strategy.next_delay())))
    }
}

impl<G: Fn() -> Vec<Duration>> Schedule for G {
    fn waits(&self) -> Box<dyn Iterator<Item = Duration>> {
        Box::new(self().into_iter())
    }
}

/// Invokes a callback slot of the options.
trait Hook {
    fn run(&self);
}

impl Hook for NoCallback {
    fn run(&self) {}
}

impl<C: Fn()> Hook for C {
    fn run(&self) {
        self()
    }
}

/// Replays the initial connection the way the wrapper runs it: the schedule's waits,
/// then a last `None`, one connection outcome per attempt. Returns whether a
/// connection was handed out, the number of attempts and the waits slept.
fn replay<R, A, B, F, X>(
    options: &ReconnectOptions<R, A, B, F, X>,
    outcomes: Vec<bool>,
) -> (bool, usize, Vec<Duration>)
where
    R: Schedule,
    A: Hook,
    F: Hook,
{
    let tries = options.retries_to_attempt_fn().waits().map(Some).chain(once(None));
    let mut outcomes = outcomes.into_iter();
    let mut attempts = 0;
    let mut slept = vec![];
    for maybe_delay in tries {
        let succeeded = outcomes.next().expect("an outcome per attempt");
        attempts += 1;
        match initial_connect_step(options, succeeded, maybe_delay) {
            InitialStep::Connected => {
                options.on_connect_callback().run();
                return (true, attempts, slept);
            }
            InitialStep::RetryAfter(delay) => {
                options.on_connect_fail_callback().run();
                slept.push(delay);
            }
            InitialStep::GiveUp => {
                options.on_connect_fail_callback().run();
                return (false, attempts, slept);
            }
        }
    }
    unreachable!("the last try always ends the attempts")
}

fn counting(counter: &Arc<AtomicU8>) -> impl Fn() + Send + Sync + 'static {
    let counter = counter.clone();
    move || {
        counter.fetch_add(1, Ordering::Relaxed);
    }
}

#[test]
fn should_be_connected_if_initial_connect_succeeds() {
    let step = initial_connect_step(&ReconnectOptions::new(), true, None);
    assert_eq!(step, InitialStep::Connected);

    let options = ReconnectOptions::new();
    let (connected, attempts, _) = replay(&options, vec![true]);
    assert!(connected);
    assert_eq!(attempts, 1);
}

#[test]
fn should_be_disconnected_if_initial_connect_fails_with_fail_on_first_enabled() {
    let delay = Duration::from_millis(100);
    assert_eq!(
        initial_connect_step(&ReconnectOptions::new(), false, Some(delay)),
        InitialStep::GiveUp
    );

    let options = ReconnectOptions::new();
    let (connected, attempts, slept) = replay(&options, vec![false, true]);
    assert!(!connected);
    assert_eq!(attempts, 1);
    assert!(slept.is_empty());
}

#[test]
fn should_be_disconnected_if_all_initial_connects_fail() {
    let disconnect_counter = Arc::new(AtomicU8::new(0));
    let options = ReconnectOptions::new()
        .with_retries_generator(|| vec![Duration::from_millis(100)])
        .with_exit_if_first_connect_fails(false)
        .with_on_connect_fail_callback(counting(&disconnect_counter));

    let (connected, attempts, slept) = replay(&options, vec![false, false]);

    assert_eq!(disconnect_counter.load(Ordering::Relaxed), 2);
    assert!(!connected);
    assert_eq!(attempts, 2);
    assert_eq!(slept, vec![Duration::from_millis(100)]);
}

#[test]
fn should_be_connected_if_initial_connect_fails_but_then_other_succeeds() {
    let disconnect_counter = Arc::new(AtomicU8::new(0));
    let options = ReconnectOptions::new()
        .with_exit_if_first_connect_fails(false)
        .with_retries_generator(|| vec![Duration::from_millis(100)])
        .with_on_connect_fail_callback(counting(&disconnect_counter));

    let (connected, attempts, _) = replay(&options, vec![false, true]);

    assert_eq!(disconnect_counter.load(Ordering::Relaxed), 1);
    assert!(connected);
    assert_eq!(attempts, 2);
}

#[test]
fn retrying_initial_connect_waits_what_the_schedule_says() {
    let options = ReconnectOptions::new()
        .with_exit_if_first_connect_fails(false)
        .with_retries_generator(|| {
            vec![
                Duration::from_millis(10),
                Duration::from_millis(20),
                Duration::from_millis(30),
            ]
        });
    assert_eq!(
        initial_connect_step(&options, false, Some(Duration::from_millis(20))),
        InitialStep::RetryAfter(Duration::from_millis(20))
    );
    assert_eq!(initial_connect_step(&options, false, None), InitialStep::GiveUp);

    let (connected, attempts, slept) = replay(&options, vec![false, false, false, false]);
    assert!(!connected);
    assert_eq!(attempts, 4);
    assert_eq!(
        slept,
        vec![
            Duration::from_millis(10),
            Duration::from_millis(20),
            Duration::from_millis(30)
        ]
    );

    let (connected, attempts, slept) = replay(&options, vec![false, false, true, false]);
    assert!(connected);
    assert_eq!(attempts, 3);
    assert_eq!(slept.len(), 2);
}

#[test]
fn connect_callback_runs_once_on_success() {
    let connects = Arc::new(AtomicU8::new(0));
    let fails = Arc::new(AtomicU8::new(0));
    let options = ReconnectOptions::new()
        .with_exit_if_first_connect_fails(false)
        .with_retries_generator(|| vec![Duration::from_millis(1); 5])
        .with_on_connect_callback(counting(&connects))
        .with_on_connect_fail_callback(counting(&fails));
    let (connected, attempts, _) = replay(&options, vec![false, false, false, true]);
    assert!(connected);
    assert_eq!(attempts, 4);
    assert_eq!(connects.load(Ordering::Relaxed), 1);
    assert_eq!(fails.load(Ordering::Relaxed), 3);
}
