//! Options that control how a reconnecting wrapper behaves upon disconnect.

use crate::strategies::{BackoffView, ExpBackoffStrategy};
use vstd::prelude::*;

verus! {

/// Stands for the retry schedule used when none was given: a schedule that waits
/// longer and longer between attempts, until it tries every 30 minutes forever.
#[derive(Clone, Copy, Debug, PartialEq, Eq)]
pub struct DefaultRetries;

impl DefaultRetries {
    /// A fresh default schedule: 4 seconds first, doubling after each attempt, and at
    /// most 30 minutes.
    pub fn schedule(&self) -> (strategy: ExpBackoffStrategy)
        ensures
            strategy@ == (BackoffView {
                min_millis: 4_000,
                factor: 2,
                max_millis: 1_800_000,
                handed_out: 0,
            }),
    {
        ExpBackoffStrategy::default()
    }
}

/// Stands for a callback that does nothing.
#[derive(Clone, Copy, Debug, PartialEq, Eq)]
pub struct NoCallback;

/// What a [`ReconnectOptions`] holds, field by field.
pub struct OptionsView<R, A, B, F, X> {
    pub retries_to_attempt_fn: R,
    pub exit_if_first_connect_fails: bool,
    pub on_connect_callback: A,
    pub on_disconnect_callback: B,
    pub on_connect_fail_callback: F,
    pub on_exhausted_callback: X,
}

/// User specified options that control the behavior of a reconnecting wrapper upon
/// disconnect.
///
/// `R` generates the schedule of waits between reconnection attempts; `A`, `B`, `F`
/// and `X` are invoked when a connection is established, when the active connection
/// is lost, when a connection attempt fails, and when all attempts are exhausted.
#[derive(Clone)]
pub struct ReconnectOptions<
    R = DefaultRetries,
    A = NoCallback,
    B = NoCallback,
    F = NoCallback,
    X = NoCallback,
> {
    retries_to_attempt_fn: R,
    exit_if_first_connect_fails: bool,
    on_connect_callback: A,
    on_disconnect_callback: B,
    on_connect_fail_callback: F,
    on_exhausted_callback: X,
}

impl<R, A, B, F, X> View for ReconnectOptions<R, A, B, F, X> {
    type V = OptionsView<R, A, B, F, X>;

    closed spec fn view(&self) -> OptionsView<R, A, B, F, X> {
        OptionsView {
            retries_to_attempt_fn: self.retries_to_attempt_fn,
            exit_if_first_connect_fails: self.exit_if_first_connect_fails,
            on_connect_callback: self.on_connect_callback,
            on_disconnect_callback: self.on_disconnect_callback,
            on_connect_fail_callback: self.on_connect_fail_callback,
            on_exhausted_callback: self.on_exhausted_callback,
        }
    }
}

impl ReconnectOptions {
    /// By default, the wrapper will not try to reconnect if the first connect attempt
    /// fails, the retry schedule is [`DefaultRetries`], and every callback does nothing.
    #[allow(clippy::new_without_default)]
    pub fn new() -> (options: Self)
        ensures
            options@ == (OptionsView {
                retries_to_attempt_fn: DefaultRetries,
                exit_if_first_connect_fails: true,
                on_connect_callback: NoCallback,
                on_disconnect_callback: NoCallback,
                on_connect_fail_callback: NoCallback,
                on_exhausted_callback: NoCallback,
            }),
    {
        ReconnectOptions {
            retries_to_attempt_fn: DefaultRetries,
            exit_if_first_connect_fails: true,
            on_connect_callback: NoCallback,
            on_disconnect_callback: NoCallback,
            on_connect_fail_callback: NoCallback,
            on_exhausted_callback: NoCallback,
        }
    }
}

impl<R, A, B, F, X> ReconnectOptions<R, A, B, F, X> {
    /// The function that generates the schedule of waits between reconnection attempts.
    pub fn retries_to_attempt_fn(&self) -> (r: &R)
        ensures
            *r == self@.retries_to_attempt_fn,
    {
        &self.retries_to_attempt_fn
    }

    /// Whether a failed initial connect ends all further attempts.
    pub fn exit_if_first_connect_fails(&self) -> (b: bool)
        ensures
            b == self@.exit_if_first_connect_fails,
    {
        self.exit_if_first_connect_fails
    }

    /// The callback invoked when a connection is established.
    pub fn on_connect_callback(&self) -> (r: &A)
        ensures
            *r == self@.on_connect_callback,
    {
        &self.on_connect_callback
    }

    /// The callback invoked when the active connection is lost.
    pub fn on_disconnect_callback(&self) -> (r: &B)
        ensures
            *r == self@.on_disconnect_callback,
    {
        &self.on_disconnect_callback
    }

    /// The callback invoked when a connection attempt fails.
    pub fn on_connect_fail_callback(&self) -> (r: &F)
        ensures
            *r == self@.on_connect_fail_callback,
    {
        &self.on_connect_fail_callback
    }

    /// The callback invoked when all reconnection attempts are exhausted.
    pub fn on_exhausted_callback(&self) -> (r: &X)
        ensures
            *r == self@.on_exhausted_callback,
    {
        &self.on_exhausted_callback
    }

    /// Represents a function that generates an Iterator to schedule the wait between
    /// reconnection attempts. Any function that returns a value which is convertible
    /// into an iterator of `Duration`s will do, such as an actual iterator or a Vec
    /// (the connecting side asks for that conversion):
    /// with `|| vec![Duration::from_secs(2); 3]` the wrapper tries to reconnect three
    /// times, waiting 2 seconds before each attempt, and then stops attempting.
    pub fn with_retries_generator<G, IN>(self, retries_generator: G) -> (options:
        ReconnectOptions<G, A, B, F, X>) where
        G: 'static + Send + Sync + Fn() -> IN,

        ensures
            options@ == (OptionsView {
                retries_to_attempt_fn: retries_generator,
                exit_if_first_connect_fails: self@.exit_if_first_connect_fails,
                on_connect_callback: self@.on_connect_callback,
                on_disconnect_callback: self@.on_disconnect_callback,
                on_connect_fail_callback: self@.on_connect_fail_callback,
                on_exhausted_callback: self@.on_exhausted_callback,
            }),
    {
        ReconnectOptions {
            retries_to_attempt_fn: retries_generator,
            exit_if_first_connect_fails: self.exit_if_first_connect_fails,
            on_connect_callback: self.on_connect_callback,
            on_disconnect_callback: self.on_disconnect_callback,
            on_connect_fail_callback: self.on_connect_fail_callback,
            on_exhausted_callback: self.on_exhausted_callback,
        }
    }

    /// If this is set to true, if the initial connect method of the wrapper fails,
    /// then no further reconnects will be attempted.
    pub fn with_exit_if_first_connect_fails(self, value: bool) -> (options: Self)
        ensures
            options@ == (OptionsView { exit_if_first_connect_fails: value, ..self@ }),
    {
        ReconnectOptions { exit_if_first_connect_fails: value, ..self }
    }

    /// Invoked when the wrapper establishes a connection.
    pub fn with_on_connect_callback<C>(self, cb: C) -> (options: ReconnectOptions<
        R,
        C,
        B,
        F,
        X,
    >) where C: Fn() + 'static + Send + Sync
        ensures
            options@ == (OptionsView {
                retries_to_attempt_fn: self@.retries_to_attempt_fn,
                exit_if_first_connect_fails: self@.exit_if_first_connect_fails,
                on_connect_callback: cb,
                on_disconnect_callback: self@.on_disconnect_callback,
                on_connect_fail_callback: self@.on_connect_fail_callback,
                on_exhausted_callback: self@.on_exhausted_callback,
            }),
    {
        ReconnectOptions {
            retries_to_attempt_fn: self.retries_to_attempt_fn,
            exit_if_first_connect_fails: self.exit_if_first_connect_fails,
            on_connect_callback: cb,
            on_disconnect_callback: self.on_disconnect_callback,
            on_connect_fail_callback: self.on_connect_fail_callback,
            on_exhausted_callback: self.on_exhausted_callback,
        }
    }

    /// Invoked when the wrapper loses its active connection.
    pub fn with_on_disconnect_callback<C>(self, cb: C) -> (options: ReconnectOptions<
        R,
        A,
        C,
        F,
        X,
    >) where C: Fn() + 'static + Send + Sync
        ensures
            options@ == (OptionsView {
                retries_to_attempt_fn: self@.retries_to_attempt_fn,
                exit_if_first_connect_fails: self@.exit_if_first_connect_fails,
                on_connect_callback: self@.on_connect_callback,
                on_disconnect_callback: cb,
                on_connect_fail_callback: self@.on_connect_fail_callback,
                on_exhausted_callback: self@.on_exhausted_callback,
            }),
    {
        ReconnectOptions {
            retries_to_attempt_fn: self.retries_to_attempt_fn,
            exit_if_first_connect_fails: self.exit_if_first_connect_fails,
            on_connect_callback: self.on_connect_callback,
            on_disconnect_callback: cb,
            on_connect_fail_callback: self.on_connect_fail_callback,
            on_exhausted_callback: self.on_exhausted_callback,
        }
    }

    /// Invoked when the wrapper fails a connection attempt.
    pub fn with_on_connect_fail_callback<C>(self, cb: C) -> (options: ReconnectOptions<
        R,
        A,
        B,
        C,
        X,
    >) where C: Fn() + 'static + Send + Sync
        ensures
            options@ == (OptionsView {
                retries_to_attempt_fn: self@.retries_to_attempt_fn,
                exit_if_first_connect_fails: self@.exit_if_first_connect_fails,
                on_connect_callback: self@.on_connect_callback,
                on_disconnect_callback: self@.on_disconnect_callback,
                on_connect_fail_callback: cb,
                on_exhausted_callback: self@.on_exhausted_callback,
            }),
    {
        ReconnectOptions {
            retries_to_attempt_fn: self.retries_to_attempt_fn,
            exit_if_first_connect_fails: self.exit_if_first_connect_fails,
            on_connect_callback: self.on_connect_callback,
            on_disconnect_callback: self.on_disconnect_callback,
            on_connect_fail_callback: cb,
            on_exhausted_callback: self.on_exhausted_callback,
        }
    }

    /// Invoked when the wrapper has exhausted all its reconnection attempts.
    pub fn with_on_exhausted_callback<C>(self, cb: C) -> (options: ReconnectOptions<
        R,
        A,
        B,
        F,
        C,
    >) where C: Fn() + 'static + Send + Sync
        ensures
            options@ == (OptionsView {
                retries_to_attempt_fn: self@.retries_to_attempt_fn,
                exit_if_first_connect_fails: self@.exit_if_first_connect_fails,
                on_connect_callback: self@.on_connect_callback,
                on_disconnect_callback: self@.on_disconnect_callback,
                on_connect_fail_callback: self@.on_connect_fail_callback,
                on_exhausted_callback: cb,
            }),
    {
        ReconnectOptions {
            retries_to_attempt_fn: self.retries_to_attempt_fn,
            exit_if_first_connect_fails: self.exit_if_first_connect_fails,
            on_connect_callback: self.on_connect_callback,
            on_disconnect_callback: self.on_disconnect_callback,
            on_connect_fail_callback: self.on_connect_fail_callback,
            on_exhausted_callback: cb,
        }
    }
}

} // verus!
