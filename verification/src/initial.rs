//! The decisions of the initial connection: how many times the wrapper tries to
//! connect before it hands its caller a connection or an error.

use crate::config::ReconnectOptions;
use crate::machine::Callback;
use std::time::Duration;
use vstd::prelude::*;

verus! {

/// What follows one initial connection attempt.
#[derive(Clone, Copy, Debug, PartialEq, Eq)]
pub enum InitialStep {
    /// The attempt succeeded: invoke the connect callback and hand out the connection.
    Connected,
    /// The attempt failed: invoke the connect-fail callback, wait `delay`, try again.
    RetryAfter(Duration),
    /// The attempt failed: invoke the connect-fail callback and hand out its error.
    GiveUp,
}

/// The waits that the initial connection goes through: each wait of the schedule,
/// then a last "no wait" that ends the attempts.
pub open spec fn connect_tries(delays: Seq<Duration>) -> Seq<Option<Duration>> {
    delays.map_values(|d: Duration| Some(d)).push(None)
}

/// What follows an initial attempt that `succeeded` or not, where `maybe_delay` is the
/// wait that the schedule gives before the next attempt (`None`: no next attempt).
pub open spec fn initial_step_spec(
    exit_if_first_connect_fails: bool,
    succeeded: bool,
    maybe_delay: Option<Duration>,
) -> InitialStep {
    if succeeded {
        InitialStep::Connected
    } else if exit_if_first_connect_fails {
        InitialStep::GiveUp
    } else {
        match maybe_delay {
            Some(delay) => InitialStep::RetryAfter(delay),
            None => InitialStep::GiveUp,
        }
    }
}

/// The callback that an initial step invokes.
pub open spec fn initial_step_callback(step: InitialStep) -> Callback {
    match step {
        InitialStep::Connected => Callback::OnConnect,
        _ => Callback::OnConnectFail,
    }
}

/// How an initial connection ends.
pub struct InitialRun {
    /// Whether a connection was handed out (otherwise an error was).
    pub connected: bool,
    /// How many attempts were made.
    pub attempts: nat,
    /// The callbacks invoked, in order.
    pub callbacks: Seq<Callback>,
}

/// The initial connection that goes through the waits `tries` while the attempts
/// succeed or fail as `outcomes` says.
pub open spec fn initial_run(
    exit_if_first_connect_fails: bool,
    tries: Seq<Option<Duration>>,
    outcomes: Seq<bool>,
) -> InitialRun
    decreases tries.len(),
{
    if tries.len() == 0 || outcomes.len() == 0 {
        InitialRun { connected: false, attempts: 0, callbacks: seq![] }
    } else {
        let step = initial_step_spec(exit_if_first_connect_fails, outcomes[0], tries[0]);
        match step {
            InitialStep::RetryAfter(_) => {
                let rest = initial_run(
                    exit_if_first_connect_fails,
                    tries.drop_first(),
                    outcomes.drop_first(),
                );
                InitialRun {
                    connected: rest.connected,
                    attempts: rest.attempts + 1,
                    callbacks: seq![Callback::OnConnectFail] + rest.callbacks,
                }
            },
            _ => InitialRun {
                connected: step == InitialStep::Connected,
                attempts: 1,
                callbacks: seq![initial_step_callback(step)],
            },
        }
    }
}

/// Decides what follows an initial connection attempt under `options`: success hands
/// out the connection; a failure ends the attempts when the options say to exit on a
/// failed first connect or when the schedule has no further wait, and otherwise waits
/// `maybe_delay` before the next attempt.
pub fn initial_connect_step<R, A, B, F, X>(
    options: &ReconnectOptions<R, A, B, F, X>,
    succeeded: bool,
    maybe_delay: Option<Duration>,
) -> (step: InitialStep)
    ensures
        step == initial_step_spec(options@.exit_if_first_connect_fails, succeeded, maybe_delay),
{
    if succeeded {
        InitialStep::Connected
    } else if options.exit_if_first_connect_fails() {
        InitialStep::GiveUp
    } else {
        match maybe_delay {
            Some(delay) => InitialStep::RetryAfter(delay),
            None => InitialStep::GiveUp,
        }
    }
}

} // verus!
