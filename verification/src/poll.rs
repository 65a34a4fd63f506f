//! Whole polls: what one `poll_next` or sink operation of the wrapper does, once it
//! has polled what the plan asked for. The machine's steps are combined here; the
//! wrapper only performs the outside work (polling, callbacks, the schedule, the
//! reconnection attempt) and follows the outcome.

use crate::machine::{
    after_attempt, after_disconnect, attempt_wakeups, disconnect_callback_spec,
    disconnect_outcome_spec, disconnect_wakeups, plan_spec, read_verdict_spec,
    write_verdict_spec, AttemptVerdict, Callback, DisconnectOutcome, Operation, Plan, Progress,
    ReadOutcome, ReadVerdict, ReconnectMachine, Status, Wakeups, WriteOutcome, WriteVerdict,
};
use std::time::Duration;
use vstd::prelude::*;

verus! {

/// What the wrapper polled, as the plan asked: the wrapped stream or sink, the pending
/// reconnection attempt (ready with success or failure), or nothing.
#[derive(Clone, Copy, Debug, PartialEq, Eq)]
pub enum Polled<O> {
    Inner(O),
    Attempt(Progress<bool>),
    Nothing,
}

/// How a poll of the wrapper is answered.
#[derive(Clone, Copy, Debug, PartialEq, Eq, Structural)]
pub enum Answer {
    /// `Pending`.
    Pending,
    /// The ready answer that the wrapped stream or sink gave.
    Ready,
    /// The wrapper has given up: the end of the stream, or the exhaustion error.
    GiveUp,
}

/// What changed in the connection during a poll, and what the wrapper does about it.
#[derive(Clone, Copy, Debug, PartialEq, Eq)]
pub enum Effect {
    NoChange,
    /// The attempt succeeded: invoke the connect callback and use the new stream.
    Reconnected,
    /// A disconnect scheduled attempt `attempt_num` after `delay`.
    RetryScheduled { delay: Duration, attempt_num: usize },
    /// A disconnect found the schedule spent: invoke the exhausted callback.
    GaveUp,
}

/// The outcome of a whole poll.
#[derive(Clone, Copy, Debug, PartialEq, Eq)]
pub struct PollOutcome {
    /// The status after the poll.
    pub status: Status,
    pub answer: Answer,
    /// The wakers to wake before the poll returns.
    pub wakeups: Wakeups,
    /// The polling task's waker went to a wrapped stream, sink or reconnection attempt
    /// that answered `Pending`, and so will wake it.
    pub registered: bool,
    /// The stored wakers are left as they were (the answer was not settled by the
    /// wrapper).
    pub keeps_waker: bool,
    pub effect: Effect,
}

/// `polled` is what `plan` asks to poll.
pub open spec fn polled_fits<O>(plan: Plan, polled: Polled<O>) -> bool {
    match plan {
        Plan::PollInner => polled is Inner,
        Plan::PollAttempt => polled is Attempt,
        _ => polled is Nothing,
    }
}

/// A poll that changes nothing and answers `Pending`.
pub open spec fn quiet(status: Status) -> PollOutcome {
    PollOutcome {
        status,
        answer: Answer::Pending,
        wakeups: Wakeups { current_task: false, stored_wakers: false },
        registered: false,
        keeps_waker: false,
        effect: Effect::NoChange,
    }
}

/// The effect of a disconnect that had the outcome `outcome`.
pub open spec fn disconnect_effect(outcome: DisconnectOutcome) -> Effect {
    match outcome {
        DisconnectOutcome::Exhausted => Effect::GaveUp,
        DisconnectOutcome::Retry { delay, attempt_num } => Effect::RetryScheduled {
            delay,
            attempt_num,
        },
    }
}

/// A poll that ends by handling a disconnect, when the schedule gave `next_delay`.
pub open spec fn disconnect_poll(status: Status, next_delay: Option<Duration>) -> PollOutcome {
    let outcome = disconnect_outcome_spec(status, next_delay);
    PollOutcome {
        status: after_disconnect(status, next_delay),
        wakeups: disconnect_wakeups(outcome),
        effect: disconnect_effect(outcome),
        ..quiet(status)
    }
}

/// A poll of the pending reconnection attempt, which answered `attempt`.
pub open spec fn attempt_poll(
    status: Status,
    attempt: Progress<bool>,
    next_delay: Option<Duration>,
) -> PollOutcome {
    match attempt {
        Progress::Pending => PollOutcome { registered: true, ..quiet(status) },
        Progress::Ready(succeeded) => if succeeded {
            PollOutcome {
                status: after_attempt(status, true),
                wakeups: attempt_wakeups(AttemptVerdict::Reconnected),
                effect: Effect::Reconnected,
                ..quiet(status)
            }
        } else {
            disconnect_poll(status, next_delay)
        },
    }
}

/// A `poll_next` in `status` that polled `polled`, where the schedule gives
/// `next_delay` if a disconnect is handled.
pub open spec fn next_poll(
    status: Status,
    polled: Polled<ReadOutcome>,
    next_delay: Option<Duration>,
) -> PollOutcome {
    match plan_spec(status, Operation::PollNext) {
        Plan::PollInner => match polled {
            Polled::Inner(outcome) => match read_verdict_spec(outcome) {
                ReadVerdict::Pending => PollOutcome {
                    registered: true,
                    keeps_waker: true,
                    ..quiet(status)
                },
                ReadVerdict::Deliver => PollOutcome { answer: Answer::Ready, ..quiet(status) },
                ReadVerdict::Disconnected => disconnect_poll(status, next_delay),
            },
            _ => quiet(status),
        },
        Plan::PollAttempt => match polled {
            Polled::Attempt(attempt) => attempt_poll(status, attempt, next_delay),
            _ => quiet(status),
        },
        Plan::Wait => quiet(status),
        Plan::GiveUp => PollOutcome { answer: Answer::GiveUp, ..quiet(status) },
    }
}

/// A sink operation `op` in `status` that polled `polled`, where the schedule gives
/// `next_delay` if a disconnect is handled.
pub open spec fn sink_poll(
    status: Status,
    op: Operation,
    polled: Polled<WriteOutcome>,
    next_delay: Option<Duration>,
) -> PollOutcome {
    match plan_spec(status, op) {
        Plan::PollInner => match polled {
            Polled::Inner(outcome) => match write_verdict_spec(op == Operation::PollClose, outcome) {
                WriteVerdict::Pass => if outcome == WriteOutcome::Pending {
                    PollOutcome { registered: true, ..quiet(status) }
                } else {
                    PollOutcome { answer: Answer::Ready, ..quiet(status) }
                },
                WriteVerdict::Disconnected => disconnect_poll(status, next_delay),
                WriteVerdict::PassAfterDisconnect => PollOutcome {
                    answer: Answer::Ready,
                    ..disconnect_poll(status, next_delay)
                },
            },
            _ => quiet(status),
        },
        Plan::PollAttempt => match polled {
            Polled::Attempt(attempt) => attempt_poll(status, attempt, next_delay),
            _ => quiet(status),
        },
        Plan::Wait => quiet(status),
        Plan::GiveUp => PollOutcome { answer: Answer::GiveUp, ..quiet(status) },
    }
}

/// The poll handles a disconnect: the wrapped stream ended or gave a disconnect error,
/// or the reconnection attempt failed.
pub open spec fn next_poll_disconnects(status: Status, polled: Polled<ReadOutcome>) -> bool {
    match plan_spec(status, Operation::PollNext) {
        Plan::PollInner => polled matches Polled::Inner(outcome) && read_verdict_spec(outcome)
            == ReadVerdict::Disconnected,
        Plan::PollAttempt => polled == Polled::<ReadOutcome>::Attempt(Progress::Ready(false)),
        _ => false,
    }
}

/// The sink operation handles a disconnect: the wrapped sink gave a disconnect error,
/// or a close completed, or the reconnection attempt failed.
pub open spec fn sink_poll_disconnects(
    status: Status,
    op: Operation,
    polled: Polled<WriteOutcome>,
) -> bool {
    match plan_spec(status, op) {
        Plan::PollInner => polled matches Polled::Inner(outcome) && write_verdict_spec(
            op == Operation::PollClose,
            outcome,
        ) != WriteVerdict::Pass,
        Plan::PollAttempt => polled == Polled::<WriteOutcome>::Attempt(Progress::Ready(false)),
        _ => false,
    }
}

/// What a disconnect handler may give back in `status`: no further attempt once the
/// attempt counter is full.
pub open spec fn handler_fits<D: FnOnce(Callback, bool) -> Option<Duration>>(
    status: Status,
    on_disconnect: D,
) -> bool {
    &&& forall|c: Callback, fresh: bool| on_disconnect.requires((c, fresh))
    &&& status matches Status::Disconnected { attempt_num } ==> forall|
        c: Callback,
        fresh: bool,
        r: Option<Duration>,
    | on_disconnect.ensures((c, fresh), r) && r is Some ==> attempt_num < usize::MAX
}

impl<W> ReconnectMachine<W> {
    /// Handles a disconnect: `on_disconnect` is called with the callback to invoke and
    /// whether a fresh schedule starts (exactly when the connection was up), and gives
    /// back the schedule's next wait.
    fn handle_disconnect<D: FnOnce(Callback, bool) -> Option<Duration>>(
        &mut self,
        on_disconnect: D,
    ) -> (result: (PollOutcome, Option<Duration>))
        requires
            old(self)@.status != Status::FailedAndExhausted,
            handler_fits(old(self)@.status, on_disconnect),
        ensures
            result.0 == disconnect_poll(old(self)@.status, result.1),
            final(self)@.status == result.0.status,
            on_disconnect.ensures(
                (disconnect_callback_spec(old(self)@.status), old(self)@.status == Status::Connected),
                result.1,
            ),
            final(self)@.sink_waker == old(self)@.sink_waker,
            final(self)@.stream_waker == old(self)@.stream_waker,
    {
        let status = self.status();
        let fresh = match status {
            Status::Connected => true,
            _ => false,
        };
        let callback = self.disconnect_callback();
        let next_delay = on_disconnect(callback, fresh);
        let (outcome, wakeups) = self.on_disconnect(next_delay);
        let effect = match outcome {
            DisconnectOutcome::Exhausted => Effect::GaveUp,
            DisconnectOutcome::Retry { delay, attempt_num } => Effect::RetryScheduled {
                delay,
                attempt_num,
            },
        };
        let outcome = PollOutcome {
            status: self.status(),
            answer: Answer::Pending,
            wakeups,
            registered: false,
            keeps_waker: false,
            effect,
        };
        (outcome, next_delay)
    }

    /// Finishes a `poll_next` that polled `polled` as the plan asked, with `waker` the
    /// polling task's waker. A disconnect is handled through `on_disconnect` (see
    /// [`ReconnectMachine::handle_disconnect`]); the second result is the wait it gave
    /// back, `None` when no disconnect was handled.
    pub fn poll_next_step<D: FnOnce(Callback, bool) -> Option<Duration>>(
        &mut self,
        waker: W,
        polled: Polled<ReadOutcome>,
        on_disconnect: D,
    ) -> (result: (PollOutcome, Option<Duration>))
        requires
            polled_fits(plan_spec(old(self)@.status, Operation::PollNext), polled),
            handler_fits(old(self)@.status, on_disconnect),
        ensures
            result.0 == next_poll(old(self)@.status, polled, result.1),
            final(self)@.status == result.0.status,
            next_poll_disconnects(old(self)@.status, polled) ==> on_disconnect.ensures(
                (disconnect_callback_spec(old(self)@.status), old(self)@.status == Status::Connected),
                result.1,
            ),
            !next_poll_disconnects(old(self)@.status, polled) ==> result.1 is None,
            final(self)@.sink_waker == old(self)@.sink_waker,
            final(self)@.stream_waker == (if result.0.keeps_waker {
                old(self)@.stream_waker
            } else if result.0.answer is Pending {
                Some(waker)
            } else {
                None
            }),
    {
        match polled {
            Polled::Inner(outcome) => match Self::read_verdict(outcome) {
                ReadVerdict::Pending => {
                    let outcome = PollOutcome {
                        status: self.status(),
                        answer: Answer::Pending,
                        wakeups: Wakeups { current_task: false, stored_wakers: false },
                        registered: true,
                        keeps_waker: true,
                        effect: Effect::NoChange,
                    };
                    (outcome, None)
                },
                ReadVerdict::Deliver => {
                    self.return_stream(waker, Progress::Ready(()));
                    let outcome = PollOutcome {
                        status: self.status(),
                        answer: Answer::Ready,
                        wakeups: Wakeups { current_task: false, stored_wakers: false },
                        registered: false,
                        keeps_waker: false,
                        effect: Effect::NoChange,
                    };
                    (outcome, None)
                },
                ReadVerdict::Disconnected => {
                    let result = self.handle_disconnect(on_disconnect);
                    self.return_stream(waker, Progress::<()>::Pending);
                    result
                },
            },
            Polled::Attempt(attempt) => {
                let result = self.finish_attempt(attempt, on_disconnect);
                self.return_stream(waker, Progress::<()>::Pending);
                result
            },
            Polled::Nothing => {
                self.return_stream(waker, Progress::Ready(()));
                let outcome = PollOutcome {
                    status: self.status(),
                    answer: Answer::GiveUp,
                    wakeups: Wakeups { current_task: false, stored_wakers: false },
                    registered: false,
                    keeps_waker: false,
                    effect: Effect::NoChange,
                };
                (outcome, None)
            },
        }
    }

    /// Records what polling the reconnection attempt gave.
    fn finish_attempt<D: FnOnce(Callback, bool) -> Option<Duration>>(
        &mut self,
        attempt: Progress<bool>,
        on_disconnect: D,
    ) -> (result: (PollOutcome, Option<Duration>))
        requires
            old(self)@.status is Disconnected,
            handler_fits(old(self)@.status, on_disconnect),
        ensures
            result.0 == attempt_poll(old(self)@.status, attempt, result.1),
            final(self)@.status == result.0.status,
            attempt == Progress::Ready(false) ==> on_disconnect.ensures(
                (disconnect_callback_spec(old(self)@.status), old(self)@.status == Status::Connected),
                result.1,
            ),
            attempt != Progress::Ready(false) ==> result.1 is None,
            final(self)@.sink_waker == old(self)@.sink_waker,
            final(self)@.stream_waker == old(self)@.stream_waker,
    {
        match attempt {
            Progress::Pending => {
                let outcome = PollOutcome {
                    status: self.status(),
                    answer: Answer::Pending,
                    wakeups: Wakeups { current_task: false, stored_wakers: false },
                    registered: true,
                    keeps_waker: false,
                    effect: Effect::NoChange,
                };
                (outcome, None)
            },
            Progress::Ready(succeeded) => {
                if succeeded {
                    let (_, wakeups) = self.on_attempt_finished(true);
                    let outcome = PollOutcome {
                        status: self.status(),
                        answer: Answer::Pending,
                        wakeups,
                        registered: false,
                        keeps_waker: false,
                        effect: Effect::Reconnected,
                    };
                    (outcome, None)
                } else {
                    let _ = self.on_attempt_finished(false);
                    self.handle_disconnect(on_disconnect)
                }
            },
        }
    }

    /// Finishes a sink operation `op` that polled `polled` as the plan asked, with
    /// `waker` the polling task's waker. A disconnect is handled through
    /// `on_disconnect` (see [`ReconnectMachine::handle_disconnect`]); the second result
    /// is the wait it gave back, `None` when no disconnect was handled.
    pub fn sink_step<D: FnOnce(Callback, bool) -> Option<Duration>>(
        &mut self,
        waker: W,
        op: Operation,
        polled: Polled<WriteOutcome>,
        on_disconnect: D,
    ) -> (result: (PollOutcome, Option<Duration>))
        requires
            op != Operation::PollNext,
            polled_fits(plan_spec(old(self)@.status, op), polled),
            handler_fits(old(self)@.status, on_disconnect),
        ensures
            result.0 == sink_poll(old(self)@.status, op, polled, result.1),
            final(self)@.status == result.0.status,
            sink_poll_disconnects(old(self)@.status, op, polled) ==> on_disconnect.ensures(
                (disconnect_callback_spec(old(self)@.status), old(self)@.status == Status::Connected),
                result.1,
            ),
            !sink_poll_disconnects(old(self)@.status, op, polled) ==> result.1 is None,
            final(self)@.stream_waker == old(self)@.stream_waker,
            final(self)@.sink_waker == (if result.0.answer is Pending {
                Some(waker)
            } else {
                None
            }),
    {
        let plan = self.plan(op);
        let result = match polled {
            Polled::Inner(outcome) => {
                let closing = match op {
                    Operation::PollClose => true,
                    _ => false,
                };
                match self.write_verdict(closing, outcome) {
                    WriteVerdict::Pass => {
                        let pending = match outcome {
                            WriteOutcome::Pending => true,
                            _ => false,
                        };
                        let outcome = PollOutcome {
                            status: self.status(),
                            answer: if pending {
                                Answer::Pending
                            } else {
                                Answer::Ready
                            },
                            wakeups: Wakeups { current_task: false, stored_wakers: false },
                            registered: pending,
                            keeps_waker: false,
                            effect: Effect::NoChange,
                        };
                        (outcome, None)
                    },
                    WriteVerdict::Disconnected => self.handle_disconnect(on_disconnect),
                    WriteVerdict::PassAfterDisconnect => {
                        let (outcome, next_delay) = self.handle_disconnect(on_disconnect);
                        (PollOutcome { answer: Answer::Ready, ..outcome }, next_delay)
                    },
                }
            },
            Polled::Attempt(attempt) => self.finish_attempt(attempt, on_disconnect),
            Polled::Nothing => {
                let answer = match plan {
                    Plan::GiveUp => Answer::GiveUp,
                    _ => Answer::Pending,
                };
                let outcome = PollOutcome {
                    status: self.status(),
                    answer,
                    wakeups: Wakeups { current_task: false, stored_wakers: false },
                    registered: false,
                    keeps_waker: false,
                    effect: Effect::NoChange,
                };
                (outcome, None)
            },
        };
        let progress = match result.0.answer {
            Answer::Pending => Progress::Pending,
            _ => Progress::Ready(()),
        };
        self.return_sink(waker, progress);
        result
    }
}

} // verus!
