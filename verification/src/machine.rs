//! The state machine that a reconnecting wrapper runs once a connection exists.
//!
//! The wrapper owns the wrapped stream, the pending reconnection attempt and the
//! user's callbacks; it asks the machine what to do at each step and tells it what
//! happened. The machine keeps the connection status and the wakers of the tasks
//! that wait on the stream side and on the sink side.

use std::time::Duration;
use vstd::prelude::*;

verus! {

/// Connection status of a reconnecting wrapper.
#[derive(Clone, Copy, Debug, PartialEq, Eq, Structural)]
pub enum Status {
    /// The wrapped stream is usable.
    Connected,
    /// The connection was lost; reconnection attempt number `attempt_num` (counted
    /// from 1 since the connection was lost) is scheduled.
    Disconnected { attempt_num: usize },
    /// The retry schedule ran out; the wrapper has given up for good.
    FailedAndExhausted,
}

/// A user callback that the wrapper is to invoke.
#[derive(Clone, Copy, Debug, PartialEq, Eq, Structural)]
pub enum Callback {
    OnConnect,
    OnDisconnect,
    OnConnectFail,
    OnExhausted,
}

/// The result of one poll: a value, or "not yet".
#[derive(Clone, Copy, Debug, PartialEq, Eq)]
pub enum Progress<T> {
    Ready(T),
    Pending,
}

/// The `Stream`/`Sink` operation being polled.
#[derive(Clone, Copy, Debug, PartialEq, Eq, Structural)]
pub enum Operation {
    PollNext,
    PollReady,
    PollFlush,
    PollClose,
}

/// What the wrapper does for an operation, given its status.
#[derive(Clone, Copy, Debug, PartialEq, Eq, Structural)]
pub enum Plan {
    /// Poll the wrapped stream or sink, and judge the outcome with
    /// [`ReconnectMachine::read_verdict`] or [`ReconnectMachine::write_verdict`].
    PollInner,
    /// Poll the pending reconnection attempt, then answer `Pending`.
    PollAttempt,
    /// Answer `Pending` without polling anything.
    Wait,
    /// The wrapper has given up: `PollNext` answers the end of the stream, the sink
    /// operations answer the exhaustion error.
    GiveUp,
}

/// What polling the wrapped stream gave.
#[derive(Clone, Copy, Debug, PartialEq, Eq, Structural)]
pub enum ReadOutcome {
    /// The wrapped stream is not ready.
    Pending,
    /// The wrapped stream yielded an item; `disconnect_error` tells whether the user's
    /// `is_read_disconnect_error` judges it a disconnect.
    Item { disconnect_error: bool },
    /// The wrapped stream ended.
    End,
}

/// What `poll_next` does with a [`ReadOutcome`].
#[derive(Clone, Copy, Debug, PartialEq, Eq, Structural)]
pub enum ReadVerdict {
    /// Answer `Pending` at once, leaving the stored wakers as they are.
    Pending,
    /// Hand the item to the caller.
    Deliver,
    /// Handle a disconnect, then answer `Pending`.
    Disconnected,
}

/// What polling the wrapped sink gave.
#[derive(Clone, Copy, Debug, PartialEq, Eq, Structural)]
pub enum WriteOutcome {
    /// The wrapped sink is not ready.
    Pending,
    /// The wrapped sink answered `Ok`.
    Done,
    /// The wrapped sink answered an error; `disconnect_error` tells whether the user's
    /// `is_write_disconnect_error` judges it a disconnect.
    Failed { disconnect_error: bool },
}

/// What a sink operation does with a [`WriteOutcome`].
#[derive(Clone, Copy, Debug, PartialEq, Eq, Structural)]
pub enum WriteVerdict {
    /// Hand the wrapped sink's answer to the caller.
    Pass,
    /// Handle a disconnect, then answer `Pending`.
    Disconnected,
    /// Handle a disconnect, then hand the wrapped sink's answer to the caller.
    PassAfterDisconnect,
}

/// What follows a disconnect, once the retry schedule gave its next wait.
#[derive(Clone, Copy, Debug, PartialEq, Eq)]
pub enum DisconnectOutcome {
    /// The schedule ran out: invoke the exhausted callback.
    Exhausted,
    /// Attempt reconnection number `attempt_num` after waiting `delay`.
    Retry { delay: Duration, attempt_num: usize },
}

/// What follows the end of a reconnection attempt.
#[derive(Clone, Copy, Debug, PartialEq, Eq, Structural)]
pub enum AttemptVerdict {
    /// The connection is back: invoke the connect callback and use the new stream.
    Reconnected,
    /// The attempt failed: handle a disconnect.
    Failed,
}

/// Which wakers a step asks the wrapper to wake at once.
#[derive(Clone, Copy, Debug, PartialEq, Eq, Structural)]
pub struct Wakeups {
    /// The waker of the task that is polling now.
    pub current_task: bool,
    /// The wakers stored by earlier `Pending` answers (those stored before the poll
    /// that takes this step).
    pub stored_wakers: bool,
}

/// The wakers to wake after a disconnect: the polling task always (it will be answered
/// `Pending`, and must come back either to poll the scheduled attempt or to learn that
/// the wrapper gave up), and, when the wrapper gives up, every task that waits on it.
pub open spec fn disconnect_wakeups(outcome: DisconnectOutcome) -> Wakeups {
    Wakeups { current_task: true, stored_wakers: outcome is Exhausted }
}

/// The wakers to wake after a reconnection attempt ended: when the connection is back,
/// every task that waited on the wrapper (the wakers stored before this poll); after a
/// failure, none (the disconnect that follows decides).
pub open spec fn attempt_wakeups(verdict: AttemptVerdict) -> Wakeups {
    if verdict == AttemptVerdict::Reconnected {
        Wakeups { current_task: false, stored_wakers: true }
    } else {
        Wakeups { current_task: false, stored_wakers: false }
    }
}

/// The plan for `op` in status `status`.
pub open spec fn plan_spec(status: Status, op: Operation) -> Plan {
    match status {
        Status::Connected => Plan::PollInner,
        Status::Disconnected { .. } => if op == Operation::PollClose {
            Plan::Wait
        } else {
            Plan::PollAttempt
        },
        Status::FailedAndExhausted => Plan::GiveUp,
    }
}

/// The verdict on what polling the wrapped stream gave.
pub open spec fn read_verdict_spec(outcome: ReadOutcome) -> ReadVerdict {
    match outcome {
        ReadOutcome::Pending => ReadVerdict::Pending,
        ReadOutcome::Item { disconnect_error } => if disconnect_error {
            ReadVerdict::Disconnected
        } else {
            ReadVerdict::Deliver
        },
        ReadOutcome::End => ReadVerdict::Disconnected,
    }
}

/// Whether a sink outcome is a disconnect: an error that the user judges one.
pub open spec fn write_disconnect_spec(outcome: WriteOutcome) -> bool {
    outcome == WriteOutcome::Failed { disconnect_error: true }
}

/// The verdict on what polling the wrapped sink gave; `closing` is set for `poll_close`.
pub open spec fn write_verdict_spec(closing: bool, outcome: WriteOutcome) -> WriteVerdict {
    if closing {
        if outcome == WriteOutcome::Pending {
            WriteVerdict::Pass
        } else {
            WriteVerdict::PassAfterDisconnect
        }
    } else if write_disconnect_spec(outcome) {
        WriteVerdict::Disconnected
    } else {
        WriteVerdict::Pass
    }
}

/// The callback that a disconnect in `status` invokes first: losing the active
/// connection, or failing a reconnection attempt.
pub open spec fn disconnect_callback_spec(status: Status) -> Callback {
    if status == Status::Connected {
        Callback::OnDisconnect
    } else {
        Callback::OnConnectFail
    }
}

/// A disconnect can be handled in `status` when the schedule gave `next_delay`: the
/// wrapper has not given up, and when another attempt is to be scheduled the attempt
/// counter can count it.
pub open spec fn can_disconnect(status: Status, next_delay: Option<Duration>) -> bool {
    match status {
        Status::Connected => true,
        Status::Disconnected { attempt_num } => next_delay is Some ==> attempt_num < usize::MAX,
        Status::FailedAndExhausted => false,
    }
}

/// The number of the reconnection attempt that a disconnect in `status` schedules.
pub open spec fn next_attempt_num(status: Status) -> int {
    match status {
        Status::Disconnected { attempt_num } => attempt_num + 1,
        _ => 1,
    }
}

/// The status after a disconnect in `status`, where `next_delay` is what the retry
/// schedule gave next (a fresh schedule when `status` is `Connected`).
pub open spec fn after_disconnect(status: Status, next_delay: Option<Duration>) -> Status {
    if status == Status::FailedAndExhausted {
        status
    } else {
        match next_delay {
            None => Status::FailedAndExhausted,
            Some(_) => Status::Disconnected { attempt_num: next_attempt_num(status) as usize },
        }
    }
}

/// What follows a disconnect in `status` when the schedule gave `next_delay`.
pub open spec fn disconnect_outcome_spec(status: Status, next_delay: Option<Duration>) -> DisconnectOutcome {
    match next_delay {
        None => DisconnectOutcome::Exhausted,
        Some(delay) => DisconnectOutcome::Retry {
            delay,
            attempt_num: next_attempt_num(status) as usize,
        },
    }
}

/// The callbacks that a disconnect in `status` invokes, in order.
pub open spec fn disconnect_callbacks(status: Status, next_delay: Option<Duration>) -> Seq<Callback> {
    if next_delay is None {
        seq![disconnect_callback_spec(status), Callback::OnExhausted]
    } else {
        seq![disconnect_callback_spec(status)]
    }
}

/// The status after a reconnection attempt in `status` ended, successfully or not.
pub open spec fn after_attempt(status: Status, succeeded: bool) -> Status {
    if succeeded {
        Status::Connected
    } else {
        status
    }
}

/// A status as the machine keeps it: attempts are counted from 1.
pub open spec fn status_wf(status: Status) -> bool {
    match status {
        Status::Disconnected { attempt_num } => attempt_num >= 1,
        _ => true,
    }
}

/// What a [`ReconnectMachine`] holds.
pub struct MachineView<W> {
    pub status: Status,
    /// The waker of the task that last got `Pending` from a sink operation.
    pub sink_waker: Option<W>,
    /// The waker of the task that last got `Pending` from `poll_next`.
    pub stream_waker: Option<W>,
}

/// The decisions of a reconnecting wrapper, with its status and the wakers of the
/// tasks that wait on it.
pub struct ReconnectMachine<W> {
    status: Status,
    sink_waker: Option<W>,
    stream_waker: Option<W>,
}

impl<W> View for ReconnectMachine<W> {
    type V = MachineView<W>;

    closed spec fn view(&self) -> MachineView<W> {
        MachineView {
            status: self.status,
            sink_waker: self.sink_waker,
            stream_waker: self.stream_waker,
        }
    }
}

impl<W> ReconnectMachine<W> {
    #[verifier::type_invariant]
    spec fn inv(self) -> bool {
        status_wf(self.status)
    }

    /// The machine of a wrapper whose initial connection just succeeded.
    pub fn new() -> (machine: Self)
        ensures
            machine@.status == Status::Connected,
            machine@.sink_waker is None,
            machine@.stream_waker is None,
    {
        ReconnectMachine { status: Status::Connected, sink_waker: None, stream_waker: None }
    }

    /// The connection status; while disconnected, the attempt number is at least 1.
    pub fn status(&self) -> (status: Status)
        ensures
            status == self@.status,
            status_wf(status),
    {
        proof {
            use_type_invariant(self);
        }
        self.status
    }

    /// The waker stored by the last sink operation that answered `Pending`.
    pub fn sink_waker(&self) -> (waker: &Option<W>)
        ensures
            *waker == self@.sink_waker,
    {
        &self.sink_waker
    }

    /// The waker stored by the last `poll_next` that answered `Pending`.
    pub fn stream_waker(&self) -> (waker: &Option<W>)
        ensures
            *waker == self@.stream_waker,
    {
        &self.stream_waker
    }

    /// What to do for `op`: poll the wrapped stream or sink while connected, poll the
    /// reconnection attempt while disconnected (except that closing only waits), and
    /// give up once exhausted.
    pub fn plan(&self, op: Operation) -> (plan: Plan)
        ensures
            plan == plan_spec(self@.status, op),
    {
        match self.status {
            Status::Connected => Plan::PollInner,
            Status::Disconnected { .. } => match op {
                Operation::PollClose => Plan::Wait,
                _ => Plan::PollAttempt,
            },
            Status::FailedAndExhausted => Plan::GiveUp,
        }
    }

    /// The verdict on what polling the wrapped stream gave: an item is delivered unless
    /// the user judges it a disconnect; the end of the wrapped stream is a disconnect.
    pub fn read_verdict(outcome: ReadOutcome) -> (verdict: ReadVerdict)
        ensures
            verdict == read_verdict_spec(outcome),
    {
        match outcome {
            ReadOutcome::Pending => ReadVerdict::Pending,
            ReadOutcome::Item { disconnect_error } => if disconnect_error {
                ReadVerdict::Disconnected
            } else {
                ReadVerdict::Deliver
            },
            ReadOutcome::End => ReadVerdict::Disconnected,
        }
    }

    /// Whether what polling the wrapped sink gave is a disconnect: an error that the
    /// user judges one.
    pub fn is_write_disconnect_detected(&self, outcome: &WriteOutcome) -> (detected: bool)
        ensures
            detected == write_disconnect_spec(*outcome),
    {
        match outcome {
            WriteOutcome::Failed { disconnect_error } => *disconnect_error,
            _ => false,
        }
    }

    /// The verdict on what polling the wrapped sink gave. For `poll_ready` and
    /// `poll_flush` (`closing` unset) a disconnect error is handled and answered with
    /// `Pending`, anything else is passed on. For `poll_close` (`closing` set) any
    /// ready answer, error or not, leaves the wrapper disconnected and is passed on.
    pub fn write_verdict(&self, closing: bool, outcome: WriteOutcome) -> (verdict: WriteVerdict)
        ensures
            verdict == write_verdict_spec(closing, outcome),
    {
        if closing {
            match outcome {
                WriteOutcome::Pending => WriteVerdict::Pass,
                _ => WriteVerdict::PassAfterDisconnect,
            }
        } else if self.is_write_disconnect_detected(&outcome) {
            WriteVerdict::Disconnected
        } else {
            WriteVerdict::Pass
        }
    }

    /// The callback that a disconnect invokes first: the disconnect callback when the
    /// active connection is lost, the connect-fail callback when a reconnection attempt
    /// failed. A fresh retry schedule is started exactly when the active connection is
    /// lost, that is when the answer is [`Callback::OnDisconnect`].
    pub fn disconnect_callback(&self) -> (cb: Callback)
        requires
            self@.status != Status::FailedAndExhausted,
        ensures
            cb == disconnect_callback_spec(self@.status),
    {
        match self.status {
            Status::Connected => Callback::OnDisconnect,
            _ => Callback::OnConnectFail,
        }
    }

    /// Handles a disconnect, given what the retry schedule gave next: with no further
    /// wait the wrapper gives up for good; otherwise the next reconnection attempt is
    /// scheduled after that wait, numbered 1 when the active connection was just lost
    /// and one more than the failed attempt otherwise. The answer also says which
    /// wakers to wake: the polling task always, and on giving up every stored waker.
    pub fn on_disconnect(&mut self, next_delay: Option<Duration>) -> (result: (
        DisconnectOutcome,
        Wakeups,
    ))
        requires
            can_disconnect(old(self)@.status, next_delay),
        ensures
            final(self)@.status == after_disconnect(old(self)@.status, next_delay),
            final(self)@.sink_waker == old(self)@.sink_waker,
            final(self)@.stream_waker == old(self)@.stream_waker,
            result.0 == disconnect_outcome_spec(old(self)@.status, next_delay),
            result.1 == disconnect_wakeups(result.0),
    {
        proof {
            use_type_invariant(&*self);
        }
        match next_delay {
            None => {
                self.status = Status::FailedAndExhausted;
                (
                    DisconnectOutcome::Exhausted,
                    Wakeups { current_task: true, stored_wakers: true },
                )
            },
            Some(delay) => {
                let attempt_num: usize = match self.status {
                    Status::Disconnected { attempt_num } => attempt_num + 1,
                    _ => 1,
                };
                self.status = Status::Disconnected { attempt_num };
                (
                    DisconnectOutcome::Retry { delay, attempt_num },
                    Wakeups { current_task: true, stored_wakers: false },
                )
            },
        }
    }

    /// Records the end of the pending reconnection attempt: on success the wrapper is
    /// connected again, and every stored waker is to be woken; on failure the status
    /// stays and a disconnect is to be handled.
    pub fn on_attempt_finished(&mut self, succeeded: bool) -> (result: (AttemptVerdict, Wakeups))
        requires
            old(self)@.status is Disconnected,
        ensures
            final(self)@.status == after_attempt(old(self)@.status, succeeded),
            final(self)@.sink_waker == old(self)@.sink_waker,
            final(self)@.stream_waker == old(self)@.stream_waker,
            result.0 == (if succeeded {
                AttemptVerdict::Reconnected
            } else {
                AttemptVerdict::Failed
            }),
            result.1 == attempt_wakeups(result.0),
    {
        proof {
            use_type_invariant(&*self);
        }
        if succeeded {
            self.status = Status::Connected;
            (AttemptVerdict::Reconnected, Wakeups { current_task: false, stored_wakers: true })
        } else {
            (AttemptVerdict::Failed, Wakeups { current_task: false, stored_wakers: false })
        }
    }

    /// Answers a `poll_next`: a ready answer clears the stored stream waker, a pending
    /// one stores `waker`, the waker of the polling task.
    pub fn return_stream<T>(&mut self, waker: W, item: Progress<T>) -> (answer: Progress<T>)
        ensures
            answer == item,
            final(self)@.stream_waker == (if item is Pending {
                Some(waker)
            } else {
                None
            }),
            final(self)@.status == old(self)@.status,
            final(self)@.sink_waker == old(self)@.sink_waker,
    {
        proof {
            use_type_invariant(&*self);
        }
        match item {
            Progress::Ready(value) => {
                self.stream_waker = None;
                Progress::Ready(value)
            },
            Progress::Pending => {
                self.stream_waker = Some(waker);
                Progress::Pending
            },
        }
    }

    /// Answers a sink operation: a ready answer clears the stored sink waker, a pending
    /// one stores `waker`, the waker of the polling task.
    pub fn return_sink<T>(&mut self, waker: W, item: Progress<T>) -> (answer: Progress<T>)
        ensures
            answer == item,
            final(self)@.sink_waker == (if item is Pending {
                Some(waker)
            } else {
                None
            }),
            final(self)@.status == old(self)@.status,
            final(self)@.stream_waker == old(self)@.stream_waker,
    {
        proof {
            use_type_invariant(&*self);
        }
        match item {
            Progress::Ready(value) => {
                self.sink_waker = None;
                Progress::Ready(value)
            },
            Progress::Pending => {
                self.sink_waker = Some(waker);
                Progress::Pending
            },
        }
    }
}

} // verus!
