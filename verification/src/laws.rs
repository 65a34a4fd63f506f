//! Laws that relate the decisions of the library over whole runs.

use crate::initial::{connect_tries, initial_run};
use crate::machine::{
    after_attempt, after_disconnect, can_disconnect, disconnect_callback_spec,
    disconnect_callbacks, plan_spec, write_disconnect_spec, Callback, Operation, Plan, Progress,
    ReadOutcome, Status, Wakeups, WriteOutcome,
};
use crate::poll::{
    next_poll, next_poll_disconnects, polled_fits, sink_poll, sink_poll_disconnects, Answer,
    Effect, PollOutcome, Polled,
};
use std::time::Duration;
use vstd::prelude::*;

verus! {

/// The status after a run of disconnects from `status`, where `nexts` holds what the
/// retry schedule gave at each of them.
pub open spec fn disconnect_run(status: Status, nexts: Seq<Option<Duration>>) -> Status
    decreases nexts.len(),
{
    if nexts.len() == 0 {
        status
    } else {
        disconnect_run(after_disconnect(status, nexts[0]), nexts.drop_first())
    }
}

/// The callbacks invoked by a run of disconnects from `status`, in order.
pub open spec fn disconnect_run_callbacks(status: Status, nexts: Seq<Option<Duration>>) -> Seq<
    Callback,
>
    decreases nexts.len(),
{
    if nexts.len() == 0 {
        seq![]
    } else {
        disconnect_callbacks(status, nexts[0]) + disconnect_run_callbacks(
            after_disconnect(status, nexts[0]),
            nexts.drop_first(),
        )
    }
}

/// Every disconnect of the run can be handled: none comes after giving up, and the
/// attempt counter never overflows.
pub open spec fn disconnect_run_allowed(status: Status, nexts: Seq<Option<Duration>>) -> bool
    decreases nexts.len(),
{
    nexts.len() == 0 || (can_disconnect(status, nexts[0]) && disconnect_run_allowed(
        after_disconnect(status, nexts[0]),
        nexts.drop_first(),
    ))
}

/// `n` times the connect-fail callback.
pub open spec fn connect_fails(n: nat) -> Seq<Callback> {
    Seq::new(n, |i: int| Callback::OnConnectFail)
}

/// The number of reconnection attempts already scheduled in `status`.
pub open spec fn attempts_made(status: Status) -> nat {
    match status {
        Status::Disconnected { attempt_num } => attempt_num as nat,
        _ => 0,
    }
}

proof fn lemma_connect_tries_drop_first(delays: Seq<Duration>)
    requires
        delays.len() > 0,
    ensures
        connect_tries(delays)[0] == Some(delays[0]),
        connect_tries(delays).drop_first() == connect_tries(delays.drop_first()),
{
    assert(connect_tries(delays).drop_first() =~= connect_tries(delays.drop_first()));
}

/// The retry schedule is followed to its end: from a status that has made `m`
/// attempts (`m` is 0 when connected), a schedule of `n` waits whose reconnection
/// attempts all fail schedules attempts `m + 1` to `m + n`, one per wait, and then the
/// wrapper gives up. The callbacks invoked are the first one of the status (the
/// disconnect callback when connected), then the connect-fail callback once per failed
/// attempt, then the exhausted callback.
pub proof fn lemma_schedule_runs_out(status: Status, delays: Seq<Duration>)
    requires
        status != Status::FailedAndExhausted,
        attempts_made(status) + delays.len() <= usize::MAX,
    ensures
        disconnect_run_allowed(status, connect_tries(delays)),
        disconnect_run(status, connect_tries(delays)) == Status::FailedAndExhausted,
        forall|k: int|
            1 <= k <= delays.len() ==> disconnect_run(status, #[trigger] connect_tries(delays).take(k))
                == (Status::Disconnected { attempt_num: (attempts_made(status) + k) as usize }),
        disconnect_run_callbacks(status, connect_tries(delays)) == seq![
            disconnect_callback_spec(status),
        ] + connect_fails(delays.len()) + seq![Callback::OnExhausted],
    decreases delays.len(),
{
    let tries = connect_tries(delays);
    if delays.len() == 0 {
        assert(tries =~= seq![None::<Duration>]);
        assert(tries.drop_first() =~= Seq::<Option<Duration>>::empty());
        let next = after_disconnect(status, tries[0]);
        assert(disconnect_run_allowed(next, tries.drop_first()));
        assert(disconnect_run_callbacks(next, tries.drop_first()) == Seq::<Callback>::empty());
        assert(disconnect_run(next, tries.drop_first()) == next);
        assert(connect_fails(0) =~= Seq::<Callback>::empty());
        assert(disconnect_run_callbacks(status, tries) =~= seq![
            disconnect_callback_spec(status),
        ] + connect_fails(0) + seq![Callback::OnExhausted]);
    } else {
        lemma_connect_tries_drop_first(delays);
        let next = after_disconnect(status, tries[0]);
        assert(next == Status::Disconnected {
            attempt_num: (attempts_made(status) + 1) as usize,
        });
        assert(attempts_made(next) == attempts_made(status) + 1);
        lemma_schedule_runs_out(next, delays.drop_first());
        assert(disconnect_callback_spec(next) == Callback::OnConnectFail);
        assert(connect_fails(delays.len()) =~= seq![Callback::OnConnectFail] + connect_fails(
            delays.drop_first().len(),
        ));
        assert(disconnect_run_callbacks(status, tries) =~= seq![disconnect_callback_spec(status)]
            + connect_fails(delays.len()) + seq![Callback::OnExhausted]);
        assert forall|k: int| 1 <= k <= delays.len() implies disconnect_run(
            status,
            #[trigger] tries.take(k),
        ) == (Status::Disconnected { attempt_num: (attempts_made(status) + k) as usize }) by {
            assert(tries.take(k)[0] == tries[0]);
            assert(tries.take(k).drop_first() =~= tries.drop_first().take(k - 1));
            if k == 1 {
                assert(tries.take(k).drop_first() =~= Seq::<Option<Duration>>::empty());
            } else {
                assert(disconnect_run(next, connect_tries(delays.drop_first()).take(k - 1)) == (
                Status::Disconnected { attempt_num: (attempts_made(next) + (k - 1)) as usize }));
            }
        }
    }
}

/// Once the wrapper has given up, it stays given up: every operation gives up, no
/// disconnect can be handled any more, and a disconnect would leave the status as it
/// is.
pub proof fn lemma_exhaustion_is_final(op: Operation, next_delay: Option<Duration>)
    ensures
        plan_spec(Status::FailedAndExhausted, op) == Plan::GiveUp,
        !can_disconnect(Status::FailedAndExhausted, next_delay),
        after_disconnect(Status::FailedAndExhausted, next_delay) == Status::FailedAndExhausted,
{
}

/// A successful reconnection attempt restores the connection, and losing it again
/// starts the count of attempts afresh: the next disconnect invokes the disconnect
/// callback (not the connect-fail callback) and schedules attempt number 1.
pub proof fn lemma_recovery_restarts_schedule(attempt_num: usize, delay: Duration)
    ensures
        after_attempt(Status::Disconnected { attempt_num }, true) == Status::Connected,
        disconnect_callback_spec(after_attempt(Status::Disconnected { attempt_num }, true))
            == Callback::OnDisconnect,
        after_disconnect(after_attempt(Status::Disconnected { attempt_num }, true), Some(delay))
            == (Status::Disconnected { attempt_num: 1 }),
{
}

/// A failed reconnection attempt keeps the status, and the disconnect that follows
/// invokes the connect-fail callback and schedules the next attempt number.
pub proof fn lemma_failed_attempt_counts_on(attempt_num: usize, delay: Duration)
    requires
        attempt_num < usize::MAX,
    ensures
        after_attempt(Status::Disconnected { attempt_num }, false) == (Status::Disconnected {
            attempt_num,
        }),
        disconnect_callback_spec(Status::Disconnected { attempt_num }) == Callback::OnConnectFail,
        after_disconnect(Status::Disconnected { attempt_num }, Some(delay)) == (
        Status::Disconnected { attempt_num: (attempt_num + 1) as usize }),
{
}

/// When a failed first connect ends the attempts, the initial connection makes exactly
/// one attempt: it hands out a connection when that attempt succeeds and an error
/// otherwise, invoking the connect or the connect-fail callback once.
pub proof fn lemma_initial_connect_exits_on_first_failure(
    tries: Seq<Option<Duration>>,
    outcomes: Seq<bool>,
)
    requires
        tries.len() > 0,
        outcomes.len() > 0,
    ensures
        initial_run(true, tries, outcomes).attempts == 1,
        initial_run(true, tries, outcomes).connected == outcomes[0],
        initial_run(true, tries, outcomes).callbacks == seq![
            if outcomes[0] {
                Callback::OnConnect
            } else {
                Callback::OnConnectFail
            },
        ],
{
}

/// When a failed first connect does not end the attempts, the initial connection with
/// a schedule of `n` waits keeps trying until an attempt succeeds or `n + 1` attempts
/// have failed: every attempt but the last failed, the last one decides the result,
/// and an error is handed out only after `n + 1` failures. The connect-fail callback is
/// invoked once per failed attempt and the connect callback once on success.
pub proof fn lemma_initial_connect_follows_schedule(delays: Seq<Duration>, outcomes: Seq<bool>)
    requires
        outcomes.len() > delays.len(),
    ensures
        ({
            let run = initial_run(false, connect_tries(delays), outcomes);
            &&& 1 <= run.attempts <= delays.len() + 1
            &&& forall|i: int| 0 <= i < run.attempts - 1 ==> !#[trigger] outcomes[i]
            &&& run.connected == outcomes[run.attempts - 1]
            &&& !run.connected ==> run.attempts == delays.len() + 1
            &&& run.connected <==> exists|i: int| 0 <= i <= delays.len() && #[trigger] outcomes[i]
            &&& run.callbacks == connect_fails((run.attempts - 1) as nat).push(
                if run.connected {
                    Callback::OnConnect
                } else {
                    Callback::OnConnectFail
                },
            )
        }),
    decreases delays.len(),
{
    let tries = connect_tries(delays);
    let run = initial_run(false, tries, outcomes);
    if delays.len() == 0 {
        assert(tries =~= seq![None::<Duration>]);
        assert(connect_fails(0) =~= Seq::<Callback>::empty());
        assert(run.callbacks =~= connect_fails(0).push(
            if run.connected {
                Callback::OnConnect
            } else {
                Callback::OnConnectFail
            },
        ));
    } else {
        lemma_connect_tries_drop_first(delays);
        if outcomes[0] {
            assert(connect_fails(0) =~= Seq::<Callback>::empty());
            assert(run.callbacks =~= connect_fails(0).push(Callback::OnConnect));
        } else {
            let rest_outcomes = outcomes.drop_first();
            lemma_initial_connect_follows_schedule(delays.drop_first(), rest_outcomes);
            let rest = initial_run(false, connect_tries(delays.drop_first()), rest_outcomes);
            assert(run.attempts == rest.attempts + 1);
            assert(run.connected == rest.connected);
            assert forall|i: int| 0 <= i < run.attempts - 1 implies !#[trigger] outcomes[i] by {
                if i > 0 {
                    assert(outcomes[i] == rest_outcomes[i - 1]);
                }
            }
            assert(outcomes[run.attempts - 1] == rest_outcomes[rest.attempts - 1]);
            if run.connected {
                let i = rest.attempts - 1;
                assert(outcomes[i + 1] == rest_outcomes[i]);
            } else {
                assert forall|i: int| 0 <= i <= delays.len() implies !#[trigger] outcomes[i] by {
                    if i > 0 {
                        assert(outcomes[i] == rest_outcomes[i - 1]);
                    }
                }
            }
            if rest.connected {
                let j = choose|j: int|
                    0 <= j <= delays.drop_first().len() && #[trigger] rest_outcomes[j];
                assert(outcomes[j + 1] == rest_outcomes[j]);
            }
            assert(connect_fails((run.attempts - 1) as nat) =~= seq![Callback::OnConnectFail]
                + connect_fails((rest.attempts - 1) as nat));
            assert(run.callbacks =~= connect_fails((run.attempts - 1) as nat).push(
                if run.connected {
                    Callback::OnConnect
                } else {
                    Callback::OnConnectFail
                },
            ));
        }
    }
}

/// Something that changes the connection status.
pub enum Event {
    /// The active connection was lost; the fresh schedule gave this first wait.
    ConnectionLost(Option<Duration>),
    /// The pending reconnection attempt succeeded.
    AttemptSucceeded,
    /// The pending reconnection attempt failed; the schedule gave this next wait.
    AttemptFailed(Option<Duration>),
}

/// `event` can happen in `status`.
pub open spec fn event_allowed(status: Status, event: Event) -> bool {
    match event {
        Event::ConnectionLost(_) => status == Status::Connected,
        Event::AttemptSucceeded => status is Disconnected,
        Event::AttemptFailed(next_delay) => status is Disconnected && can_disconnect(
            status,
            next_delay,
        ),
    }
}

/// The status after `event` in `status`.
pub open spec fn event_step(status: Status, event: Event) -> Status {
    match event {
        Event::ConnectionLost(next_delay) => after_disconnect(status, next_delay),
        Event::AttemptSucceeded => after_attempt(status, true),
        Event::AttemptFailed(next_delay) => after_disconnect(after_attempt(status, false), next_delay),
    }
}

/// The callbacks that `event` in `status` invokes, in order.
pub open spec fn event_callbacks(status: Status, event: Event) -> Seq<Callback> {
    match event {
        Event::ConnectionLost(next_delay) => disconnect_callbacks(status, next_delay),
        Event::AttemptSucceeded => seq![Callback::OnConnect],
        Event::AttemptFailed(next_delay) => disconnect_callbacks(status, next_delay),
    }
}

/// Every event of `events` can happen, one after the other, from `status`.
pub open spec fn events_allowed(status: Status, events: Seq<Event>) -> bool
    decreases events.len(),
{
    events.len() == 0 || (event_allowed(status, events[0]) && events_allowed(
        event_step(status, events[0]),
        events.drop_first(),
    ))
}

/// The status after `events` from `status`.
pub open spec fn events_run(status: Status, events: Seq<Event>) -> Status
    decreases events.len(),
{
    if events.len() == 0 {
        status
    } else {
        events_run(event_step(status, events[0]), events.drop_first())
    }
}

/// The callbacks invoked by `events` from `status`, in order.
pub open spec fn events_callbacks(status: Status, events: Seq<Event>) -> Seq<Callback>
    decreases events.len(),
{
    if events.len() == 0 {
        seq![]
    } else {
        event_callbacks(status, events[0]) + events_callbacks(
            event_step(status, events[0]),
            events.drop_first(),
        )
    }
}

/// How many times `callback` occurs in `callbacks`.
pub open spec fn occurrences(callbacks: Seq<Callback>, callback: Callback) -> nat
    decreases callbacks.len(),
{
    if callbacks.len() == 0 {
        0
    } else {
        (if callbacks[0] == callback {
            1nat
        } else {
            0nat
        }) + occurrences(callbacks.drop_first(), callback)
    }
}

/// How many steps of `events` from `status` go from `from` to a status other than
/// `from`, into `to` when `to` is given.
pub open spec fn transitions(
    status: Status,
    events: Seq<Event>,
    from: spec_fn(Status) -> bool,
    to: spec_fn(Status) -> bool,
) -> nat
    decreases events.len(),
{
    if events.len() == 0 {
        0
    } else {
        let next = event_step(status, events[0]);
        (if from(status) && to(next) {
            1nat
        } else {
            0nat
        }) + transitions(next, events.drop_first(), from, to)
    }
}

/// A status other than `Connected`.
pub open spec fn not_connected(status: Status) -> bool {
    status != Status::Connected
}

/// The `Connected` status.
pub open spec fn connected(status: Status) -> bool {
    status == Status::Connected
}

/// A `Disconnected` status.
pub open spec fn disconnected(status: Status) -> bool {
    status is Disconnected
}

/// The `FailedAndExhausted` status.
pub open spec fn exhausted(status: Status) -> bool {
    status == Status::FailedAndExhausted
}

/// Any status other than `FailedAndExhausted`.
pub open spec fn not_exhausted(status: Status) -> bool {
    status != Status::FailedAndExhausted
}

/// How many events of `events` are failed reconnection attempts.
pub open spec fn failed_attempts(events: Seq<Event>) -> nat
    decreases events.len(),
{
    if events.len() == 0 {
        0
    } else {
        (if events[0] is AttemptFailed {
            1nat
        } else {
            0nat
        }) + failed_attempts(events.drop_first())
    }
}

/// How many waits the current schedule has handed out at the end of `events`, when
/// `taken` had been handed out before them: a loss of the connection starts a fresh
/// schedule and takes its first wait, a failed attempt takes the next wait, and a
/// successful attempt ends the schedule.
pub open spec fn waits_taken(taken: nat, events: Seq<Event>) -> nat
    decreases events.len(),
{
    if events.len() == 0 {
        taken
    } else {
        let now = match events[0] {
            Event::ConnectionLost(_) => 1,
            Event::AttemptFailed(_) => taken + 1,
            Event::AttemptSucceeded => 0,
        };
        waits_taken(now, events.drop_first())
    }
}

/// In any run of events, while the wrapper is disconnected, the number of the
/// scheduled reconnection attempt is the number of waits taken from the current
/// schedule: attempts are numbered afresh for each loss of the connection, and one
/// attempt is scheduled per wait.
pub proof fn lemma_attempts_number_the_waits_taken(status: Status, events: Seq<Event>)
    requires
        events_allowed(status, events),
    ensures
        events_run(status, events) matches Status::Disconnected { attempt_num }
            ==> attempt_num == waits_taken(attempts_made(status), events),
    decreases events.len(),
{
    if events.len() > 0 {
        let next = event_step(status, events[0]);
        assert(events_allowed(next, events.drop_first()));
        if next == Status::FailedAndExhausted && events.drop_first().len() > 0 {
            assert(event_allowed(next, events.drop_first()[0]));
        }
        lemma_attempts_number_the_waits_taken(next, events.drop_first());
    }
}

proof fn lemma_occurrences_concat(a: Seq<Callback>, b: Seq<Callback>, callback: Callback)
    ensures
        occurrences(a + b, callback) == occurrences(a, callback) + occurrences(b, callback),
    decreases a.len(),
{
    if a.len() == 0 {
        assert(a + b =~= b);
    } else {
        assert((a + b).drop_first() =~= a.drop_first() + b);
        assert((a + b)[0] == a[0]);
        lemma_occurrences_concat(a.drop_first(), b, callback);
    }
}

proof fn lemma_occurrences_short(callbacks: Seq<Callback>, callback: Callback)
    requires
        callbacks.len() <= 2,
    ensures
        occurrences(callbacks, callback) == (if callbacks.len() >= 1 && callbacks[0] == callback {
            1nat
        } else {
            0nat
        }) + (if callbacks.len() == 2 && callbacks[1] == callback {
            1nat
        } else {
            0nat
        }),
{
    if callbacks.len() >= 1 {
        let rest = callbacks.drop_first();
        if rest.len() >= 1 {
            assert(rest.drop_first().len() == 0);
            assert(occurrences(rest.drop_first(), callback) == 0);
            assert(rest[0] == callbacks[1]);
            assert(occurrences(rest, callback) == (if callbacks[1] == callback {
                1nat
            } else {
                0nat
            }));
        } else {
            assert(occurrences(rest, callback) == 0);
        }
    }
}

/// Over any run of events from a status in which the wrapper has not given up, the
/// disconnect callback is invoked once per loss of the connection (each leaving the
/// connected status), the connect callback once per return to the connected status
/// (each a successful reconnection attempt), the connect-fail callback once per failed
/// reconnection attempt, and the exhausted callback once if the run ends with the
/// wrapper given up and never otherwise.
pub proof fn lemma_callbacks_count_the_run(status: Status, events: Seq<Event>)
    requires
        status != Status::FailedAndExhausted,
        events_allowed(status, events),
    ensures
        ({
            let callbacks = events_callbacks(status, events);
            &&& occurrences(callbacks, Callback::OnDisconnect) == transitions(
                status,
                events,
                |s: Status| connected(s),
                |s: Status| not_connected(s),
            )
            &&& occurrences(callbacks, Callback::OnConnect) == transitions(
                status,
                events,
                |s: Status| disconnected(s),
                |s: Status| connected(s),
            )
            &&& occurrences(callbacks, Callback::OnConnectFail) == failed_attempts(events)
            &&& occurrences(callbacks, Callback::OnExhausted) == (if events_run(status, events)
                == Status::FailedAndExhausted {
                1nat
            } else {
                0nat
            })
        }),
    decreases events.len(),
{
    if events.len() > 0 {
        let e = events[0];
        let next = event_step(status, e);
        let here = event_callbacks(status, e);
        let rest = events.drop_first();
        lemma_occurrences_concat(here, events_callbacks(next, rest), Callback::OnDisconnect);
        lemma_occurrences_concat(here, events_callbacks(next, rest), Callback::OnConnect);
        lemma_occurrences_concat(here, events_callbacks(next, rest), Callback::OnConnectFail);
        lemma_occurrences_concat(here, events_callbacks(next, rest), Callback::OnExhausted);
        lemma_occurrences_short(here, Callback::OnDisconnect);
        lemma_occurrences_short(here, Callback::OnConnect);
        lemma_occurrences_short(here, Callback::OnConnectFail);
        lemma_occurrences_short(here, Callback::OnExhausted);
        assert(events_allowed(next, rest));
        if next == Status::FailedAndExhausted {
            if rest.len() > 0 {
                assert(event_allowed(next, rest[0]));
            }
            assert(rest.len() == 0);
            assert(events_callbacks(next, rest) =~= Seq::<Callback>::empty());
            assert(transitions(next, rest, |s: Status| connected(s), |s: Status| not_connected(s)) == 0);
            assert(transitions(next, rest, |s: Status| disconnected(s), |s: Status| connected(s)) == 0);
            assert(failed_attempts(rest) == 0);
        } else {
            lemma_callbacks_count_the_run(next, rest);
        }
    }
}

/// Whatever the wrapped stream, the reconnection attempt and the schedule answer, a
/// `poll_next` that answers `Pending` has woken the polling task, or handed its waker
/// to something that answered `Pending`, or has just reconnected and woken every task
/// stored as waiting (the original behaviour: the polling task is among them when it
/// had been answered `Pending` before). When the wrapper gives up during the poll, the
/// polling task and every stored waker are woken, so the next poll gets the end of the
/// stream. A poll that leaves the disconnected status wakes every stored waker, and a
/// wrapper that has given up answers the end of the stream.
pub proof fn lemma_poll_next_keeps_consumer_polled(
    status: Status,
    polled: Polled<ReadOutcome>,
    next_delay: Option<Duration>,
)
    requires
        polled_fits(plan_spec(status, Operation::PollNext), polled),
    ensures
        ({
            let run = next_poll(status, polled, next_delay);
            &&& run.answer is Pending ==> run.wakeups.current_task || run.registered || (
            run.effect == Effect::Reconnected && run.wakeups.stored_wakers)
            &&& run.status == Status::FailedAndExhausted && status != Status::FailedAndExhausted
                ==> run.wakeups.current_task && run.wakeups.stored_wakers
            &&& status is Disconnected && !(run.status is Disconnected)
                ==> run.wakeups.stored_wakers
            &&& status == Status::FailedAndExhausted ==> run.answer is GiveUp && run.status
                == status
        }),
{
}

/// Whatever the wrapped sink, the reconnection attempt and the schedule answer, a sink
/// operation that answers `Pending` has woken the polling task, or handed its waker to
/// something that answered `Pending`, or has just reconnected and woken every stored
/// waker, or is a `poll_close` while disconnected, which only waits (its waker is
/// stored, and every stored waker is woken when the wrapper leaves the disconnected
/// status). When the wrapper gives up during the operation, the polling task and every
/// stored waker are woken; a wrapper that has given up answers the exhaustion error.
pub proof fn lemma_sink_poll_keeps_producer_polled(
    status: Status,
    op: Operation,
    polled: Polled<WriteOutcome>,
    next_delay: Option<Duration>,
)
    requires
        op != Operation::PollNext,
        polled_fits(plan_spec(status, op), polled),
    ensures
        ({
            let run = sink_poll(status, op, polled, next_delay);
            &&& run.answer is Pending ==> run.wakeups.current_task || run.registered || (
            run.effect == Effect::Reconnected && run.wakeups.stored_wakers) || (op
                == Operation::PollClose && status is Disconnected && run.status == status)
            &&& run.status == Status::FailedAndExhausted && status != Status::FailedAndExhausted
                ==> run.wakeups.current_task && run.wakeups.stored_wakers
            &&& status is Disconnected && !(run.status is Disconnected)
                ==> run.wakeups.stored_wakers
            &&& status == Status::FailedAndExhausted ==> run.answer is GiveUp && run.status
                == status
        }),
{
}

/// One poll of the wrapper: a `poll_next` or a sink operation, with what it polled and
/// the wait that the schedule gave if it handled a disconnect.
pub enum PollInput {
    Next(Polled<ReadOutcome>, Option<Duration>),
    Sink(Operation, Polled<WriteOutcome>, Option<Duration>),
}

/// The outcome of `input` in `status`.
pub open spec fn input_outcome(status: Status, input: PollInput) -> PollOutcome {
    match input {
        PollInput::Next(polled, next_delay) => next_poll(status, polled, next_delay),
        PollInput::Sink(op, polled, next_delay) => sink_poll(status, op, polled, next_delay),
    }
}

/// `input` handles a disconnect in `status`.
pub open spec fn input_disconnects(status: Status, input: PollInput) -> bool {
    match input {
        PollInput::Next(polled, _) => next_poll_disconnects(status, polled),
        PollInput::Sink(op, polled, _) => sink_poll_disconnects(status, op, polled),
    }
}

/// The wait that `input` carries.
pub open spec fn input_delay(input: PollInput) -> Option<Duration> {
    match input {
        PollInput::Next(_, next_delay) => next_delay,
        PollInput::Sink(_, _, next_delay) => next_delay,
    }
}

/// `input` can be a poll in `status`, as the poll steps require and ensure: it polled
/// what the plan asks, a wait comes only with a disconnect, and the attempt counter can
/// count a scheduled attempt.
pub open spec fn input_fits(status: Status, input: PollInput) -> bool {
    &&& match input {
        PollInput::Next(polled, _) => polled_fits(plan_spec(status, Operation::PollNext), polled),
        PollInput::Sink(op, polled, _) => op != Operation::PollNext && polled_fits(
            plan_spec(status, op),
            polled,
        ),
    }
    &&& input_disconnects(status, input) ==> can_disconnect(status, input_delay(input))
    &&& !input_disconnects(status, input) ==> input_delay(input) is None
}

/// The callbacks the wrapper invokes for `input` in `status`: the one that handling a
/// disconnect invokes first, then the connect callback on reconnecting or the
/// exhausted callback on giving up.
pub open spec fn input_callbacks(status: Status, input: PollInput) -> Seq<Callback> {
    let first = if input_disconnects(status, input) {
        seq![disconnect_callback_spec(status)]
    } else {
        seq![]
    };
    let then = match input_outcome(status, input).effect {
        Effect::Reconnected => seq![Callback::OnConnect],
        Effect::GaveUp => seq![Callback::OnExhausted],
        _ => seq![],
    };
    first + then
}

/// The status change that `input` in `status` makes, as events.
pub open spec fn input_events(status: Status, input: PollInput) -> Seq<Event> {
    if input_disconnects(status, input) {
        if status == Status::Connected {
            seq![Event::ConnectionLost(input_delay(input))]
        } else {
            seq![Event::AttemptFailed(input_delay(input))]
        }
    } else if input_outcome(status, input).effect == Effect::Reconnected {
        seq![Event::AttemptSucceeded]
    } else {
        seq![]
    }
}

/// Every poll of `inputs` can follow the one before, from `status`.
pub open spec fn polls_fit(status: Status, inputs: Seq<PollInput>) -> bool
    decreases inputs.len(),
{
    inputs.len() == 0 || (input_fits(status, inputs[0]) && polls_fit(
        input_outcome(status, inputs[0]).status,
        inputs.drop_first(),
    ))
}

/// The status after the polls `inputs` from `status`.
pub open spec fn polls_run(status: Status, inputs: Seq<PollInput>) -> Status
    decreases inputs.len(),
{
    if inputs.len() == 0 {
        status
    } else {
        polls_run(input_outcome(status, inputs[0]).status, inputs.drop_first())
    }
}

/// The callbacks invoked by the polls `inputs` from `status`, in order.
pub open spec fn polls_callbacks(status: Status, inputs: Seq<PollInput>) -> Seq<Callback>
    decreases inputs.len(),
{
    if inputs.len() == 0 {
        seq![]
    } else {
        input_callbacks(status, inputs[0]) + polls_callbacks(
            input_outcome(status, inputs[0]).status,
            inputs.drop_first(),
        )
    }
}

/// The status changes made by the polls `inputs` from `status`, as events.
pub open spec fn polls_events(status: Status, inputs: Seq<PollInput>) -> Seq<Event>
    decreases inputs.len(),
{
    if inputs.len() == 0 {
        seq![]
    } else {
        input_events(status, inputs[0]) + polls_events(
            input_outcome(status, inputs[0]).status,
            inputs.drop_first(),
        )
    }
}

/// One poll is the event it makes: allowed, with the same status after and the same
/// callbacks.
proof fn lemma_poll_is_event(status: Status, input: PollInput)
    requires
        input_fits(status, input),
    ensures
        input_events(status, input).len() <= 1,
        events_allowed(status, input_events(status, input)),
        events_run(status, input_events(status, input)) == input_outcome(status, input).status,
        events_callbacks(status, input_events(status, input)) == input_callbacks(status, input),
{
    let events = input_events(status, input);
    let out = input_outcome(status, input);
    if events.len() == 1 {
        let next = event_step(status, events[0]);
        assert(events.drop_first() =~= Seq::<Event>::empty());
        assert(events_allowed(next, events.drop_first()));
        assert(events_run(next, events.drop_first()) == next);
        assert(events_callbacks(next, events.drop_first()) =~= Seq::<Callback>::empty());
        assert(events_callbacks(status, events) =~= event_callbacks(status, events[0]));
        assert(input_callbacks(status, input) =~= event_callbacks(status, events[0]));
    } else {
        assert(input_callbacks(status, input) =~= Seq::<Callback>::empty());
    }
}

proof fn lemma_event_prefix(status: Status, first: Seq<Event>, rest: Seq<Event>)
    requires
        first.len() <= 1,
        events_allowed(status, first),
        events_allowed(events_run(status, first), rest),
    ensures
        events_allowed(status, first + rest),
        events_run(status, first + rest) == events_run(events_run(status, first), rest),
        events_callbacks(status, first + rest) == events_callbacks(status, first)
            + events_callbacks(events_run(status, first), rest),
        forall|taken: nat|
            waits_taken(taken, first + rest) == #[trigger] waits_taken(
                waits_taken(taken, first),
                rest,
            ),
{
    if first.len() == 0 {
        assert(first + rest =~= rest);
        assert(events_callbacks(status, first) =~= Seq::<Callback>::empty());
    } else {
        let all = first + rest;
        assert(all[0] == first[0]);
        assert(all.drop_first() =~= rest);
        assert(first.drop_first() =~= Seq::<Event>::empty());
        let next = event_step(status, first[0]);
        assert(events_run(next, first.drop_first()) == next);
        assert(events_callbacks(next, first.drop_first()) =~= Seq::<Callback>::empty());
        assert(events_callbacks(status, first) =~= event_callbacks(status, first[0]));
        assert forall|taken: nat|
            waits_taken(taken, first + rest) == #[trigger] waits_taken(
                waits_taken(taken, first),
                rest,
            ) by {
            let now = match first[0] {
                Event::ConnectionLost(_) => 1,
                Event::AttemptFailed(_) => taken + 1,
                Event::AttemptSucceeded => 0,
            };
            assert(waits_taken(now, first.drop_first()) == now);
        }
    }
}

/// A run of polls is the run of the events it makes.
pub proof fn lemma_polls_are_event_runs(status: Status, inputs: Seq<PollInput>)
    requires
        polls_fit(status, inputs),
    ensures
        events_allowed(status, polls_events(status, inputs)),
        events_run(status, polls_events(status, inputs)) == polls_run(status, inputs),
        events_callbacks(status, polls_events(status, inputs)) == polls_callbacks(status, inputs),
    decreases inputs.len(),
{
    if inputs.len() > 0 {
        let input = inputs[0];
        let next = input_outcome(status, input).status;
        lemma_poll_is_event(status, input);
        lemma_polls_are_event_runs(next, inputs.drop_first());
        lemma_event_prefix(status, input_events(status, input), polls_events(next, inputs.drop_first()));
    } else {
        assert(events_callbacks(status, polls_events(status, inputs)) =~= Seq::<Callback>::empty());
    }
}

/// Over any run of polls of the wrapper (each `poll_next` or sink operation finished by
/// [`crate::ReconnectMachine::poll_next_step`] or [`crate::ReconnectMachine::sink_step`])
/// from a status in which it has not given up:
/// - the disconnect callback is invoked once per loss of the connection, each leaving
///   the connected status;
/// - the connect callback once per return to the connected status, each a successful
///   reconnection attempt;
/// - the connect-fail callback once per failed reconnection attempt;
/// - the exhausted callback once if the run ends with the wrapper given up, never
///   otherwise;
/// - while disconnected, the number of the scheduled attempt is the number of waits
///   taken from the schedule that the last loss of the connection started.
pub proof fn lemma_polls_account_for_callbacks_and_attempts(
    status: Status,
    inputs: Seq<PollInput>,
)
    requires
        status != Status::FailedAndExhausted,
        polls_fit(status, inputs),
    ensures
        ({
            let callbacks = polls_callbacks(status, inputs);
            let events = polls_events(status, inputs);
            &&& occurrences(callbacks, Callback::OnDisconnect) == transitions(
                status,
                events,
                |s: Status| connected(s),
                |s: Status| not_connected(s),
            )
            &&& occurrences(callbacks, Callback::OnConnect) == transitions(
                status,
                events,
                |s: Status| disconnected(s),
                |s: Status| connected(s),
            )
            &&& occurrences(callbacks, Callback::OnConnectFail) == failed_attempts(events)
            &&& occurrences(callbacks, Callback::OnExhausted) == (if polls_run(status, inputs)
                == Status::FailedAndExhausted {
                1nat
            } else {
                0nat
            })
            &&& polls_run(status, inputs) matches Status::Disconnected { attempt_num }
                ==> attempt_num == waits_taken(attempts_made(status), events)
        }),
{
    lemma_polls_are_event_runs(status, inputs);
    lemma_callbacks_count_the_run(status, polls_events(status, inputs));
    lemma_attempts_number_the_waits_taken(status, polls_events(status, inputs));
}

/// Where a handled disconnect leaves a wrapper that had made `attempts` attempts
/// (0 when it was connected): at attempt `attempts + 1` when the schedule gave a wait,
/// given up otherwise.
pub open spec fn status_after_loss(attempts: nat, next_delay: Option<Duration>) -> Status {
    match next_delay {
        Some(_) => Status::Disconnected { attempt_num: (attempts + 1) as usize },
        None => Status::FailedAndExhausted,
    }
}

/// What a handled disconnect does when the wrapper had made `attempts` attempts: it
/// schedules attempt `attempts + 1` after the wait the schedule gave, or gives up.
pub open spec fn effect_after_loss(attempts: nat, next_delay: Option<Duration>) -> Effect {
    match next_delay {
        Some(delay) => Effect::RetryScheduled { delay, attempt_num: (attempts + 1) as usize },
        None => Effect::GaveUp,
    }
}

/// Only a wrapper that has given up gives up: while connected every operation polls
/// the wrapped stream or sink, and while disconnected (whatever the attempt number)
/// `poll_next`, `poll_ready` and `poll_flush` poll the reconnection attempt and
/// `poll_close` waits.
pub proof fn lemma_plan_gives_up_only_when_exhausted(status: Status, op: Operation)
    ensures
        plan_spec(status, op) == Plan::GiveUp <==> status == Status::FailedAndExhausted,
        status == Status::Connected ==> plan_spec(status, op) == Plan::PollInner,
        status is Disconnected && op != Operation::PollClose ==> plan_spec(status, op)
            == Plan::PollAttempt,
        status is Disconnected && op == Operation::PollClose ==> plan_spec(status, op)
            == Plan::Wait,
{
}

/// The first callback of a disconnect: the disconnect callback when the connection was
/// up, the connect-fail callback after a failed attempt.
pub proof fn lemma_disconnect_callback_names_the_loss(attempt_num: usize)
    ensures
        disconnect_callback_spec(Status::Connected) == Callback::OnDisconnect,
        disconnect_callback_spec(Status::Disconnected { attempt_num }) == Callback::OnConnectFail,
{
}

/// `poll_next` on a connected wrapper: an item that the user does not judge a
/// disconnect is handed out and nothing changes; a pending read answers `Pending` with
/// the waker registered on the stream and nothing changes; an item that the user judges
/// a disconnect, or the end of the wrapped stream, loses the connection: the answer is
/// `Pending`, the disconnect callback runs, and the wrapper schedules attempt 1 after
/// the schedule's first wait, or gives up when there is none, waking the polling task.
pub proof fn lemma_connected_poll_next(outcome: ReadOutcome, next_delay: Option<Duration>)
    ensures
        ({
            let polled = Polled::Inner(outcome);
            let run = next_poll(Status::Connected, polled, next_delay);
            &&& outcome == (ReadOutcome::Item { disconnect_error: false }) ==> {
                &&& run.answer == Answer::Ready
                &&& run.status == Status::Connected
                &&& run.effect == Effect::NoChange
                &&& run.wakeups == (Wakeups { current_task: false, stored_wakers: false })
                &&& !run.keeps_waker
                &&& !next_poll_disconnects(Status::Connected, polled)
            }
            &&& outcome == ReadOutcome::Pending ==> {
                &&& run.answer == Answer::Pending
                &&& run.registered
                &&& run.keeps_waker
                &&& run.status == Status::Connected
                &&& run.effect == Effect::NoChange
                &&& run.wakeups == (Wakeups { current_task: false, stored_wakers: false })
                &&& !next_poll_disconnects(Status::Connected, polled)
            }
            &&& (outcome == (ReadOutcome::Item { disconnect_error: true }) || outcome
                == ReadOutcome::End) ==> {
                &&& run.answer == Answer::Pending
                &&& next_poll_disconnects(Status::Connected, polled)
                &&& run.status == status_after_loss(0, next_delay)
                &&& run.status != Status::Connected
                &&& run.effect == effect_after_loss(0, next_delay)
                &&& run.wakeups == (Wakeups {
                    current_task: true,
                    stored_wakers: next_delay is None,
                })
                &&& !run.keeps_waker
            }
        }),
{
}

/// `poll_ready` and `poll_flush` on a connected wrapper: a ready answer of the wrapped
/// sink, `Ok` or an error the user does not judge a disconnect, is passed on and
/// nothing changes; a pending answer is passed on with the waker registered; an error
/// the user judges a disconnect loses the connection: the answer is `Pending`, and
/// attempt 1 is scheduled after the schedule's first wait, or the wrapper gives up.
pub proof fn lemma_connected_ready_and_flush(
    op: Operation,
    outcome: WriteOutcome,
    next_delay: Option<Duration>,
)
    requires
        op == Operation::PollReady || op == Operation::PollFlush,
    ensures
        ({
            let polled = Polled::Inner(outcome);
            let run = sink_poll(Status::Connected, op, polled, next_delay);
            &&& (outcome == WriteOutcome::Done || outcome == (WriteOutcome::Failed {
                disconnect_error: false,
            })) ==> {
                &&& run.answer == Answer::Ready
                &&& run.status == Status::Connected
                &&& run.effect == Effect::NoChange
                &&& run.wakeups == (Wakeups { current_task: false, stored_wakers: false })
                &&& !sink_poll_disconnects(Status::Connected, op, polled)
            }
            &&& outcome == WriteOutcome::Pending ==> {
                &&& run.answer == Answer::Pending
                &&& run.registered
                &&& run.status == Status::Connected
                &&& run.effect == Effect::NoChange
                &&& run.wakeups == (Wakeups { current_task: false, stored_wakers: false })
                &&& !sink_poll_disconnects(Status::Connected, op, polled)
            }
            &&& outcome == (WriteOutcome::Failed { disconnect_error: true }) ==> {
                &&& run.answer == Answer::Pending
                &&& sink_poll_disconnects(Status::Connected, op, polled)
                &&& run.status == status_after_loss(0, next_delay)
                &&& run.effect == effect_after_loss(0, next_delay)
                &&& run.wakeups == (Wakeups {
                    current_task: true,
                    stored_wakers: next_delay is None,
                })
            }
        }),
{
}

/// `poll_close` on a connected wrapper: while the wrapped close is pending, the answer
/// is `Pending` with the waker registered on it, and the wrapper stays connected; once
/// the close answers (`Ok` or any error), that answer is passed on and the connection
/// counts as lost: attempt 1 is scheduled after the schedule's first wait, or the
/// wrapper gives up.
pub proof fn lemma_connected_close(outcome: WriteOutcome, next_delay: Option<Duration>)
    ensures
        ({
            let polled = Polled::Inner(outcome);
            let run = sink_poll(Status::Connected, Operation::PollClose, polled, next_delay);
            &&& outcome == WriteOutcome::Pending ==> {
                &&& run.answer == Answer::Pending
                &&& run.registered
                &&& run.status == Status::Connected
                &&& run.effect == Effect::NoChange
                &&& run.wakeups == (Wakeups { current_task: false, stored_wakers: false })
                &&& !sink_poll_disconnects(Status::Connected, Operation::PollClose, polled)
            }
            &&& outcome != WriteOutcome::Pending ==> {
                &&& run.answer == Answer::Ready
                &&& sink_poll_disconnects(Status::Connected, Operation::PollClose, polled)
                &&& run.status == status_after_loss(0, next_delay)
                &&& run.effect == effect_after_loss(0, next_delay)
                &&& run.wakeups == (Wakeups {
                    current_task: true,
                    stored_wakers: next_delay is None,
                })
            }
        }),
{
}

/// A poll of the reconnection attempt while disconnected at attempt `attempt_num`
/// (by `poll_next`, `poll_ready` or `poll_flush`): an attempt that is still pending
/// changes nothing (the answer is `Pending` with the waker registered on the attempt,
/// no disconnect is handled); a successful attempt reconnects, waking the stored
/// wakers; a failed attempt is handled as a disconnect: the connect-fail callback runs
/// and attempt `attempt_num + 1` is scheduled after the schedule's next wait, or the
/// wrapper gives up.
pub proof fn lemma_disconnected_attempt_poll(
    attempt_num: usize,
    op: Operation,
    attempt: Progress<bool>,
    next_delay: Option<Duration>,
)
    requires
        op != Operation::PollClose,
    ensures
        ({
            let status = Status::Disconnected { attempt_num };
            let run = if op == Operation::PollNext {
                next_poll(status, Polled::Attempt(attempt), next_delay)
            } else {
                sink_poll(status, op, Polled::Attempt(attempt), next_delay)
            };
            let disconnects = if op == Operation::PollNext {
                next_poll_disconnects(status, Polled::Attempt(attempt))
            } else {
                sink_poll_disconnects(status, op, Polled::Attempt(attempt))
            };
            &&& run.answer == Answer::Pending
            &&& !run.keeps_waker
            &&& attempt == Progress::<bool>::Pending ==> {
                &&& run.registered
                &&& run.status == status
                &&& run.effect == Effect::NoChange
                &&& run.wakeups == (Wakeups { current_task: false, stored_wakers: false })
                &&& !disconnects
            }
            &&& attempt == Progress::Ready(true) ==> {
                &&& run.status == Status::Connected
                &&& run.effect == Effect::Reconnected
                &&& run.wakeups == (Wakeups { current_task: false, stored_wakers: true })
                &&& !disconnects
            }
            &&& attempt == Progress::Ready(false) ==> {
                &&& disconnects
                &&& run.status == status_after_loss(attempt_num as nat, next_delay)
                &&& run.effect == effect_after_loss(attempt_num as nat, next_delay)
                &&& run.wakeups == (Wakeups {
                    current_task: true,
                    stored_wakers: next_delay is None,
                })
            }
        }),
{
}

/// `poll_close` on a disconnected wrapper only waits: it polls nothing, answers
/// `Pending`, handles no disconnect and changes nothing.
pub proof fn lemma_disconnected_close_waits(attempt_num: usize, next_delay: Option<Duration>)
    ensures
        ({
            let status = Status::Disconnected { attempt_num };
            let run = sink_poll(status, Operation::PollClose, Polled::Nothing, next_delay);
            &&& run.answer == Answer::Pending
            &&& run.status == status
            &&& run.effect == Effect::NoChange
            &&& run.wakeups == (Wakeups { current_task: false, stored_wakers: false })
            &&& !run.registered
            &&& !sink_poll_disconnects(status, Operation::PollClose, Polled::Nothing)
        }),
{
}

/// A sink answer is a disconnect exactly when it is an error that the user judges
/// one.
pub proof fn lemma_write_disconnect_is_a_judged_error(outcome: WriteOutcome)
    ensures
        write_disconnect_spec(outcome) <==> outcome == (WriteOutcome::Failed {
            disconnect_error: true,
        }),
        write_disconnect_spec(WriteOutcome::Done) == false,
        write_disconnect_spec(WriteOutcome::Pending) == false,
        write_disconnect_spec(WriteOutcome::Failed { disconnect_error: false }) == false,
{
}

} // verus!
