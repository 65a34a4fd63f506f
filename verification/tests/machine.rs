use std::collections::VecDeque;
use std::time::Duration;

use stream_reconnect::{
    Answer, AttemptVerdict, Callback, DisconnectOutcome, Effect, Operation, Plan, PollOutcome,
    Polled, Progress, ReadOutcome, ReadVerdict, ReconnectMachine, Status, Wakeups, WriteOutcome,
    WriteVerdict,
};

/// What the wrapped test stream answers to a read.
enum DummyRead {
    WouldBlock,
    Fatal,
    Bytes(Vec<u8>),
}

/// A wrapper around a scripted stream, run the way the reconnecting wrapper runs the
/// machine. Tasks are numbered; a task's number stands for its waker.
struct Harness {
    machine: ReconnectMachine<u32>,
    connect_outcomes: VecDeque<bool>,
    reads: VecDeque<DummyRead>,
    retries: Vec<Duration>,
    schedule: std::vec::IntoIter<Duration>,
    callbacks: Vec<Callback>,
    woken: Vec<u32>,
    scheduled: Vec<(Duration, usize)>,
}

impl Harness {
    fn connect(outcomes: Vec<bool>, reads: Vec<DummyRead>, retries: Vec<Duration>) -> Harness {
        let mut connect_outcomes: VecDeque<bool> = outcomes.into();
        assert!(connect_outcomes.pop_front().unwrap(), "initial connect succeeds");
        Harness {
            machine: ReconnectMachine::new(),
            connect_outcomes,
            reads: reads.into(),
            retries,
            schedule: Vec::new().into_iter(),
            callbacks: vec![Callback::OnConnect],
            woken: vec![],
            scheduled: vec![],
        }
    }

    /// What the wrapper's disconnect handler does: invoke the callback, start a fresh
    /// schedule when asked, and give the next wait.
    fn handler<'a>(
        callbacks: &'a mut Vec<Callback>,
        schedule: &'a mut std::vec::IntoIter<Duration>,
        retries: &'a [Duration],
    ) -> impl FnOnce(Callback, bool) -> Option<Duration> + 'a {
        move |callback, fresh| {
            callbacks.push(callback);
            if fresh {
                *schedule = retries.to_vec().into_iter();
            }
            schedule.next()
        }
    }

    /// Does what a poll outcome asks, the way the wrapper does: `stored` are the wakers
    /// stored before the poll.
    fn follow(&mut self, task: u32, outcome: PollOutcome, stored: Vec<u32>) {
        match outcome.effect {
            Effect::Reconnected => self.callbacks.push(Callback::OnConnect),
            Effect::GaveUp => self.callbacks.push(Callback::OnExhausted),
            Effect::RetryScheduled { delay, attempt_num } => {
                self.scheduled.push((delay, attempt_num))
            }
            Effect::NoChange => {}
        }
        if outcome.wakeups.stored_wakers {
            self.woken.extend(stored);
        }
        if outcome.wakeups.current_task {
            self.woken.push(task);
        }
    }

    fn stored(&self) -> Vec<u32> {
        self.machine.sink_waker().iter().chain(self.machine.stream_waker().iter()).copied().collect()
    }

    fn poll_next(&mut self, task: u32) -> Progress<Option<Vec<u8>>> {
        let mut item = None;
        let polled = match self.machine.plan(Operation::PollNext) {
            Plan::PollInner => Polled::Inner(match self.reads.pop_front().unwrap() {
                DummyRead::WouldBlock => ReadOutcome::Pending,
                DummyRead::Fatal => ReadOutcome::End,
                DummyRead::Bytes(b) => {
                    item = Some(b);
                    ReadOutcome::Item { disconnect_error: false }
                }
            }),
            Plan::PollAttempt => {
                Polled::Attempt(Progress::Ready(self.connect_outcomes.pop_front().unwrap()))
            }
            Plan::Wait | Plan::GiveUp => Polled::Nothing,
        };
        let stored = self.stored();
        let handler = Self::handler(&mut self.callbacks, &mut self.schedule, &self.retries);
        let (outcome, _) = self.machine.poll_next_step(task, polled, handler);
        self.follow(task, outcome, stored);
        match outcome.answer {
            Answer::Pending => Progress::Pending,
            Answer::Ready => Progress::Ready(item),
            Answer::GiveUp => Progress::Ready(None),
        }
    }

    fn sink(&mut self, task: u32, op: Operation, inner: WriteOutcome, attempt: Progress<bool>) -> Answer {
        let polled = match self.machine.plan(op) {
            Plan::PollInner => Polled::Inner(inner),
            Plan::PollAttempt => Polled::Attempt(attempt),
            Plan::Wait | Plan::GiveUp => Polled::Nothing,
        };
        let stored = self.stored();
        let handler = Self::handler(&mut self.callbacks, &mut self.schedule, &self.retries);
        let (outcome, _) = self.machine.sink_step(task, op, polled, handler);
        self.follow(task, outcome, stored);
        outcome.answer
    }

    fn next(&mut self) -> Option<Vec<u8>> {
        for _ in 0..100 {
            if let Progress::Ready(item) = self.poll_next(7) {
                return item;
            }
        }
        panic!("the stream never became ready")
    }
}

fn ms(n: u64) -> Duration {
    Duration::from_millis(n)
}

#[test]
fn should_ignore_non_fatal_errors_and_continue_as_connected() {
    let mut dummy = Harness::connect(
        vec![true],
        vec![
            DummyRead::WouldBlock,
            DummyRead::Bytes(b"yother".to_vec()),
            DummyRead::Bytes(b"e\n".to_vec()),
        ],
        vec![],
    );

    let mut buf = vec![];
    buf.extend(dummy.next().unwrap());
    buf.extend(dummy.next().unwrap());

    let msg = std::str::from_utf8(&buf).unwrap();
    assert_eq!(msg, "yothere\n");
    assert_eq!(dummy.machine.status(), Status::Connected);
    assert_eq!(dummy.callbacks, vec![Callback::OnConnect]);
}

#[test]
fn should_be_able_to_recover_after_disconnect() {
    let mut dummy = Harness::connect(
        vec![true, false, true],
        vec![DummyRead::Fatal, DummyRead::Bytes(b"e\n".to_vec())],
        vec![ms(100), ms(100), ms(100)],
    );

    let msg = dummy.next().unwrap();

    assert_eq!(msg, b"e\n".to_vec());
    let disconnects = dummy.callbacks.iter().filter(|c| **c == Callback::OnDisconnect).count();
    assert_eq!(disconnects, 1);
    assert_eq!(
        dummy.callbacks,
        vec![
            Callback::OnConnect,
            Callback::OnDisconnect,
            Callback::OnConnectFail,
            Callback::OnConnect
        ]
    );
    assert_eq!(dummy.scheduled, vec![(ms(100), 1), (ms(100), 2)]);
    assert_eq!(dummy.machine.status(), Status::Connected);
    // the loss and the failed attempt woke the polling task; the reconnect woke the
    // task stored as waiting, which is the same task
    assert_eq!(dummy.woken, vec![7, 7, 7]);
}

#[test]
fn should_give_up_when_all_attempts_exhausted() {
    let mut dummy = Harness::connect(
        vec![true, false, false, false],
        vec![
            DummyRead::Fatal,
            DummyRead::Bytes(b"e\n".to_vec()),
            DummyRead::Fatal,
        ],
        vec![ms(100), ms(100), ms(100)],
    );

    let mut buf = vec![];
    while let Some(msg) = dummy.next() {
        buf.extend(msg);
    }
    assert!(buf.is_empty());
    assert_eq!(dummy.machine.status(), Status::FailedAndExhausted);
    assert_eq!(
        dummy.callbacks,
        vec![
            Callback::OnConnect,
            Callback::OnDisconnect,
            Callback::OnConnectFail,
            Callback::OnConnectFail,
            Callback::OnConnectFail,
            Callback::OnExhausted
        ]
    );
    assert_eq!(dummy.scheduled, vec![(ms(100), 1), (ms(100), 2), (ms(100), 3)]);
    // once given up, it stays given up
    assert_eq!(dummy.next(), None);
    assert_eq!(dummy.next(), None);
}

#[test]
fn recovery_restarts_the_retry_schedule() {
    let mut dummy = Harness::connect(
        vec![true, false, true, true],
        vec![
            DummyRead::Fatal,
            DummyRead::Fatal,
            DummyRead::Bytes(b"x".to_vec()),
        ],
        vec![ms(1), ms(2), ms(3)],
    );
    assert_eq!(dummy.next(), Some(b"x".to_vec()));
    // the second loss of the connection starts again at attempt 1 with the first wait
    assert_eq!(dummy.scheduled, vec![(ms(1), 1), (ms(2), 2), (ms(1), 1)]);
    let disconnects = dummy.callbacks.iter().filter(|c| **c == Callback::OnDisconnect).count();
    assert_eq!(disconnects, 2);
}

#[test]
fn empty_schedule_gives_up_at_the_first_disconnect() {
    let mut dummy = Harness::connect(vec![true], vec![DummyRead::Fatal], vec![]);
    assert_eq!(dummy.next(), None);
    assert_eq!(
        dummy.callbacks,
        vec![Callback::OnConnect, Callback::OnDisconnect, Callback::OnExhausted]
    );
    assert!(dummy.scheduled.is_empty());
}

#[test]
fn plan_depends_on_status_and_operation() {
    let mut m: ReconnectMachine<u32> = ReconnectMachine::new();
    for op in [Operation::PollNext, Operation::PollReady, Operation::PollFlush, Operation::PollClose] {
        assert_eq!(m.plan(op), Plan::PollInner);
    }
    assert_eq!(m.on_disconnect(Some(ms(5))).0, DisconnectOutcome::Retry { delay: ms(5), attempt_num: 1 });
    assert_eq!(m.status(), Status::Disconnected { attempt_num: 1 });
    assert_eq!(m.plan(Operation::PollNext), Plan::PollAttempt);
    assert_eq!(m.plan(Operation::PollReady), Plan::PollAttempt);
    assert_eq!(m.plan(Operation::PollFlush), Plan::PollAttempt);
    assert_eq!(m.plan(Operation::PollClose), Plan::Wait);
    assert_eq!(m.on_disconnect(None).0, DisconnectOutcome::Exhausted);
    for op in [Operation::PollNext, Operation::PollReady, Operation::PollFlush, Operation::PollClose] {
        assert_eq!(m.plan(op), Plan::GiveUp);
    }
}

#[test]
fn disconnect_counts_attempts_and_names_the_callback() {
    let mut m: ReconnectMachine<u32> = ReconnectMachine::new();
    assert_eq!(m.disconnect_callback(), Callback::OnDisconnect);
    m.on_disconnect(Some(ms(1)));
    assert_eq!(m.disconnect_callback(), Callback::OnConnectFail);
    let nothing = Wakeups { current_task: false, stored_wakers: false };
    let current = Wakeups { current_task: true, stored_wakers: false };
    let everyone = Wakeups { current_task: true, stored_wakers: true };
    assert_eq!(m.on_attempt_finished(false), (AttemptVerdict::Failed, nothing));
    assert_eq!(m.status(), Status::Disconnected { attempt_num: 1 });
    assert_eq!(
        m.on_disconnect(Some(ms(2))),
        (DisconnectOutcome::Retry { delay: ms(2), attempt_num: 2 }, current)
    );
    assert_eq!(
        m.on_disconnect(Some(ms(3))),
        (DisconnectOutcome::Retry { delay: ms(3), attempt_num: 3 }, current)
    );
    let waiting = Wakeups { current_task: false, stored_wakers: true };
    assert_eq!(m.on_attempt_finished(true), (AttemptVerdict::Reconnected, waiting));
    assert_eq!(m.status(), Status::Connected);
    assert_eq!(m.disconnect_callback(), Callback::OnDisconnect);
    assert_eq!(
        m.on_disconnect(Some(ms(4))),
        (DisconnectOutcome::Retry { delay: ms(4), attempt_num: 1 }, current)
    );
    assert_eq!(m.on_disconnect(None), (DisconnectOutcome::Exhausted, everyone));
}

#[test]
fn read_verdicts() {
    type M = ReconnectMachine<u32>;
    assert_eq!(M::read_verdict(ReadOutcome::Pending), ReadVerdict::Pending);
    assert_eq!(M::read_verdict(ReadOutcome::Item { disconnect_error: false }), ReadVerdict::Deliver);
    assert_eq!(M::read_verdict(ReadOutcome::Item { disconnect_error: true }), ReadVerdict::Disconnected);
    assert_eq!(M::read_verdict(ReadOutcome::End), ReadVerdict::Disconnected);
}

#[test]
fn write_verdicts() {
    let m: ReconnectMachine<u32> = ReconnectMachine::new();
    let fatal = WriteOutcome::Failed { disconnect_error: true };
    let benign = WriteOutcome::Failed { disconnect_error: false };
    assert!(m.is_write_disconnect_detected(&fatal));
    assert!(!m.is_write_disconnect_detected(&benign));
    assert!(!m.is_write_disconnect_detected(&WriteOutcome::Done));
    assert!(!m.is_write_disconnect_detected(&WriteOutcome::Pending));

    assert_eq!(m.write_verdict(false, fatal), WriteVerdict::Disconnected);
    assert_eq!(m.write_verdict(false, benign), WriteVerdict::Pass);
    assert_eq!(m.write_verdict(false, WriteOutcome::Done), WriteVerdict::Pass);
    assert_eq!(m.write_verdict(false, WriteOutcome::Pending), WriteVerdict::Pass);

    // closing: any ready answer, error or not, leaves the wrapper disconnected
    assert_eq!(m.write_verdict(true, WriteOutcome::Done), WriteVerdict::PassAfterDisconnect);
    assert_eq!(m.write_verdict(true, benign), WriteVerdict::PassAfterDisconnect);
    assert_eq!(m.write_verdict(true, fatal), WriteVerdict::PassAfterDisconnect);
    assert_eq!(m.write_verdict(true, WriteOutcome::Pending), WriteVerdict::Pass);
}

#[test]
fn pending_answers_store_the_waker_and_ready_ones_clear_it() {
    let mut m: ReconnectMachine<u32> = ReconnectMachine::new();
    assert_eq!(m.return_sink(1, Progress::<Result<(), u8>>::Pending), Progress::Pending);
    assert_eq!(*m.sink_waker(), Some(1));
    assert_eq!(*m.stream_waker(), None);
    assert_eq!(m.return_stream(2, Progress::<Option<u8>>::Pending), Progress::Pending);
    assert_eq!(*m.stream_waker(), Some(2));
    assert_eq!(m.return_sink(3, Progress::Ready(Err::<(), u8>(9))), Progress::Ready(Err(9)));
    assert_eq!(*m.sink_waker(), None);
    assert_eq!(*m.stream_waker(), Some(2));
    assert_eq!(m.return_stream(4, Progress::Ready(Some(5u8))), Progress::Ready(Some(5)));
    assert_eq!(*m.stream_waker(), None);
    assert_eq!(m.status(), Status::Connected);
}

#[test]
fn exhaustion_keeps_the_stored_wakers() {
    let mut m: ReconnectMachine<u32> = ReconnectMachine::new();
    m.return_stream(8, Progress::<Option<u8>>::Pending);
    m.return_sink(9, Progress::<Result<(), u8>>::Pending);
    assert_eq!(
        m.on_disconnect(None),
        (DisconnectOutcome::Exhausted, Wakeups { current_task: true, stored_wakers: true })
    );
    assert_eq!(m.status(), Status::FailedAndExhausted);
    assert_eq!(*m.stream_waker(), Some(8));
    assert_eq!(*m.sink_waker(), Some(9));
}

#[test]
fn giving_up_at_once_wakes_the_polling_task() {
    // connected, nothing stored, an empty schedule, and the wrapped stream ends
    let mut dummy = Harness::connect(vec![true], vec![DummyRead::Fatal], vec![]);
    assert_eq!(dummy.poll_next(5), Progress::Pending);
    assert_eq!(dummy.machine.status(), Status::FailedAndExhausted);
    // the polling task was woken, so it polls again and learns the stream ended
    assert_eq!(dummy.woken, vec![5]);
    assert_eq!(dummy.poll_next(5), Progress::Ready(None));
    assert_eq!(
        dummy.callbacks,
        vec![Callback::OnConnect, Callback::OnDisconnect, Callback::OnExhausted]
    );
}

#[test]
fn giving_up_after_failed_attempts_wakes_everyone_waiting() {
    let mut m: ReconnectMachine<u32> = ReconnectMachine::new();
    m.on_disconnect(Some(ms(1)));
    m.return_stream(1, Progress::<Option<u8>>::Pending);
    m.return_sink(2, Progress::<Result<(), u8>>::Pending);
    assert_eq!(m.on_attempt_finished(false).0, AttemptVerdict::Failed);
    let (outcome, wakeups) = m.on_disconnect(None);
    assert_eq!(outcome, DisconnectOutcome::Exhausted);
    assert!(wakeups.current_task && wakeups.stored_wakers);
    assert_eq!(*m.stream_waker(), Some(1));
    assert_eq!(*m.sink_waker(), Some(2));
}

#[test]
fn giving_up_while_an_attempt_is_pending() {
    let mut m: ReconnectMachine<u32> = ReconnectMachine::new();
    m.on_disconnect(Some(ms(1)));
    assert_eq!(m.status(), Status::Disconnected { attempt_num: 1 });
    assert_eq!(m.on_disconnect(None).0, DisconnectOutcome::Exhausted);
}

#[test]
fn callbacks_count_the_events_of_a_run() {
    // lose, fail, fail, reconnect, lose, fail, give up
    let mut dummy = Harness::connect(
        vec![true, false, false, true, false],
        vec![DummyRead::Fatal, DummyRead::Fatal],
        vec![ms(1), ms(1), ms(1)],
    );
    // first loss, two failed attempts, third succeeds
    while dummy.machine.status() != Status::Connected || dummy.callbacks.len() < 2 {
        dummy.poll_next(3);
    }
    dummy.retries = vec![ms(1)];
    while dummy.poll_next(3) != Progress::Ready(None) {}
    let count = |c: Callback| dummy.callbacks.iter().filter(|x| **x == c).count();
    assert_eq!(count(Callback::OnDisconnect), 2);
    assert_eq!(count(Callback::OnConnectFail), 3);
    assert_eq!(count(Callback::OnConnect), 2);
    assert_eq!(count(Callback::OnExhausted), 1);
}

#[test]
fn reconnect_wakes_only_the_tasks_stored_before() {
    // a sink task that was never answered Pending reconnects the wrapper at once: the
    // tasks stored before are woken, the polling task is not (it is stored now)
    let mut dummy = Harness::connect(vec![true], vec![DummyRead::Fatal], vec![ms(1)]);
    assert_eq!(dummy.poll_next(1), Progress::Pending);
    assert_eq!(dummy.woken, vec![1]);
    let answer = dummy.sink(2, Operation::PollReady, WriteOutcome::Done, Progress::Ready(true));
    assert_eq!(answer, Answer::Pending);
    assert_eq!(dummy.machine.status(), Status::Connected);
    assert_eq!(dummy.woken, vec![1, 1]);
    assert_eq!(*dummy.machine.sink_waker(), Some(2));
}

#[test]
fn closing_while_disconnected_only_waits() {
    let mut dummy = Harness::connect(vec![true], vec![], vec![ms(1)]);
    let failed = WriteOutcome::Failed { disconnect_error: true };
    assert_eq!(dummy.sink(4, Operation::PollFlush, failed, Progress::Pending), Answer::Pending);
    assert_eq!(dummy.machine.status(), Status::Disconnected { attempt_num: 1 });
    assert_eq!(dummy.woken, vec![4]);
    assert_eq!(dummy.sink(5, Operation::PollClose, WriteOutcome::Done, Progress::Ready(true)), Answer::Pending);
    assert_eq!(dummy.machine.status(), Status::Disconnected { attempt_num: 1 });
    assert_eq!(*dummy.machine.sink_waker(), Some(5));
    assert_eq!(dummy.woken, vec![4]);
}

#[test]
fn sink_gives_up_with_the_exhaustion_error() {
    let mut dummy = Harness::connect(vec![true], vec![], vec![]);
    let failed = WriteOutcome::Failed { disconnect_error: true };
    assert_eq!(dummy.sink(3, Operation::PollReady, failed, Progress::Pending), Answer::Pending);
    assert_eq!(dummy.machine.status(), Status::FailedAndExhausted);
    assert_eq!(dummy.woken, vec![3]);
    assert_eq!(dummy.sink(3, Operation::PollFlush, WriteOutcome::Done, Progress::Pending), Answer::GiveUp);
    assert_eq!(*dummy.machine.sink_waker(), None);
}

#[test]
fn closing_a_connected_sink_passes_its_answer_and_disconnects() {
    let mut dummy = Harness::connect(vec![true], vec![], vec![ms(9)]);
    assert_eq!(dummy.sink(6, Operation::PollClose, WriteOutcome::Done, Progress::Pending), Answer::Ready);
    assert_eq!(dummy.machine.status(), Status::Disconnected { attempt_num: 1 });
    assert_eq!(dummy.scheduled, vec![(ms(9), 1)]);
    assert_eq!(*dummy.machine.sink_waker(), None);
}

#[test]
fn pending_inner_read_leaves_the_stored_waker() {
    let mut dummy = Harness::connect(vec![true], vec![DummyRead::WouldBlock], vec![]);
    dummy.machine.return_stream(8, Progress::<()>::Pending);
    assert_eq!(dummy.poll_next(9), Progress::Pending);
    assert_eq!(*dummy.machine.stream_waker(), Some(8));
    assert!(dummy.woken.is_empty());
}
