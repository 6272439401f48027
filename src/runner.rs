use crate::backend::BackendKind;
use vstd::prelude::*;

verus! {

/// How long a drain waits for accepted requests before it cancels them: 10 seconds.
pub const DRAIN_GRACE_MILLIS: u64 = 10000;

/// The phases of a running service, in the only order they are entered.
#[derive(Clone, Copy, Debug, PartialEq, Eq, Structural)]
pub enum Phase {
    Starting,
    Listening,
    Draining,
    Stopped,
}

/// What the world reports to the runner.
#[derive(Clone, Copy, Debug, PartialEq, Eq, Structural)]
pub enum Event {
    /// The startup connectivity probe of the backend succeeded, or not.
    BackendProbed(bool),
    /// The listening socket is bound.
    Bound,
    /// A startup step failed (the socket could not be bound).
    StartFailed,
    /// A client opened a connection.
    Arrived,
    /// An accepted request's handler finished.
    Finished,
    /// An accepted request ran past the per-request timeout.
    TimedOut,
    /// The external shutdown signal.
    Signal,
    /// The grace period of the drain ran out.
    GraceExpired,
}

/// What the runner asks the world to do, in order.
#[derive(Clone, Copy, Debug, PartialEq, Eq, Structural)]
pub enum Action {
    StartServing,
    Accept,
    Refuse,
    /// Send the finished request's response.
    Respond,
    /// Abort the request and answer it with the timeout status.
    RespondTimeout,
    /// Close the listener and start the grace timer.
    StopAccepting,
    /// Cancel every request still running.
    CancelAll,
    /// Flush and release the exporter; the last thing before exit.
    ShutdownTelemetry,
}

/// The runner's state: its phase, how many accepted requests have not been
/// answered, the backend shape once decided, and whether startup failed.
#[derive(Clone, Copy, Debug, PartialEq, Eq, Structural)]
pub struct RunnerState {
    pub phase: Phase,
    pub in_flight: u64,
    pub backend: Option<BackendKind>,
    pub failed: bool,
}

impl RunnerState {
    /// Nothing is in flight before serving or after stopping; a drain always
    /// has something to wait for; only a stopped runner has failed.
    pub open spec fn wf(self) -> bool {
        &&& (self.phase == Phase::Starting || self.phase == Phase::Stopped) ==> self.in_flight
            == 0
        &&& self.phase == Phase::Draining ==> self.in_flight > 0
        &&& self.failed ==> self.phase == Phase::Stopped
    }
}

pub open spec fn initial_state() -> RunnerState {
    RunnerState { phase: Phase::Starting, in_flight: 0, backend: None, failed: false }
}

pub open spec fn kind_of_probe(ok: bool) -> BackendKind {
    if ok {
        BackendKind::Live
    } else {
        BackendKind::StandIn
    }
}

/// An accepted request ends with `answer`; the last one to end during a
/// drain stops the runner and tears telemetry down.
pub open spec fn complete(s: RunnerState, answer: Action) -> (RunnerState, Seq<Action>) {
    if s.in_flight == 0 {
        (s, seq![])
    } else if s.phase == Phase::Draining && s.in_flight == 1 {
        (
            RunnerState { phase: Phase::Stopped, in_flight: 0, ..s },
            seq![answer, Action::ShutdownTelemetry],
        )
    } else {
        (RunnerState { in_flight: (s.in_flight - 1) as u64, ..s }, seq![answer])
    }
}

/// The runner's decision on one event: its next state and its actions.
pub open spec fn transition(s: RunnerState, e: Event) -> (RunnerState, Seq<Action>) {
    match s.phase {
        Phase::Starting => match e {
            Event::BackendProbed(ok) => if s.backend.is_none() {
                (RunnerState { backend: Some(kind_of_probe(ok)), ..s }, seq![])
            } else {
                (s, seq![])
            },
            Event::Bound => (RunnerState { phase: Phase::Listening, ..s }, seq![Action::StartServing]),
            Event::StartFailed => (
                RunnerState { phase: Phase::Stopped, failed: true, ..s },
                seq![Action::ShutdownTelemetry],
            ),
            Event::Signal => (
                RunnerState { phase: Phase::Stopped, ..s },
                seq![Action::ShutdownTelemetry],
            ),
            Event::Arrived => (s, seq![Action::Refuse]),
            _ => (s, seq![]),
        },
        Phase::Listening => match e {
            Event::Arrived => if s.in_flight < u64::MAX {
                (RunnerState { in_flight: (s.in_flight + 1) as u64, ..s }, seq![Action::Accept])
            } else {
                (s, seq![Action::Refuse])
            },
            Event::Finished => complete(s, Action::Respond),
            Event::TimedOut => complete(s, Action::RespondTimeout),
            Event::Signal => if s.in_flight == 0 {
                (
                    RunnerState { phase: Phase::Stopped, ..s },
                    seq![Action::StopAccepting, Action::ShutdownTelemetry],
                )
            } else {
                (RunnerState { phase: Phase::Draining, ..s }, seq![Action::StopAccepting])
            },
            _ => (s, seq![]),
        },
        Phase::Draining => match e {
            Event::Arrived => (s, seq![Action::Refuse]),
            Event::Finished => complete(s, Action::Respond),
            Event::TimedOut => complete(s, Action::RespondTimeout),
            Event::GraceExpired => (
                RunnerState { phase: Phase::Stopped, in_flight: 0, ..s },
                seq![Action::CancelAll, Action::ShutdownTelemetry],
            ),
            _ => (s, seq![]),
        },
        Phase::Stopped => match e {
            Event::Arrived => (s, seq![Action::Refuse]),
            _ => (s, seq![]),
        },
    }
}

/// The state after a sequence of events, and every action taken on the way.
pub open spec fn run(s: RunnerState, events: Seq<Event>) -> (RunnerState, Seq<Action>)
    decreases events.len(),
{
    if events.len() == 0 {
        (s, seq![])
    } else {
        let (mid, earlier) = run(s, events.drop_last());
        let (next, later) = transition(mid, events.last());
        (next, earlier + later)
    }
}

/// Every step keeps the runner's state well formed.
pub proof fn lemma_transition_wf(s: RunnerState, e: Event)
    requires
        s.wf(),
    ensures
        transition(s, e).0.wf(),
{
}

/// A request accepted while listening ends in one of three ways only: its
/// response is sent when its handler finishes, it is answered with the timeout
/// status when its own timeout elapses, or the grace deadline of a drain
/// cancels it. No other event cancels or drops an accepted request.
pub proof fn lemma_accepted_requests_answered(s: RunnerState, e: Event)
    requires
        s.wf(),
    ensures
        ({
            let (next, acts) = transition(s, e);
            &&& acts.contains(Action::CancelAll) ==> e == Event::GraceExpired && s.phase
                == Phase::Draining
            &&& acts.contains(Action::RespondTimeout) ==> e == Event::TimedOut
            &&& (s.phase == Phase::Listening || s.phase == Phase::Draining) && s.in_flight > 0
                && e == Event::Finished ==> acts[0] == Action::Respond && next.in_flight
                == s.in_flight - 1
            &&& next.in_flight < s.in_flight ==> (e == Event::Finished && acts[0]
                == Action::Respond) || (e == Event::TimedOut && acts[0] == Action::RespondTimeout)
                || (e == Event::GraceExpired && acts[0] == Action::CancelAll)
        }),
{
}

/// Telemetry is torn down last: only by the step that stops the runner, once
/// nothing is in flight, and as that step's final action. No connection is
/// accepted once the drain has begun.
pub proof fn lemma_telemetry_outlives_requests(s: RunnerState, e: Event)
    requires
        s.wf(),
    ensures
        ({
            let (next, acts) = transition(s, e);
            &&& acts.contains(Action::ShutdownTelemetry) ==> next.phase == Phase::Stopped
                && next.in_flight == 0 && acts.last() == Action::ShutdownTelemetry
            &&& (s.phase == Phase::Draining || s.phase == Phase::Stopped) ==> !acts.contains(
                Action::Accept,
            )
        }),
{
}

/// Once stopped, the runner stays stopped whatever happens next: every
/// connection attempt is refused and none is ever accepted.
pub proof fn lemma_stopped_is_final(s: RunnerState, events: Seq<Event>)
    requires
        s.wf(),
        s.phase == Phase::Stopped,
    ensures
        run(s, events).0 == s,
        forall|j: int| 0 <= j < run(s, events).1.len() ==> run(s, events).1[j] == Action::Refuse,
        transition(s, Event::Arrived).1 == seq![Action::Refuse],
    decreases events.len(),
{
    if events.len() > 0 {
        lemma_stopped_is_final(s, events.drop_last());
    }
}

/// The backend shape is decided once: after it is set, no sequence of events,
/// later probes included, changes it.
pub proof fn lemma_backend_decided_once(s: RunnerState, events: Seq<Event>)
    requires
        s.backend.is_some(),
    ensures
        run(s, events).0.backend == s.backend,
    decreases events.len(),
{
    if events.len() > 0 {
        lemma_backend_decided_once(s, events.drop_last());
    }
}

/// Drives the start/stop protocol of a service.
pub struct Runner {
    state: RunnerState,
}

impl View for Runner {
    type V = RunnerState;

    closed spec fn view(&self) -> RunnerState {
        self.state
    }
}

impl Runner {
    pub fn new() -> (r: Runner)
        ensures
            r@ == initial_state(),
            r@.wf(),
    {
        Runner { state: RunnerState { phase: Phase::Starting, in_flight: 0, backend: None, failed: false } }
    }

    pub fn state(&self) -> (r: RunnerState)
        ensures
            r == self@,
    {
        self.state
    }

    pub fn phase(&self) -> (r: Phase)
        ensures
            r == self@.phase,
    {
        self.state.phase
    }

    /// 0 after a clean stop, 1 when startup failed.
    pub fn exit_code(&self) -> (r: i32)
        ensures
            r == (if self@.failed { 1i32 } else { 0i32 }),
    {
        if self.state.failed {
            1
        } else {
            0
        }
    }

    fn complete(&mut self, answer: Action) -> (r: Vec<Action>)
        requires
            old(self)@.wf(),
            old(self)@.phase == Phase::Listening || old(self)@.phase == Phase::Draining,
        ensures
            (final(self)@, r@) == complete(old(self)@, answer),
            final(self)@.wf(),
    {
        let s = self.state;
        if s.in_flight == 0 {
            Vec::new()
        } else if s.phase == Phase::Draining && s.in_flight == 1 {
            self.state = RunnerState { phase: Phase::Stopped, in_flight: 0, ..s };
            vec![answer, Action::ShutdownTelemetry]
        } else {
            self.state = RunnerState { in_flight: s.in_flight - 1, ..s };
            vec![answer]
        }
    }

    /// Takes one event and returns the actions to perform, in order.
    pub fn step(&mut self, e: Event) -> (r: Vec<Action>)
        requires
            old(self)@.wf(),
        ensures
            (final(self)@, r@) == transition(old(self)@, e),
            final(self)@.wf(),
    {
        let s = self.state;
        match s.phase {
            Phase::Starting => match e {
                Event::BackendProbed(ok) => {
                    if s.backend.is_none() {
                        let kind = if ok {
                            BackendKind::Live
                        } else {
                            BackendKind::StandIn
                        };
                        self.state = RunnerState { backend: Some(kind), ..s };
                    }
                    Vec::new()
                },
                Event::Bound => {
                    self.state = RunnerState { phase: Phase::Listening, ..s };
                    vec![Action::StartServing]
                },
                Event::StartFailed => {
                    self.state = RunnerState { phase: Phase::Stopped, failed: true, ..s };
                    vec![Action::ShutdownTelemetry]
                },
                Event::Signal => {
                    self.state = RunnerState { phase: Phase::Stopped, ..s };
                    vec![Action::ShutdownTelemetry]
                },
                Event::Arrived => vec![Action::Refuse],
                _ => Vec::new(),
            },
            Phase::Listening => match e {
                Event::Arrived => {
                    if s.in_flight < u64::MAX {
                        self.state = RunnerState { in_flight: s.in_flight + 1, ..s };
                        vec![Action::Accept]
                    } else {
                        vec![Action::Refuse]
                    }
                },
                Event::Finished => self.complete(Action::Respond),
                Event::TimedOut => self.complete(Action::RespondTimeout),
                Event::Signal => {
                    if s.in_flight == 0 {
                        self.state = RunnerState { phase: Phase::Stopped, ..s };
                        vec![Action::StopAccepting, Action::ShutdownTelemetry]
                    } else {
                        self.state = RunnerState { phase: Phase::Draining, ..s };
                        vec![Action::StopAccepting]
                    }
                },
                _ => Vec::new(),
            },
            Phase::Draining => match e {
                Event::Arrived => vec![Action::Refuse],
                Event::Finished => self.complete(Action::Respond),
                Event::TimedOut => self.complete(Action::RespondTimeout),
                Event::GraceExpired => {
                    self.state = RunnerState { phase: Phase::Stopped, in_flight: 0, ..s };
                    vec![Action::CancelAll, Action::ShutdownTelemetry]
                },
                _ => Vec::new(),
            },
            Phase::Stopped => match e {
                Event::Arrived => vec![Action::Refuse],
                _ => Vec::new(),
            },
        }
    }
}

} // verus!
