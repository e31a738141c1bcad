use vstd::prelude::*;

use crate::policy::{drains_spec, RedirectionPolicy};

verus! {

/// Where a run stands.
#[derive(Clone, Copy, Debug, PartialEq, Eq, Structural)]
pub enum Phase {
    /// Policy and command chosen; no process yet.
    Configured,
    /// The child is running.
    Spawned,
    /// The child is running and both drain workers are relaying its output.
    Draining,
    /// The child exited normally; drain workers are being joined.
    ChildExited,
    /// The exit code has been reported.
    Reported,
    /// The run was aborted.
    Failed,
}

/// One of the child's two output streams.
#[derive(Clone, Copy, Debug, PartialEq, Eq, Structural)]
pub enum Stream {
    Stdout,
    Stderr,
}

/// Why a run was aborted. Every failure is fatal to the run.
#[derive(Clone, Copy, Debug, PartialEq, Eq, Structural)]
pub enum RunError {
    /// The executable could not be found or started.
    SpawnFailure,
    /// The child terminated without an exit code, e.g. by a signal.
    AbnormalTermination,
    /// A drain worker could not write to the parent's own stream.
    RelayWriteFailure,
    /// An event arrived that the run's phase does not expect.
    OutOfOrder,
}

/// What happened since the last step of a run.
#[derive(Clone, Copy, Debug, PartialEq, Eq, Structural)]
pub enum Event {
    /// The child process was created.
    Launched,
    /// The child process could not be created.
    LaunchFailed,
    /// One drain worker per output stream has been started.
    DrainersStarted,
    /// The child terminated, with its exit code if it exited normally.
    ChildExited(Option<i32>),
    /// The worker asked for was joined; `false` if it had failed.
    WorkerJoined(bool),
}

/// What the harness does next.
#[derive(Clone, Copy, Debug, PartialEq, Eq, Structural)]
pub enum Action {
    /// Hand each pipe's read end to a drain worker of its own.
    StartDrainers,
    /// Block until the child terminates.
    WaitChild,
    /// Block until the worker of this stream has terminated.
    JoinWorker(Stream),
    /// The run is complete: report the child's exit code.
    Report(i32),
    /// The run is aborted.
    Abort(RunError),
}

/// The state of a run: its policy, its phase, the child's exit code once known,
/// and how many drain workers have been joined.
#[derive(Clone, Copy, Debug, PartialEq, Eq, Structural)]
pub struct RunState {
    pub policy: RedirectionPolicy,
    pub phase: Phase,
    pub code: i32,
    pub joined: u8,
}

/// The phases that only a draining run passes through are reached only under a
/// draining policy, and at most two workers are ever joined.
pub open spec fn well_formed(s: RunState) -> bool {
    &&& (s.phase == Phase::Draining || s.phase == Phase::ChildExited) ==> drains_spec(s.policy)
    &&& s.joined <= 2
}

/// A run that has done nothing yet.
pub open spec fn initial(policy: RedirectionPolicy) -> RunState {
    RunState { policy, phase: Phase::Configured, code: 0, joined: 0 }
}

/// The state a run moves to on an event, and what it asks for.
pub open spec fn next(s: RunState, e: Event) -> (RunState, Action) {
    let drains = drains_spec(s.policy);
    let to = |phase: Phase| RunState { phase, ..s };
    let abort = |err: RunError| (to(Phase::Failed), Action::Abort(err));
    match e {
        Event::Launched => if s.phase == Phase::Configured {
            (to(Phase::Spawned), if drains { Action::StartDrainers } else { Action::WaitChild })
        } else {
            abort(RunError::OutOfOrder)
        },
        Event::LaunchFailed => if s.phase == Phase::Configured {
            abort(RunError::SpawnFailure)
        } else {
            abort(RunError::OutOfOrder)
        },
        Event::DrainersStarted => if s.phase == Phase::Spawned && drains {
            (to(Phase::Draining), Action::WaitChild)
        } else {
            abort(RunError::OutOfOrder)
        },
        Event::ChildExited(status) => if (s.phase == Phase::Spawned && !drains) || s.phase
            == Phase::Draining {
            match status {
                None => abort(RunError::AbnormalTermination),
                Some(c) => if drains {
                    (
                        RunState { phase: Phase::ChildExited, code: c, joined: 0, ..s },
                        Action::JoinWorker(Stream::Stdout),
                    )
                } else {
                    (RunState { phase: Phase::Reported, code: c, ..s }, Action::Report(c))
                },
            }
        } else {
            abort(RunError::OutOfOrder)
        },
        Event::WorkerJoined(ok) => if s.phase == Phase::ChildExited && s.joined < 2 {
            if !ok {
                abort(RunError::RelayWriteFailure)
            } else if s.joined == 1 {
                (RunState { phase: Phase::Reported, joined: 2, ..s }, Action::Report(s.code))
            } else {
                (RunState { joined: 1, ..s }, Action::JoinWorker(Stream::Stderr))
            }
        } else {
            abort(RunError::OutOfOrder)
        },
    }
}

/// The state after a run of events, and the actions asked for on the way.
pub open spec fn run_events(s: RunState, events: Seq<Event>) -> (RunState, Seq<Action>)
    decreases events.len(),
{
    if events.len() == 0 {
        (s, Seq::empty())
    } else {
        let (s1, a) = next(s, events[0]);
        let (sn, rest) = run_events(s1, events.skip(1));
        (sn, seq![a] + rest)
    }
}

/// The events of a run whose child exits normally with `code`.
pub open spec fn normal_events(policy: RedirectionPolicy, code: i32) -> Seq<Event> {
    if drains_spec(policy) {
        seq![
            Event::Launched,
            Event::DrainersStarted,
            Event::ChildExited(Some(code)),
            Event::WorkerJoined(true),
            Event::WorkerJoined(true),
        ]
    } else {
        seq![Event::Launched, Event::ChildExited(Some(code))]
    }
}

/// A run reports only once the child has exited normally, and only the
/// child's own exit code. Under a draining policy it reports only after both
/// drain workers have been joined; under any other it reports as soon as the
/// child exits.
pub proof fn lemma_report_follows_exit(s: RunState, e: Event, c: i32)
    requires
        well_formed(s),
        next(s, e).1 == Action::Report(c),
    ensures
        next(s, e).0.phase == Phase::Reported,
        next(s, e).0.code == c,
        drains_spec(s.policy) ==> {
            &&& s.phase == Phase::ChildExited
            &&& s.code == c
            &&& e == Event::WorkerJoined(true)
            &&& next(s, e).0.joined == 2
        },
        !drains_spec(s.policy) ==> s.phase == Phase::Spawned && e == Event::ChildExited(Some(c)),
{
}

/// Every step keeps a run well formed.
pub proof fn lemma_next_well_formed(s: RunState, e: Event)
    requires
        well_formed(s),
    ensures
        well_formed(next(s, e).0),
{
}

/// Under every policy, a child that exits normally leads the run through its
/// waits to a report of that exit code. Under a draining policy exactly two
/// workers are started and both are joined, stdout's first, before the report.
pub proof fn lemma_normal_run_reports(policy: RedirectionPolicy, code: i32)
    ensures
        ({
            let (last, actions) = run_events(initial(policy), normal_events(policy, code));
            &&& last.phase == Phase::Reported
            &&& last.code == code
            &&& actions == if drains_spec(policy) {
                seq![
                    Action::StartDrainers,
                    Action::WaitChild,
                    Action::JoinWorker(Stream::Stdout),
                    Action::JoinWorker(Stream::Stderr),
                    Action::Report(code),
                ]
            } else {
                seq![Action::WaitChild, Action::Report(code)]
            }
        }),
{
    reveal_with_fuel(run_events, 6);
    let ev = normal_events(policy, code);
    if drains_spec(policy) {
        assert(ev.skip(1).skip(1).skip(1).skip(1).skip(1) =~= Seq::<Event>::empty());
        assert(ev.skip(1) =~= seq![Event::DrainersStarted, Event::ChildExited(Some(code)),
            Event::WorkerJoined(true), Event::WorkerJoined(true)]);
        assert(ev.skip(1).skip(1) =~= seq![Event::ChildExited(Some(code)),
            Event::WorkerJoined(true), Event::WorkerJoined(true)]);
        assert(ev.skip(1).skip(1).skip(1) =~= seq![Event::WorkerJoined(true), Event::WorkerJoined(true)]);
        assert(ev.skip(1).skip(1).skip(1).skip(1) =~= seq![Event::WorkerJoined(true)]);
    } else {
        assert(ev.skip(1) =~= seq![Event::ChildExited(Some(code))]);
        assert(ev.skip(1).skip(1) =~= Seq::<Event>::empty());
    }
    let (last, actions) = run_events(initial(policy), ev);
    if drains_spec(policy) {
        assert(actions =~= seq![
            Action::StartDrainers,
            Action::WaitChild,
            Action::JoinWorker(Stream::Stdout),
            Action::JoinWorker(Stream::Stderr),
            Action::Report(code),
        ]);
    } else {
        assert(actions =~= seq![Action::WaitChild, Action::Report(code)]);
    }
}

/// The decisions of one run of the harness: which waits to make, in which
/// order, and what to report.
pub struct Run {
    state: RunState,
}

impl Run {
    #[verifier::type_invariant]
    spec fn inv(&self) -> bool {
        well_formed(self.state)
    }
}

impl View for Run {
    type V = RunState;

    closed spec fn view(&self) -> RunState {
        self.state
    }
}

impl Run {
    /// A run under the given policy, before any process exists.
    pub fn new(policy: RedirectionPolicy) -> (r: Run)
        ensures
            r@ == initial(policy),
            well_formed(r@),
    {
        Run { state: RunState { policy, phase: Phase::Configured, code: 0, joined: 0 } }
    }

    /// The run's current phase.
    pub fn phase(&self) -> (r: Phase)
        ensures
            r == self@.phase,
    {
        self.state.phase
    }

    /// The policy that governs the run.
    pub fn policy(&self) -> (r: RedirectionPolicy)
        ensures
            r == self@.policy,
    {
        self.state.policy
    }

    /// Moves the run on by one event and says what to do next.
    pub fn step(&mut self, event: Event) -> (r: Action)
        ensures
            (final(self)@, r) == next(old(self)@, event),
            well_formed(final(self)@),
    {
        proof {
            use_type_invariant(&*self);
            lemma_next_well_formed(self.state, event);
        }
        let s = self.state;
        let drains = s.policy.drains();
        let (phase, action) = match event {
            Event::Launched => if s.phase == Phase::Configured {
                (Phase::Spawned, if drains { Action::StartDrainers } else { Action::WaitChild })
            } else {
                (Phase::Failed, Action::Abort(RunError::OutOfOrder))
            },
            Event::LaunchFailed => if s.phase == Phase::Configured {
                (Phase::Failed, Action::Abort(RunError::SpawnFailure))
            } else {
                (Phase::Failed, Action::Abort(RunError::OutOfOrder))
            },
            Event::DrainersStarted => if s.phase == Phase::Spawned && drains {
                (Phase::Draining, Action::WaitChild)
            } else {
                (Phase::Failed, Action::Abort(RunError::OutOfOrder))
            },
            Event::ChildExited(status) => if (s.phase == Phase::Spawned && !drains) || s.phase
                == Phase::Draining {
                match status {
                    None => (Phase::Failed, Action::Abort(RunError::AbnormalTermination)),
                    Some(c) => {
                        self.state.code = c;
                        if drains {
                            self.state.joined = 0;
                            (Phase::ChildExited, Action::JoinWorker(Stream::Stdout))
                        } else {
                            (Phase::Reported, Action::Report(c))
                        }
                    },
                }
            } else {
                (Phase::Failed, Action::Abort(RunError::OutOfOrder))
            },
            Event::WorkerJoined(ok) => if s.phase == Phase::ChildExited && s.joined < 2 {
                if !ok {
                    (Phase::Failed, Action::Abort(RunError::RelayWriteFailure))
                } else if s.joined == 1 {
                    self.state.joined = 2;
                    (Phase::Reported, Action::Report(s.code))
                } else {
                    self.state.joined = 1;
                    (Phase::ChildExited, Action::JoinWorker(Stream::Stderr))
                }
            } else {
                (Phase::Failed, Action::Abort(RunError::OutOfOrder))
            },
        };
        self.state.phase = phase;
        action
    }
}

} // verus!
