use piped_io::policy::{RedirectionPolicy, StreamTarget};
use piped_io::run::{Action, Event, Phase, Run, RunError, Stream};

const ALL: [RedirectionPolicy; 4] = [
    RedirectionPolicy::Inherit,
    RedirectionPolicy::Discard,
    RedirectionPolicy::PipedUndrained,
    RedirectionPolicy::PipedDrained,
];

fn drive(policy: RedirectionPolicy, events: &[Event]) -> (Run, Vec<Action>) {
    let mut run = Run::new(policy);
    let actions = events.iter().map(|e| run.step(*e)).collect();
    (run, actions)
}

#[test]
fn quick_exit_reports_zero_under_every_policy() {
    for policy in ALL {
        let events: Vec<Event> = if policy.drains() {
            vec![
                Event::Launched,
                Event::DrainersStarted,
                Event::ChildExited(Some(0)),
                Event::WorkerJoined(true),
                Event::WorkerJoined(true),
            ]
        } else {
            vec![Event::Launched, Event::ChildExited(Some(0))]
        };
        let (run, actions) = drive(policy, &events);
        assert_eq!(actions.last(), Some(&Action::Report(0)));
        assert_eq!(run.phase(), Phase::Reported);
        assert_eq!(run.policy(), policy);
    }
}

#[test]
fn drained_run_joins_both_workers_before_report() {
    let (run, actions) = drive(
        RedirectionPolicy::PipedDrained,
        &[
            Event::Launched,
            Event::DrainersStarted,
            Event::ChildExited(Some(7)),
            Event::WorkerJoined(true),
            Event::WorkerJoined(true),
        ],
    );
    assert_eq!(
        actions,
        vec![
            Action::StartDrainers,
            Action::WaitChild,
            Action::JoinWorker(Stream::Stdout),
            Action::JoinWorker(Stream::Stderr),
            Action::Report(7),
        ]
    );
    assert_eq!(run.phase(), Phase::Reported);
}

#[test]
fn undrained_run_starts_no_workers() {
    assert_eq!(RedirectionPolicy::PipedUndrained.stream_target(), StreamTarget::Piped);
    let (run, actions) = drive(RedirectionPolicy::PipedUndrained, &[Event::Launched]);
    assert_eq!(actions, vec![Action::WaitChild]);
    assert_eq!(run.phase(), Phase::Spawned);
}

#[test]
fn discard_large_output_reports_zero() {
    assert_eq!(RedirectionPolicy::Discard.stream_target(), StreamTarget::Null);
    let (_, actions) = drive(
        RedirectionPolicy::Discard,
        &[Event::Launched, Event::ChildExited(Some(0))],
    );
    assert_eq!(actions, vec![Action::WaitChild, Action::Report(0)]);
}

#[test]
fn inherit_exit_three_reports_three() {
    assert_eq!(RedirectionPolicy::Inherit.stream_target(), StreamTarget::Inherit);
    let (run, actions) = drive(
        RedirectionPolicy::Inherit,
        &[Event::Launched, Event::ChildExited(Some(3))],
    );
    assert_eq!(actions, vec![Action::WaitChild, Action::Report(3)]);
    assert_eq!(run.phase(), Phase::Reported);
}

#[test]
fn spawn_failure_aborts() {
    for policy in ALL {
        let (run, actions) = drive(policy, &[Event::LaunchFailed]);
        assert_eq!(actions, vec![Action::Abort(RunError::SpawnFailure)]);
        assert_eq!(run.phase(), Phase::Failed);
    }
}

#[test]
fn signal_termination_aborts() {
    let (_, actions) = drive(
        RedirectionPolicy::Inherit,
        &[Event::Launched, Event::ChildExited(None)],
    );
    assert_eq!(actions.last(), Some(&Action::Abort(RunError::AbnormalTermination)));
    let (run, actions) = drive(
        RedirectionPolicy::PipedDrained,
        &[Event::Launched, Event::DrainersStarted, Event::ChildExited(None)],
    );
    assert_eq!(actions.last(), Some(&Action::Abort(RunError::AbnormalTermination)));
    assert_eq!(run.phase(), Phase::Failed);
}

#[test]
fn failed_worker_aborts() {
    let (_, actions) = drive(
        RedirectionPolicy::PipedDrained,
        &[
            Event::Launched,
            Event::DrainersStarted,
            Event::ChildExited(Some(0)),
            Event::WorkerJoined(true),
            Event::WorkerJoined(false),
        ],
    );
    assert_eq!(actions.last(), Some(&Action::Abort(RunError::RelayWriteFailure)));
}

#[test]
fn out_of_order_events_abort() {
    let (_, actions) = drive(RedirectionPolicy::Inherit, &[Event::ChildExited(Some(0))]);
    assert_eq!(actions, vec![Action::Abort(RunError::OutOfOrder)]);
    let (_, actions) = drive(
        RedirectionPolicy::Inherit,
        &[Event::Launched, Event::DrainersStarted],
    );
    assert_eq!(actions.last(), Some(&Action::Abort(RunError::OutOfOrder)));
    let (_, actions) = drive(
        RedirectionPolicy::PipedDrained,
        &[Event::Launched, Event::ChildExited(Some(0))],
    );
    assert_eq!(actions.last(), Some(&Action::Abort(RunError::OutOfOrder)));
}

#[test]
fn negative_exit_code_is_reported() {
    let (_, actions) = drive(
        RedirectionPolicy::PipedUndrained,
        &[Event::Launched, Event::ChildExited(Some(-1))],
    );
    assert_eq!(actions.last(), Some(&Action::Report(-1)));
}
