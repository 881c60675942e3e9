use daytime::runner::{step, Inbound, RunnerAction, RunnerEvent, RunnerState};
use daytime::shutdown::{RecvOutcome, SignalName};

#[test]
fn arrived_work_item_gets_exactly_one_reply() {
    let (next, action) = step(RunnerState::Serving, RunnerEvent::Inbound(Inbound::Arrived));
    assert_eq!(next, RunnerState::Serving);
    assert_eq!(action, RunnerAction::Reply);
}

#[test]
fn failed_accept_is_dropped_and_serving_continues() {
    let (next, action) = step(RunnerState::Serving, RunnerEvent::Inbound(Inbound::Failed));
    assert_eq!(next, RunnerState::Serving);
    assert_eq!(action, RunnerAction::DropItem);
}

#[test]
fn observed_signal_stops_the_runner() {
    let (next, action) = step(
        RunnerState::Serving,
        RunnerEvent::ShutdownObserved(RecvOutcome::Signal(SignalName::SigInt)),
    );
    assert_eq!(next, RunnerState::ShuttingDown);
    assert_eq!(action, RunnerAction::Stop);

    let (next, action) = step(
        RunnerState::Serving,
        RunnerEvent::ShutdownObserved(RecvOutcome::Signal(SignalName::SigTerm)),
    );
    assert_eq!(next, RunnerState::ShuttingDown);
    assert_eq!(action, RunnerAction::Stop);
}

#[test]
fn closed_channel_stops_the_runner_too() {
    let (next, action) = step(
        RunnerState::Serving,
        RunnerEvent::ShutdownObserved(RecvOutcome::Closed),
    );
    assert_eq!(next, RunnerState::ShuttingDown);
    assert_eq!(action, RunnerAction::Stop);
}

#[test]
fn stopped_runner_accepts_nothing_more() {
    let (next, action) = step(RunnerState::ShuttingDown, RunnerEvent::Inbound(Inbound::Arrived));
    assert_eq!(next, RunnerState::ShuttingDown);
    assert_eq!(action, RunnerAction::Stop);

    let (next, action) = step(RunnerState::ShuttingDown, RunnerEvent::Inbound(Inbound::Failed));
    assert_eq!(next, RunnerState::ShuttingDown);
    assert_eq!(action, RunnerAction::Stop);
}
