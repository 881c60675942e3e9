//! End-to-end scenarios over the model: one runner per protocol subscribed
//! to the channel, clients served, then an interrupt broadcast and a clean
//! stop — the decision sequence the live process follows.

use daytime::daytime::{daytime_reply, parse_daytime_line};
use daytime::protocol::Protocol;
use daytime::runner::{step, Inbound, RunnerAction, RunnerEvent, RunnerState};
use daytime::shutdown::{RecvOutcome, SendOutcome, ShutdownChannel, SignalName};
use daytime::supervisor::{exit_status, spawn_plan};

#[test]
fn tcp_only_serves_one_client_then_stops_cleanly() {
    // Start with protocols = {TCP}: exactly one runner is planned.
    let mut chan = ShutdownChannel::new();
    let plan = spawn_plan(&vec![Protocol::Tcp], &mut chan);
    assert_eq!(plan.len(), 1);
    assert_eq!(plan[0].0, Protocol::Tcp);
    let rx = plan[0].1;

    // A client connects: the runner owes a single timestamp line.
    let mut state = RunnerState::Serving;
    let (next, action) = step(state, RunnerEvent::Inbound(Inbound::Arrived));
    state = next;
    assert_eq!(action, RunnerAction::Reply);
    let reply = daytime_reply();
    assert!(parse_daytime_line(&reply).is_some());
    assert_eq!(state, RunnerState::Serving);

    // Interrupt: the broadcast reaches the runner, which stops; exit is 0.
    assert_eq!(chan.send(SignalName::SigInt), SendOutcome::Delivered);
    let observed = chan.recv(rx);
    assert_eq!(observed, RecvOutcome::Signal(SignalName::SigInt));
    let (next, action) = step(state, RunnerEvent::ShutdownObserved(observed));
    assert_eq!(next, RunnerState::ShuttingDown);
    assert_eq!(action, RunnerAction::Stop);
    chan.drop_receiver(rx);
    assert_eq!(exit_status(false), 0);
}

#[test]
fn tcp_and_udp_serve_side_by_side() {
    // Start with protocols = {TCP, UDP}: two runners, one per kind.
    let mut chan = ShutdownChannel::new();
    let plan = spawn_plan(&vec![Protocol::Tcp, Protocol::Udp], &mut chan);
    assert_eq!(plan.len(), 2);
    assert_eq!(plan[0].0, Protocol::Tcp);
    assert_eq!(plan[1].0, Protocol::Udp);

    // A datagram arrives with arbitrary payload: the payload never reaches
    // the decision, and exactly one reply datagram is owed to the sender.
    let (next, action) = step(RunnerState::Serving, RunnerEvent::Inbound(Inbound::Arrived));
    assert_eq!(next, RunnerState::Serving);
    assert_eq!(action, RunnerAction::Reply);
    let reply = daytime_reply();
    let parsed = parse_daytime_line(&reply).expect("reply datagram must carry a timestamp");
    assert!(parsed.check_wf());

    // Shutdown stops both runners.
    assert_eq!(chan.send(SignalName::SigTerm), SendOutcome::Delivered);
    for (_, rx) in [(plan[0].0, plan[0].1), (plan[1].0, plan[1].1)] {
        let observed = chan.recv(rx);
        assert_eq!(observed, RecvOutcome::Signal(SignalName::SigTerm));
        let (next, action) = step(RunnerState::Serving, RunnerEvent::ShutdownObserved(observed));
        assert_eq!(next, RunnerState::ShuttingDown);
        assert_eq!(action, RunnerAction::Stop);
        chan.drop_receiver(rx);
    }
    assert_eq!(exit_status(false), 0);
}

#[test]
fn bind_failure_exits_with_status_two() {
    // A port already in use surfaces as a failed bind: status 2, and the
    // affected runner is never spawned.
    assert_eq!(exit_status(true), 2);
}

#[test]
fn duplicate_protocols_spawn_one_runner_each() {
    let mut chan = ShutdownChannel::new();
    let plan = spawn_plan(
        &vec![Protocol::Udp, Protocol::Udp, Protocol::Tcp, Protocol::Udp],
        &mut chan,
    );
    assert_eq!(plan.len(), 2);
    assert_eq!(plan[0].0, Protocol::Tcp);
    assert_eq!(plan[1].0, Protocol::Udp);
    assert_ne!(plan[0].1, plan[1].1);
}
