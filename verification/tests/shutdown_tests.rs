use daytime::shutdown::{RecvOutcome, SendOutcome, ShutdownChannel, SignalName};

#[test]
fn broadcast_reaches_every_subscriber_exactly_once() {
    let mut c = ShutdownChannel::new();
    let a = c.subscribe();
    let b = c.subscribe();
    assert_eq!(c.send(SignalName::SigInt), SendOutcome::Delivered);
    assert_eq!(c.recv(a), RecvOutcome::Signal(SignalName::SigInt));
    assert_eq!(c.recv(b), RecvOutcome::Signal(SignalName::SigInt));
    // The one signal is observed exactly once per receiver.
    assert_eq!(c.recv(a), RecvOutcome::Closed);
    assert_eq!(c.recv(b), RecvOutcome::Closed);
}

#[test]
fn late_subscriber_still_observes_signal() {
    let mut c = ShutdownChannel::new();
    // No subscriber yet: the broadcast is reported, not fatal.
    assert_eq!(c.send(SignalName::SigTerm), SendOutcome::NoSubscribers);
    // A receiver subscribed only after the signal still observes it.
    let late = c.subscribe();
    assert_eq!(c.recv(late), RecvOutcome::Signal(SignalName::SigTerm));
    assert_eq!(c.recv(late), RecvOutcome::Closed);
}

#[test]
fn send_with_no_live_subscribers_reports_and_returns() {
    let mut c = ShutdownChannel::new();
    let a = c.subscribe();
    let b = c.subscribe();
    c.drop_receiver(a);
    c.drop_receiver(b);
    // All runners already finished: the send neither panics nor hangs.
    assert_eq!(c.send(SignalName::SigInt), SendOutcome::NoSubscribers);
}

#[test]
fn receiver_waits_while_nothing_sent() {
    let mut c = ShutdownChannel::new();
    let a = c.subscribe();
    assert_eq!(c.recv(a), RecvOutcome::Pending);
}

#[test]
fn closed_sender_resolves_instead_of_blocking() {
    let mut c = ShutdownChannel::new();
    let a = c.subscribe();
    c.close();
    assert_eq!(c.recv(a), RecvOutcome::Closed);
}

#[test]
fn dropped_receiver_counts_as_gone() {
    let mut c = ShutdownChannel::new();
    let a = c.subscribe();
    let b = c.subscribe();
    c.drop_receiver(a);
    // One live receiver remains: delivery succeeds to it.
    assert_eq!(c.send(SignalName::SigTerm), SendOutcome::Delivered);
    assert_eq!(c.recv(b), RecvOutcome::Signal(SignalName::SigTerm));
    assert_eq!(c.recv(a), RecvOutcome::Closed);
}
