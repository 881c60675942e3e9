//! The shutdown coordination model: a single-producer, many-consumer
//! broadcast channel that delivers at most one shutdown signal per process
//! lifetime, buffers it for late subscribers, and treats a broadcast with no
//! live subscriber as a reported, non-fatal condition.

use vstd::prelude::*;

verus! {

/// Which OS-level request triggered the shutdown. Both kinds mean the same
/// graceful shutdown; the kind is only carried for logging.
#[derive(Clone, Copy, Debug, PartialEq, Eq, Structural)]
pub enum SignalName {
    SigInt,
    SigTerm,
}

/// One subscriber's position on the channel.
#[derive(Clone, Copy, Debug, PartialEq, Eq, Structural)]
pub enum ReceiverState {
    /// Subscribed and not yet aware of any signal.
    Waiting,
    /// Has observed the one broadcast signal.
    Notified,
    /// Unsubscribed: its runner returned and released the receiver.
    Dropped,
}

/// What one poll of a receiver observes.
#[derive(Clone, Copy, Debug, PartialEq, Eq, Structural)]
pub enum RecvOutcome {
    /// The broadcast signal; each receiver observes it exactly once.
    Signal(SignalName),
    /// Nothing was broadcast yet: the receiver keeps waiting.
    Pending,
    /// The channel has nothing more for this receiver: either it already
    /// observed the signal, or the sender is gone without ever signaling.
    Closed,
}

/// What a broadcast reports to the sender.
#[derive(Clone, Copy, Debug, PartialEq, Eq, Structural)]
pub enum SendOutcome {
    /// At least one live subscriber will observe the signal.
    Delivered,
    /// No live subscriber remained; non-fatal, merely logged.
    NoSubscribers,
}

/// The state of the broadcast shutdown channel together with all receivers
/// ever subscribed to it, identified by index.
pub struct ShutdownChannel {
    /// The one broadcast signal, once sent; buffered so that a receiver
    /// subscribed after the broadcast still observes it.
    pub sent: Option<SignalName>,
    /// True once the sender side is gone without ever signaling.
    pub closed: bool,
    /// Every receiver ever subscribed, in subscription order.
    pub receivers: Vec<ReceiverState>,
}

impl ShutdownChannel {
    /// Channel invariant: before the one broadcast, no receiver can have
    /// observed a signal.
    pub open spec fn wf(self) -> bool {
        self.sent is None ==> forall|i: int|
            0 <= i < self.receivers@.len() ==> self.receivers@[i] != ReceiverState::Notified
    }

    /// Whether any subscriber is still live (not dropped).
    pub open spec fn has_live_receiver(self) -> bool {
        exists|i: int|
            0 <= i < self.receivers@.len() && self.receivers@[i] != ReceiverState::Dropped
    }

    /// What receiver `id` would observe if it polled the channel now.
    pub open spec fn recv_outcome_spec(self, id: int) -> RecvOutcome {
        if self.receivers@[id] == ReceiverState::Waiting {
            match self.sent {
                Some(sig) => RecvOutcome::Signal(sig),
                None => if self.closed {
                    RecvOutcome::Closed
                } else {
                    RecvOutcome::Pending
                },
            }
        } else {
            RecvOutcome::Closed
        }
    }

    /// A fresh channel: nothing sent, sender live, no subscribers.
    pub fn new() -> (r: ShutdownChannel)
        ensures
            r.sent is None,
            !r.closed,
            r.receivers@.len() == 0,
            r.wf(),
    {
        ShutdownChannel { sent: None, closed: false, receivers: Vec::new() }
    }

    /// Subscribe a new receiver and return its id. Subscribing changes no
    /// other receiver and does not consume the buffered signal, so a
    /// subscriber arriving after the broadcast still finds it (see `recv`).
    pub fn subscribe(&mut self) -> (id: usize)
        requires
            old(self).wf(),
        ensures
            final(self).sent == old(self).sent,
            final(self).closed == old(self).closed,
            final(self).receivers@ == old(self).receivers@.push(ReceiverState::Waiting),
            id == old(self).receivers@.len(),
            final(self).wf(),
    {
        let id = self.receivers.len();
        self.receivers.push(ReceiverState::Waiting);
        id
    }

    /// Whether any subscriber is still live.
    pub fn any_live(&self) -> (r: bool)
        ensures
            r == self.has_live_receiver(),
    {
        let mut i: usize = 0;
        while i < self.receivers.len()
            invariant
                i <= self.receivers@.len(),
                forall|j: int| 0 <= j < i ==> self.receivers@[j] == ReceiverState::Dropped,
            decreases self.receivers@.len() - i,
        {
            if !(self.receivers[i] == ReceiverState::Dropped) {
                return true;
            }
            i = i + 1;
        }
        false
    }

    /// Broadcast the one shutdown signal. Does not block and does not panic:
    /// the signal is buffered for every current and future receiver, and a
    /// broadcast with no live subscriber merely reports `NoSubscribers`.
    pub fn send(&mut self, sig: SignalName) -> (r: SendOutcome)
        requires
            old(self).wf(),
            old(self).sent is None,
        ensures
            final(self).sent == Some(sig),
            final(self).closed == old(self).closed,
            final(self).receivers == old(self).receivers,
            final(self).wf(),
            r == SendOutcome::Delivered <==> old(self).has_live_receiver(),
    {
        let live = self.any_live();
        self.sent = Some(sig);
        if live {
            SendOutcome::Delivered
        } else {
            SendOutcome::NoSubscribers
        }
    }

    /// One poll by receiver `id`. The buffered signal is observed exactly
    /// once per receiver: the first poll after the broadcast yields it and
    /// every later poll yields `Closed`. With nothing sent, the poll is
    /// `Pending` while the sender lives and `Closed` once it is gone.
    pub fn recv(&mut self, id: usize) -> (r: RecvOutcome)
        requires
            old(self).wf(),
            id < old(self).receivers@.len(),
        ensures
            final(self).sent == old(self).sent,
            final(self).closed == old(self).closed,
            r == old(self).recv_outcome_spec(id as int),
            (r matches RecvOutcome::Signal(_)) ==> final(self).receivers@ == old(
                self,
            ).receivers@.update(id as int, ReceiverState::Notified),
            !(r matches RecvOutcome::Signal(_)) ==> final(self).receivers@ == old(
                self,
            ).receivers@,
            final(self).wf(),
    {
        match self.receivers[id] {
            ReceiverState::Waiting => match self.sent {
                Some(sig) => {
                    self.receivers[id] = ReceiverState::Notified;
                    RecvOutcome::Signal(sig)
                },
                None => {
                    if self.closed {
                        RecvOutcome::Closed
                    } else {
                        RecvOutcome::Pending
                    }
                },
            },
            _ => RecvOutcome::Closed,
        }
    }

    /// Unsubscribe receiver `id`: its runner has returned.
    pub fn drop_receiver(&mut self, id: usize)
        requires
            old(self).wf(),
            id < old(self).receivers@.len(),
        ensures
            final(self).sent == old(self).sent,
            final(self).closed == old(self).closed,
            final(self).receivers@ == old(self).receivers@.update(
                id as int,
                ReceiverState::Dropped,
            ),
            final(self).wf(),
    {
        self.receivers[id] = ReceiverState::Dropped;
    }

    /// The sender side is torn down without ever signaling: every receiver
    /// that still waits will observe `Closed` instead of blocking forever.
    pub fn close(&mut self)
        requires
            old(self).wf(),
        ensures
            final(self).sent == old(self).sent,
            final(self).closed,
            final(self).receivers == old(self).receivers,
            final(self).wf(),
    {
        self.closed = true;
    }
}

/// Law: no missed-signal race. Once the signal is broadcast, every receiver
/// that has not yet observed it — including one subscribed only after the
/// broadcast, which `subscribe` leaves `Waiting` — observes exactly that
/// signal on its next poll.
pub proof fn lemma_no_missed_signal(c: ShutdownChannel, sig: SignalName, id: int)
    requires
        c.sent == Some(sig),
        0 <= id < c.receivers@.len(),
        c.receivers@[id] == ReceiverState::Waiting,
    ensures
        c.recv_outcome_spec(id) == RecvOutcome::Signal(sig),
{
}

/// Law: the broadcast is observed exactly once per subscriber. A waiting
/// subscriber observes the signal; one that has already observed it gets
/// `Closed` on every later poll, never the signal a second time.
pub proof fn lemma_broadcast_exactly_once(c: ShutdownChannel, sig: SignalName, id: int)
    requires
        c.sent == Some(sig),
        0 <= id < c.receivers@.len(),
    ensures
        c.receivers@[id] == ReceiverState::Waiting ==> c.recv_outcome_spec(id)
            == RecvOutcome::Signal(sig),
        c.receivers@[id] == ReceiverState::Notified ==> c.recv_outcome_spec(id)
            == RecvOutcome::Closed,
        c.receivers@[id] == ReceiverState::Dropped ==> c.recv_outcome_spec(id)
            == RecvOutcome::Closed,
{
}

/// Law: a receiver never blocks forever on a spent channel. Whatever its
/// state, a poll after the sender is gone resolves at once: to the buffered
/// signal if one was sent and not yet observed, otherwise to `Closed`.
pub proof fn lemma_no_wait_on_spent_channel(c: ShutdownChannel, id: int)
    requires
        c.closed,
        0 <= id < c.receivers@.len(),
    ensures
        c.recv_outcome_spec(id) != RecvOutcome::Pending,
{
}

} // verus!
