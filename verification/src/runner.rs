//! The listener runner state machine. A runner owns one listening socket
//! (connection-oriented or datagram-oriented) and, while `Serving`, races the
//! next inbound event against the subscribed shutdown receiver. This module
//! decides each iteration; the surrounding runtime performs the socket work.

use crate::shutdown::{RecvOutcome, ShutdownChannel, SignalName, ReceiverState};
use vstd::prelude::*;

verus! {

/// The runner's two states. `ShuttingDown` is terminal.
#[derive(Clone, Copy, Debug, PartialEq, Eq, Structural)]
pub enum RunnerState {
    /// Accepting inbound work items and replying.
    Serving,
    /// Shutdown observed: no new inbound event is accepted; the runner
    /// returns and its socket is released.
    ShuttingDown,
}

/// One inbound event on the owned socket. It carries no payload: a daytime
/// reply depends only on the current time, never on what the peer sent.
#[derive(Clone, Copy, Debug, PartialEq, Eq, Structural)]
pub enum Inbound {
    /// A connection was accepted, or a datagram arrived: one work item.
    Arrived,
    /// The accept or receive failed; transient, logged, never fatal.
    Failed,
}

/// What the race between the socket and the shutdown receiver yielded in one
/// iteration: whichever of the two events resolved first.
#[derive(Clone, Copy, Debug, PartialEq, Eq, Structural)]
pub enum RunnerEvent {
    /// The socket side resolved first.
    Inbound(Inbound),
    /// The shutdown receiver resolved first: the broadcast signal, or
    /// `Closed` because the sender is gone without ever signaling.
    ShutdownObserved(RecvOutcome),
}

/// What the runner must do after one race iteration.
#[derive(Clone, Copy, Debug, PartialEq, Eq, Structural)]
pub enum RunnerAction {
    /// Compute the current time, format the daytime line, and attempt exactly
    /// one reply to the peer of this work item; then keep serving.
    Reply,
    /// Log the transient failure, drop the one work item, keep serving.
    DropItem,
    /// Stop: accept nothing more, release the socket, return.
    Stop,
}

/// A race only ever yields a resolved event: a receiver that would merely
/// keep waiting never wins the race against the socket.
pub open spec fn resolved(ev: RunnerEvent) -> bool {
    ev != RunnerEvent::ShutdownObserved(RecvOutcome::Pending)
}

/// The transition function of the runner: next state and required action for
/// one resolved event.
pub open spec fn step_spec(s: RunnerState, ev: RunnerEvent) -> (RunnerState, RunnerAction) {
    match s {
        RunnerState::ShuttingDown => (RunnerState::ShuttingDown, RunnerAction::Stop),
        RunnerState::Serving => match ev {
            RunnerEvent::Inbound(Inbound::Arrived) => (RunnerState::Serving, RunnerAction::Reply),
            RunnerEvent::Inbound(Inbound::Failed) => (RunnerState::Serving, RunnerAction::DropItem),
            RunnerEvent::ShutdownObserved(_) => (RunnerState::ShuttingDown, RunnerAction::Stop),
        },
    }
}

/// Decide one iteration of a runner: next state, and the one action owed for
/// the event. A reply is owed exactly for a work item that arrived while
/// serving; any observed shutdown — signal or closed sender — stops the
/// runner, and a stopped runner never serves again.
pub fn step(s: RunnerState, ev: RunnerEvent) -> (r: (RunnerState, RunnerAction))
    requires
        resolved(ev),
    ensures
        r == step_spec(s, ev),
        r.1 == RunnerAction::Reply <==> (s == RunnerState::Serving && ev == RunnerEvent::Inbound(
            Inbound::Arrived,
        )),
        r.1 == RunnerAction::Stop <==> r.0 == RunnerState::ShuttingDown,
        (ev matches RunnerEvent::ShutdownObserved(_)) ==> r.0 == RunnerState::ShuttingDown,
        s == RunnerState::ShuttingDown ==> r.0 == RunnerState::ShuttingDown,
{
    match s {
        RunnerState::ShuttingDown => (RunnerState::ShuttingDown, RunnerAction::Stop),
        RunnerState::Serving => match ev {
            RunnerEvent::Inbound(Inbound::Arrived) => (RunnerState::Serving, RunnerAction::Reply),
            RunnerEvent::Inbound(Inbound::Failed) => (
                RunnerState::Serving,
                RunnerAction::DropItem,
            ),
            RunnerEvent::ShutdownObserved(_) => (RunnerState::ShuttingDown, RunnerAction::Stop),
        },
    }
}

/// The state a runner reaches after a sequence of resolved events.
pub open spec fn run_state(init: RunnerState, evs: Seq<RunnerEvent>) -> RunnerState
    decreases evs.len(),
{
    if evs.len() == 0 {
        init
    } else {
        run_state(step_spec(init, evs[0]).0, evs.drop_first())
    }
}

/// The actions a runner owes for a sequence of resolved events.
pub open spec fn run_actions(init: RunnerState, evs: Seq<RunnerEvent>) -> Seq<RunnerAction>
    decreases evs.len(),
{
    if evs.len() == 0 {
        Seq::empty()
    } else {
        seq![step_spec(init, evs[0]).1] + run_actions(step_spec(init, evs[0]).0, evs.drop_first())
    }
}

/// Whether the event is an observed shutdown.
pub open spec fn is_shutdown_event(ev: RunnerEvent) -> bool {
    ev matches RunnerEvent::ShutdownObserved(_)
}

/// Whether any event of the sequence is an observed shutdown.
pub open spec fn has_shutdown(evs: Seq<RunnerEvent>) -> bool {
    exists|i: int| 0 <= i < evs.len() && is_shutdown_event(#[trigger] evs[i])
}

/// Number of replies owed in a sequence of actions.
pub open spec fn reply_count(acts: Seq<RunnerAction>) -> nat
    decreases acts.len(),
{
    if acts.len() == 0 {
        0
    } else {
        (if acts[0] == RunnerAction::Reply {
            1nat
        } else {
            0nat
        }) + reply_count(acts.drop_first())
    }
}

/// Number of arrived work items in a sequence of events.
pub open spec fn arrived_count(evs: Seq<RunnerEvent>) -> nat
    decreases evs.len(),
{
    if evs.len() == 0 {
        0
    } else {
        (if evs[0] == RunnerEvent::Inbound(Inbound::Arrived) {
            1nat
        } else {
            0nat
        }) + arrived_count(evs.drop_first())
    }
}

/// Law: one reply per work item. While no shutdown is observed, a serving
/// runner stays serving, decides one action per event, and owes exactly one
/// reply per arrived work item — a failed accept/receive costs only its own
/// work item, and nothing of the peers' payloads enters the decision.
pub proof fn lemma_one_reply_per_work_item(evs: Seq<RunnerEvent>)
    requires
        !has_shutdown(evs),
    ensures
        run_state(RunnerState::Serving, evs) == RunnerState::Serving,
        run_actions(RunnerState::Serving, evs).len() == evs.len(),
        reply_count(run_actions(RunnerState::Serving, evs)) == arrived_count(evs),
    decreases evs.len(),
{
    if evs.len() == 0 {
    } else {
        assert(!is_shutdown_event(evs[0]));
        assert(!has_shutdown(evs.drop_first())) by {
            if has_shutdown(evs.drop_first()) {
                let i = choose|i: int|
                    0 <= i < evs.drop_first().len() && is_shutdown_event(
                        #[trigger] evs.drop_first()[i],
                    );
                assert(is_shutdown_event(evs[i + 1]));
            }
        }
        lemma_one_reply_per_work_item(evs.drop_first());
        lemma_run_actions_cons(evs, RunnerState::Serving);
        assert(step_spec(RunnerState::Serving, evs[0]).0 == RunnerState::Serving);
    }
}

/// Unrolling one step of `run_actions`: the first decided action and the
/// rest of the decided sequence.
proof fn lemma_run_actions_cons(evs: Seq<RunnerEvent>, init: RunnerState)
    requires
        evs.len() > 0,
    ensures
        run_actions(init, evs).drop_first() == run_actions(step_spec(init, evs[0]).0, evs.drop_first()),
        run_actions(init, evs)[0] == step_spec(init, evs[0]).1,
        run_actions(init, evs).len() == evs.len(),
    decreases evs.len(),
{
    assert(run_actions(init, evs) == seq![step_spec(init, evs[0]).1] + run_actions(
        step_spec(init, evs[0]).0,
        evs.drop_first(),
    ));
    assert(run_actions(init, evs).drop_first() =~= run_actions(
        step_spec(init, evs[0]).0,
        evs.drop_first(),
    ));
    if evs.len() > 1 {
        lemma_run_actions_cons(evs.drop_first(), step_spec(init, evs[0]).0);
    }
}

/// Law: broadcasting shutdown stops every runner. A runner whose receiver
/// was subscribed when the signal was broadcast — however many work items it
/// is serving — observes that signal on its next poll, and the step it then
/// takes is terminal: it stops accepting inbound events and returns.
pub proof fn lemma_shutdown_stops_every_runner(
    c: ShutdownChannel,
    sig: SignalName,
    id: int,
    s: RunnerState,
)
    requires
        c.sent == Some(sig),
        0 <= id < c.receivers@.len(),
        c.receivers@[id] == ReceiverState::Waiting,
    ensures
        c.recv_outcome_spec(id) == RecvOutcome::Signal(sig),
        step_spec(s, RunnerEvent::ShutdownObserved(c.recv_outcome_spec(id))).0
            == RunnerState::ShuttingDown,
        step_spec(s, RunnerEvent::ShutdownObserved(c.recv_outcome_spec(id))).1
            == RunnerAction::Stop,
{
}

/// Law: a stopped runner never accepts new work. From the terminal state,
/// every event leads back to the terminal state and owes no reply.
pub proof fn lemma_terminal_state_is_final(ev: RunnerEvent)
    ensures
        step_spec(RunnerState::ShuttingDown, ev).0 == RunnerState::ShuttingDown,
        step_spec(RunnerState::ShuttingDown, ev).1 != RunnerAction::Reply,
{
}

} // verus!
