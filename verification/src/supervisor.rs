//! Supervisor decisions: which runners to start for a requested
//! configuration, how each is subscribed to the shutdown channel, and the
//! process exit status owed for startup and shutdown outcomes.

use crate::protocol::{canonical_protocols, normalize_protocols, Protocol};
use crate::runner::{step_spec, RunnerAction, RunnerEvent, RunnerState};
use crate::shutdown::{ReceiverState, RecvOutcome, ShutdownChannel, SignalName};
use vstd::prelude::*;

verus! {

/// The exit status the process owes: 2 when a listening resource failed to
/// bind, 0 for a clean shutdown.
pub fn exit_status(bind_failed: bool) -> (r: i32)
    ensures
        bind_failed ==> r == 2,
        !bind_failed ==> r == 0,
{
    if bind_failed {
        2
    } else {
        0
    }
}

/// The supervisor's spawn plan: one runner per distinct requested transport
/// kind, in canonical order, each paired with a fresh receiver subscribed to
/// the shutdown channel and still waiting — so a signal broadcast at any
/// later moment reaches every spawned runner.
pub fn spawn_plan(requested: &Vec<Protocol>, c: &mut ShutdownChannel) -> (r: Vec<(
    Protocol,
    usize,
)>)
    requires
        old(c).wf(),
    ensures
        final(c).wf(),
        final(c).sent == old(c).sent,
        final(c).closed == old(c).closed,
        r@.map_values(|e: (Protocol, usize)| e.0) == canonical_protocols(requested@),
        forall|i: int|
            0 <= i < r@.len() ==> #[trigger] r@[i].1 < final(c).receivers@.len()
                && final(c).receivers@[r@[i].1 as int] == ReceiverState::Waiting,
{
    let protos = normalize_protocols(requested);
    let mut r: Vec<(Protocol, usize)> = Vec::new();
    let mut i: usize = 0;
    while i < protos.len()
        invariant
            i <= protos@.len(),
            c.wf(),
            c.sent == old(c).sent,
            c.closed == old(c).closed,
            r@.len() == i,
            forall|j: int| 0 <= j < i ==> #[trigger] r@[j].0 == protos@[j],
            forall|j: int|
                0 <= j < i ==> #[trigger] r@[j].1 < c.receivers@.len() && c.receivers@[r@[j].1 as int]
                    == ReceiverState::Waiting,
        decreases protos@.len() - i,
    {
        let id = c.subscribe();
        r.push((protos[i], id));
        i = i + 1;
    }
    proof {
        assert(r@.map_values(|e: (Protocol, usize)| e.0) =~= protos@);
    }
    r
}

/// Law: broadcasting shutdown stops every planned runner. After a spawn
/// plan leaves each runner's receiver waiting, a broadcast of the one
/// signal — whatever each runner's serving state is at that moment — is
/// observed by every one of them, and the step each then takes stops it.
pub proof fn lemma_broadcast_stops_planned_runners(
    plan: Seq<(Protocol, usize)>,
    c: ShutdownChannel,
    sig: SignalName,
    states: Seq<RunnerState>,
)
    requires
        c.sent == Some(sig),
        states.len() == plan.len(),
        forall|i: int|
            0 <= i < plan.len() ==> #[trigger] plan[i].1 < c.receivers@.len()
                && c.receivers@[plan[i].1 as int] == ReceiverState::Waiting,
    ensures
        forall|i: int|
            0 <= i < plan.len() ==> #[trigger] c.recv_outcome_spec(plan[i].1 as int)
                == RecvOutcome::Signal(sig),
        forall|i: int|
            0 <= i < plan.len() ==> #[trigger] step_spec(
                states[i],
                RunnerEvent::ShutdownObserved(RecvOutcome::Signal(sig)),
            ) == (RunnerState::ShuttingDown, RunnerAction::Stop),
{
}

} // verus!
