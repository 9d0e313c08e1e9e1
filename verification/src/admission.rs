//! Admission control for the serving loop.
//!
//! The controller walks a small state machine per incoming connection:
//! `AwaitingConnection` to `Evaluating` when a connection is accepted, then
//! to `Dispatching` or `Dropping` once the worker pool's queued count is
//! observed, and back to `AwaitingConnection` when the chosen action is
//! done. A failed accept keeps the controller in `AwaitingConnection`. The
//! decision point: a connection is dispatched if and only if the observed
//! queued count is at most the configured threshold; otherwise it is dropped
//! without being read. The count is observed once, before submission, and is
//! not re-checked afterwards: the load sensing is deliberately coarse so the
//! accept loop never blocks on the pool.

use vstd::prelude::*;
use vstd::string::*;
use crate::decimal::{dec_rep, dec_string};

verus! {

/// Where the controller stands in the handling of one incoming connection.
#[derive(Clone, Copy, PartialEq, Eq, Structural, Debug)]
pub enum AdmissionState {
    /// Blocked on the listener, waiting for the next connection.
    AwaitingConnection,
    /// A connection arrived; the pool's load is about to be observed.
    Evaluating,
    /// The load was acceptable; the connection is being submitted.
    Dispatching,
    /// The load was too high; the connection is being closed unread.
    Dropping,
}

/// What the serving loop reports to the controller.
#[derive(Clone, Copy, PartialEq, Eq, Structural, Debug)]
pub enum AdmissionEvent {
    /// The listener produced a connection.
    ConnectionArrived,
    /// The listener produced a per-connection accept error.
    AcceptFailed,
    /// The worker pool's queued count was read.
    LoadObserved { queued_count: usize },
    /// The dispatch or the drop finished.
    ActionCompleted,
}

/// What the serving loop must do next.
#[derive(Clone, Copy, PartialEq, Eq, Structural, Debug)]
pub enum AdmissionAction {
    /// Log a warning about the failed accept and keep looping.
    WarnAcceptError,
    /// Query the pool's queued count and report it back.
    ObserveLoad,
    /// Submit the connection to the worker pool.
    SubmitToPool,
    /// Close the connection without reading it, and log the drop.
    DropConnection,
    /// Nothing: the event does not belong to the current state.
    NoAction,
}

/// The next state after `event` is reported in state `state`, for a
/// controller with the given threshold. An event that does not belong to the
/// state leaves it unchanged.
pub open spec fn spec_step(
    state: AdmissionState,
    threshold: usize,
    event: AdmissionEvent,
) -> AdmissionState {
    match (state, event) {
        (AdmissionState::AwaitingConnection, AdmissionEvent::ConnectionArrived) => AdmissionState::Evaluating,
        (AdmissionState::AwaitingConnection, AdmissionEvent::AcceptFailed) => AdmissionState::AwaitingConnection,
        (AdmissionState::Evaluating, AdmissionEvent::LoadObserved { queued_count }) => {
            if queued_count > threshold {
                AdmissionState::Dropping
            } else {
                AdmissionState::Dispatching
            }
        },
        (AdmissionState::Dispatching, AdmissionEvent::ActionCompleted) => AdmissionState::AwaitingConnection,
        (AdmissionState::Dropping, AdmissionEvent::ActionCompleted) => AdmissionState::AwaitingConnection,
        _ => state,
    }
}

/// The action owed after `event` is reported in state `state`.
pub open spec fn spec_action(
    state: AdmissionState,
    threshold: usize,
    event: AdmissionEvent,
) -> AdmissionAction {
    match (state, event) {
        (AdmissionState::AwaitingConnection, AdmissionEvent::ConnectionArrived) => AdmissionAction::ObserveLoad,
        (AdmissionState::AwaitingConnection, AdmissionEvent::AcceptFailed) => AdmissionAction::WarnAcceptError,
        (AdmissionState::Evaluating, AdmissionEvent::LoadObserved { queued_count }) => {
            if queued_count > threshold {
                AdmissionAction::DropConnection
            } else {
                AdmissionAction::SubmitToPool
            }
        },
        (AdmissionState::Dispatching, AdmissionEvent::ActionCompleted) => AdmissionAction::NoAction,
        (AdmissionState::Dropping, AdmissionEvent::ActionCompleted) => AdmissionAction::NoAction,
        _ => AdmissionAction::NoAction,
    }
}

/// The outcome of evaluating one accepted connection.
#[derive(Clone, Copy, PartialEq, Eq, Structural, Debug)]
pub enum AdmissionDecision {
    /// The connection was submitted to the worker pool.
    Dispatched,
    /// The connection was closed without being read.
    Dropped,
}

/// The decision owed for one observed queued count.
pub open spec fn spec_decision(threshold: usize, queued_count: usize) -> AdmissionDecision {
    if queued_count > threshold {
        AdmissionDecision::Dropped
    } else {
        AdmissionDecision::Dispatched
    }
}

/// The acceptance loop's controller: a threshold fixed at construction and
/// the current state.
pub struct AdmissionController {
    pub threshold: usize,
    pub state: AdmissionState,
}

impl AdmissionController {
    /// A fresh controller, awaiting its first connection.
    pub fn new(threshold: usize) -> (c: Self)
        ensures
            c.threshold == threshold,
            c.state is AwaitingConnection,
    {
        AdmissionController { threshold, state: AdmissionState::AwaitingConnection }
    }

    /// Advances the state machine by one event and returns the action the
    /// serving loop must perform. A connection is submitted if and only if
    /// its observed queued count is at most the threshold, and dropped if
    /// and only if that count exceeds it.
    pub fn step(&mut self, event: AdmissionEvent) -> (action: AdmissionAction)
        ensures
            final(self).threshold == old(self).threshold,
            final(self).state == spec_step(old(self).state, old(self).threshold, event),
            action == spec_action(old(self).state, old(self).threshold, event),
            action is SubmitToPool <==> (old(self).state is Evaluating && (event matches
            AdmissionEvent::LoadObserved { queued_count } && queued_count <= old(
                self,
            ).threshold)),
            action is DropConnection <==> (old(self).state is Evaluating && (event matches
            AdmissionEvent::LoadObserved { queued_count } && queued_count > old(
                self,
            ).threshold)),
    {
        match (self.state, event) {
            (AdmissionState::AwaitingConnection, AdmissionEvent::ConnectionArrived) => {
                self.state = AdmissionState::Evaluating;
                AdmissionAction::ObserveLoad
            },
            (AdmissionState::AwaitingConnection, AdmissionEvent::AcceptFailed) => {
                AdmissionAction::WarnAcceptError
            },
            (AdmissionState::Evaluating, AdmissionEvent::LoadObserved { queued_count }) => {
                if queued_count > self.threshold {
                    self.state = AdmissionState::Dropping;
                    AdmissionAction::DropConnection
                } else {
                    self.state = AdmissionState::Dispatching;
                    AdmissionAction::SubmitToPool
                }
            },
            (AdmissionState::Dispatching, AdmissionEvent::ActionCompleted) => {
                self.state = AdmissionState::AwaitingConnection;
                AdmissionAction::NoAction
            },
            (AdmissionState::Dropping, AdmissionEvent::ActionCompleted) => {
                self.state = AdmissionState::AwaitingConnection;
                AdmissionAction::NoAction
            },
            _ => AdmissionAction::NoAction,
        }
    }

    /// Runs one full evaluation of an accepted connection: arrival, load
    /// observation, and completion of the chosen action. The controller ends
    /// back in `AwaitingConnection`, ready for the next connection, whatever
    /// the decision was.
    pub fn evaluate_connection(&mut self, queued_count: usize) -> (d: AdmissionDecision)
        requires
            old(self).state is AwaitingConnection,
        ensures
            final(self).threshold == old(self).threshold,
            final(self).state is AwaitingConnection,
            d == spec_decision(old(self).threshold, queued_count),
            d is Dispatched <==> queued_count <= old(self).threshold,
    {
        let _ = self.step(AdmissionEvent::ConnectionArrived);
        let decision = self.step(AdmissionEvent::LoadObserved { queued_count });
        let _ = self.step(AdmissionEvent::ActionCompleted);
        match decision {
            AdmissionAction::SubmitToPool => AdmissionDecision::Dispatched,
            _ => AdmissionDecision::Dropped,
        }
    }

    /// Records a failed accept: the controller logs-and-continues, staying
    /// in `AwaitingConnection`.
    pub fn accept_failed(&mut self) -> (action: AdmissionAction)
        requires
            old(self).state is AwaitingConnection,
        ensures
            final(self).threshold == old(self).threshold,
            final(self).state is AwaitingConnection,
            action is WarnAcceptError,
    {
        self.step(AdmissionEvent::AcceptFailed)
    }
}

/// Admission invariant: over any sequence of observed queued counts, the
/// connection with observed count `counts[i]` is dispatched if and only if
/// that count is at most the threshold, and dropped otherwise.
pub proof fn lemma_admission_invariant(threshold: usize, counts: Seq<usize>)
    ensures
        forall|i: int|
            0 <= i < counts.len() ==> (#[trigger] spec_decision(threshold, counts[i])
                is Dispatched <==> counts[i] <= threshold),
        forall|i: int|
            0 <= i < counts.len() ==> (#[trigger] spec_decision(threshold, counts[i]) is Dropped
                <==> counts[i] > threshold),
{
}

/// Liveness: a drop, a dispatch and a failed accept all leave the controller
/// awaiting the next connection; the serving loop never terminates on any of
/// them.
pub proof fn lemma_loop_continues(threshold: usize)
    ensures
        spec_step(AdmissionState::Dropping, threshold, AdmissionEvent::ActionCompleted)
            is AwaitingConnection,
        spec_step(AdmissionState::Dispatching, threshold, AdmissionEvent::ActionCompleted)
            is AwaitingConnection,
        spec_step(AdmissionState::AwaitingConnection, threshold, AdmissionEvent::AcceptFailed)
            is AwaitingConnection,
{
}

/// The warning logged when a connection is dropped for load: it names the
/// observed count and the peer.
pub fn drop_warning(queued_count: usize, peer: &str) -> (s: String)
    ensures
        s@ == "Too many streams queued: "@ + dec_rep(queued_count as nat) + ". Dropping peer "@
            + peer@ + "..."@,
{
    let mut s = String::from_str("Too many streams queued: ");
    let count = dec_string(queued_count);
    s.append(count.as_str());
    s.append(". Dropping peer ");
    s.append(peer);
    s.append("...");
    proof {
        assert(s@ =~= "Too many streams queued: "@ + dec_rep(queued_count as nat)
            + ". Dropping peer "@ + peer@ + "..."@);
    }
    s
}

/// The message logged when a connection is admitted: it names the peer.
pub fn processing_message(peer: &str) -> (s: String)
    ensures
        s@ == "Processing incoming stream of peer "@ + peer@ + "."@,
{
    let mut s = String::from_str("Processing incoming stream of peer ");
    s.append(peer);
    s.append(".");
    proof {
        assert(s@ =~= "Processing incoming stream of peer "@ + peer@ + "."@);
    }
    s
}

} // verus!
