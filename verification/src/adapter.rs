//! The life of one kind's watch, as a state machine.
//!
//! The program that runs a watch does the outside work (it makes the client,
//! asks the cluster whether the kind exists, opens the subscription and awaits
//! its events) and reports each outcome as an event. The machine answers with
//! the next state and with what to do next.

use vstd::prelude::*;

verus! {

/// Why a watch has ended.
#[derive(Clone, Copy, Debug, PartialEq, Eq, Structural)]
pub enum WatchFailure {
    /// No client for the cluster could be made.
    ClientUnavailable,
    /// The cluster does not serve the kind.
    KindUnresolved,
    /// The subscription reported an error.
    StreamFailed,
    /// The subscription came to an end.
    StreamClosed,
}

/// Where a watch stands.
#[derive(Clone, Copy, Debug, PartialEq, Eq, Structural)]
pub enum AdapterState {
    /// Nothing has been done yet.
    Starting,
    /// The cluster is being asked whether it serves the kind.
    Discovering,
    /// The subscription is open.
    Watching,
    /// The watch has ended, for good.
    Terminated(WatchFailure),
}

/// What has happened to a watch.
#[derive(Clone, Copy, Debug, PartialEq, Eq, Structural)]
pub enum AdapterEvent {
    /// The client for the cluster has been made.
    ClientReady,
    /// The cluster serves the kind.
    KindResolved,
    /// The subscription delivered an object that was created or updated.
    ObjectApplied,
    /// The outside work failed.
    Failed(WatchFailure),
}

/// What the program is to do next.
#[derive(Clone, Copy, Debug, PartialEq, Eq, Structural)]
pub enum AdapterAction {
    /// Ask the cluster whether it serves the kind.
    Discover,
    /// Open the subscription for the kind, across all namespaces, and await
    /// its first event.
    Subscribe,
    /// Hand the delivered object to the extractor, then await the next event.
    Extract,
    /// Go on waiting for what the state waits for: the event does not belong
    /// to it.
    Wait,
    /// Give up and report the failure.
    Stop(WatchFailure),
}

/// The next state and the action for an event in a state.
pub open spec fn transition(state: AdapterState, event: AdapterEvent) -> (
    AdapterState,
    AdapterAction,
) {
    match (state, event) {
        (AdapterState::Terminated(failure), _) => (state, AdapterAction::Stop(failure)),
        (_, AdapterEvent::Failed(failure)) => (
            AdapterState::Terminated(failure),
            AdapterAction::Stop(failure),
        ),
        (AdapterState::Starting, AdapterEvent::ClientReady) => (
            AdapterState::Discovering,
            AdapterAction::Discover,
        ),
        (AdapterState::Discovering, AdapterEvent::KindResolved) => (
            AdapterState::Watching,
            AdapterAction::Subscribe,
        ),
        (AdapterState::Watching, AdapterEvent::ObjectApplied) => (
            AdapterState::Watching,
            AdapterAction::Extract,
        ),
        _ => (state, AdapterAction::Wait),
    }
}

/// The state in which every watch begins.
pub fn start() -> (state: AdapterState)
    ensures
        state == AdapterState::Starting,
{
    AdapterState::Starting
}

/// Takes one event in: the next state, and what to do next.
pub fn step(state: AdapterState, event: AdapterEvent) -> (next: (AdapterState, AdapterAction))
    ensures
        next == transition(state, event),
{
    match state {
        AdapterState::Terminated(failure) => (state, AdapterAction::Stop(failure)),
        AdapterState::Starting => match event {
            AdapterEvent::Failed(failure) => (
                AdapterState::Terminated(failure),
                AdapterAction::Stop(failure),
            ),
            AdapterEvent::ClientReady => (AdapterState::Discovering, AdapterAction::Discover),
            _ => (state, AdapterAction::Wait),
        },
        AdapterState::Discovering => match event {
            AdapterEvent::Failed(failure) => (
                AdapterState::Terminated(failure),
                AdapterAction::Stop(failure),
            ),
            AdapterEvent::KindResolved => (AdapterState::Watching, AdapterAction::Subscribe),
            _ => (state, AdapterAction::Wait),
        },
        AdapterState::Watching => match event {
            AdapterEvent::Failed(failure) => (
                AdapterState::Terminated(failure),
                AdapterAction::Stop(failure),
            ),
            AdapterEvent::ObjectApplied => (AdapterState::Watching, AdapterAction::Extract),
            _ => (state, AdapterAction::Wait),
        },
    }
}

/// The state after a run of events.
pub open spec fn state_after(state: AdapterState, events: Seq<AdapterEvent>) -> AdapterState
    decreases events.len(),
{
    if events.len() == 0 {
        state
    } else {
        transition(state_after(state, events.drop_last()), events.last()).0
    }
}

/// How far a state is along the way from starting to terminated.
pub open spec fn progress(state: AdapterState) -> nat {
    match state {
        AdapterState::Starting => 0,
        AdapterState::Discovering => 1,
        AdapterState::Watching => 2,
        AdapterState::Terminated(_) => 3,
    }
}

/// A watch that has ended stays ended, with the failure that ended it,
/// whatever happens afterwards.
pub proof fn lemma_terminated_is_final(failure: WatchFailure, events: Seq<AdapterEvent>)
    ensures
        state_after(AdapterState::Terminated(failure), events) == AdapterState::Terminated(failure),
    decreases events.len(),
{
    if events.len() > 0 {
        lemma_terminated_is_final(failure, events.drop_last());
    }
}

/// A watch never goes back: no run of events leads to an earlier state. In
/// particular, once the kind has been resolved the watch is never discovering
/// again.
pub proof fn lemma_never_goes_back(state: AdapterState, events: Seq<AdapterEvent>)
    ensures
        progress(state) <= progress(state_after(state, events)),
    decreases events.len(),
{
    if events.len() > 0 {
        lemma_never_goes_back(state, events.drop_last());
    }
}

/// Any failure ends a watch that has not ended yet, and is the failure that it
/// reports.
pub proof fn lemma_failure_terminates(state: AdapterState, failure: WatchFailure)
    requires
        !(state is Terminated),
    ensures
        transition(state, AdapterEvent::Failed(failure)) == (
            AdapterState::Terminated(failure),
            AdapterAction::Stop(failure),
        ),
{
}

} // verus!
