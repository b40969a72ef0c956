//! The group of tasks that make up the exporter: one watch for each kind and
//! the scrape endpoint beside them. The group runs until the first task ends,
//! and that end is the result of the whole.

use crate::adapter::WatchFailure;
use crate::kinds::{watched_kinds, Kind};
use vstd::prelude::*;

verus! {

/// One of the tasks that run side by side.
#[derive(Clone, Copy, Debug, PartialEq, Eq, Structural)]
pub enum Task {
    /// The endpoint that serves scrapes.
    Scrape,
    /// The watch of one kind.
    Watch(Kind),
}

/// Why a task has ended.
#[derive(Clone, Copy, Debug, PartialEq, Eq, Structural)]
pub enum TaskEnd {
    /// The scrape endpoint stopped serving.
    ServerStopped,
    /// A watch ended.
    WatchEnded(WatchFailure),
}

/// The end of one task.
#[derive(Clone, Copy, Debug, PartialEq, Eq, Structural)]
pub struct Failure {
    pub task: Task,
    pub end: TaskEnd,
}

/// Where the group stands.
#[derive(Clone, Copy, Debug, PartialEq, Eq, Structural)]
pub enum GroupState {
    /// Every task is running.
    Running,
    /// A task has ended; the group has failed with it.
    Failed(Failure),
}

/// What the program is to do when a task has ended.
#[derive(Clone, Copy, Debug, PartialEq, Eq, Structural)]
pub enum GroupAction {
    /// Stop waiting, drop the tasks that still run, and report the failure.
    CancelRest(Failure),
    /// Nothing: the group has failed already.
    Nothing,
}

/// The tasks of the group for the given kinds: the scrape endpoint, then one
/// watch for each kind.
pub open spec fn tasks_for(kinds: Seq<Kind>) -> Seq<Task> {
    seq![Task::Scrape] + Seq::new(kinds.len(), |i: int| Task::Watch(kinds[i]))
}

/// The tasks to start: the scrape endpoint and one watch for each watched kind.
pub fn planned_tasks() -> (tasks: Vec<Task>)
    ensures
        tasks@ == tasks_for(seq![Kind::Deployment, Kind::StatefulSet, Kind::DaemonSet]),
{
    let kinds = watched_kinds();
    let mut tasks: Vec<Task> = Vec::new();
    tasks.push(Task::Scrape);
    let mut at: usize = 0;
    while at < kinds.len()
        invariant
            at <= kinds@.len(),
            tasks@ == tasks_for(kinds@.take(at as int)),
        decreases kinds@.len() - at,
    {
        tasks.push(Task::Watch(kinds[at]));
        assert(tasks@ =~= tasks_for(kinds@.take(at + 1)));
        at += 1;
    }
    assert(kinds@.take(at as int) =~= kinds@);
    tasks
}

/// The state and the action after a task has ended.
pub open spec fn group_transition(state: GroupState, failure: Failure) -> (
    GroupState,
    GroupAction,
) {
    match state {
        GroupState::Running => (GroupState::Failed(failure), GroupAction::CancelRest(failure)),
        GroupState::Failed(_) => (state, GroupAction::Nothing),
    }
}

/// Takes the end of a task in. The first end fails the group; later ends change
/// nothing.
pub fn task_ended(state: GroupState, failure: Failure) -> (next: (GroupState, GroupAction))
    ensures
        next == group_transition(state, failure),
{
    match state {
        GroupState::Running => (GroupState::Failed(failure), GroupAction::CancelRest(failure)),
        GroupState::Failed(_) => (state, GroupAction::Nothing),
    }
}

/// The state of the group after a run of task ends.
pub open spec fn group_after(state: GroupState, ends: Seq<Failure>) -> GroupState
    decreases ends.len(),
{
    if ends.len() == 0 {
        state
    } else {
        group_transition(group_after(state, ends.drop_last()), ends.last()).0
    }
}

/// The group fails with the first task that ends, whatever ends after it.
pub proof fn lemma_first_end_wins(ends: Seq<Failure>)
    requires
        ends.len() > 0,
    ensures
        group_after(GroupState::Running, ends) == GroupState::Failed(ends[0]),
    decreases ends.len(),
{
    if ends.len() == 1 {
        assert(ends.drop_last() =~= Seq::<Failure>::empty());
        assert(group_after(GroupState::Running, ends.drop_last()) == GroupState::Running);
    } else {
        lemma_first_end_wins(ends.drop_last());
    }
}

} // verus!
