//! The reconciliation engine as an event-driven state machine.
//!
//! Every remote call is a suspension point the engine itself cannot make:
//! a driver (for the deployed engine, an asynchronous network loop; in this
//! crate, [`crate::reconcile`] over the in-process store) performs the
//! pending [`StoreAction`] and hands the result back as a [`StoreEvent`].
//! Each transition is a pure function of the state and the event, so the
//! driver holds no decision of its own.

use vstd::prelude::*;
use vstd::pervasive::unreached;

use crate::classify::{milestone_destination_for_task, spec_destination,
    spec_is_in_milestone_list, spec_is_managed, task_is_in_milestone_list,
    task_is_in_milestone_space};
use crate::config::MilestoneConfig;
use crate::ids::{ListId, TaskId};
use crate::outcome::{Fault, Outcome, ReconcileFailure};
use crate::store::StoreError;
use crate::task::Task;

verus! {

/// A remote call the machine asks its driver to perform.
#[derive(Debug, PartialEq, Eq)]
pub enum StoreAction {
    /// Fetch a fresh snapshot of the task.
    FetchTask(TaskId),
    /// Re-point the task's parent link (first corrective write).
    SetParent(TaskId, TaskId),
    /// Restore the task's membership in a list (second corrective write).
    AddToList(TaskId, ListId),
}

/// What came back from the remote call the machine asked for.
#[derive(Debug)]
pub enum StoreEvent {
    /// A fetch succeeded and returned this snapshot.
    TaskFetched(Task),
    /// A write succeeded.
    WriteDone,
    /// The call failed.
    StoreFailed(StoreError),
}

/// Where a reconciliation attempt stands between two remote calls.
#[derive(Debug, PartialEq, Eq, Clone, Copy)]
pub enum Phase {
    /// Walking the ancestry: the pending action is a fetch.
    Walking,
    /// Walk done, correction owed: the pending action is the re-parenting
    /// write.
    Reparenting,
    /// Re-parenting committed: the pending action is the list-restoring
    /// write.
    RestoringList,
}

/// An in-flight reconciliation attempt: the task under reconciliation, the
/// list it must stay visible in, the placeholder it is owed as a parent, and
/// how many fetches the walk may still spend.
#[derive(Debug, PartialEq, Eq)]
pub struct Reconciliation {
    pub subject: TaskId,
    pub original_list: ListId,
    pub destination: TaskId,
    pub hops_left: u64,
    pub phase: Phase,
}

/// The machine's answer to `start` or `step`: either the attempt is over, or
/// the driver owes it one more remote call.
#[derive(Debug, PartialEq, Eq)]
pub enum Step {
    /// Perform the action, hand the result to `step`.
    Pending(Reconciliation, StoreAction),
    /// The attempt succeeded with this outcome.
    Finished(Outcome),
    /// The attempt failed.
    Failed(ReconcileFailure),
}

/// What `start` returns: a function of the task snapshot and the
/// configuration alone.
pub open spec fn spec_start(task: Task, c: MilestoneConfig) -> Step {
    if !spec_is_managed(c, task@.space) {
        Step::Finished(Outcome::Skipped)
    } else {
        let dest = spec_destination(c, task.custom_fields@);
        let rec = Reconciliation {
            subject: task.id,
            original_list: task.list.id,
            destination: dest,
            hops_left: 0,
            phase: Phase::Reparenting,
        };
        match task.parent {
            None => Step::Pending(rec, StoreAction::SetParent(task.id, dest)),
            Some(pid) => if c.max_hops == 0 {
                Step::Failed(ReconcileFailure::Aborted(Fault::AncestryTooDeep))
            } else {
                Step::Pending(
                    Reconciliation {
                        hops_left: (c.max_hops - 1) as u64,
                        phase: Phase::Walking,
                        ..rec
                    },
                    StoreAction::FetchTask(pid),
                )
            },
        }
    }
}

/// What `step` returns: a function of the state, the configuration and the
/// event alone.
pub open spec fn spec_step(rec: Reconciliation, c: MilestoneConfig, ev: StoreEvent) -> Step {
    match rec.phase {
        Phase::Walking => match ev {
            StoreEvent::TaskFetched(p) => if spec_is_in_milestone_list(c, p@) {
                Step::Finished(Outcome::AlreadyCompliant)
            } else {
                match p.parent {
                    None => Step::Pending(
                        Reconciliation { phase: Phase::Reparenting, ..rec },
                        StoreAction::SetParent(rec.subject, rec.destination),
                    ),
                    Some(gp) => if rec.hops_left == 0 {
                        Step::Failed(ReconcileFailure::Aborted(Fault::AncestryTooDeep))
                    } else {
                        Step::Pending(
                            Reconciliation { hops_left: (rec.hops_left - 1) as u64, ..rec },
                            StoreAction::FetchTask(gp),
                        )
                    },
                }
            },
            StoreEvent::StoreFailed(StoreError::NotFound) => Step::Failed(
                ReconcileFailure::Aborted(Fault::NotFound),
            ),
            _ => Step::Failed(ReconcileFailure::Aborted(Fault::StoreUnavailable)),
        },
        Phase::Reparenting => match ev {
            StoreEvent::WriteDone => Step::Pending(
                Reconciliation { phase: Phase::RestoringList, ..rec },
                StoreAction::AddToList(rec.subject, rec.original_list),
            ),
            _ => Step::Failed(ReconcileFailure::Aborted(Fault::StoreUnavailable)),
        },
        Phase::RestoringList => match ev {
            StoreEvent::WriteDone => Step::Finished(Outcome::Corrected),
            _ => Step::Failed(ReconcileFailure::PartialFailure(Fault::StoreUnavailable)),
        },
    }
}

/// Rank of a machine answer: strictly falls along every run, so a driver loop
/// terminates.
pub open spec fn rank_of(st: Step) -> int {
    match st {
        Step::Pending(rec, _) => match rec.phase {
            Phase::Walking => 3,
            Phase::Reparenting => 2,
            Phase::RestoringList => 1,
        },
        _ => 0,
    }
}

/// Fetches the pending walk may still spend; ties the rank within the walking
/// phase.
pub open spec fn hops_of(st: Step) -> int {
    match st {
        Step::Pending(rec, _) => rec.hops_left as int,
        _ => 0,
    }
}

/// Opens a reconciliation attempt for a fetched task snapshot. A task outside
/// every managed space is finished on the spot; otherwise the machine asks
/// for the first fetch of the walk, or — for a task without a parent — goes
/// straight to the correction.
pub fn start(task: &Task, config: &MilestoneConfig) -> (r: Step)
    requires
        config.wf(),
    ensures
        r == spec_start(*task, *config),
{
    if !task_is_in_milestone_space(task, config) {
        return Step::Finished(Outcome::Skipped);
    }
    let dest = match milestone_destination_for_task(task, config) {
        Some(d) => d,
        None => unreached(),
    };
    match &task.parent {
        None => {
            let action = StoreAction::SetParent(task.id.clone(), dest.clone());
            Step::Pending(
                Reconciliation {
                    subject: task.id.clone(),
                    original_list: task.list.id.clone(),
                    destination: dest,
                    hops_left: 0,
                    phase: Phase::Reparenting,
                },
                action,
            )
        },
        Some(pid) => {
            if config.max_hops == 0 {
                Step::Failed(ReconcileFailure::Aborted(Fault::AncestryTooDeep))
            } else {
                Step::Pending(
                    Reconciliation {
                        subject: task.id.clone(),
                        original_list: task.list.id.clone(),
                        destination: dest,
                        hops_left: config.max_hops - 1,
                        phase: Phase::Walking,
                    },
                    StoreAction::FetchTask(pid.clone()),
                )
            }
        },
    }
}

impl Reconciliation {
    /// Advances the attempt by one event: the result of the action the
    /// machine asked for last. An event that does not answer that action
    /// (a write result while walking, a snapshot while writing) aborts the
    /// attempt the way a failed call would.
    pub fn step(self, config: &MilestoneConfig, event: StoreEvent) -> (r: Step)
        ensures
            r == spec_step(self, *config, event),
    {
        match self.phase {
            Phase::Walking => match event {
                StoreEvent::TaskFetched(p) => {
                    if task_is_in_milestone_list(&p, config) {
                        Step::Finished(Outcome::AlreadyCompliant)
                    } else {
                        match &p.parent {
                            None => {
                                let action = StoreAction::SetParent(
                                    self.subject.clone(),
                                    self.destination.clone(),
                                );
                                Step::Pending(
                                    Reconciliation { phase: Phase::Reparenting, ..self },
                                    action,
                                )
                            },
                            Some(gp) => {
                                if self.hops_left == 0 {
                                    Step::Failed(
                                        ReconcileFailure::Aborted(Fault::AncestryTooDeep),
                                    )
                                } else {
                                    let action = StoreAction::FetchTask(gp.clone());
                                    Step::Pending(
                                        Reconciliation {
                                            hops_left: self.hops_left - 1,
                                            ..self
                                        },
                                        action,
                                    )
                                }
                            },
                        }
                    }
                },
                StoreEvent::StoreFailed(StoreError::NotFound) => Step::Failed(
                    ReconcileFailure::Aborted(Fault::NotFound),
                ),
                _ => Step::Failed(ReconcileFailure::Aborted(Fault::StoreUnavailable)),
            },
            Phase::Reparenting => match event {
                StoreEvent::WriteDone => {
                    let action = StoreAction::AddToList(
                        self.subject.clone(),
                        self.original_list.clone(),
                    );
                    Step::Pending(Reconciliation { phase: Phase::RestoringList, ..self }, action)
                },
                _ => Step::Failed(ReconcileFailure::Aborted(Fault::StoreUnavailable)),
            },
            Phase::RestoringList => match event {
                StoreEvent::WriteDone => Step::Finished(Outcome::Corrected),
                _ => Step::Failed(ReconcileFailure::PartialFailure(Fault::StoreUnavailable)),
            },
        }
    }
}

} // verus!
