//! Results and faults of a reconciliation attempt.

use vstd::prelude::*;

verus! {

/// How a reconciliation attempt ended when it succeeded.
#[derive(Debug, PartialEq, Eq, Clone, Copy)]
pub enum Outcome {
    /// The task's space is not managed; the engine never touches such a task.
    Skipped,
    /// The task's ancestry already contains a milestone-list member; no write
    /// was issued.
    AlreadyCompliant,
    /// The task was re-parented under its milestone placeholder and its
    /// original list membership was restored: two writes were committed.
    Corrected,
}

/// Why a reconciliation attempt, or one of its store calls, failed.
#[derive(Debug, PartialEq, Eq, Clone, Copy)]
pub enum Fault {
    /// Transient failure of a fetch or a write; retry by redelivering the
    /// triggering event.
    StoreUnavailable,
    /// The ancestry walk exceeded its hop bound: a data-integrity fault,
    /// surfaced rather than silently truncated.
    AncestryTooDeep,
    /// The destination mapping holds no entry at all; fatal at
    /// configuration-load time and never reached by a validated
    /// configuration.
    MisconfiguredDestination,
    /// The task or one of its ancestors vanished mid-walk.
    NotFound,
}

/// A failed reconciliation attempt, telling apart the one window in which the
/// operation is not atomic.
#[derive(Debug, PartialEq, Eq, Clone, Copy)]
pub enum ReconcileFailure {
    /// The attempt ended with zero observable side effects.
    Aborted(Fault),
    /// The re-parenting write committed but the list-restoring write failed:
    /// the task is re-parented and possibly missing from its original list.
    /// A redelivered event converges without re-parenting again.
    PartialFailure(Fault),
}

} // verus!
