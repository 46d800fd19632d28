//! A hierarchy reconciliation engine for a remotely hosted task tracker.
//!
//! Tasks living in designated ("managed") spaces must, transitively, descend
//! from a milestone placeholder task selected by a custom field, while still
//! appearing in their original domain list. The engine classifies a task,
//! walks its ancestry through a task store, and, when the task is not yet
//! compliant, re-parents it under the configured placeholder and then
//! restores its original list membership.

pub mod classify;
pub mod config;
pub mod ids;
pub mod laws;
pub mod machine;
pub mod outcome;
pub mod reconcile;
pub mod store;
pub mod task;
pub mod walk;

pub use classify::{milestone_destination_for_task, task_is_in_milestone_list,
    task_is_in_milestone_space};
pub use config::{Credential, MilestoneConfig, SpaceEntry};
pub use ids::{ListId, TaskId, TeamId};
pub use machine::{Phase, Reconciliation, Step, StoreAction, StoreEvent};
pub use outcome::{Fault, Outcome, ReconcileFailure};
pub use reconcile::{make_task_subtask_of_milestone_task_if_needed, reconcile};
pub use store::{StoreError, TaskStore, WriteRecord};
pub use task::{CustomField, CustomFieldValue, FieldValue, Folder, List, Space, Status, Task,
    TaskView};
pub use walk::task_is_transitive_subtask_of_milestone_task;
