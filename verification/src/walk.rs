//! The ancestry walker: follows parent links outward from a task to decide
//! whether a milestone-list member already appears in the chain.
//!
//! Parent chains are acyclic by remote-system contract, but the walker cannot
//! verify that cheaply; it imposes the configured hop bound and treats
//! exceeding it as a fault rather than looping forever.

use vstd::prelude::*;

use crate::classify::{spec_is_in_milestone_list, spec_is_managed, task_is_in_milestone_list,
    task_is_in_milestone_space};
use crate::config::MilestoneConfig;
use crate::outcome::Fault;
use crate::store::{StoreError, StoreView, TaskStore};
use crate::task::Task;

verus! {

/// How an ancestry walk ends.
pub enum WalkEnd {
    /// A milestone-list member appears in the chain: the task is compliant.
    Milestone,
    /// The chain reached a task without a parent and met no milestone-list
    /// member on the way.
    Root,
    /// A parent link points at a task the store does not hold.
    Missing,
    /// The chain is longer than the hop bound allows.
    TooDeep,
}

/// The walk along parent links through store `m`, starting at the parent link
/// `link` of some task, with `fuel` remote fetches allowed.
pub open spec fn spec_walk(
    m: StoreView,
    link: Option<Seq<char>>,
    fuel: nat,
    c: MilestoneConfig,
) -> WalkEnd
    decreases fuel,
{
    match link {
        None => WalkEnd::Root,
        Some(pid) => if fuel == 0 {
            WalkEnd::TooDeep
        } else if !m.contains_key(pid) {
            WalkEnd::Missing
        } else if spec_is_in_milestone_list(c, m[pid]) {
            WalkEnd::Milestone
        } else {
            spec_walk(m, m[pid].parent, (fuel - 1) as nat, c)
        },
    }
}

/// What the walker reports over a store whose fetches may be failing: the
/// first fetch it attempts surfaces the unavailability; a walk that attempts
/// none never notices it.
pub open spec fn walker_verdict(
    fail_fetch: bool,
    m: StoreView,
    link: Option<Seq<char>>,
    fuel: nat,
    c: MilestoneConfig,
) -> Result<bool, Fault> {
    if link.is_some() && fuel > 0 && fail_fetch {
        Err(Fault::StoreUnavailable)
    } else {
        match spec_walk(m, link, fuel, c) {
            WalkEnd::Milestone => Ok(true),
            WalkEnd::Root => Ok(false),
            WalkEnd::Missing => Err(Fault::NotFound),
            WalkEnd::TooDeep => Err(Fault::AncestryTooDeep),
        }
    }
}

/// Whether a milestone-list member appears among the task's ancestors. A task
/// outside every managed space reports `false` without any fetch; otherwise
/// each step of the walk performs exactly one fetch, bounded by the
/// configured hop count.
pub fn task_is_transitive_subtask_of_milestone_task(
    store: &TaskStore,
    task: &Task,
    config: &MilestoneConfig,
) -> (r: Result<bool, Fault>)
    ensures
        !spec_is_managed(*config, task@.space) ==> r == Ok::<bool, Fault>(false),
        spec_is_managed(*config, task@.space) ==> r == walker_verdict(
            store.fail_fetch,
            store@,
            task@.parent,
            config.max_hops as nat,
            *config,
        ),
{
    if !task_is_in_milestone_space(task, config) {
        return Ok(false);
    }
    let mut current: Task = task.clone();
    let mut hops_left: u64 = config.max_hops;
    loop
        invariant
            spec_is_managed(*config, task@.space),
            walker_verdict(
                store.fail_fetch,
                store@,
                task@.parent,
                config.max_hops as nat,
                *config,
            ) == walker_verdict(
                store.fail_fetch,
                store@,
                current@.parent,
                hops_left as nat,
                *config,
            ),
        decreases hops_left,
    {
        let parent_id = match &current.parent {
            None => {
                return Ok(false);
            },
            Some(pid) => pid,
        };
        if hops_left == 0 {
            return Err(Fault::AncestryTooDeep);
        }
        match store.fetch(parent_id) {
            Err(StoreError::NotFound) => {
                return Err(Fault::NotFound);
            },
            Err(_) => {
                return Err(Fault::StoreUnavailable);
            },
            Ok(parent_task) => {
                if task_is_in_milestone_list(&parent_task, config) {
                    return Ok(true);
                }
                hops_left = hops_left - 1;
                current = parent_task;
            },
        }
    }
}

} // verus!
