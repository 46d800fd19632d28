//! Static, process-wide reconciliation configuration.
//!
//! Loaded once at process start and immutable thereafter: which spaces are
//! managed, which list inside each managed space certifies milestone
//! placement, and which placeholder task each value of the "Milestone" custom
//! field selects. The engine assumes a validated configuration; validation
//! itself is [`MilestoneConfig::validate`], meant to run at start-up so that
//! a misconfigured process refuses to start.

use vstd::prelude::*;

use crate::ids::{ListId, TaskId};
use crate::outcome::Fault;

verus! {

/// One managed space: its identifier and the list whose membership certifies
/// "already filed under a milestone".
#[derive(Debug, PartialEq, Eq)]
pub struct SpaceEntry {
    pub space: String,
    pub milestone_list: ListId,
}

impl Clone for SpaceEntry {
    fn clone(&self) -> (r: Self)
        ensures
            r == *self,
    {
        SpaceEntry { space: self.space.clone(), milestone_list: self.milestone_list.clone() }
    }
}

/// The configuration surface the engine consumes.
///
/// `destinations` maps each value of the "Milestone" custom field to the
/// placeholder task to parent under; its first entry is the "no milestone
/// selected" sentinel, to which absent, unset and out-of-range values
/// degrade. `max_hops` bounds every ancestry walk.
#[derive(Debug, PartialEq, Eq)]
pub struct MilestoneConfig {
    pub entries: Vec<SpaceEntry>,
    pub destinations: Vec<TaskId>,
    pub max_hops: u64,
}

impl Clone for MilestoneConfig {
    fn clone(&self) -> (r: Self)
        ensures
            r.entries@ == self.entries@,
            r.destinations@ == self.destinations@,
            r.max_hops == self.max_hops,
    {
        let entries = self.entries.clone();
        let destinations = self.destinations.clone();
        proof {
            assert forall|i: int| 0 <= i < self.entries@.len() implies entries@[i]
                == self.entries@[i] by {
                assert(vstd::pervasive::cloned::<SpaceEntry>(self.entries@[i], entries@[i]));
            }
            assert(entries@ =~= self.entries@);
            assert forall|i: int| 0 <= i < self.destinations@.len() implies destinations@[i]
                == self.destinations@[i] by {
                assert(vstd::pervasive::cloned::<TaskId>(self.destinations@[i], destinations@[i]));
            }
            assert(destinations@ =~= self.destinations@);
        }
        MilestoneConfig { entries, destinations, max_hops: self.max_hops }
    }
}

impl MilestoneConfig {
    /// A complete configuration: the destination mapping holds at least the
    /// "no milestone selected" sentinel, so destination resolution is total.
    pub open spec fn wf(&self) -> bool {
        self.destinations@.len() >= 1
    }

    /// Eager configuration validation, meant to run at process start: a
    /// destination mapping without even the sentinel entry is fatal.
    pub fn validate(&self) -> (r: Result<(), Fault>)
        ensures
            r.is_ok() <==> self.wf(),
            !self.wf() ==> r == Err::<(), Fault>(Fault::MisconfiguredDestination),
    {
        if self.destinations.len() == 0 {
            Err(Fault::MisconfiguredDestination)
        } else {
            Ok(())
        }
    }
}

/// A credential under which calls to the remote tracker are issued.
pub enum Credential {
    Authorization { name: String, token: String },
}

} // verus!
