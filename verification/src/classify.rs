//! The hierarchy classifier: pure predicates over a fetched task snapshot and
//! the static configuration.

use vstd::prelude::*;

use crate::config::{MilestoneConfig, SpaceEntry};
use crate::ids::TaskId;
use crate::task::{CustomField, FieldValue, Task, TaskView};

verus! {

/// The configured entry for a space: the first entry whose space identifier
/// matches, if any.
pub open spec fn spec_entry_for(entries: Seq<SpaceEntry>, space: Seq<char>) -> Option<SpaceEntry>
    decreases entries.len(),
{
    if entries.len() == 0 {
        None
    } else if entries[0].space@ == space {
        Some(entries[0])
    } else {
        spec_entry_for(entries.skip(1), space)
    }
}

/// Whether a space is in the configured managed-space set.
pub open spec fn spec_is_managed(c: MilestoneConfig, space: Seq<char>) -> bool {
    spec_entry_for(c.entries@, space).is_some()
}

/// Whether a task's space is managed and its current list is that space's
/// milestone list.
pub open spec fn spec_is_in_milestone_list(c: MilestoneConfig, task: TaskView) -> bool {
    match spec_entry_for(c.entries@, task.space) {
        Some(e) => e.milestone_list@ == task.list,
        None => false,
    }
}

/// The first custom field named "Milestone", if any.
pub open spec fn spec_milestone_field(fields: Seq<CustomField>) -> Option<CustomField>
    decreases fields.len(),
{
    if fields.len() == 0 {
        None
    } else if fields[0].name@ == "Milestone"@ {
        Some(fields[0])
    } else {
        spec_milestone_field(fields.skip(1))
    }
}

/// The integer carried by the "Milestone" custom field: `None` when the field
/// is absent, unset, or carries a non-integer payload.
pub open spec fn spec_milestone_value(fields: Seq<CustomField>) -> Option<u64> {
    match spec_milestone_field(fields) {
        Some(f) => match f.value {
            Some(FieldValue::Integer(n)) => Some(n),
            _ => None,
        },
        None => None,
    }
}

/// The placeholder task a task's custom fields select: the destination at the
/// field's value when that value is present and in range, and the sentinel
/// destination otherwise.
pub open spec fn spec_destination(c: MilestoneConfig, fields: Seq<CustomField>) -> TaskId {
    match spec_milestone_value(fields) {
        Some(n) => if (n as int) < c.destinations@.len() {
            c.destinations@[n as int]
        } else {
            c.destinations@[0]
        },
        None => c.destinations@[0],
    }
}

/// Skipping a prefix in which no entry matches does not change which entry a
/// space selects.
proof fn lemma_entry_for_skip(entries: Seq<SpaceEntry>, space: Seq<char>, i: int)
    requires
        0 <= i <= entries.len(),
        forall|j: int| 0 <= j < i ==> entries[j].space@ != space,
    ensures
        spec_entry_for(entries, space) == spec_entry_for(entries.skip(i), space),
    decreases i,
{
    if i == 0 {
        assert(entries.skip(0) =~= entries);
    } else {
        lemma_entry_for_skip(entries.skip(1), space, i - 1);
        assert(entries.skip(1).skip(i - 1) =~= entries.skip(i));
    }
}

/// Skipping a prefix without a "Milestone" field does not change which field
/// is selected.
proof fn lemma_milestone_field_skip(fields: Seq<CustomField>, i: int)
    requires
        0 <= i <= fields.len(),
        forall|j: int| 0 <= j < i ==> fields[j].name@ != "Milestone"@,
    ensures
        spec_milestone_field(fields) == spec_milestone_field(fields.skip(i)),
    decreases i,
{
    if i == 0 {
        assert(fields.skip(0) =~= fields);
    } else {
        lemma_milestone_field_skip(fields.skip(1), i - 1);
        assert(fields.skip(1).skip(i - 1) =~= fields.skip(i));
    }
}

/// Index of the configured entry for a space.
fn find_entry(entries: &Vec<SpaceEntry>, space: &String) -> (r: Option<usize>)
    ensures
        match r {
            Some(i) => i < entries@.len() && spec_entry_for(entries@, space@) == Some(
                entries@[i as int],
            ),
            None => spec_entry_for(entries@, space@).is_none(),
        },
{
    let mut i: usize = 0;
    while i < entries.len()
        invariant
            i <= entries@.len(),
            forall|j: int| 0 <= j < i ==> entries@[j].space@ != space@,
        decreases entries@.len() - i,
    {
        if entries[i].space == *space {
            proof {
                lemma_entry_for_skip(entries@, space@, i as int);
                assert(entries@.skip(i as int)[0] == entries@[i as int]);
            }
            return Some(i);
        }
        i += 1;
    }
    proof {
        lemma_entry_for_skip(entries@, space@, entries@.len() as int);
    }
    None
}

/// Whether the task's space is in the configured managed-space set.
pub fn task_is_in_milestone_space(task: &Task, config: &MilestoneConfig) -> (r: bool)
    ensures
        r == spec_is_managed(*config, task@.space),
{
    find_entry(&config.entries, &task.space.id).is_some()
}

/// Whether the task itself is a member of its space's milestone list: its
/// space is managed and its current list equals that space's configured
/// milestone list.
pub fn task_is_in_milestone_list(task: &Task, config: &MilestoneConfig) -> (r: bool)
    ensures
        r == spec_is_in_milestone_list(*config, task@),
{
    match find_entry(&config.entries, &task.space.id) {
        Some(i) => config.entries[i].milestone_list.0 == task.list.id.0,
        None => false,
    }
}

/// Index of the first custom field named "Milestone".
fn find_milestone_field(fields: &Vec<CustomField>) -> (r: Option<usize>)
    ensures
        match r {
            Some(i) => i < fields@.len() && spec_milestone_field(fields@) == Some(
                fields@[i as int],
            ),
            None => spec_milestone_field(fields@).is_none(),
        },
{
    let key: String = "Milestone".to_owned();
    let mut i: usize = 0;
    while i < fields.len()
        invariant
            i <= fields@.len(),
            key@ == "Milestone"@,
            forall|j: int| 0 <= j < i ==> fields@[j].name@ != "Milestone"@,
        decreases fields@.len() - i,
    {
        if fields[i].name == key {
            proof {
                lemma_milestone_field_skip(fields@, i as int);
                assert(fields@.skip(i as int)[0] == fields@[i as int]);
            }
            return Some(i);
        }
        i += 1;
    }
    proof {
        lemma_milestone_field_skip(fields@, fields@.len() as int);
    }
    None
}

/// The milestone destination a task selects through its "Milestone" custom
/// field. Reads the field by name, interprets its value as a small
/// non-negative integer indexing the destination mapping, and degrades to the
/// sentinel destination when the field is absent, unset, or out of range.
/// Returns `None` only on a configuration without any destination at all.
pub fn milestone_destination_for_task(task: &Task, config: &MilestoneConfig) -> (r: Option<TaskId>)
    ensures
        config.wf() ==> r == Some(spec_destination(*config, task@.custom_fields)),
        !config.wf() ==> r.is_none(),
{
    if config.destinations.len() == 0 {
        return None;
    }
    let idx: usize = match find_milestone_field(&task.custom_fields) {
        Some(i) => match &task.custom_fields[i].value {
            Some(FieldValue::Integer(n)) => {
                if *n < config.destinations.len() as u64 {
                    *n as usize
                } else {
                    0
                }
            },
            _ => 0,
        },
        None => 0,
    };
    Some(config.destinations[idx].clone())
}

} // verus!
