//! The reconciler end to end against the in-process store.

use clickity::{
    make_task_subtask_of_milestone_task_if_needed, reconcile,
    task_is_transitive_subtask_of_milestone_task, CustomField, Fault, FieldValue, Folder, List,
    ListId, MilestoneConfig, Outcome, ReconcileFailure, Space, SpaceEntry, Status, Task, TaskId,
    TaskStore, WriteRecord,
};

const MANAGED_SPACE: &str = "32279886";
const MILESTONE_LIST: &str = "188335476";
const DOMAIN_LIST: &str = "188335750";
const OTHER_SPACE: &str = "99000001";

fn config() -> MilestoneConfig {
    MilestoneConfig {
        entries: vec![SpaceEntry {
            space: MANAGED_SPACE.to_string(),
            milestone_list: ListId::from(MILESTONE_LIST),
        }],
        destinations: vec![
            TaskId::from("36w8251"),
            TaskId::from("36pnwzu"),
            TaskId::from("36w74wp"),
            TaskId::from("36w826q"),
            TaskId::from("36w8281"),
        ],
        max_hops: 16,
    }
}

fn task(id: &str, space: &str, list: &str, parent: Option<&str>, milestone: Option<FieldValue>) -> Task {
    Task {
        id: TaskId::from(id),
        name: Some(format!("task {id}")),
        description: None,
        status: Some(Status { status: "open".to_string() }),
        parent: parent.map(TaskId::from),
        custom_fields: milestone
            .map(|value| {
                vec![CustomField {
                    id: "field-1".to_string(),
                    name: "Milestone".to_string(),
                    field_type: "drop_down".to_string(),
                    value: Some(value),
                }]
            })
            .unwrap_or_default(),
        list: List { id: ListId::from(list) },
        folder: Folder { id: "folder-1".to_string() },
        space: Space { id: space.to_string() },
    }
}

/// Every milestone placeholder sits in the managed space's milestone list;
/// the tasks to correct sit in their domain list.
fn fixture() -> TaskStore {
    let mut store = TaskStore::new();
    for placeholder in ["36w8251", "36pnwzu", "36w74wp", "36w826q", "36w8281"] {
        store.put(task(placeholder, MANAGED_SPACE, MILESTONE_LIST, None, None));
    }
    store.put(task("36w79af", MANAGED_SPACE, MILESTONE_LIST, Some("36pnwzu"), None));
    store.put(task("36w7rgq", MANAGED_SPACE, DOMAIN_LIST, Some("36w79af"), None));
    store.put(task("36w7hq2", MANAGED_SPACE, DOMAIN_LIST, None, None));
    store.put(task("36w78wt", OTHER_SPACE, "400000001", None, None));
    store.put(task(
        "36w7wbr",
        MANAGED_SPACE,
        DOMAIN_LIST,
        None,
        Some(FieldValue::Integer(1)),
    ));
    store.put(task(
        "36w83z6",
        MANAGED_SPACE,
        DOMAIN_LIST,
        None,
        Some(FieldValue::Integer(3)),
    ));
    store.put(task(
        "36w861w",
        MANAGED_SPACE,
        DOMAIN_LIST,
        None,
        Some(FieldValue::Integer(4)),
    ));
    store
}

#[test]
fn task_should_move_if_needed() {
    let mut store = fixture();
    let t = store.fetch(&TaskId::from("36w7wbr")).unwrap();
    make_task_subtask_of_milestone_task_if_needed(&mut store, &t, &config()).unwrap();
    let moved = store.fetch(&TaskId::from("36w7wbr")).unwrap();
    assert!(task_is_transitive_subtask_of_milestone_task(&store, &moved, &config()).unwrap());
    assert_eq!(moved.parent, Some(TaskId::from("36pnwzu")));
}

#[test]
fn task_that_should_move_to_v2() {
    let mut store = fixture();
    let t = store.fetch(&TaskId::from("36w83z6")).unwrap();
    make_task_subtask_of_milestone_task_if_needed(&mut store, &t, &config()).unwrap();
    let moved = store.fetch(&TaskId::from("36w83z6")).unwrap();
    assert!(task_is_transitive_subtask_of_milestone_task(&store, &moved, &config()).unwrap());
    assert_eq!(moved.parent, Some(TaskId::from("36w826q")));
}

#[test]
fn task_that_should_move_to_v3() {
    let mut store = fixture();
    let t = store.fetch(&TaskId::from("36w861w")).unwrap();
    make_task_subtask_of_milestone_task_if_needed(&mut store, &t, &config()).unwrap();
    let moved = store.fetch(&TaskId::from("36w861w")).unwrap();
    assert!(task_is_transitive_subtask_of_milestone_task(&store, &moved, &config()).unwrap());
    assert_eq!(moved.parent, Some(TaskId::from("36w8281")));
}

#[test]
fn unmanaged_task_is_always_skipped() {
    let mut store = fixture();
    let r = reconcile(&mut store, &TaskId::from("36w78wt"), &config());
    assert_eq!(r, Ok(Outcome::Skipped));
    assert!(store.log.is_empty());
}

#[test]
fn compliant_task_needs_no_writes() {
    let mut store = fixture();
    let r = reconcile(&mut store, &TaskId::from("36w7rgq"), &config());
    assert_eq!(r, Ok(Outcome::AlreadyCompliant));
    assert!(store.log.is_empty());
}

#[test]
fn reconcile_is_idempotent() {
    let mut store = fixture();
    let first = reconcile(&mut store, &TaskId::from("36w7wbr"), &config());
    assert_eq!(first, Ok(Outcome::Corrected));
    let writes_after_first = store.log.len();
    assert_eq!(writes_after_first, 2);
    let second = reconcile(&mut store, &TaskId::from("36w7wbr"), &config());
    assert_eq!(second, Ok(Outcome::AlreadyCompliant));
    assert_eq!(store.log.len(), writes_after_first);
    let third = reconcile(&mut store, &TaskId::from("36w7wbr"), &config());
    assert_eq!(third, Ok(Outcome::AlreadyCompliant));
    assert_eq!(store.log.len(), writes_after_first);
}

#[test]
fn end_to_end_correction_writes_in_order_and_preserves_the_list() {
    let mut store = fixture();
    store.put(task(
        "36w9fresh",
        MANAGED_SPACE,
        DOMAIN_LIST,
        None,
        Some(FieldValue::Integer(2)),
    ));
    let r = reconcile(&mut store, &TaskId::from("36w9fresh"), &config());
    assert_eq!(r, Ok(Outcome::Corrected));
    assert_eq!(
        store.log,
        vec![
            WriteRecord::SetParent {
                id: TaskId::from("36w9fresh"),
                parent: TaskId::from("36w74wp"),
            },
            WriteRecord::AddToList {
                id: TaskId::from("36w9fresh"),
                list: ListId::from(DOMAIN_LIST),
            },
        ]
    );
    let after = store.fetch(&TaskId::from("36w9fresh")).unwrap();
    assert_eq!(after.parent, Some(TaskId::from("36w74wp")));
    assert_eq!(after.list.id, ListId::from(DOMAIN_LIST));
    let again = reconcile(&mut store, &TaskId::from("36w9fresh"), &config());
    assert_eq!(again, Ok(Outcome::AlreadyCompliant));
    assert_eq!(store.log.len(), 2);
}

#[test]
fn reparenting_alone_moves_the_task_off_its_list() {
    // the incidental effect the second write exists to compensate for
    let mut store = fixture();
    store
        .set_parent(&TaskId::from("36w7wbr"), &TaskId::from("36pnwzu"))
        .unwrap();
    let t = store.fetch(&TaskId::from("36w7wbr")).unwrap();
    assert_eq!(t.list.id, ListId::from(MILESTONE_LIST));
}

#[test]
fn partial_failure_is_reported_and_converges_on_redelivery() {
    let mut store = fixture();
    store.fail_add_to_list = true;
    let r = reconcile(&mut store, &TaskId::from("36w7wbr"), &config());
    assert_eq!(r, Err(ReconcileFailure::PartialFailure(Fault::StoreUnavailable)));
    assert_eq!(store.log.len(), 1);
    assert!(matches!(store.log[0], WriteRecord::SetParent { .. }));
    // the task is re-parented but sits in the wrong list for now
    let straddling = store.fetch(&TaskId::from("36w7wbr")).unwrap();
    assert_eq!(straddling.parent, Some(TaskId::from("36pnwzu")));
    assert_eq!(straddling.list.id, ListId::from(MILESTONE_LIST));
    // the redelivered event finds the task compliant and re-parents nothing
    store.fail_add_to_list = false;
    let again = reconcile(&mut store, &TaskId::from("36w7wbr"), &config());
    assert_eq!(again, Ok(Outcome::AlreadyCompliant));
    assert_eq!(store.log.len(), 1);
}

#[test]
fn failed_first_write_aborts_without_side_effects() {
    let mut store = fixture();
    store.fail_set_parent = true;
    let r = reconcile(&mut store, &TaskId::from("36w7wbr"), &config());
    assert_eq!(r, Err(ReconcileFailure::Aborted(Fault::StoreUnavailable)));
    assert!(store.log.is_empty());
    let t = store.fetch(&TaskId::from("36w7wbr")).unwrap();
    assert_eq!(t.parent, None);
    assert_eq!(t.list.id, ListId::from(DOMAIN_LIST));
}

#[test]
fn unavailable_store_aborts_the_attempt() {
    let mut store = fixture();
    store.fail_fetch = true;
    let r = reconcile(&mut store, &TaskId::from("36w7wbr"), &config());
    assert_eq!(r, Err(ReconcileFailure::Aborted(Fault::StoreUnavailable)));
    assert!(store.log.is_empty());
}

#[test]
fn vanished_task_aborts_the_attempt() {
    let mut store = fixture();
    let r = reconcile(&mut store, &TaskId::from("36w9none"), &config());
    assert_eq!(r, Err(ReconcileFailure::Aborted(Fault::NotFound)));
    assert!(store.log.is_empty());
}

#[test]
fn too_deep_ancestry_aborts_rather_than_hanging() {
    let mut store = fixture();
    store.put(task("36chain0", MANAGED_SPACE, DOMAIN_LIST, Some("36chain1"), None));
    store.put(task("36chain1", MANAGED_SPACE, DOMAIN_LIST, Some("36chain2"), None));
    store.put(task("36chain2", MANAGED_SPACE, DOMAIN_LIST, Some("36chain3"), None));
    store.put(task("36chain3", MANAGED_SPACE, DOMAIN_LIST, Some("36chain0"), None));
    let mut c = config();
    c.max_hops = 2;
    let r = reconcile(&mut store, &TaskId::from("36chain0"), &c);
    assert_eq!(r, Err(ReconcileFailure::Aborted(Fault::AncestryTooDeep)));
    assert!(store.log.is_empty());
}

#[test]
fn correction_without_milestone_field_uses_the_sentinel() {
    let mut store = fixture();
    let r = reconcile(&mut store, &TaskId::from("36w7hq2"), &config());
    assert_eq!(r, Ok(Outcome::Corrected));
    let after = store.fetch(&TaskId::from("36w7hq2")).unwrap();
    assert_eq!(after.parent, Some(TaskId::from("36w8251")));
    assert_eq!(after.list.id, ListId::from(DOMAIN_LIST));
}
