//! The ancestry walker over a small task graph.

use clickity::{
    task_is_transitive_subtask_of_milestone_task, CustomField, Fault, FieldValue, Folder, List,
    ListId, MilestoneConfig, Space, SpaceEntry, Status, Task, TaskId, TaskStore,
};

const MANAGED_SPACE: &str = "32279886";
const MILESTONE_LIST: &str = "188335476";
const DOMAIN_LIST: &str = "188335750";
const OTHER_SPACE: &str = "99000001";

fn config() -> MilestoneConfig {
    MilestoneConfig {
        entries: vec![SpaceEntry {
            space: MANAGED_SPACE.to_string(),
            milestone_list: ListId::from(MILESTONE_LIST),
        }],
        destinations: vec![
            TaskId::from("36w8251"),
            TaskId::from("36pnwzu"),
            TaskId::from("36w74wp"),
            TaskId::from("36w826q"),
            TaskId::from("36w8281"),
        ],
        max_hops: 16,
    }
}

fn task(id: &str, space: &str, list: &str, parent: Option<&str>, milestone: Option<FieldValue>) -> Task {
    Task {
        id: TaskId::from(id),
        name: Some(format!("task {id}")),
        description: None,
        status: Some(Status { status: "open".to_string() }),
        parent: parent.map(TaskId::from),
        custom_fields: milestone
            .map(|value| {
                vec![CustomField {
                    id: "field-1".to_string(),
                    name: "Milestone".to_string(),
                    field_type: "drop_down".to_string(),
                    value: Some(value),
                }]
            })
            .unwrap_or_default(),
        list: List { id: ListId::from(list) },
        folder: Folder { id: "folder-1".to_string() },
        space: Space { id: space.to_string() },
    }
}

/// The workspace the walker tests run against: one managed space whose
/// milestone placeholder "36pnwzu" parents "36w79af" (itself a milestone-list
/// member), under which a chain of subtasks hangs; beside it a chain that
/// never reaches a milestone-list member, and a task in an unmanaged space.
fn fixture() -> TaskStore {
    let mut store = TaskStore::new();
    store.put(task("36pnwzu", MANAGED_SPACE, MILESTONE_LIST, None, None));
    store.put(task("36w79af", MANAGED_SPACE, MILESTONE_LIST, Some("36pnwzu"), None));
    store.put(task("36w7rgq", MANAGED_SPACE, DOMAIN_LIST, Some("36w79af"), None));
    store.put(task("36w7t30", MANAGED_SPACE, DOMAIN_LIST, Some("36w7rgq"), None));
    store.put(task("36w7hq2", MANAGED_SPACE, DOMAIN_LIST, None, None));
    store.put(task("36w7q5g", MANAGED_SPACE, DOMAIN_LIST, Some("36w7hq2"), None));
    store.put(task("36w7qpy", MANAGED_SPACE, DOMAIN_LIST, Some("36w7q5g"), None));
    store.put(task("36w78wt", OTHER_SPACE, "400000001", None, None));
    store.put(task("3vj469b", MANAGED_SPACE, DOMAIN_LIST, Some("36pnwzu"), None));
    store
}

#[test]
fn test_get_task() {
    let store = fixture();
    let t = store.fetch(&TaskId::from("36pnwzu")).unwrap();
    assert_eq!(t.id, TaskId::from("36pnwzu"));
    assert_eq!(t.parent, None);
}

#[test]
fn test_get_task_with_parent() {
    let store = fixture();
    let t = store.fetch(&TaskId::from("3vj469b")).unwrap();
    assert_eq!(t.parent, Some(TaskId::from("36pnwzu")));
}

#[test]
fn task_that_is_transitive_subtask_of_milestone_task() {
    let store = fixture();
    let t = store.fetch(&TaskId::from("36w79af")).unwrap();
    let is_subtask = task_is_transitive_subtask_of_milestone_task(&store, &t, &config()).unwrap();
    assert!(is_subtask);
}

#[test]
fn subtask_that_is_transitive_subtask_of_milestone_task() {
    let store = fixture();
    let t = store.fetch(&TaskId::from("36w7rgq")).unwrap();
    let is_subtask = task_is_transitive_subtask_of_milestone_task(&store, &t, &config()).unwrap();
    assert!(is_subtask);
}

#[test]
fn subsubtask_that_is_transitive_subtask_of_milestone_task() {
    let store = fixture();
    let t = store.fetch(&TaskId::from("36w7t30")).unwrap();
    let is_subtask = task_is_transitive_subtask_of_milestone_task(&store, &t, &config()).unwrap();
    assert!(is_subtask);
}

#[test]
fn subtask_that_is_not_transitive_subtask_of_milestone_task() {
    let store = fixture();
    let t = store.fetch(&TaskId::from("36w7q5g")).unwrap();
    let is_subtask = task_is_transitive_subtask_of_milestone_task(&store, &t, &config()).unwrap();
    assert!(!is_subtask);
}

#[test]
fn subsubtask_that_is_not_transitive_subtask_of_milestone_task() {
    let store = fixture();
    let t = store.fetch(&TaskId::from("36w7qpy")).unwrap();
    let is_subtask = task_is_transitive_subtask_of_milestone_task(&store, &t, &config()).unwrap();
    assert!(!is_subtask);
}

#[test]
fn task_outside_managed_spaces_is_never_a_subtask() {
    let store = fixture();
    let t = store.fetch(&TaskId::from("36w78wt")).unwrap();
    let is_subtask = task_is_transitive_subtask_of_milestone_task(&store, &t, &config()).unwrap();
    assert!(!is_subtask);
}

#[test]
fn walk_reports_a_vanished_ancestor() {
    let store = fixture();
    let t = task("36w9gone", MANAGED_SPACE, DOMAIN_LIST, Some("36w9none"), None);
    assert_eq!(
        task_is_transitive_subtask_of_milestone_task(&store, &t, &config()),
        Err(Fault::NotFound)
    );
}

#[test]
fn walk_reports_an_unavailable_store() {
    let mut store = fixture();
    store.fail_fetch = true;
    let t = task("36w7t30", MANAGED_SPACE, DOMAIN_LIST, Some("36w7rgq"), None);
    assert_eq!(
        task_is_transitive_subtask_of_milestone_task(&store, &t, &config()),
        Err(Fault::StoreUnavailable)
    );
}

#[test]
fn walk_is_bounded_by_the_configured_hop_count() {
    let mut store = TaskStore::new();
    // a chain of six ancestors, none of them a milestone-list member
    store.put(task("36chain0", MANAGED_SPACE, DOMAIN_LIST, Some("36chain1"), None));
    store.put(task("36chain1", MANAGED_SPACE, DOMAIN_LIST, Some("36chain2"), None));
    store.put(task("36chain2", MANAGED_SPACE, DOMAIN_LIST, Some("36chain3"), None));
    store.put(task("36chain3", MANAGED_SPACE, DOMAIN_LIST, Some("36chain4"), None));
    store.put(task("36chain4", MANAGED_SPACE, DOMAIN_LIST, Some("36chain5"), None));
    store.put(task("36chain5", MANAGED_SPACE, DOMAIN_LIST, Some("36chain0"), None));
    let mut c = config();
    c.max_hops = 3;
    let t = store.fetch(&TaskId::from("36chain0")).unwrap();
    assert_eq!(
        task_is_transitive_subtask_of_milestone_task(&store, &t, &c),
        Err(Fault::AncestryTooDeep)
    );
}

#[test]
fn walk_within_the_hop_count_still_finds_the_milestone() {
    let store = fixture();
    let mut c = config();
    c.max_hops = 2;
    let t = store.fetch(&TaskId::from("36w7t30")).unwrap();
    assert_eq!(task_is_transitive_subtask_of_milestone_task(&store, &t, &c), Ok(true));
}
