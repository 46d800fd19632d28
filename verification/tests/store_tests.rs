//! The in-process task store: the capability interface the engine consumes.

use clickity::{
    Folder, List, ListId, Space, Status, StoreError, Task, TaskId, TaskStore, WriteRecord,
};

const MANAGED_SPACE: &str = "32279886";
const MILESTONE_LIST: &str = "188335476";
const DOMAIN_LIST: &str = "188335750";

fn task(id: &str, list: &str, parent: Option<&str>) -> Task {
    Task {
        id: TaskId::from(id),
        name: Some(format!("task {id}")),
        description: Some("generated task".to_string()),
        status: Some(Status { status: "open".to_string() }),
        parent: parent.map(TaskId::from),
        custom_fields: vec![],
        list: List { id: ListId::from(list) },
        folder: Folder { id: "folder-1".to_string() },
        space: Space { id: MANAGED_SPACE.to_string() },
    }
}

#[test]
fn fetch_returns_what_was_put() {
    let mut store = TaskStore::new();
    store.put(task("36pnwzu", MILESTONE_LIST, None));
    let t = store.fetch(&TaskId::from("36pnwzu")).unwrap();
    assert_eq!(t, task("36pnwzu", MILESTONE_LIST, None));
}

#[test]
fn fetch_of_an_unknown_task_reports_not_found() {
    let store = TaskStore::new();
    assert_eq!(store.fetch(&TaskId::from("36w9none")), Err(StoreError::NotFound));
}

#[test]
fn fetch_of_an_unavailable_store_fails() {
    let mut store = TaskStore::new();
    store.put(task("36pnwzu", MILESTONE_LIST, None));
    store.fail_fetch = true;
    assert_eq!(
        store.fetch(&TaskId::from("36pnwzu")),
        Err(StoreError::StoreUnavailable)
    );
}

#[test]
fn put_replaces_a_task_with_the_same_identifier() {
    let mut store = TaskStore::new();
    store.put(task("36w79af", DOMAIN_LIST, None));
    store.put(task("36w79af", MILESTONE_LIST, Some("36pnwzu")));
    let t = store.fetch(&TaskId::from("36w79af")).unwrap();
    assert_eq!(t.list.id, ListId::from(MILESTONE_LIST));
    assert_eq!(t.parent, Some(TaskId::from("36pnwzu")));
}

#[test]
fn can_set_task_parent() {
    let mut store = TaskStore::new();
    store.put(task("36pnwzu", MILESTONE_LIST, None));
    store.put(task("36w79af", DOMAIN_LIST, None));
    store
        .set_parent(&TaskId::from("36w79af"), &TaskId::from("36pnwzu"))
        .unwrap();
    let t = store.fetch(&TaskId::from("36w79af")).unwrap();
    assert_eq!(t.parent, Some(TaskId::from("36pnwzu")));
    // the incidental effect: the task followed its parent into that list
    assert_eq!(t.list.id, ListId::from(MILESTONE_LIST));
    assert_eq!(
        store.log,
        vec![WriteRecord::SetParent {
            id: TaskId::from("36w79af"),
            parent: TaskId::from("36pnwzu"),
        }]
    );
}

#[test]
fn can_add_task_to_list() {
    let mut store = TaskStore::new();
    store.put(task("36w79af", MILESTONE_LIST, Some("36pnwzu")));
    store
        .add_to_list(&TaskId::from("36w79af"), &ListId::from(DOMAIN_LIST))
        .unwrap();
    let t = store.fetch(&TaskId::from("36w79af")).unwrap();
    assert_eq!(t.list.id, ListId::from(DOMAIN_LIST));
    // the parent link is untouched
    assert_eq!(t.parent, Some(TaskId::from("36pnwzu")));
    assert_eq!(
        store.log,
        vec![WriteRecord::AddToList {
            id: TaskId::from("36w79af"),
            list: ListId::from(DOMAIN_LIST),
        }]
    );
}

#[test]
fn writes_to_an_unknown_task_fail_without_a_trace() {
    let mut store = TaskStore::new();
    assert_eq!(
        store.set_parent(&TaskId::from("36w9none"), &TaskId::from("36pnwzu")),
        Err(StoreError::StoreUnavailable)
    );
    assert_eq!(
        store.add_to_list(&TaskId::from("36w9none"), &ListId::from(DOMAIN_LIST)),
        Err(StoreError::StoreUnavailable)
    );
    assert!(store.log.is_empty());
}

#[test]
fn failed_writes_change_nothing() {
    let mut store = TaskStore::new();
    store.put(task("36pnwzu", MILESTONE_LIST, None));
    store.put(task("36w79af", DOMAIN_LIST, None));
    store.fail_set_parent = true;
    store.fail_add_to_list = true;
    assert_eq!(
        store.set_parent(&TaskId::from("36w79af"), &TaskId::from("36pnwzu")),
        Err(StoreError::StoreUnavailable)
    );
    assert_eq!(
        store.add_to_list(&TaskId::from("36w79af"), &ListId::from(MILESTONE_LIST)),
        Err(StoreError::StoreUnavailable)
    );
    assert!(store.log.is_empty());
    let t = store.fetch(&TaskId::from("36w79af")).unwrap();
    assert_eq!(t.parent, None);
    assert_eq!(t.list.id, ListId::from(DOMAIN_LIST));
}

#[test]
fn identifiers_compare_by_their_text() {
    assert_eq!(TaskId::from("36pnwzu"), TaskId::from("36pnwzu"));
    assert_ne!(TaskId::from("36pnwzu"), TaskId::from("36w79af"));
    assert_eq!(ListId::from(DOMAIN_LIST), ListId::from(DOMAIN_LIST));
    assert_eq!(clickity::TeamId::from(20131398), clickity::TeamId::from(20131398));
}
