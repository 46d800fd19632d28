//! A task store holding the remote object graph the engine reconciles
//! against: fetch a task by id, set a task's parent, add a task to a list.
//!
//! The deployed engine reaches the remote store only through network calls
//! (driven step by step through [`crate::machine`]); this store realizes the
//! same capability interface over in-process state, with the remote store's
//! failure modes injectable through the `fail_*` switches, and mirrors the
//! remote side's one incidental effect: re-parenting a task also moves it
//! into its new parent's list. Its view is the map from task identifier to
//! task value, and every committed write is appended to `log`.

use vstd::prelude::*;
use vstd::pervasive::VecAdditionalExecFns;

use crate::ids::{ListId, TaskId};
use crate::task::{List, Task, TaskView};

verus! {

/// The failures a single store call can report.
#[derive(Debug, PartialEq, Eq, Clone, Copy)]
pub enum StoreError {
    /// The addressed task does not exist.
    NotFound,
    /// Transient failure: the store could not serve the call.
    StoreUnavailable,
    /// The store refused the new parent link (for example, it would close a
    /// cycle).
    InvalidTransition,
}

/// A committed write, as recorded in the store's log.
#[derive(Debug, PartialEq, Eq)]
pub enum WriteRecord {
    SetParent { id: TaskId, parent: TaskId },
    AddToList { id: TaskId, list: ListId },
}

/// The mathematical value of a committed write.
pub enum WriteRecordView {
    SetParent { id: Seq<char>, parent: Seq<char> },
    AddToList { id: Seq<char>, list: Seq<char> },
}

impl View for WriteRecord {
    type V = WriteRecordView;

    open spec fn view(&self) -> WriteRecordView {
        match self {
            WriteRecord::SetParent { id, parent } => WriteRecordView::SetParent {
                id: id@,
                parent: parent@,
            },
            WriteRecord::AddToList { id, list } => WriteRecordView::AddToList {
                id: id@,
                list: list@,
            },
        }
    }
}

/// The log's mathematical value: each record replaced by its view.
pub open spec fn log_views(log: Seq<WriteRecord>) -> Seq<WriteRecordView> {
    log.map_values(|r: WriteRecord| r@)
}

/// Appending one record appends its view.
pub proof fn lemma_log_views_push(log: Seq<WriteRecord>, r: WriteRecord)
    ensures
        log_views(log.push(r)) == log_views(log).push(r@),
{
    assert(log_views(log.push(r)) =~= log_views(log).push(r@));
}

/// The store's mathematical value: task identifier to task value.
pub type StoreView = Map<Seq<char>, TaskView>;

/// The map a sequence of tasks holds, earlier entries shadowing later ones
/// with the same identifier.
spec fn map_of(tasks: Seq<Task>) -> StoreView
    decreases tasks.len(),
{
    if tasks.len() == 0 {
        Map::empty()
    } else {
        map_of(tasks.skip(1)).insert(tasks[0]@.id, tasks[0]@)
    }
}

/// A task re-parented inside store `m`: its parent link now points at
/// `parent`, and — the remote side's incidental effect — it has moved into
/// its new parent's list when that parent is present.
pub open spec fn spec_reparented(m: StoreView, t: TaskView, parent: Seq<char>) -> TaskView {
    TaskView {
        parent: Some(parent),
        list: if m.contains_key(parent) {
            m[parent].list
        } else {
            t.list
        },
        ..t
    }
}

/// The store after a committed `set_parent` call.
pub open spec fn spec_set_parent(m: StoreView, id: Seq<char>, parent: Seq<char>) -> StoreView {
    m.insert(id, spec_reparented(m, m[id], parent))
}

/// The store after a committed `add_to_list` call.
pub open spec fn spec_add_to_list(m: StoreView, id: Seq<char>, list: Seq<char>) -> StoreView {
    m.insert(id, TaskView { list: list, ..m[id] })
}

proof fn lemma_map_of_first_match(tasks: Seq<Task>, i: int)
    requires
        0 <= i < tasks.len(),
        forall|j: int| 0 <= j < i ==> tasks[j]@.id != tasks[i]@.id,
    ensures
        map_of(tasks).contains_key(tasks[i]@.id),
        map_of(tasks)[tasks[i]@.id] == tasks[i]@,
    decreases i,
{
    if i > 0 {
        lemma_map_of_first_match(tasks.skip(1), i - 1);
    }
}

proof fn lemma_map_of_no_match(tasks: Seq<Task>, id: Seq<char>)
    requires
        forall|j: int| 0 <= j < tasks.len() ==> tasks[j]@.id != id,
    ensures
        !map_of(tasks).contains_key(id),
    decreases tasks.len(),
{
    if tasks.len() > 0 {
        lemma_map_of_no_match(tasks.skip(1), id);
    }
}

proof fn lemma_map_of_update(tasks: Seq<Task>, i: int, t: Task)
    requires
        0 <= i < tasks.len(),
        t@.id == tasks[i]@.id,
        forall|j: int| 0 <= j < i ==> tasks[j]@.id != tasks[i]@.id,
    ensures
        map_of(tasks.update(i, t)) == map_of(tasks).insert(t@.id, t@),
    decreases i,
{
    if i == 0 {
        assert(tasks.update(0, t).skip(1) =~= tasks.skip(1));
        assert(map_of(tasks.update(0, t)) =~= map_of(tasks).insert(t@.id, t@));
    } else {
        lemma_map_of_update(tasks.skip(1), i - 1, t);
        assert(tasks.update(i, t).skip(1) =~= tasks.skip(1).update(i - 1, t));
        assert(map_of(tasks.update(i, t)) == map_of(tasks.skip(1).update(i - 1, t)).insert(
            tasks[0]@.id,
            tasks[0]@,
        ));
        assert(map_of(tasks) == map_of(tasks.skip(1)).insert(tasks[0]@.id, tasks[0]@));
        assert(map_of(tasks.update(i, t)) =~= map_of(tasks).insert(t@.id, t@));
    }
}

proof fn lemma_map_of_push(tasks: Seq<Task>, t: Task)
    requires
        forall|j: int| 0 <= j < tasks.len() ==> tasks[j]@.id != t@.id,
    ensures
        map_of(tasks.push(t)) == map_of(tasks).insert(t@.id, t@),
    decreases tasks.len(),
{
    if tasks.len() == 0 {
        assert(tasks.push(t).skip(1) =~= Seq::<Task>::empty());
        assert(tasks.push(t)[0] == t);
        assert(map_of(tasks.push(t)) == map_of(tasks.push(t).skip(1)).insert(t@.id, t@));
        assert(map_of(Seq::<Task>::empty()) == Map::<Seq<char>, TaskView>::empty());
        assert(map_of(tasks) == Map::<Seq<char>, TaskView>::empty());
        assert(map_of(tasks.push(t)) =~= map_of(tasks).insert(t@.id, t@));
    } else {
        lemma_map_of_push(tasks.skip(1), t);
        assert(tasks.push(t).skip(1) =~= tasks.skip(1).push(t));
        assert(map_of(tasks.push(t)) == map_of(tasks.skip(1).push(t)).insert(
            tasks[0]@.id,
            tasks[0]@,
        ));
        assert(map_of(tasks) == map_of(tasks.skip(1)).insert(tasks[0]@.id, tasks[0]@));
        assert(tasks[0]@.id != t@.id);
        assert(map_of(tasks.push(t)) =~= map_of(tasks).insert(t@.id, t@));
    }
}

/// An in-process task store.
pub struct TaskStore {
    /// The tasks the store holds; an earlier entry shadows a later one with
    /// the same identifier. Read the store through its view instead.
    pub tasks: Vec<Task>,
    /// Every committed write, in the order the store performed it.
    pub log: Vec<WriteRecord>,
    /// When set, every fetch reports `StoreUnavailable`.
    pub fail_fetch: bool,
    /// When set, every `set_parent` reports `StoreUnavailable`.
    pub fail_set_parent: bool,
    /// When set, every `add_to_list` reports `StoreUnavailable`.
    pub fail_add_to_list: bool,
}

impl View for TaskStore {
    type V = StoreView;

    closed spec fn view(&self) -> StoreView {
        map_of(self.tasks@)
    }
}

impl TaskStore {
    /// An empty store that serves every call.
    pub fn new() -> (r: Self)
        ensures
            r@ == Map::<Seq<char>, TaskView>::empty(),
            r.log@ == Seq::<WriteRecord>::empty(),
            !r.fail_fetch,
            !r.fail_set_parent,
            !r.fail_add_to_list,
    {
        TaskStore {
            tasks: Vec::new(),
            log: Vec::new(),
            fail_fetch: false,
            fail_set_parent: false,
            fail_add_to_list: false,
        }
    }

    /// Index of the task carrying `id`, with what that means for the view.
    fn find(&self, id: &TaskId) -> (r: Option<usize>)
        ensures
            match r {
                Some(i) => i < self.tasks@.len() && self.tasks@[i as int]@.id == id@
                    && self@.contains_key(id@) && self@[id@] == self.tasks@[i as int]@ && (forall|
                    j: int,
                | 0 <= j < i ==> self.tasks@[j]@.id != id@),
                None => !self@.contains_key(id@) && (forall|j: int|
                    0 <= j < self.tasks@.len() ==> self.tasks@[j]@.id != id@),
            },
    {
        let mut i: usize = 0;
        while i < self.tasks.len()
            invariant
                i <= self.tasks@.len(),
                forall|j: int| 0 <= j < i ==> self.tasks@[j]@.id != id@,
            decreases self.tasks@.len() - i,
        {
            if self.tasks[i].id.0 == id.0 {
                proof {
                    lemma_map_of_first_match(self.tasks@, i as int);
                }
                return Some(i);
            }
            i += 1;
        }
        proof {
            lemma_map_of_no_match(self.tasks@, id@);
        }
        None
    }

    /// Inserts or replaces a task, keyed by its identifier. Seeds and repairs
    /// the graph; not a logged engine write.
    pub fn put(&mut self, task: Task)
        ensures
            final(self)@ == old(self)@.insert(task@.id, task@),
            final(self).log@ == old(self).log@,
            final(self).fail_fetch == old(self).fail_fetch,
            final(self).fail_set_parent == old(self).fail_set_parent,
            final(self).fail_add_to_list == old(self).fail_add_to_list,
    {
        match self.find(&task.id) {
            Some(i) => {
                proof {
                    lemma_map_of_update(self.tasks@, i as int, task);
                }
                self.tasks.set(i, task);
            },
            None => {
                proof {
                    lemma_map_of_push(self.tasks@, task);
                }
                self.tasks.push(task);
            },
        }
    }

    /// Fetches a fresh snapshot of the task carrying `id`.
    pub fn fetch(&self, id: &TaskId) -> (r: Result<Task, StoreError>)
        ensures
            self.fail_fetch ==> r == Err::<Task, StoreError>(StoreError::StoreUnavailable),
            !self.fail_fetch && self@.contains_key(id@) ==> r.is_ok() && r.unwrap()@ == self@[id@],
            !self.fail_fetch && !self@.contains_key(id@) ==> r == Err::<Task, StoreError>(
                StoreError::NotFound,
            ),
    {
        if self.fail_fetch {
            return Err(StoreError::StoreUnavailable);
        }
        match self.find(id) {
            Some(i) => Ok(self.tasks[i].clone()),
            None => Err(StoreError::NotFound),
        }
    }

    /// Re-points the parent link of the task carrying `id` at `new_parent`,
    /// and moves the task into its new parent's list when that parent is
    /// present — the incidental effect the engine's second write compensates
    /// for. A task the store does not hold cannot be written: that, too,
    /// reports `StoreUnavailable`.
    pub fn set_parent(&mut self, id: &TaskId, new_parent: &TaskId) -> (r: Result<(), StoreError>)
        ensures
            final(self).fail_fetch == old(self).fail_fetch,
            final(self).fail_set_parent == old(self).fail_set_parent,
            final(self).fail_add_to_list == old(self).fail_add_to_list,
            old(self).fail_set_parent || !old(self)@.contains_key(id@) ==> r == Err::<(),
                StoreError,
            >(StoreError::StoreUnavailable) && final(self)@ == old(self)@ && final(self).log@
                == old(self).log@,
            !old(self).fail_set_parent && old(self)@.contains_key(id@) ==> r == Ok::<(),
                StoreError,
            >(()) && final(self)@ == spec_set_parent(old(self)@, id@, new_parent@)
                && final(self).log@ == old(self).log@.push(
                (WriteRecord::SetParent { id: *id, parent: *new_parent }),
            ),
    {
        if self.fail_set_parent {
            return Err(StoreError::StoreUnavailable);
        }
        let i = match self.find(id) {
            Some(i) => i,
            None => {
                return Err(StoreError::StoreUnavailable);
            },
        };
        let mut t = self.tasks[i].clone();
        t.parent = Some(new_parent.clone());
        match self.find(new_parent) {
            Some(j) => {
                t.list = self.tasks[j].list.clone();
            },
            None => {},
        }
        proof {
            assert(t@ =~= spec_reparented(self@, self@[id@], new_parent@));
            lemma_map_of_update(self.tasks@, i as int, t);
        }
        self.tasks.set(i, t);
        self.log.push(WriteRecord::SetParent { id: id.clone(), parent: new_parent.clone() });
        Ok(())
    }

    /// Moves the task carrying `id` into `list`. A task the store does not
    /// hold cannot be written: that, too, reports `StoreUnavailable`.
    pub fn add_to_list(&mut self, id: &TaskId, list: &ListId) -> (r: Result<(), StoreError>)
        ensures
            final(self).fail_fetch == old(self).fail_fetch,
            final(self).fail_set_parent == old(self).fail_set_parent,
            final(self).fail_add_to_list == old(self).fail_add_to_list,
            old(self).fail_add_to_list || !old(self)@.contains_key(id@) ==> r == Err::<(),
                StoreError,
            >(StoreError::StoreUnavailable) && final(self)@ == old(self)@ && final(self).log@
                == old(self).log@,
            !old(self).fail_add_to_list && old(self)@.contains_key(id@) ==> r == Ok::<(),
                StoreError,
            >(()) && final(self)@ == spec_add_to_list(old(self)@, id@, list@) && final(self).log@
                == old(self).log@.push(WriteRecord::AddToList { id: *id, list: *list }),
    {
        if self.fail_add_to_list {
            return Err(StoreError::StoreUnavailable);
        }
        let i = match self.find(id) {
            Some(i) => i,
            None => {
                return Err(StoreError::StoreUnavailable);
            },
        };
        let mut t = self.tasks[i].clone();
        t.list = List { id: list.clone() };
        proof {
            assert(t@ =~= (TaskView { list: list@, ..self@[id@] }));
            lemma_map_of_update(self.tasks@, i as int, t);
        }
        self.tasks.set(i, t);
        self.log.push(WriteRecord::AddToList { id: id.clone(), list: list.clone() });
        Ok(())
    }
}

} // verus!
