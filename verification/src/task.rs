//! Snapshots of tasks as the remote task tracker hands them out.
//!
//! A snapshot is created fresh on each fetch and discarded after use; the
//! engine never caches one. Contracts speak of a snapshot through
//! [`TaskView`], which replaces each identifier by the character sequence it
//! carries and so gives two separately fetched snapshots of one task the same
//! mathematical value.

use vstd::prelude::*;

use crate::ids::{ListId, TaskId};

verus! {

/// The value carried by a custom field: the engine reads small non-negative
/// integers; any other payload is kept as text and treated as unset.
#[derive(Debug, PartialEq, Eq)]
pub enum FieldValue {
    Integer(u64),
    Text(String),
}

impl Clone for FieldValue {
    fn clone(&self) -> (r: Self)
        ensures
            r == *self,
    {
        match self {
            FieldValue::Integer(n) => FieldValue::Integer(*n),
            FieldValue::Text(s) => FieldValue::Text(s.clone()),
        }
    }
}

/// A custom field of a task, looked up by name.
#[derive(Debug, PartialEq, Eq)]
pub struct CustomField {
    pub id: String,
    pub name: String,
    pub field_type: String,
    pub value: Option<FieldValue>,
}

impl Clone for CustomField {
    fn clone(&self) -> (r: Self)
        ensures
            r == *self,
    {
        let value = self.value.clone();
        proof {
            if self.value.is_some() {
                assert(vstd::pervasive::cloned::<FieldValue>(
                    self.value.unwrap(),
                    value.unwrap(),
                ));
            }
        }
        CustomField {
            id: self.id.clone(),
            name: self.name.clone(),
            field_type: self.field_type.clone(),
            value,
        }
    }
}

/// A custom-field value in its plain textual form.
#[derive(Debug, PartialEq, Eq)]
pub struct CustomFieldValue {
    pub value: Option<String>,
}

impl Clone for CustomFieldValue {
    fn clone(&self) -> (r: Self)
        ensures
            r == *self,
    {
        CustomFieldValue { value: self.value.clone() }
    }
}

/// The workflow status of a task.
#[derive(Debug, PartialEq, Eq)]
pub struct Status {
    pub status: String,
}

impl Clone for Status {
    fn clone(&self) -> (r: Self)
        ensures
            r == *self,
    {
        Status { status: self.status.clone() }
    }
}

/// The list a task currently belongs to.
#[derive(Debug, PartialEq, Eq)]
pub struct List {
    pub id: ListId,
}

impl Clone for List {
    fn clone(&self) -> (r: Self)
        ensures
            r == *self,
    {
        List { id: self.id.clone() }
    }
}

/// The folder a task is filed under.
#[derive(Debug, PartialEq, Eq)]
pub struct Folder {
    pub id: String,
}

impl Clone for Folder {
    fn clone(&self) -> (r: Self)
        ensures
            r == *self,
    {
        Folder { id: self.id.clone() }
    }
}

/// The space a task lives in.
#[derive(Debug, PartialEq, Eq)]
pub struct Space {
    pub id: String,
}

impl Clone for Space {
    fn clone(&self) -> (r: Self)
        ensures
            r == *self,
    {
        Space { id: self.id.clone() }
    }
}

/// A fetched snapshot of a task: its identity, its optional parent link, the
/// list and space it currently belongs to, and its custom fields.
#[derive(Debug, PartialEq)]
pub struct Task {
    pub id: TaskId,
    pub name: Option<String>,
    pub description: Option<String>,
    pub status: Option<Status>,
    pub parent: Option<TaskId>,
    pub custom_fields: Vec<CustomField>,
    pub list: List,
    pub folder: Folder,
    pub space: Space,
}

/// The mathematical value of a task snapshot: every identifier replaced by
/// the character sequence it carries.
#[verifier::ext_equal]
pub struct TaskView {
    pub id: Seq<char>,
    pub name: Option<Seq<char>>,
    pub description: Option<Seq<char>>,
    pub status: Option<Seq<char>>,
    pub parent: Option<Seq<char>>,
    pub custom_fields: Seq<CustomField>,
    pub list: Seq<char>,
    pub folder: Seq<char>,
    pub space: Seq<char>,
}

pub open spec fn view_of_opt_string(o: Option<String>) -> Option<Seq<char>> {
    match o {
        Some(s) => Some(s@),
        None => None,
    }
}

pub open spec fn view_of_opt_status(o: Option<Status>) -> Option<Seq<char>> {
    match o {
        Some(s) => Some(s.status@),
        None => None,
    }
}

pub open spec fn view_of_opt_id(o: Option<TaskId>) -> Option<Seq<char>> {
    match o {
        Some(id) => Some(id@),
        None => None,
    }
}

impl View for Task {
    type V = TaskView;

    open spec fn view(&self) -> TaskView {
        TaskView {
            id: self.id@,
            name: view_of_opt_string(self.name),
            description: view_of_opt_string(self.description),
            status: view_of_opt_status(self.status),
            parent: view_of_opt_id(self.parent),
            custom_fields: self.custom_fields@,
            list: self.list.id@,
            folder: self.folder.id@,
            space: self.space.id@,
        }
    }
}

impl Clone for Task {
    fn clone(&self) -> (r: Self)
        ensures
            r@ == self@,
    {
        let custom_fields = self.custom_fields.clone();
        proof {
            assert forall|i: int| 0 <= i < self.custom_fields@.len() implies custom_fields@[i]
                == self.custom_fields@[i] by {
                assert(vstd::pervasive::cloned::<CustomField>(
                    self.custom_fields@[i],
                    custom_fields@[i],
                ));
            }
            assert(custom_fields@ =~= self.custom_fields@);
        }
        let status = self.status.clone();
        proof {
            if self.status.is_some() {
                assert(vstd::pervasive::cloned::<Status>(self.status.unwrap(), status.unwrap()));
            }
        }
        let parent = self.parent.clone();
        proof {
            if self.parent.is_some() {
                assert(vstd::pervasive::cloned::<TaskId>(self.parent.unwrap(), parent.unwrap()));
            }
        }
        let r = Task {
            id: self.id.clone(),
            name: self.name.clone(),
            description: self.description.clone(),
            status,
            parent,
            custom_fields,
            list: self.list.clone(),
            folder: self.folder.clone(),
            space: self.space.clone(),
        };
        proof {
            assert(r@ =~= self@);
        }
        r
    }
}

} // verus!
