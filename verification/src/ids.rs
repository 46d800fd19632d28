//! Opaque identifiers for the entities of the remote task tracker.
//!
//! A task belongs to exactly one list, and (through the remote list-to-space
//! mapping) to one space at any instant. All identifiers are equality-checked
//! by their text; contracts speak of an identifier through its view, the
//! sequence of characters it carries.

use vstd::prelude::*;

verus! {

/// Identifier of a task: an opaque string, used both as a primary key and as
/// a graph-edge target (the parent link of another task).
#[derive(Debug, PartialEq, Eq, Hash, PartialOrd, Ord)]
pub struct TaskId(pub String);

impl View for TaskId {
    type V = Seq<char>;

    open spec fn view(&self) -> Seq<char> {
        self.0@
    }
}

impl TaskId {
    /// Builds an identifier from its text.
    pub fn from(id: &str) -> (r: Self)
        ensures
            r@ == id@,
    {
        TaskId(id.to_owned())
    }
}

impl Clone for TaskId {
    fn clone(&self) -> (r: Self)
        ensures
            r == *self,
    {
        TaskId(self.0.clone())
    }
}

/// Identifier of a list: a grouping of tasks inside a space.
#[derive(Debug, PartialEq, Eq, Hash, PartialOrd, Ord)]
pub struct ListId(pub String);

impl View for ListId {
    type V = Seq<char>;

    open spec fn view(&self) -> Seq<char> {
        self.0@
    }
}

impl ListId {
    /// Builds an identifier from its text.
    pub fn from(id: &str) -> (r: Self)
        ensures
            r@ == id@,
    {
        ListId(id.to_owned())
    }
}

impl Clone for ListId {
    fn clone(&self) -> (r: Self)
        ensures
            r == *self,
    {
        ListId(self.0.clone())
    }
}

/// Identifier of a team: the account under which webhooks are registered.
#[derive(Debug, PartialEq, Eq, Hash, PartialOrd, Ord, Clone, Copy)]
pub struct TeamId(pub u128);

impl TeamId {
    /// Builds an identifier from its numeric form.
    pub fn from(n: u128) -> (r: Self)
        ensures
            r.0 == n,
    {
        TeamId(n)
    }
}

} // verus!
