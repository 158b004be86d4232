//! The todo records that the server stores in its relational table.

use vstd::prelude::*;

verus! {

/// A stored todo: `id` is assigned by the storage when the row is inserted.
pub struct Todo {
    pub id: i32,
    pub title: String,
    pub description: String,
}

/// The values of a todo that is about to be inserted; the storage assigns
/// its identity.
pub struct NewTodo<'a> {
    pub title: &'a str,
    pub description: &'a str,
}

impl<'a> NewTodo<'a> {
    pub fn new(title: &'a str, description: &'a str) -> (r: NewTodo<'a>)
        ensures
            r.title@ == title@,
            r.description@ == description@,
    {
        NewTodo { title, description }
    }
}

} // verus!
