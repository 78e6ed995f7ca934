//! The record type held by the store.

use vstd::prelude::*;

verus! {

/// A single book record. The `id` is the sole lookup key: a 128-bit
/// identifier, assigned by the caller at creation and compared only for
/// equality. `title` and `author` are arbitrary text.
#[derive(Debug, PartialEq, Eq)]
pub struct Book {
    pub id: u128,
    pub title: String,
    pub author: String,
}

impl Clone for Book {
    /// Returns a copy equal to the original record.
    fn clone(&self) -> (r: Self)
        ensures
            r == *self,
    {
        Book { id: self.id, title: self.title.clone(), author: self.author.clone() }
    }
}

} // verus!
