//! The handler layer: one function per operation of the resource API.
//! Each handler invokes exactly one store operation and maps its
//! outcome to a transport status; parsing and serialising payloads is
//! the transport's business and happens outside this crate.

use vstd::prelude::*;

use crate::book::Book;
use crate::store::{contains_id, is_first_match, remove_id, Store};

verus! {

/// The transport-level statuses the handlers can answer with.
/// `BadRequest` is reserved for payloads the transport could not parse
/// into a record, which never reach a handler.
#[derive(Debug, Clone, Copy, PartialEq, Eq, Structural)]
pub enum Status {
    Okay,
    Created,
    NoContent,
    NotFound,
    BadRequest,
}

impl Status {
    /// The numeric code of this status on the wire.
    pub open spec fn spec_code(&self) -> u16 {
        match self {
            Status::Okay => 200,
            Status::Created => 201,
            Status::NoContent => 204,
            Status::NotFound => 404,
            Status::BadRequest => 400,
        }
    }

    /// Returns the numeric code of this status on the wire.
    pub fn code(&self) -> (c: u16)
        ensures
            c == self.spec_code(),
    {
        match self {
            Status::Okay => 200,
            Status::Created => 201,
            Status::NoContent => 204,
            Status::NotFound => 404,
            Status::BadRequest => 400,
        }
    }
}

/// Lists every stored record, in insertion order. Never fails.
pub fn get_books(store: &Store) -> (r: Vec<Book>)
    ensures
        r@ == store@,
{
    store.list()
}

/// Fetches the first record carrying `id`. Answers the record when one
/// is stored, and `NotFound` exactly when none is.
pub fn get_book(store: &Store, id: u128) -> (r: Result<Book, Status>)
    ensures
        match r {
            Ok(b) => exists|i: int| is_first_match(store@, id, i) && b == store@[i],
            Err(s) => s == Status::NotFound && !contains_id(store@, id),
        },
{
    match store.get(id) {
        Some(b) => Ok(b),
        None => Err(Status::NotFound),
    }
}

/// Stores the record carried by the request and answers `Created`.
/// Never fails; a duplicate id is not rejected.
pub fn create_book(store: &mut Store, book: Book) -> (r: Status)
    ensures
        r == Status::Created,
        final (store)@ == old(store)@.push(book),
{
    store.insert(book);
    Status::Created
}

/// Replaces the first record carrying `id` with `book`, overwriting
/// every field, and answers `Okay`; answers `NotFound` exactly when no
/// record carries `id`, leaving the store unchanged.
pub fn update_book(store: &mut Store, id: u128, book: Book) -> (r: Result<Status, Status>)
    ensures
        match r {
            Ok(s) => {
                &&& s == Status::Okay
                &&& contains_id(old(store)@, id)
                &&& exists|i: int|
                    is_first_match(old(store)@, id, i) && final (store)@ == old(store)@.update(
                        i,
                        book,
                    )
            },
            Err(s) => {
                &&& s == Status::NotFound
                &&& !contains_id(old(store)@, id)
                &&& final (store)@ == old(store)@
            },
        },
{
    if store.replace(id, book) {
        Ok(Status::Okay)
    } else {
        Err(Status::NotFound)
    }
}

/// Deletes every record carrying `id` and answers `NoContent`; answers
/// `NotFound` exactly when no record carries `id`, leaving the store
/// unchanged.
pub fn delete_book(store: &mut Store, id: u128) -> (r: Status)
    ensures
        final (store)@ == remove_id(old(store)@, id),
        contains_id(old(store)@, id) ==> r == Status::NoContent,
        !contains_id(old(store)@, id) ==> r == Status::NotFound,
{
    if store.delete(id) {
        Status::NoContent
    } else {
        Status::NotFound
    }
}

} // verus!
