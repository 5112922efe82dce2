use vstd::prelude::*;

use crate::book::Book;
use crate::store::{contains_id, removed, replaced, BookStore};

verus! {

/// The outcome of a request, before it becomes an HTTP status line.
#[derive(Clone, Copy, Debug, PartialEq, Eq, Structural)]
pub enum Status {
    Success,
    Created,
    NoContent,
    NotFound,
}

/// The HTTP status code of each outcome.
pub open spec fn status_code(s: Status) -> u16 {
    match s {
        Status::Success => 200,
        Status::Created => 201,
        Status::NoContent => 204,
        Status::NotFound => 404,
    }
}

impl Status {
    pub fn code(&self) -> (r: u16)
        ensures
            r == status_code(*self),
    {
        match self {
            Status::Success => 200,
            Status::Created => 201,
            Status::NoContent => 204,
            Status::NotFound => 404,
        }
    }
}

/// `GET /books`: every entry, in catalogue order.
pub fn get_books(store: &BookStore) -> (r: (Status, Vec<Book>))
    ensures
        r.0 == Status::Success,
        r.1@ == store@,
{
    (Status::Success, store.list())
}

/// `POST /books`: appends the book, whatever its `id`.
pub fn add_book(store: &mut BookStore, book: Book) -> (r: Status)
    ensures
        r == Status::Created,
        final(store)@ == old(store)@.push(book),
{
    store.append(book);
    Status::Created
}

/// `PUT /books/{id}`: overwrites the first entry that carries `id` with the
/// book as sent, or answers not found.
pub fn update_book(store: &mut BookStore, id: u32, book: Book) -> (r: Status)
    ensures
        r == (if contains_id(old(store)@, id) {
            Status::Success
        } else {
            Status::NotFound
        }),
        final(store)@ == replaced(old(store)@, id, book),
{
    if store.replace(id, book) {
        Status::Success
    } else {
        Status::NotFound
    }
}

/// `DELETE /books/{id}`: takes out the first entry that carries `id`, or
/// answers not found.
pub fn delete_book(store: &mut BookStore, id: u32) -> (r: Status)
    ensures
        r == (if contains_id(old(store)@, id) {
            Status::NoContent
        } else {
            Status::NotFound
        }),
        final(store)@ == removed(old(store)@, id),
{
    if store.remove(id) {
        Status::NoContent
    } else {
        Status::NotFound
    }
}

} // verus!
