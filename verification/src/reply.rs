//! Request-level outcomes: what each of the five operations hands back to
//! the transport layer, and the status code and plain-text body each outcome
//! maps to.

use crate::store::{
    created_book, first_index_holds, has_id, with_create, with_delete_at, with_update_at, Book,
    BookModel, BookStore,
};
use vstd::prelude::*;

verus! {

/// The typed outcome of one handled request: a payload to encode, or a
/// plain-text acknowledgement, each mapping to one status code.
pub enum Reply {
    /// Every stored record, in order. Status 200.
    Books(Vec<Book>),
    /// The record a lookup or a rewrite yielded. Status 200.
    BookFound(Book),
    /// The record a creation appended. Status 201.
    BookCreated(Book),
    /// Acknowledgement of a removal. Status 200.
    Deleted,
    /// No record carries the requested id. Status 404.
    Missing,
}

impl Reply {
    /// The status code of this outcome.
    pub open spec fn spec_status(&self) -> u16 {
        match self {
            Reply::Books(_) => 200,
            Reply::BookFound(_) => 200,
            Reply::BookCreated(_) => 201,
            Reply::Deleted => 200,
            Reply::Missing => 404,
        }
    }

    /// The status code of this outcome.
    pub fn status(&self) -> (s: u16)
        ensures
            s == self.spec_status(),
    {
        match self {
            Reply::Books(_) => 200,
            Reply::BookFound(_) => 200,
            Reply::BookCreated(_) => 201,
            Reply::Deleted => 200,
            Reply::Missing => 404,
        }
    }

    /// The plain-text body of the outcomes that carry no record; empty for
    /// the ones that carry one.
    pub fn message(&self) -> (m: String)
        ensures
            self is Deleted ==> m@ == "Book deleted"@,
            self is Missing ==> m@ == "Book not found"@,
            !(self is Deleted) && !(self is Missing) ==> m@ == Seq::<char>::empty(),
    {
        match self {
            Reply::Deleted => "Book deleted".to_owned(),
            Reply::Missing => "Book not found".to_owned(),
            _ => String::new(),
        }
    }
}

/// Handles the listing request: a snapshot of every record, status 200.
pub fn get_books(store: &BookStore) -> (r: Reply)
    ensures
        r.spec_status() == 200,
        r matches Reply::Books(bs) && bs@.len() == store@.len() && (forall|i: int|
            0 <= i < store@.len() ==> bs@[i]@ == store@[i]),
{
    Reply::Books(store.list())
}

/// Handles a fetch by id: the first matching record with 200, or 404 when no
/// record matches.
pub fn get_book(store: &BookStore, id: i32) -> (r: Reply)
    ensures
        has_id(store@, id as int) ==> r.spec_status() == 200 && (r matches Reply::BookFound(b)
            && exists|i: int| #[trigger] first_index_holds(store@, id as int, i) && b@ == store@[i]),
        !has_id(store@, id as int) ==> r == Reply::Missing,
{
    match store.get(id) {
        Ok(b) => Reply::BookFound(b),
        Err(_) => Reply::Missing,
    }
}

/// Handles a creation: appends a record with the given fields and returns it
/// with 201.
pub fn create_book(store: &mut BookStore, title: String, author: String) -> (r: Reply)
    requires
        old(store)@.len() < i32::MAX as int,
    ensures
        r.spec_status() == 201,
        r matches Reply::BookCreated(b) && b@ == created_book(old(store)@, title@, author@),
        final(store)@ == with_create(old(store)@, title@, author@),
{
    Reply::BookCreated(store.create(title, author))
}

/// Handles a rewrite by id: both fields of the first matching record are
/// replaced and the rewritten record returned with 200, or 404 with the
/// store unchanged when no record matches.
pub fn update_book(store: &mut BookStore, id: i32, title: String, author: String) -> (r: Reply)
    ensures
        has_id(old(store)@, id as int) ==> r.spec_status() == 200 && (r matches Reply::BookFound(b)
            && b@ == (BookModel { id: id as int, title: title@, author: author@ }) && exists|i: int|
            #[trigger] first_index_holds(old(store)@, id as int, i) && final(store)@
                == with_update_at(old(store)@, i, title@, author@)),
        !has_id(old(store)@, id as int) ==> r == Reply::Missing && final(store)@ == old(store)@,
{
    match store.update(id, title, author) {
        Ok(b) => Reply::BookFound(b),
        Err(_) => Reply::Missing,
    }
}

/// Handles a removal by id: the first matching record is removed and the
/// removal acknowledged with 200, or 404 with the store unchanged when no
/// record matches.
pub fn delete_book(store: &mut BookStore, id: i32) -> (r: Reply)
    ensures
        has_id(old(store)@, id as int) ==> r == Reply::Deleted && exists|i: int|
            #[trigger] first_index_holds(old(store)@, id as int, i) && final(store)@
                == with_delete_at(old(store)@, i),
        !has_id(old(store)@, id as int) ==> r == Reply::Missing && final(store)@ == old(store)@,
{
    match store.delete(id) {
        Ok(()) => Reply::Deleted,
        Err(_) => Reply::Missing,
    }
}

} // verus!
