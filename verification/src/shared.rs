//! A concurrency-safe store: the sequential `BookStore` behind a verified
//! reader-writer lock.
//!
//! Readers (`get_books`, `get_book`) take shared access, writers
//! (`create_book`, `update_book`, `delete_book`) exclusive access, and the
//! lock is held only across the one operation, so every operation is atomic
//! to outside observers. Because other callers may run between two calls,
//! the contracts here state only what holds of each call against the state
//! it atomically observed; the exact state transitions are the contracts of
//! [`crate::store::BookStore`] and [`crate::reply`].

use crate::reply::Reply;
use crate::store::{BookModel, BookStore};
use vstd::prelude::*;
use vstd::rwlock::RwLock;

verus! {

/// The store behind the lock. The lock admits every store state: the store
/// keeps no invariant beyond its own contracts.
pub struct SharedBookStore {
    lock: RwLock<BookStore, spec_fn(BookStore) -> bool>,
}

impl SharedBookStore {
    /// The lock places no condition on the stored value, so any state can be
    /// handed back when a writer releases it.
    pub closed spec fn wf(&self) -> bool {
        forall|s: BookStore| #[trigger] self.lock.inv(s)
    }

    /// A shared store over an empty collection.
    pub fn new() -> (r: Self)
        ensures
            r.wf(),
    {
        let lock = RwLock::new(BookStore::new(), Ghost(|s: BookStore| true));
        SharedBookStore { lock }
    }

    /// Lists all records under shared access: an atomic snapshot, status 200.
    pub fn get_books(&self) -> (r: Reply)
        requires
            self.wf(),
        ensures
            r is Books,
            r.spec_status() == 200,
    {
        let handle = self.lock.acquire_read();
        let r = crate::reply::get_books(handle.borrow());
        handle.release_read();
        r
    }

    /// Fetches one record by id under shared access: the first record of the
    /// observed state that carries the id, or 404.
    pub fn get_book(&self, id: i32) -> (r: Reply)
        requires
            self.wf(),
        ensures
            r is BookFound || r is Missing,
            r matches Reply::BookFound(b) ==> b@.id == id as int,
    {
        let handle = self.lock.acquire_read();
        let r = crate::reply::get_book(handle.borrow(), id);
        handle.release_read();
        r
    }

    /// Creates a record under exclusive access: its id is one more than the
    /// count of the observed state, so it is at least 1. `None` only when
    /// that count has outgrown the id type, which no store that fits in
    /// memory reaches.
    pub fn create_book(&self, title: String, author: String) -> (r: Option<Reply>)
        requires
            self.wf(),
        ensures
            r matches Some(rep) ==> rep matches Reply::BookCreated(b) && b@.title == title@
                && b@.author == author@ && b@.id >= 1 && rep.spec_status() == 201,
    {
        let (mut store, handle) = self.lock.acquire_write();
        if store.len() < i32::MAX as usize {
            let rep = crate::reply::create_book(&mut store, title, author);
            handle.release_write(store);
            Some(rep)
        } else {
            handle.release_write(store);
            None
        }
    }

    /// Rewrites one record by id under exclusive access: both fields of the
    /// first record of the observed state that carries the id, or 404.
    pub fn update_book(&self, id: i32, title: String, author: String) -> (r: Reply)
        requires
            self.wf(),
        ensures
            r is BookFound || r is Missing,
            r matches Reply::BookFound(b) ==> b@ == (BookModel {
                id: id as int,
                title: title@,
                author: author@,
            }),
    {
        let (mut store, handle) = self.lock.acquire_write();
        let r = crate::reply::update_book(&mut store, id, title, author);
        handle.release_write(store);
        r
    }

    /// Removes one record by id under exclusive access: the first record of
    /// the observed state that carries the id, or 404.
    pub fn delete_book(&self, id: i32) -> (r: Reply)
        requires
            self.wf(),
        ensures
            r is Deleted || r is Missing,
    {
        let (mut store, handle) = self.lock.acquire_write();
        let r = crate::reply::delete_book(&mut store, id);
        handle.release_write(store);
        r
    }
}

} // verus!
