//! The sequential book store: records, their mathematical model, and the
//! five operations with their contracts.

use vstd::prelude::*;

verus! {

/// Mathematical model of one stored record.
pub ghost struct BookModel {
    pub id: int,
    pub title: Seq<char>,
    pub author: Seq<char>,
}

/// A stored record: an identifier the store assigns and two free-form text
/// fields.
#[derive(Debug, PartialEq)]
pub struct Book {
    pub id: i32,
    pub title: String,
    pub author: String,
}

impl View for Book {
    type V = BookModel;

    open spec fn view(&self) -> BookModel {
        BookModel { id: self.id as int, title: self.title@, author: self.author@ }
    }
}

impl Clone for Book {
    fn clone(&self) -> (r: Self)
        ensures
            r == *self,
    {
        Book { id: self.id, title: self.title.clone(), author: self.author.clone() }
    }
}

/// The one failure the store signals: no record carries the requested id.
#[derive(Debug, PartialEq, Eq, Structural)]
pub enum StoreError {
    NotFound(i32),
}

/// The id `create` hands out: one more than the current record count. After
/// a deletion this can equal an id that is still stored.
pub open spec fn new_id(s: Seq<BookModel>) -> int {
    s.len() as int + 1
}

/// The record a `create` with the given fields appends.
pub open spec fn created_book(s: Seq<BookModel>, title: Seq<char>, author: Seq<char>) -> BookModel {
    BookModel { id: new_id(s), title: title, author: author }
}

/// The store's contents after a `create` with the given fields.
pub open spec fn with_create(s: Seq<BookModel>, title: Seq<char>, author: Seq<char>) -> Seq<
    BookModel,
> {
    s.push(created_book(s, title, author))
}

/// Some stored record carries the id.
pub open spec fn has_id(s: Seq<BookModel>, id: int) -> bool {
    exists|i: int| 0 <= i < s.len() && s[i].id == id
}

/// `i` is the index of the first record with the id: the one a linear scan
/// finds.
pub open spec fn first_index_holds(s: Seq<BookModel>, id: int, i: int) -> bool {
    &&& 0 <= i < s.len()
    &&& s[i].id == id
    &&& forall|j: int| 0 <= j < i ==> s[j].id != id
}

/// The store's contents after `update` rewrites the record at `i` with the
/// given fields, keeping its id.
pub open spec fn with_update_at(
    s: Seq<BookModel>,
    i: int,
    title: Seq<char>,
    author: Seq<char>,
) -> Seq<BookModel>
    recommends
        0 <= i < s.len(),
{
    s.update(i, BookModel { id: s[i].id, title: title, author: author })
}

/// The store's contents after `delete` removes the record at `i`, the
/// records after it shifting down one place.
pub open spec fn with_delete_at(s: Seq<BookModel>, i: int) -> Seq<BookModel>
    recommends
        0 <= i < s.len(),
{
    s.remove(i)
}

/// The in-memory collection of records, in insertion order.
pub struct BookStore {
    books: Vec<Book>,
}

impl View for BookStore {
    type V = Seq<BookModel>;

    closed spec fn view(&self) -> Seq<BookModel> {
        self.books@.map_values(|b: Book| b@)
    }
}

impl BookStore {
    /// An empty store.
    pub fn new() -> (r: Self)
        ensures
            r@ == Seq::<BookModel>::empty(),
    {
        let r = BookStore { books: Vec::new() };
        proof {
            assert(r@ =~= Seq::<BookModel>::empty());
        }
        r
    }

    /// The current record count.
    pub fn len(&self) -> (n: usize)
        ensures
            n == self@.len(),
    {
        self.books.len()
    }

    /// A snapshot copy of all records, in current order.
    pub fn list(&self) -> (r: Vec<Book>)
        ensures
            r@.len() == self@.len(),
            forall|i: int| 0 <= i < self@.len() ==> r@[i]@ == self@[i],
    {
        let mut r: Vec<Book> = Vec::new();
        let mut i: usize = 0;
        while i < self.books.len()
            invariant
                i <= self.books.len(),
                r@.len() == i as int,
                forall|j: int| 0 <= j < i ==> r@[j]@ == self@[j],
            decreases self.books.len() - i,
        {
            r.push(self.books[i].clone());
            i += 1;
        }
        r
    }

    /// The first record with the given id, or `NotFound`.
    pub fn get(&self, id: i32) -> (r: Result<Book, StoreError>)
        ensures
            r is Ok <==> has_id(self@, id as int),
            r matches Ok(b) ==> exists|i: int|
                #[trigger] first_index_holds(self@, id as int, i) && b@ == self@[i],
            r matches Err(e) ==> e == StoreError::NotFound(id),
    {
        let mut i: usize = 0;
        while i < self.books.len()
            invariant
                i <= self.books.len(),
                forall|j: int| 0 <= j < i ==> self@[j].id != id as int,
            decreases self.books.len() - i,
        {
            if self.books[i].id == id {
                let b = self.books[i].clone();
                proof {
                    assert(first_index_holds(self@, id as int, i as int));
                    assert(has_id(self@, id as int));
                }
                return Ok(b);
            }
            i += 1;
        }
        Err(StoreError::NotFound(id))
    }

    /// Appends a record whose id is one more than the current count and
    /// returns a copy of it.
    pub fn create(&mut self, title: String, author: String) -> (b: Book)
        requires
            old(self)@.len() < i32::MAX as int,
        ensures
            b@ == created_book(old(self)@, title@, author@),
            final(self)@ == with_create(old(self)@, title@, author@),
    {
        let id: i32 = self.books.len() as i32 + 1;
        let b = Book { id, title, author };
        let copy = b.clone();
        self.books.push(copy);
        proof {
            assert(self@ =~= with_create(old(self)@, title@, author@));
        }
        b
    }

    /// Rewrites title and author of the first record with the given id,
    /// keeping its id, and returns a copy of the rewritten record; signals
    /// `NotFound`, leaving the store unchanged, when no record matches.
    pub fn update(&mut self, id: i32, title: String, author: String) -> (r: Result<
        Book,
        StoreError,
    >)
        ensures
            r is Ok <==> has_id(old(self)@, id as int),
            r matches Ok(b) ==> ({
                &&& b@ == (BookModel { id: id as int, title: title@, author: author@ })
                &&& exists|i: int|
                    #[trigger] first_index_holds(old(self)@, id as int, i) && final(self)@
                        == with_update_at(old(self)@, i, title@, author@)
            }),
            r is Err ==> final(self)@ == old(self)@ && r == Err::<Book, StoreError>(
                StoreError::NotFound(id),
            ),
    {
        let mut i: usize = 0;
        while i < self.books.len()
            invariant
                i <= self.books.len(),
                self == old(self),
                forall|j: int| 0 <= j < i ==> self@[j].id != id as int,
            decreases self.books.len() - i,
        {
            if self.books[i].id == id {
                let b = Book { id, title, author };
                let copy = b.clone();
                self.books[i] = copy;
                proof {
                    assert(first_index_holds(old(self)@, id as int, i as int));
                    assert(has_id(old(self)@, id as int));
                    assert(self@ =~= with_update_at(old(self)@, i as int, title@, author@));
                }
                return Ok(b);
            }
            i += 1;
        }
        Err(StoreError::NotFound(id))
    }

    /// Removes the first record with the given id, the records after it
    /// keeping their relative order; signals `NotFound`, leaving the store
    /// unchanged, when no record matches.
    pub fn delete(&mut self, id: i32) -> (r: Result<(), StoreError>)
        ensures
            r is Ok <==> has_id(old(self)@, id as int),
            r is Ok ==> exists|i: int|
                #[trigger] first_index_holds(old(self)@, id as int, i) && final(self)@
                    == with_delete_at(old(self)@, i),
            r is Err ==> final(self)@ == old(self)@ && r == Err::<(), StoreError>(
                StoreError::NotFound(id),
            ),
    {
        let mut i: usize = 0;
        while i < self.books.len()
            invariant
                i <= self.books.len(),
                self == old(self),
                forall|j: int| 0 <= j < i ==> self@[j].id != id as int,
            decreases self.books.len() - i,
        {
            if self.books[i].id == id {
                proof {
                    assert(first_index_holds(old(self)@, id as int, i as int));
                    assert(has_id(old(self)@, id as int));
                }
                let _removed = self.books.remove(i);
                proof {
                    assert(self@ =~= with_delete_at(old(self)@, i as int));
                }
                return Ok(());
            }
            i += 1;
        }
        Err(StoreError::NotFound(id))
    }
}

} // verus!
