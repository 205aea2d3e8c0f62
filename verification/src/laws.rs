//! Proofs of the properties the store's operations obey together, stated
//! over the model sequences and the transition functions that the
//! operations' own contracts use.

use crate::store::{
    created_book, first_index_holds, has_id, with_create, with_delete_at, with_update_at,
    BookModel,
};
use vstd::prelude::*;

verus! {

/// At most one index is the first to carry an id, so a contract that names
/// "the first record with the id" through `first_index_holds` names one
/// record.
pub proof fn lemma_first_index_unique(s: Seq<BookModel>, id: int, i: int, j: int)
    requires
        first_index_holds(s, id, i),
        first_index_holds(s, id, j),
    ensures
        i == j,
{
}

/// Listing is idempotent: two snapshots taken, as `list`'s contract
/// describes, from the same store state with no mutation in between are the
/// same sequence of records.
pub proof fn lemma_list_idempotent(s: Seq<BookModel>, r1: Seq<BookModel>, r2: Seq<BookModel>)
    requires
        r1.len() == s.len(),
        forall|i: int| 0 <= i < s.len() ==> r1[i] == s[i],
        r2.len() == s.len(),
        forall|i: int| 0 <= i < s.len() ==> r2[i] == s[i],
    ensures
        r1 == r2,
{
    assert(r1 =~= r2);
}

/// Creation assigns ids consistently: on an empty store the created record
/// gets id 1, and a second creation on the one-record store gets id 2.
pub proof fn lemma_create_assigns_sequential_ids(
    t1: Seq<char>,
    a1: Seq<char>,
    t2: Seq<char>,
    a2: Seq<char>,
)
    ensures
        created_book(Seq::<BookModel>::empty(), t1, a1).id == 1,
        created_book(with_create(Seq::<BookModel>::empty(), t1, a1), t2, a2).id == 2,
{
}

/// An id is reused after a deletion: with records carrying ids 1 and 2
/// stored, deleting id 1 removes the first record, and the next creation
/// hands out id 2 — the new count — although a stored record still carries
/// id 2. The collision is the count-based assignment rule at work, not an
/// accident of one run.
pub proof fn lemma_id_reused_after_delete(b1: BookModel, b2: BookModel, t: Seq<char>, a: Seq<char>)
    requires
        b1.id == 1,
        b2.id == 2,
    ensures
        first_index_holds(seq![b1, b2], 1, 0),
        created_book(with_delete_at(seq![b1, b2], 0), t, a).id == 2,
        has_id(with_delete_at(seq![b1, b2], 0), 2),
{
    let s = seq![b1, b2];
    let rest = with_delete_at(s, 0);
    assert(rest =~= seq![b2]);
    assert(rest[0].id == 2);
}

/// Get round-trips a creation: as long as no stored record already carries
/// the id about to be assigned, the created record is the first record with
/// its id in the new state, so a get of that id yields exactly the record
/// the creation returned. (When a stored record does carry that id — as
/// after the deletion above — the get finds that earlier record instead.)
pub proof fn lemma_get_round_trip(s: Seq<BookModel>, t: Seq<char>, a: Seq<char>)
    requires
        !has_id(s, s.len() as int + 1),
    ensures
        first_index_holds(with_create(s, t, a), created_book(s, t, a).id, s.len() as int),
        with_create(s, t, a)[s.len() as int] == created_book(s, t, a),
{
    let s1 = with_create(s, t, a);
    let b = created_book(s, t, a);
    assert forall|j: int| 0 <= j < s.len() implies s1[j].id != b.id by {
        assert(s1[j] == s[j]);
        if s[j].id == b.id {
            assert(has_id(s, s.len() as int + 1));
        }
    }
}

/// Update mutates in place: after a creation and an update with the created
/// id, the slot the update rewrote is still the first with that id, so a get
/// of the id yields the new fields under the unchanged id.
pub proof fn lemma_update_then_get(
    s: Seq<BookModel>,
    t: Seq<char>,
    a: Seq<char>,
    t2: Seq<char>,
    a2: Seq<char>,
)
    ensures
        has_id(with_create(s, t, a), created_book(s, t, a).id),
        forall|i: int|
            #[trigger] first_index_holds(with_create(s, t, a), created_book(s, t, a).id, i) ==> {
                let s2 = with_update_at(with_create(s, t, a), i, t2, a2);
                &&& first_index_holds(s2, created_book(s, t, a).id, i)
                &&& s2[i] == (BookModel { id: created_book(s, t, a).id, title: t2, author: a2 })
            },
{
    let s1 = with_create(s, t, a);
    let b = created_book(s, t, a);
    assert(s1[s.len() as int].id == b.id);
    assert(has_id(s1, b.id));
    assert forall|i: int| #[trigger] first_index_holds(s1, b.id, i) implies {
        let s2 = with_update_at(s1, i, t2, a2);
        &&& first_index_holds(s2, b.id, i)
        &&& s2[i] == (BookModel { id: b.id, title: t2, author: a2 })
    } by {
        let s2 = with_update_at(s1, i, t2, a2);
        assert(s2[i] == (BookModel { id: b.id, title: t2, author: a2 }));
        assert forall|j: int| 0 <= j < i implies s2[j].id != b.id by {
            assert(s2[j] == s1[j]);
        }
    }
}

/// Deletion removes exactly one record: after two creations on an empty
/// store, deleting the first record's id leaves exactly one record — the
/// second one, fields untouched — and the deleted id is no longer stored.
pub proof fn lemma_delete_first_of_two(t1: Seq<char>, a1: Seq<char>, t2: Seq<char>, a2: Seq<char>)
    ensures
        ({
            let s1 = with_create(Seq::<BookModel>::empty(), t1, a1);
            let s2 = with_create(s1, t2, a2);
            let b1 = created_book(Seq::<BookModel>::empty(), t1, a1);
            let b2 = created_book(s1, t2, a2);
            &&& first_index_holds(s2, b1.id, 0)
            &&& with_delete_at(s2, 0).len() == 1
            &&& with_delete_at(s2, 0)[0] == b2
            &&& !has_id(with_delete_at(s2, 0), b1.id)
        }),
{
    let s1 = with_create(Seq::<BookModel>::empty(), t1, a1);
    let s2 = with_create(s1, t2, a2);
    let b2 = created_book(s1, t2, a2);
    let rest = with_delete_at(s2, 0);
    assert(rest =~= seq![b2]);
}

/// The state after a sequence of creations, each appending its record with
/// the id the count at that moment assigns.
pub open spec fn with_creates(s: Seq<BookModel>, reqs: Seq<(Seq<char>, Seq<char>)>) -> Seq<
    BookModel,
>
    decreases reqs.len(),
{
    if reqs.len() == 0 {
        s
    } else {
        with_creates(with_create(s, reqs[0].0, reqs[0].1), reqs.drop_first())
    }
}

/// Creations lose and duplicate nothing: any serialization of N creations —
/// the order the store's exclusive lock imposes on concurrent callers —
/// keeps every record already stored, appends exactly one record per
/// request, and, from an empty store, assigns the distinct ids 1 through N.
pub proof fn lemma_creates_lose_nothing(s: Seq<BookModel>, reqs: Seq<(Seq<char>, Seq<char>)>)
    ensures
        with_creates(s, reqs).len() == s.len() + reqs.len(),
        forall|i: int| 0 <= i < s.len() ==> with_creates(s, reqs)[i] == s[i],
        forall|i: int|
            s.len() <= i < s.len() + reqs.len() ==> with_creates(s, reqs)[i] == (BookModel {
                id: i + 1,
                title: reqs[i - s.len()].0,
                author: reqs[i - s.len()].1,
            }),
        s.len() == 0 ==> forall|i: int, j: int|
            0 <= i < j < reqs.len() ==> with_creates(s, reqs)[i].id != with_creates(s, reqs)[j].id,
    decreases reqs.len(),
{
    if reqs.len() == 0 {
    } else {
        let s1 = with_create(s, reqs[0].0, reqs[0].1);
        lemma_creates_lose_nothing(s1, reqs.drop_first());
        assert forall|i: int| 0 <= i < s.len() implies with_creates(s, reqs)[i] == s[i] by {
            assert(with_creates(s, reqs)[i] == s1[i]);
            assert(s1[i] == s[i]);
        }
        assert forall|i: int|
            s.len() <= i < s.len() + reqs.len() implies with_creates(s, reqs)[i] == (BookModel {
            id: i + 1,
            title: reqs[i - s.len()].0,
            author: reqs[i - s.len()].1,
        }) by {
            if i == s.len() as int {
                assert(with_creates(s, reqs)[i] == s1[i]);
            } else {
                assert(reqs.drop_first()[i - s1.len()] == reqs[i - s.len()]);
            }
        }
    }
}

} // verus!
