use bookstore::reply;
use bookstore::reply::Reply;
use bookstore::store::{BookStore, StoreError};

#[test]
fn list_of_empty_store_is_empty() {
    let store = BookStore::new();
    assert_eq!(store.list().len(), 0);
    assert_eq!(store.len(), 0);
}

#[test]
fn listing_is_idempotent() {
    let mut store = BookStore::new();
    store.create("T1".to_string(), "A1".to_string());
    store.create("T2".to_string(), "A2".to_string());
    let first = store.list();
    let second = store.list();
    assert_eq!(first, second);
}

#[test]
fn create_assigns_sequential_ids() {
    let mut store = BookStore::new();
    let b1 = store.create("T".to_string(), "A".to_string());
    assert_eq!(b1.id, 1);
    let b2 = store.create("T".to_string(), "A".to_string());
    assert_eq!(b2.id, 2);
}

#[test]
fn id_is_reused_after_deletion() {
    let mut store = BookStore::new();
    store.create("T1".to_string(), "A1".to_string());
    store.create("T2".to_string(), "A2".to_string());
    store.delete(1).unwrap();
    let b = store.create("T3".to_string(), "A3".to_string());
    assert_eq!(b.id, 2);
    let books = store.list();
    assert_eq!(books.len(), 2);
    assert_eq!(books[0].id, 2);
    assert_eq!(books[1].id, 2);
}

#[test]
fn get_round_trips_create() {
    let mut store = BookStore::new();
    let b = store.create("The Title".to_string(), "The Author".to_string());
    let g = store.get(b.id).unwrap();
    assert_eq!(g.id, b.id);
    assert_eq!(g.title, "The Title");
    assert_eq!(g.author, "The Author");
}

#[test]
fn update_mutates_in_place() {
    let mut store = BookStore::new();
    let b = store.create("T".to_string(), "A".to_string());
    let u = store
        .update(b.id, "T2".to_string(), "A2".to_string())
        .unwrap();
    assert_eq!(u.id, b.id);
    assert_eq!(u.title, "T2");
    assert_eq!(u.author, "A2");
    let g = store.get(b.id).unwrap();
    assert_eq!(g.id, b.id);
    assert_eq!(g.title, "T2");
    assert_eq!(g.author, "A2");
    assert_eq!(store.len(), 1);
}

#[test]
fn delete_removes_exactly_one_record() {
    let mut store = BookStore::new();
    let b1 = store.create("T1".to_string(), "A1".to_string());
    store.create("T2".to_string(), "A2".to_string());
    store.delete(b1.id).unwrap();
    let books = store.list();
    assert_eq!(books.len(), 1);
    assert_eq!(books[0].id, 2);
    assert_eq!(books[0].title, "T2");
    assert_eq!(books[0].author, "A2");
    assert_eq!(store.get(b1.id), Err(StoreError::NotFound(b1.id)));
}

#[test]
fn absent_id_signals_not_found_without_mutation() {
    let mut empty = BookStore::new();
    assert_eq!(empty.get(1), Err(StoreError::NotFound(1)));
    assert_eq!(
        empty.update(1, "T".to_string(), "A".to_string()),
        Err(StoreError::NotFound(1))
    );
    assert_eq!(empty.delete(1), Err(StoreError::NotFound(1)));
    assert_eq!(empty.len(), 0);

    let mut store = BookStore::new();
    store.create("T".to_string(), "A".to_string());
    let before = store.list();
    assert_eq!(store.get(9), Err(StoreError::NotFound(9)));
    assert_eq!(
        store.update(9, "X".to_string(), "Y".to_string()),
        Err(StoreError::NotFound(9))
    );
    assert_eq!(store.delete(9), Err(StoreError::NotFound(9)));
    assert_eq!(store.list(), before);
}

#[test]
fn many_creates_keep_every_record() {
    let mut store = BookStore::new();
    let n: i32 = 50;
    for k in 0..n {
        let b = store.create(format!("T{}", k), format!("A{}", k));
        assert_eq!(b.id, k + 1);
    }
    let books = store.list();
    assert_eq!(books.len(), 50);
    for k in 0..n {
        let b = &books[k as usize];
        assert_eq!(b.id, k + 1);
        assert_eq!(b.title, format!("T{}", k));
        assert_eq!(b.author, format!("A{}", k));
    }
}

#[test]
fn handler_outcomes_follow_the_store() {
    let mut store = BookStore::new();
    let created = reply::create_book(&mut store, "T".to_string(), "A".to_string());
    assert_eq!(created.status(), 201);
    let listed = reply::get_books(&store);
    assert_eq!(listed.status(), 200);
    match listed {
        Reply::Books(bs) => assert_eq!(bs.len(), 1),
        _ => panic!("listing must yield the records"),
    }
    let fetched = reply::get_book(&store, 1);
    assert_eq!(fetched.status(), 200);
    match fetched {
        Reply::BookFound(b) => {
            assert_eq!(b.id, 1);
            assert_eq!(b.title, "T");
        }
        _ => panic!("the stored record must be found"),
    }
    let updated = reply::update_book(&mut store, 1, "T2".to_string(), "A2".to_string());
    assert_eq!(updated.status(), 200);
    let deleted = reply::delete_book(&mut store, 1);
    assert_eq!(deleted.status(), 200);
    assert!(matches!(deleted, Reply::Deleted));
    let gone = reply::get_book(&store, 1);
    assert_eq!(gone.status(), 404);
    assert!(matches!(gone, Reply::Missing));
}

#[test]
fn updated_record_keeps_its_position() {
    let mut store = BookStore::new();
    store.create("T1".to_string(), "A1".to_string());
    store.create("T2".to_string(), "A2".to_string());
    store.create("T3".to_string(), "A3".to_string());
    store.update(2, "T2b".to_string(), "A2b".to_string()).unwrap();
    let books = store.list();
    assert_eq!(books.len(), 3);
    assert_eq!(books[0].title, "T1");
    assert_eq!(books[1].title, "T2b");
    assert_eq!(books[1].id, 2);
    assert_eq!(books[2].title, "T3");
}

#[test]
fn delete_preserves_order_of_the_rest() {
    let mut store = BookStore::new();
    store.create("T1".to_string(), "A1".to_string());
    store.create("T2".to_string(), "A2".to_string());
    store.create("T3".to_string(), "A3".to_string());
    store.delete(2).unwrap();
    let books = store.list();
    assert_eq!(books.len(), 2);
    assert_eq!(books[0].title, "T1");
    assert_eq!(books[1].title, "T3");
}

#[test]
fn duplicate_ids_resolve_to_the_first_match() {
    let mut store = BookStore::new();
    store.create("T1".to_string(), "A1".to_string());
    store.create("T2".to_string(), "A2".to_string());
    store.delete(1).unwrap();
    store.create("T3".to_string(), "A3".to_string());
    // both records now carry id 2; the scan finds the older one first
    let g = store.get(2).unwrap();
    assert_eq!(g.title, "T2");
    store.delete(2).unwrap();
    let books = store.list();
    assert_eq!(books.len(), 1);
    assert_eq!(books[0].title, "T3");
}
