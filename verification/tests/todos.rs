use std::collections::HashSet;
use todo_api::model::{CreateTodo, Todo, TodoError, UpdateTodo};
use todo_api::store::TodoStore;

fn create(store: &mut TodoStore, text: &str, completed: bool) -> Todo {
    store.create(CreateTodo { text: text.to_string(), completed })
}

#[test]
fn create_returns_the_stored_record() {
    let mut store = TodoStore::new();
    let todo = create(&mut store, "buy milk", false);
    assert_eq!(todo.text, "buy milk");
    assert!(!todo.completed);
    let listed = store.list();
    assert_eq!(listed, vec![todo]);
}

#[test]
fn created_ids_are_pairwise_distinct() {
    let mut store = TodoStore::new();
    let mut seen: HashSet<u128> = HashSet::new();
    for i in 0..100 {
        let todo = create(&mut store, &format!("task {}", i), false);
        assert!(seen.insert(todo.id), "an id was issued twice");
    }
    assert_eq!(store.list().len(), 100);
}

#[test]
fn create_then_get_round_trip() {
    let mut store = TodoStore::new();
    let created = create(&mut store, "a", false);
    let fetched = store.get(created.id).expect("freshly created id must be found");
    assert_eq!(fetched.id, created.id);
    assert_eq!(fetched.text, "a");
    assert!(!fetched.completed);
}

#[test]
fn list_reflects_state_in_creation_order() {
    let mut store = TodoStore::new();
    let a = create(&mut store, "first", false);
    let b = create(&mut store, "second", true);
    let c = create(&mut store, "third", false);
    let listed = store.list();
    assert_eq!(listed, vec![a, b, c]);
}

#[test]
fn list_snapshot_does_not_alias_storage() {
    let mut store = TodoStore::new();
    let a = create(&mut store, "before", false);
    let snapshot = store.list();
    store
        .update(a.id, UpdateTodo { text: Some("after".to_string()), completed: None })
        .expect("existing id");
    assert_eq!(snapshot[0].text, "before");
}

#[test]
fn update_with_completed_only_keeps_text_and_id() {
    let mut store = TodoStore::new();
    let created = create(&mut store, "a", false);
    let updated = store
        .update(created.id, UpdateTodo { text: None, completed: Some(true) })
        .expect("existing id");
    assert_eq!(updated.id, created.id);
    assert_eq!(updated.text, "a");
    assert!(updated.completed);
    let fetched = store.get(created.id).expect("still present");
    assert_eq!(fetched, updated);
}

#[test]
fn update_with_text_only_keeps_completed() {
    let mut store = TodoStore::new();
    let created = create(&mut store, "a", true);
    let updated = store
        .update(created.id, UpdateTodo { text: Some("b".to_string()), completed: None })
        .expect("existing id");
    assert_eq!(updated.text, "b");
    assert!(updated.completed);
    assert_eq!(updated.id, created.id);
}

#[test]
fn update_with_explicit_false_is_not_absence() {
    let mut store = TodoStore::new();
    let created = create(&mut store, "a", true);
    let updated = store
        .update(created.id, UpdateTodo { text: None, completed: Some(false) })
        .expect("existing id");
    assert!(!updated.completed);
    assert_eq!(updated.text, "a");
}

#[test]
fn delete_removes_exactly_one_and_keeps_order() {
    let mut store = TodoStore::new();
    let a = create(&mut store, "a", false);
    let b = create(&mut store, "b", false);
    let c = create(&mut store, "c", false);
    store.delete(b.id).expect("existing id");
    let listed = store.list();
    assert_eq!(listed, vec![a, c]);
    assert_eq!(store.get(b.id), Err(TodoError::NotFound(b.id)));
}

#[test]
fn unknown_id_is_not_found_and_changes_nothing() {
    let mut store = TodoStore::new();
    let a = create(&mut store, "a", false);
    let unknown = a.id.wrapping_add(1);
    let before = store.list();

    assert_eq!(store.get(unknown), Err(TodoError::NotFound(unknown)));
    assert_eq!(
        store.update(unknown, UpdateTodo { text: Some("x".to_string()), completed: Some(true) }),
        Err(TodoError::NotFound(unknown))
    );
    assert_eq!(store.delete(unknown), Err(TodoError::NotFound(unknown)));

    assert_eq!(store.list(), before);
}

#[test]
fn a_thousand_creates_lose_and_duplicate_nothing() {
    let mut store = TodoStore::new();
    let mut ids: HashSet<u128> = HashSet::new();
    for i in 0..1000 {
        let todo = create(&mut store, &format!("task {}", i), false);
        assert!(ids.insert(todo.id), "an id was issued twice");
    }
    let listed = store.list();
    assert_eq!(listed.len(), 1000);
    for (i, todo) in listed.iter().enumerate() {
        assert_eq!(todo.text, format!("task {}", i));
        assert!(ids.contains(&todo.id));
    }
}

#[test]
fn empty_store_lists_nothing() {
    let store = TodoStore::new();
    assert_eq!(store.list(), Vec::<Todo>::new());
}

#[test]
fn empty_text_is_accepted() {
    let mut store = TodoStore::new();
    let todo = create(&mut store, "", false);
    let fetched = store.get(todo.id).expect("present");
    assert_eq!(fetched.text, "");
}
