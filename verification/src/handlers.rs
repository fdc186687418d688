//! The per-operation mapping from store results to HTTP status codes and
//! response bodies. Each handler calls exactly one store operation and
//! translates its outcome: success to 200/201/204 with the record (or
//! records, or nothing) as the body, `NotFound` to 404 with no body.

use crate::model::{apply_update, contains_id, idx_of, ids_unique, CreateTodo, Todo, TodoError, UpdateTodo};
use crate::store::TodoStore;
use vstd::prelude::*;

verus! {

/// Create: append a record built from the request body and answer
/// `201 Created` with a copy of the stored record.
pub fn handle_create(store: &mut TodoStore, input: CreateTodo) -> (r: (u16, Todo))
    ensures
        r.0 == 201,
        !contains_id(old(store)@, r.1.id),
        r.1.text == input.text,
        r.1.completed == input.completed,
        final(store)@ == old(store)@.push(r.1),
        ids_unique(final(store)@),
{
    let todo = store.create(input);
    (201, todo)
}

/// List: answer `200 OK` with a snapshot of the whole collection in
/// insertion order.
pub fn handle_list(store: &TodoStore) -> (r: (u16, Vec<Todo>))
    ensures
        r.0 == 200,
        r.1@ == store@,
{
    (200, store.list())
}

/// Get by id: `200 OK` with a copy of the matching record, or
/// `404 Not Found` with no body.
pub fn handle_get(store: &TodoStore, id: u128) -> (r: (u16, Option<Todo>))
    ensures
        contains_id(store@, id) ==> r.0 == 200 && r.1 == Some(store@[idx_of(store@, id)]),
        !contains_id(store@, id) ==> r.0 == 404 && r.1 is None,
{
    match store.get(id) {
        Ok(todo) => (200, Some(todo)),
        Err(TodoError::NotFound(_)) => (404, None),
    }
}

/// Update by id: `200 OK` with a copy of the record after the partial
/// update, or `404 Not Found` with no body and the collection unchanged.
pub fn handle_update(store: &mut TodoStore, id: u128, input: UpdateTodo) -> (r: (u16, Option<Todo>))
    ensures
        ids_unique(final(store)@),
        contains_id(old(store)@, id) ==> r.0 == 200 && r.1 == Some(
            apply_update(old(store)@[idx_of(old(store)@, id)], input),
        ) && final(store)@ == old(store)@.update(
            idx_of(old(store)@, id),
            apply_update(old(store)@[idx_of(old(store)@, id)], input),
        ),
        !contains_id(old(store)@, id) ==> r.0 == 404 && r.1 is None && final(store)@ == old(
            store,
        )@,
{
    match store.update(id, input) {
        Ok(todo) => (200, Some(todo)),
        Err(TodoError::NotFound(_)) => (404, None),
    }
}

/// Delete by id: `204 No Content` with no body, or `404 Not Found` with
/// no body and the collection unchanged.
pub fn handle_delete(store: &mut TodoStore, id: u128) -> (status: u16)
    ensures
        ids_unique(final(store)@),
        contains_id(old(store)@, id) ==> status == 204 && final(store)@ == old(store)@.remove(
            idx_of(old(store)@, id),
        ),
        !contains_id(old(store)@, id) ==> status == 404 && final(store)@ == old(store)@,
{
    match store.delete(id) {
        Ok(()) => 204,
        Err(TodoError::NotFound(_)) => 404,
    }
}

} // verus!
