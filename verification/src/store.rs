//! The todo collection itself: an ordered sequence of records owned
//! exclusively by a `TodoStore`, whose type invariant keeps the ids
//! pairwise distinct. Every operation is specified against the
//! abstract sequence `self@`.

use crate::model::{
    apply_update, contains_id, ids_unique, idx_of, lemma_idx_of_unique,
    lemma_next_id_free, lemma_push_fresh_preserves_unique, lemma_remove_id,
    lemma_update_preserves_unique, CreateTodo, Todo, TodoError, UpdateTodo,
};
use vstd::pervasive::VecAdditionalExecFns;
use vstd::prelude::*;

verus! {

/// Relies on `uuid::Uuid::new_v4`: a freshly drawn random version-4 UUID,
/// handed back as its 128-bit value. The draw is random, so nothing is
/// promised of the result; the store tests it against the collection itself.
#[verifier::external_body]
fn random_id() -> u128 {
    uuid::Uuid::new_v4().as_u128()
}

/// Sole owner of the todo collection. Records are kept in insertion
/// order; ids are unique at all times.
pub struct TodoStore {
    todos: Vec<Todo>,
}

impl View for TodoStore {
    type V = Seq<Todo>;

    closed spec fn view(&self) -> Seq<Todo> {
        self.todos@
    }
}

impl TodoStore {
    /// Invariant: no two records in the collection share an id.
    #[verifier::type_invariant]
    spec fn wf(self) -> bool {
        ids_unique(self.todos@)
    }

    /// An empty collection.
    pub fn new() -> (s: Self)
        ensures
            s@ == Seq::<Todo>::empty(),
    {
        TodoStore { todos: Vec::new() }
    }

    /// The position of the first record carrying `id`, if any.
    fn find_index(&self, id: u128) -> (r: Option<usize>)
        ensures
            match r {
                Some(i) => 0 <= i < self@.len() && self@[i as int].id == id && (forall|j: int|
                    0 <= j < i ==> self@[j].id != id),
                None => !contains_id(self@, id),
            },
    {
        let mut i: usize = 0;
        while i < self.todos.len()
            invariant
                i <= self.todos.len(),
                forall|j: int| 0 <= j < i ==> self.todos@[j].id != id,
            decreases self.todos.len() - i,
        {
            if self.todos[i].id == id {
                return Some(i);
            }
            i = i + 1;
        }
        None
    }

    /// An id carried by no record of the collection: a freshly drawn
    /// random token. In the (negligibly likely) case that the draw
    /// collides with a stored id, fall back to probing the ids
    /// `0 ..= len`, one of which must be free since the collection
    /// holds only `len` records.
    fn fresh_id(&self) -> (id: u128)
        ensures
            !contains_id(self@, id),
    {
        proof {
            use_type_invariant(&*self);
        }
        let id = random_id();
        if self.find_index(id).is_none() {
            return id;
        }
        let n = self.todos.len();
        let mut c: u128 = 0;
        while c < n as u128
            invariant
                n == self@.len(),
                c <= n as u128,
                forall|k: u128| k < c ==> contains_id(self@, k),
            decreases n as u128 - c,
        {
            if self.find_index(c).is_none() {
                return c;
            }
            c = c + 1;
        }
        proof {
            lemma_next_id_free(self@);
        }
        n as u128
    }

    /// Append a new record built from `input` under a fresh id and hand
    /// back a copy of it. The rest of the collection is untouched.
    pub fn create(&mut self, input: CreateTodo) -> (r: Todo)
        ensures
            !contains_id(old(self)@, r.id),
            r.text == input.text,
            r.completed == input.completed,
            final(self)@ == old(self)@.push(r),
            ids_unique(final(self)@),
    {
        proof {
            use_type_invariant(&*self);
        }
        let id = self.fresh_id();
        let todo = Todo { id, text: input.text, completed: input.completed };
        let r = todo.clone();
        proof {
            lemma_push_fresh_preserves_unique(self@, todo);
        }
        let mut todos: Vec<Todo> = Vec::new();
        core::mem::swap(&mut todos, &mut self.todos);
        todos.push(todo);
        self.todos = todos;
        r
    }

    /// A snapshot copy of the whole collection in insertion order,
    /// aliasing nothing of the internal storage.
    pub fn list(&self) -> (r: Vec<Todo>)
        ensures
            r@ == self@,
    {
        let mut out: Vec<Todo> = Vec::new();
        let mut i: usize = 0;
        while i < self.todos.len()
            invariant
                i <= self.todos.len(),
                out@.len() == i,
                forall|k: int| 0 <= k < i ==> out@[k] == self.todos@[k],
            decreases self.todos.len() - i,
        {
            out.push(self.todos[i].clone());
            i = i + 1;
        }
        proof {
            assert(out@ =~= self@);
        }
        out
    }

    /// A copy of the record carrying `id`, or `NotFound` when no record
    /// does. The collection is never changed.
    pub fn get(&self, id: u128) -> (r: Result<Todo, TodoError>)
        ensures
            contains_id(self@, id) ==> r == Ok::<Todo, TodoError>(self@[idx_of(self@, id)]),
            !contains_id(self@, id) ==> r == Err::<Todo, TodoError>(TodoError::NotFound(id)),
    {
        proof {
            use_type_invariant(&*self);
        }
        match self.find_index(id) {
            Some(i) => {
                proof {
                    lemma_idx_of_unique(self@, id, i as int);
                }
                Ok(self.todos[i].clone())
            },
            None => Err(TodoError::NotFound(id)),
        }
    }

    /// Overwrite the fields of the record carrying `id` that are present
    /// in `input`, keep the absent ones and the id, and hand back a copy
    /// of the record after the update. On `NotFound` the collection is
    /// left completely unchanged.
    pub fn update(&mut self, id: u128, input: UpdateTodo) -> (r: Result<Todo, TodoError>)
        ensures
            ids_unique(final(self)@),
            contains_id(old(self)@, id) ==> r == Ok::<Todo, TodoError>(
                apply_update(old(self)@[idx_of(old(self)@, id)], input),
            ),
            contains_id(old(self)@, id) ==> final(self)@ == old(self)@.update(
                idx_of(old(self)@, id),
                apply_update(old(self)@[idx_of(old(self)@, id)], input),
            ),
            !contains_id(old(self)@, id) ==> final(self)@ == old(self)@ && r == Err::<
                Todo,
                TodoError,
            >(TodoError::NotFound(id)),
    {
        proof {
            use_type_invariant(&*self);
        }
        match self.find_index(id) {
            Some(i) => {
                let cur = self.todos[i].clone();
                let new_text = match input.text {
                    Some(text) => text,
                    None => cur.text,
                };
                let new_completed = match input.completed {
                    Some(completed) => completed,
                    None => cur.completed,
                };
                let updated = Todo { id: cur.id, text: new_text, completed: new_completed };
                let r = updated.clone();
                proof {
                    lemma_idx_of_unique(self@, id, i as int);
                    assert(updated == apply_update(self@[i as int], input));
                    lemma_update_preserves_unique(self@, i as int, updated);
                }
                let mut todos: Vec<Todo> = Vec::new();
                core::mem::swap(&mut todos, &mut self.todos);
                todos.set(i, updated);
                self.todos = todos;
                Ok(r)
            },
            None => Err(TodoError::NotFound(id)),
        }
    }

    /// Remove the record carrying `id`, keeping the relative order of the
    /// remaining records. On `NotFound` the collection is left unchanged.
    pub fn delete(&mut self, id: u128) -> (r: Result<(), TodoError>)
        ensures
            ids_unique(final(self)@),
            contains_id(old(self)@, id) ==> final(self)@ == old(self)@.remove(
                idx_of(old(self)@, id),
            ) && r == Ok::<(), TodoError>(()),
            !contains_id(old(self)@, id) ==> final(self)@ == old(self)@ && r == Err::<
                (),
                TodoError,
            >(TodoError::NotFound(id)),
    {
        proof {
            use_type_invariant(&*self);
        }
        match self.find_index(id) {
            Some(i) => {
                proof {
                    lemma_idx_of_unique(self@, id, i as int);
                    lemma_remove_id(self@, id);
                }
                let mut todos: Vec<Todo> = Vec::new();
                core::mem::swap(&mut todos, &mut self.todos);
                todos.remove(i);
                self.todos = todos;
                Ok(())
            },
            None => Err(TodoError::NotFound(id)),
        }
    }
}

} // verus!
