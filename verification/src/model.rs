//! Record types for the todo collection, together with the specification
//! vocabulary used by every contract: id lookup, id uniqueness, and the
//! meaning of a partial update.

use vstd::prelude::*;
use vstd::relations::injective_on;
use vstd::set_lib::{lemma_int_range, lemma_len_subset, lemma_map_size, set_int_range};

verus! {

/// A single todo record. The `id` is assigned by the store at creation
/// time and never changes afterwards; it is the sole lookup key.
#[derive(Debug, PartialEq, Eq)]
pub struct Todo {
    pub id: u128,
    pub text: String,
    pub completed: bool,
}

impl Clone for Todo {
    fn clone(&self) -> (r: Self)
        ensures
            r == *self,
    {
        Todo { id: self.id, text: self.text.clone(), completed: self.completed }
    }
}

/// Input shape for creation: the store assigns the id itself.
#[derive(Debug)]
pub struct CreateTodo {
    pub text: String,
    pub completed: bool,
}

/// Input shape for a partial update: an absent field means
/// "leave unchanged", and is distinct from a present default value.
#[derive(Debug)]
pub struct UpdateTodo {
    pub text: Option<String>,
    pub completed: Option<bool>,
}

/// The one domain error: no record carries the given id.
#[derive(Debug, PartialEq, Eq)]
pub enum TodoError {
    NotFound(u128),
}

/// Whether some record in `s` carries the id `id`.
pub open spec fn contains_id(s: Seq<Todo>, id: u128) -> bool {
    exists|i: int| 0 <= i < s.len() && s[i].id == id
}

/// The index of the record carrying `id`; meaningful only when
/// `contains_id(s, id)` holds and unambiguous only under `ids_unique(s)`.
pub open spec fn idx_of(s: Seq<Todo>, id: u128) -> int {
    choose|i: int| 0 <= i < s.len() && s[i].id == id
}

/// No two records in `s` share an id.
pub open spec fn ids_unique(s: Seq<Todo>) -> bool {
    forall|i: int, j: int| 0 <= i < j < s.len() ==> s[i].id != s[j].id
}

/// The record `t` after the partial update `u`: present fields overwrite,
/// absent fields are kept, and the id is never altered.
pub open spec fn apply_update(t: Todo, u: UpdateTodo) -> Todo {
    Todo {
        id: t.id,
        text: match u.text {
            Some(text) => text,
            None => t.text,
        },
        completed: match u.completed {
            Some(completed) => completed,
            None => t.completed,
        },
    }
}

/// Under unique ids, a record found at position `i` is the record that
/// `idx_of` denotes: lookup by id is unambiguous.
pub proof fn lemma_idx_of_unique(s: Seq<Todo>, id: u128, i: int)
    requires
        ids_unique(s),
        0 <= i < s.len(),
        s[i].id == id,
    ensures
        contains_id(s, id),
        idx_of(s, id) == i,
{
    assert(contains_id(s, id));
    let k = idx_of(s, id);
    assert(0 <= k < s.len() && s[k].id == id);
    if k < i {
        assert(s[k].id != s[i].id);
    } else if i < k {
        assert(s[i].id != s[k].id);
    }
}

/// Uniqueness is preserved by appending a record whose id is absent:
/// every create appends such a record, so the ids issued by any sequence
/// of create calls are pairwise distinct.
pub proof fn lemma_push_fresh_preserves_unique(s: Seq<Todo>, t: Todo)
    requires
        ids_unique(s),
        !contains_id(s, t.id),
    ensures
        ids_unique(s.push(t)),
{
    let s2 = s.push(t);
    assert forall|i: int, j: int| 0 <= i < j < s2.len() implies s2[i].id != s2[j].id by {
        if j < s.len() {
            assert(s2[i] == s[i] && s2[j] == s[j]);
        } else {
            assert(s2[j] == t);
            assert(s2[i] == s[i]);
            assert(s[i].id != t.id);
        }
    }
}

/// Create-then-get round trip: a freshly appended record is found again
/// under its own id, unchanged, at the end of the collection.
pub proof fn lemma_create_then_get(s: Seq<Todo>, t: Todo)
    requires
        ids_unique(s),
        !contains_id(s, t.id),
    ensures
        contains_id(s.push(t), t.id),
        idx_of(s.push(t), t.id) == s.len(),
        s.push(t)[idx_of(s.push(t), t.id)] == t,
{
    lemma_push_fresh_preserves_unique(s, t);
    lemma_idx_of_unique(s.push(t), t.id, s.len() as int);
}

/// Partial update semantics: absent fields are kept, present fields
/// overwrite, and the id is unchanged in every case.
pub proof fn lemma_partial_update(t: Todo, u: UpdateTodo)
    ensures
        apply_update(t, u).id == t.id,
        u.text is None ==> apply_update(t, u).text == t.text,
        u.text is Some ==> apply_update(t, u).text == u.text->0,
        u.completed is None ==> apply_update(t, u).completed == t.completed,
        u.completed is Some ==> apply_update(t, u).completed == u.completed->0,
{
}

/// Replacing a record by one with the same id leaves uniqueness intact.
pub proof fn lemma_update_preserves_unique(s: Seq<Todo>, i: int, t: Todo)
    requires
        ids_unique(s),
        0 <= i < s.len(),
        t.id == s[i].id,
    ensures
        ids_unique(s.update(i, t)),
{
    let s2 = s.update(i, t);
    assert forall|a: int, b: int| 0 <= a < b < s2.len() implies s2[a].id != s2[b].id by {
        assert(s2[a].id == s[a].id);
        assert(s2[b].id == s[b].id);
    }
}

/// Deleting the record that carries `id` removes exactly that one record:
/// the collection shrinks by one, every other record survives in order,
/// and the id is no longer present.
pub proof fn lemma_remove_id(s: Seq<Todo>, id: u128)
    requires
        ids_unique(s),
        contains_id(s, id),
    ensures
        ids_unique(s.remove(idx_of(s, id))),
        s.remove(idx_of(s, id)).len() == s.len() - 1,
        !contains_id(s.remove(idx_of(s, id)), id),
        forall|k: int|
            0 <= k < idx_of(s, id) ==> #[trigger] s.remove(idx_of(s, id))[k] == s[k],
        forall|k: int|
            idx_of(s, id) <= k < s.len() - 1 ==> #[trigger] s.remove(idx_of(s, id))[k] == s[k + 1],
{
    let i = idx_of(s, id);
    assert(0 <= i < s.len() && s[i].id == id);
    let s2 = s.remove(i);
    s.remove_ensures(i);
    assert forall|a: int, b: int| 0 <= a < b < s2.len() implies s2[a].id != s2[b].id by {
        if b < i {
            assert(s2[a] == s[a] && s2[b] == s[b]);
        } else if a < i {
            assert(s2[a] == s[a] && s2[b] == s[b + 1]);
        } else {
            assert(s2[a] == s[a + 1] && s2[b] == s[b + 1]);
        }
    }
    assert forall|k: int| 0 <= k < s2.len() implies s2[k].id != id by {
        if k < i {
            assert(s2[k] == s[k]);
            assert(s[k].id != s[i].id);
        } else {
            assert(s2[k] == s[k + 1]);
            assert(s[i].id != s[k + 1].id);
        }
    }
}

/// A collection of `n` records with pairwise-distinct ids cannot carry
/// every id in `0 ..= n`: those are `n + 1` candidates and only `n`
/// records. So when every id below `n` is taken, the id `n` itself is
/// still free.
pub(crate) proof fn lemma_next_id_free(s: Seq<Todo>)
    requires
        ids_unique(s),
        s.len() <= usize::MAX,
        forall|k: u128| k < s.len() ==> contains_id(s, k),
    ensures
        !contains_id(s, s.len() as u128),
{
    if contains_id(s, s.len() as u128) {
        let n = s.len() as int;
        let f = |k: int| idx_of(s, k as u128);
        let a = set_int_range(0, n + 1);
        lemma_int_range(0, n + 1);
        assert forall|k: int| a.contains(k) implies 0 <= #[trigger] f(k) < n && s[f(k)].id == k
            as u128 by {
            assert(contains_id(s, k as u128));
            assert(0 <= idx_of(s, k as u128) < s.len() && s[idx_of(s, k as u128)].id == k as u128);
        }
        assert(injective_on(f, a)) by {
            assert forall|k1: int, k2: int|
                a.contains(k1) && a.contains(k2) && #[trigger] f(k1) == #[trigger] f(
                    k2,
                ) implies k1 == k2 by {
                assert(s[f(k1)].id == k1 as u128);
                assert(s[f(k2)].id == k2 as u128);
                assert((k1 as u128) as int == k1);
                assert((k2 as u128) as int == k2);
            }
        }
        let b = a.map(f);
        lemma_map_size(a, b, f);
        assert(b.subset_of(set_int_range(0, n))) by {
            assert forall|y: int| b.contains(y) implies 0 <= y < n by {
                let k = choose|k: int| a.contains(k) && f(k) == y;
                assert(a.contains(k));
                assert(0 <= f(k) < n);
            }
        }
        lemma_int_range(0, n);
        lemma_len_subset(b, set_int_range(0, n));
    }
}

} // verus!
