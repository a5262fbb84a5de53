//! The sequential heart of the in-memory repository: a mapping from id to
//! `Todo` with exact contracts for every operation. The concurrent handle in
//! `repositories` keeps one `TodoStore` behind a reader/writer lock.

use std::collections::HashMap;
use vstd::prelude::*;
use vstd::set_lib::lemma_len_subset;
use vstd::set_lib::range_set_properties;
use vstd::std_specs::iter::IteratorSpec;

use crate::repositories::CreateTodo;
use crate::repositories::RepositoryError;
use crate::repositories::Todo;
use crate::repositories::UpdateTodo;

verus! {

broadcast use vstd::std_specs::hash::group_hash_axioms;

/// Every stored entry sits under its own id, and ids are positive.
pub open spec fn store_wf(m: Map<i32, Todo>) -> bool {
    forall|k: i32| #[trigger] m.contains_key(k) ==> m[k].id == k && m[k].wf()
}

/// The id a create from state `m` assigns: the stored count plus one. With
/// every positive id in use no larger id fits in `i32`, and the assignment
/// saturates; a collision overwrites, exactly as one after deletions does.
pub open spec fn assigned_id(m: Map<i32, Todo>) -> i32 {
    if m.len() + 1 <= 0x7fff_ffff {
        (m.len() + 1) as i32
    } else {
        0x7fff_ffff
    }
}

/// The state and returned todo after a create from state `m`.
pub open spec fn create_result(m: Map<i32, Todo>, text: String) -> (Map<i32, Todo>, Todo) {
    let todo = Todo { id: assigned_id(m), text, completed: false };
    (m.insert(todo.id, todo), todo)
}

/// What a find from state `m` returns.
pub open spec fn find_result(m: Map<i32, Todo>, id: i32) -> Option<Todo> {
    if m.contains_key(id) {
        Some(m[id])
    } else {
        None
    }
}

/// The replacement entry a partial update builds: present payload fields
/// overwrite, absent ones keep the stored value; the id never changes.
pub open spec fn updated_todo(current: Todo, payload: UpdateTodo) -> Todo {
    Todo {
        id: current.id,
        text: match payload.text {
            Some(t) => t,
            None => current.text,
        },
        completed: match payload.completed {
            Some(c) => c,
            None => current.completed,
        },
    }
}

/// The state and result after an update of `id` from state `m`.
pub open spec fn update_result(m: Map<i32, Todo>, id: i32, payload: UpdateTodo) -> (
    Map<i32, Todo>,
    Result<Todo, RepositoryError>,
) {
    if m.contains_key(id) {
        let todo = updated_todo(m[id], payload);
        (m.insert(id, todo), Ok(todo))
    } else {
        (m, Err(RepositoryError::NotFound(id)))
    }
}

/// The state and result after a delete of `id` from state `m`.
pub open spec fn delete_result(m: Map<i32, Todo>, id: i32) -> (
    Map<i32, Todo>,
    Result<(), RepositoryError>,
) {
    if m.contains_key(id) {
        (m.remove(id), Ok(()))
    } else {
        (m, Err(RepositoryError::NotFound(id)))
    }
}

/// A well-formed store holds at most `i32::MAX` entries: each key is a
/// distinct positive `i32`.
pub proof fn lemma_store_len_bound(m: Map<i32, Todo>)
    requires
        store_wf(m),
        m.dom().finite(),
    ensures
        m.len() <= 0x7fff_ffff,
{
    broadcast use range_set_properties;

    let bound = Set::<i32>::range_inclusive(1, 0x7fff_ffff);
    assert(m.dom().subset_of(bound));
    assert(!Set::<i32>::range(1, 0x7fff_ffff).contains(0x7fff_ffff));
    assert(bound.len() == 0x7fff_ffff);
    lemma_len_subset(m.dom(), bound);
}

/// The mapping from id to `Todo` that one repository instance owns.
pub struct TodoStore {
    map: HashMap<i32, Todo>,
}

impl View for TodoStore {
    type V = Map<i32, Todo>;

    closed spec fn view(&self) -> Map<i32, Todo> {
        self.map@
    }
}

impl TodoStore {
    pub open spec fn wf(&self) -> bool {
        store_wf(self@)
    }

    pub fn new() -> (store: Self)
        ensures
            store@ == Map::<i32, Todo>::empty(),
            store.wf(),
    {
        TodoStore { map: HashMap::new() }
    }

    /// Insert a fresh `Todo` under the next id and return a copy of it.
    pub fn create(&mut self, payload: CreateTodo) -> (todo: Todo)
        requires
            old(self).wf(),
        ensures
            final(self).wf(),
            todo == create_result(old(self)@, payload.text).1,
            final(self)@ == create_result(old(self)@, payload.text).0,
    {
        proof {
            lemma_store_len_bound(self@);
        }
        let n: usize = self.map.len();
        let id: i32 = if n < 0x7fff_ffff {
            (n + 1) as i32
        } else {
            0x7fff_ffff
        };
        let todo = Todo::new(id, payload.text);
        self.map.insert(id, todo.clone());
        todo
    }

    /// Look the id up and return a copy of its entry, or the absence signal.
    pub fn find(&self, id: i32) -> (found: Option<Todo>)
        ensures
            found == find_result(self@, id),
    {
        match self.map.get(&id) {
            Some(todo) => Some(todo.clone()),
            None => None,
        }
    }

    /// Copies of every stored entry, in no particular order.
    pub fn all(&self) -> (todos: Vec<Todo>)
        requires
            self.wf(),
        ensures
            todos@.len() == self@.len(),
            forall|i: int|
                0 <= i < todos@.len() ==> self@.contains_key(#[trigger] todos@[i].id)
                    && self@[todos@[i].id] == todos@[i],
            forall|k: i32| #[trigger] self@.contains_key(k) ==> todos@.contains(self@[k]),
    {
        let ghost entries = vstd::std_specs::hash::spec_hash_map_iter(&self.map).remaining();
        let mut todos: Vec<Todo> = Vec::new();
        for pair in it: self.map.iter()
            invariant
                it.seq() == entries,
                todos@.len() == it.index(),
                forall|j: int| 0 <= j < todos@.len() ==> todos@[j] == *entries[j].1,
        {
            todos.push(pair.1.clone());
        }
        proof {
            assert forall|i: int|
                0 <= i < todos@.len() implies self@.contains_key(#[trigger] todos@[i].id)
                && self@[todos@[i].id] == todos@[i] by {
                assert(self@.contains_key(*entries[i].0));
                assert(self@[*entries[i].0] == *entries[i].1);
            }
            assert forall|k: i32| #[trigger] self@.contains_key(k) implies todos@.contains(
                self@[k],
            ) by {
                assert(entries.contains((&k, &self@[k])));
                let j = choose|j: int| 0 <= j < entries.len() && entries[j] == (&k, &self@[k]);
                assert(todos@[j] == self@[k]);
            }
        }
        todos
    }

    /// Replace the entry under the id per the partial-update rule and return a
    /// copy of the replacement, or fail with not-found.
    pub fn update(&mut self, id: i32, payload: UpdateTodo) -> (updated: Result<
        Todo,
        RepositoryError,
    >)
        requires
            old(self).wf(),
        ensures
            final(self).wf(),
            updated == update_result(old(self)@, id, payload).1,
            final(self)@ == update_result(old(self)@, id, payload).0,
    {
        let current = match self.map.get(&id) {
            Some(todo) => todo.clone(),
            None => {
                return Err(RepositoryError::NotFound(id));
            },
        };
        let text = match payload.text {
            Some(t) => t,
            None => current.text,
        };
        let completed = match payload.completed {
            Some(c) => c,
            None => current.completed,
        };
        let todo = Todo { id: current.id, text, completed };
        self.map.insert(id, todo.clone());
        Ok(todo)
    }

    /// Remove the entry under the id, or fail with not-found.
    pub fn delete(&mut self, id: i32) -> (deleted: Result<(), RepositoryError>)
        requires
            old(self).wf(),
        ensures
            final(self).wf(),
            deleted == delete_result(old(self)@, id).1,
            final(self)@ == delete_result(old(self)@, id).0,
    {
        match self.map.remove(&id) {
            Some(_) => Ok(()),
            None => {
                proof {
                    assert(self@ =~= old(self)@);
                }
                Err(RepositoryError::NotFound(id))
            },
        }
    }
}

} // verus!
