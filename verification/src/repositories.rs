//! The `Todo` data model, its payload types, the repository contract, and a
//! concurrent in-memory repository.

use std::sync::Arc;
use vstd::prelude::*;
use vstd::rwlock::ReadHandle;
use vstd::rwlock::RwLock;
use vstd::rwlock::WriteHandle;

use crate::store::TodoStore;

verus! {

/// One task. Its `id` is positive and unique within a store; `text` and
/// `completed` are the mutable content.
#[derive(Debug, PartialEq, Eq)]
pub struct Todo {
    pub id: i32,
    pub text: String,
    pub completed: bool,
}

impl Todo {
    /// A well-formed `Todo` carries a positive id.
    pub open spec fn wf(&self) -> bool {
        1 <= self.id
    }

    pub fn new(id: i32, text: String) -> (todo: Self)
        ensures
            todo == (Todo { id, text, completed: false }),
    {
        Self { id, text, completed: false }
    }
}

impl Clone for Todo {
    fn clone(&self) -> (cloned: Self)
        ensures
            cloned == *self,
    {
        Todo { id: self.id, text: self.text.clone(), completed: self.completed }
    }
}

/// Payload for creating a task: the text alone; the store assigns the id.
#[derive(Debug, PartialEq, Eq)]
pub struct CreateTodo {
    pub text: String,
}

impl Clone for CreateTodo {
    fn clone(&self) -> (cloned: Self)
        ensures
            cloned == *self,
    {
        CreateTodo { text: self.text.clone() }
    }
}

/// Payload for a partial update: a field left as `None` keeps the stored
/// value, a field given as `Some` overwrites it.
#[derive(Debug, PartialEq, Eq)]
pub struct UpdateTodo {
    pub text: Option<String>,
    pub completed: Option<bool>,
}

impl Clone for UpdateTodo {
    fn clone(&self) -> (cloned: Self)
        ensures
            cloned == *self,
    {
        UpdateTodo {
            text: match &self.text {
                Some(t) => Some(t.clone()),
                None => None,
            },
            completed: self.completed,
        }
    }
}

/// The one domain-level failure: no entry with the offending id.
#[derive(Debug, PartialEq, Eq)]
pub enum RepositoryError {
    NotFound(i32),
}

/// The capability set any storage backend must offer. Implementations are
/// safely shareable across concurrent callers, and a clone of one is a handle
/// to the same underlying store, not an independent copy.
pub trait TodoRepository: Clone + std::marker::Send + std::marker::Sync + 'static {
    /// Store a fresh task built from the payload and return a copy of it;
    /// creation never fails.
    fn create(&self, payload: CreateTodo) -> (todo: Todo)
        ensures
            todo.wf(),
            todo.text == payload.text,
            !todo.completed,
    ;

    /// Return a copy of the entry with this id, or absence — never an error.
    fn find(&self, id: i32) -> (found: Option<Todo>)
        ensures
            found matches Some(todo) ==> todo.wf() && todo.id == id,
    ;

    /// Return copies of every stored entry, in no particular order.
    fn all(&self) -> (todos: Vec<Todo>)
        ensures
            forall|i: int| 0 <= i < todos@.len() ==> (#[trigger] todos@[i]).wf(),
    ;

    /// Apply a partial update to the entry with this id, or fail with
    /// not-found when no such entry exists.
    fn update(&self, id: i32, payload: UpdateTodo) -> (updated: Result<Todo, RepositoryError>)
        ensures
            match updated {
                Ok(todo) => {
                    &&& todo.wf()
                    &&& todo.id == id
                    &&& (payload.text matches Some(t) ==> todo.text == t)
                    &&& (payload.completed matches Some(c) ==> todo.completed == c)
                },
                Err(e) => e == RepositoryError::NotFound(id),
            },
    ;

    /// Remove the entry with this id, or fail with not-found when no such
    /// entry exists.
    fn delete(&self, id: i32) -> (deleted: Result<(), RepositoryError>)
        ensures
            deleted matches Err(e) ==> e == RepositoryError::NotFound(id),
    ;
}

/// The invariant each value stored in a repository lock meets: the lock never
/// holds anything but a well-formed store.
pub open spec fn store_inv() -> spec_fn(TodoStore) -> bool {
    |s: TodoStore| s.wf()
}

/// In-memory storage: one store behind a reader/writer lock, shared by every
/// clone of the handle.
pub struct TodoRepositoryForMemory {
    store: Arc<RwLock<TodoStore, spec_fn(TodoStore) -> bool>>,
}

impl TodoRepositoryForMemory {
    #[verifier::type_invariant]
    spec fn type_inv(&self) -> bool {
        self.store.pred() == store_inv()
    }

    /// A repository over a fresh, empty store.
    pub fn new() -> (repo: Self) {
        let store = TodoStore::new();
        let lock = RwLock::new(store, Ghost(store_inv()));
        TodoRepositoryForMemory { store: Arc::new(lock) }
    }

    /// Acquire the shared store in write (exclusive) mode.
    fn write_store_ref(&self) -> (acquired: (
        TodoStore,
        WriteHandle<'_, TodoStore, spec_fn(TodoStore) -> bool>,
    ))
        ensures
            acquired.0.wf(),
            acquired.1.rwlock().pred() == store_inv(),
    {
        proof {
            use_type_invariant(self);
        }
        self.store.acquire_write()
    }

    /// Acquire the shared store in read (shared) mode.
    fn read_store_ref(&self) -> (handle: ReadHandle<'_, TodoStore, spec_fn(TodoStore) -> bool>)
        ensures
            handle.view().wf(),
    {
        proof {
            use_type_invariant(self);
        }
        self.store.acquire_read()
    }
}

/// Relies on std's `Arc::clone`: the clone is another pointer to the same
/// allocation, hence the same value as the original.
#[verifier::external_body]
fn clone_arc(
    store: &Arc<RwLock<TodoStore, spec_fn(TodoStore) -> bool>>,
) -> (cloned: Arc<RwLock<TodoStore, spec_fn(TodoStore) -> bool>>)
    ensures
        cloned == *store,
{
    Arc::clone(store)
}

impl Clone for TodoRepositoryForMemory {
    /// A clone is another handle to the same store, not a copy of it.
    fn clone(&self) -> (cloned: Self)
        ensures
            cloned == *self,
    {
        proof {
            use_type_invariant(self);
        }
        TodoRepositoryForMemory { store: clone_arc(&self.store) }
    }
}

impl TodoRepository for TodoRepositoryForMemory {
    fn create(&self, payload: CreateTodo) -> (todo: Todo) {
        let (mut store, write_handle) = self.write_store_ref();
        let todo = store.create(payload);
        write_handle.release_write(store);
        todo
    }

    fn find(&self, id: i32) -> (found: Option<Todo>) {
        let read_handle = self.read_store_ref();
        let found = read_handle.borrow().find(id);
        read_handle.release_read();
        found
    }

    fn all(&self) -> (todos: Vec<Todo>) {
        let read_handle = self.read_store_ref();
        let todos = read_handle.borrow().all();
        read_handle.release_read();
        todos
    }

    fn update(&self, id: i32, payload: UpdateTodo) -> (updated: Result<Todo, RepositoryError>) {
        let (mut store, write_handle) = self.write_store_ref();
        let updated = store.update(id, payload);
        write_handle.release_write(store);
        updated
    }

    fn delete(&self, id: i32) -> (deleted: Result<(), RepositoryError>) {
        let (mut store, write_handle) = self.write_store_ref();
        let deleted = store.delete(id);
        write_handle.release_write(store);
        deleted
    }
}

} // verus!
