//! Laws of the repository, proved once over the spec-level transitions that
//! the executable operations in `store` are specified against.

use vstd::prelude::*;

use crate::repositories::RepositoryError;
use crate::repositories::Todo;
use crate::repositories::UpdateTodo;
use crate::store::create_result;
use crate::store::delete_result;
use crate::store::find_result;
use crate::store::update_result;
use crate::store::updated_todo;

verus! {

/// Law: a fresh repository, one that no operation has touched, holds no
/// entry: a find of any id meets absence, and `all` — whose contract returns
/// one todo per stored entry — returns the empty sequence.
pub proof fn lemma_fresh_store_is_empty()
    ensures
        run_ops(Seq::<Operation>::empty()).len() == 0,
        forall|k: i32| !run_ops(Seq::<Operation>::empty()).contains_key(k),
{
}

/// Law: a create followed at once by a find of the returned id yields a todo
/// equal to the created one, not completed, with the given text.
pub proof fn lemma_create_then_find(m: Map<i32, Todo>, text: String)
    ensures
        ({
            let (next, todo) = create_result(m, text);
            &&& find_result(next, todo.id) == Some(todo)
            &&& !todo.completed
            &&& todo.text == text
        }),
{
}

/// Law: an update of an id not in the store returns the not-found error
/// carrying that id and leaves the store unchanged.
pub proof fn lemma_update_missing_id(m: Map<i32, Todo>, id: i32, payload: UpdateTodo)
    requires
        !m.contains_key(id),
    ensures
        update_result(m, id, payload).0 == m,
        update_result(m, id, payload).1 == Err::<Todo, RepositoryError>(
            RepositoryError::NotFound(id),
        ),
{
}

/// Law: a delete of an id not in the store returns the not-found error
/// carrying that id and leaves the store unchanged.
pub proof fn lemma_delete_missing_id(m: Map<i32, Todo>, id: i32)
    requires
        !m.contains_key(id),
    ensures
        delete_result(m, id).0 == m,
        delete_result(m, id).1 == Err::<(), RepositoryError>(RepositoryError::NotFound(id)),
{
}

/// Law: an update that carries no text and `completed: Some(true)` changes
/// only the completed flag of that entry: its text and id stay, every other
/// entry stays, and no entry appears or disappears.
pub proof fn lemma_partial_update_completes(m: Map<i32, Todo>, id: i32)
    requires
        m.contains_key(id),
    ensures
        ({
            let payload = UpdateTodo { text: None, completed: Some(true) };
            let (next, updated) = update_result(m, id, payload);
            &&& updated == Ok::<Todo, RepositoryError>(updated_todo(m[id], payload))
            &&& next[id].text == m[id].text
            &&& next[id].completed
            &&& next[id].id == m[id].id
            &&& next.dom() == m.dom()
            &&& forall|k: i32| #[trigger] m.contains_key(k) && k != id ==> next[k] == m[k]
        }),
{
    let payload = UpdateTodo { text: None, completed: Some(true) };
    let next = update_result(m, id, payload).0;
    assert(next.dom() =~= m.dom());
}

/// Law: deleting the same id twice is no stronger than deleting it once: the
/// second call returns the not-found error, and the store after both calls is
/// the store after the first.
pub proof fn lemma_delete_idempotent(m: Map<i32, Todo>, id: i32)
    ensures
        ({
            let (once, _first) = delete_result(m, id);
            let (twice, second) = delete_result(once, id);
            &&& second == Err::<(), RepositoryError>(RepositoryError::NotFound(id))
            &&& twice == once
        }),
{
}

/// A store whose ids are exactly `1 ..= count`, as any sequence of creates
/// alone leaves it.
pub open spec fn canonical(m: Map<i32, Todo>) -> bool {
    forall|k: i32| (#[trigger] m.contains_key(k)) <==> 1 <= k <= m.len()
}

/// Law: creates that run one after another — as concurrent creates do under
/// the write lock — each assign an id that no entry holds yet and keep every
/// earlier entry, so a run of creates from a canonical store yields pairwise
/// distinct ids, all present afterwards. A store that deletions have left
/// non-canonical is excluded: there the assigned id can collide and the
/// create overwrites.
pub proof fn lemma_create_assigns_fresh_id(m: Map<i32, Todo>, text: String)
    requires
        canonical(m),
        m.dom().finite(),
        m.len() < 0x7fff_ffff,
    ensures
        ({
            let (next, todo) = create_result(m, text);
            &&& !m.contains_key(todo.id)
            &&& next.contains_key(todo.id)
            &&& next[todo.id] == todo
            &&& canonical(next)
            &&& next.dom().finite()
            &&& next.len() == m.len() + 1
            &&& forall|k: i32| #[trigger] m.contains_key(k) ==> next.contains_key(k) && next[k]
                == m[k]
        }),
{
    let (next, todo) = create_result(m, text);
    assert(!m.contains_key(todo.id));
    assert(next.len() == m.len() + 1);
    assert forall|k: i32| (#[trigger] next.contains_key(k)) <==> 1 <= k <= next.len() by {
        if next.contains_key(k) {
            assert(k == todo.id || m.contains_key(k));
        }
        if 1 <= k <= next.len() {
            assert(k == todo.id || 1 <= k <= m.len());
        }
    }
}

/// One repository operation, for laws over whole histories. Under the write
/// lock the mutations of concurrent callers serialize into such a sequence.
pub enum Operation {
    Create(String),
    Update(i32, UpdateTodo),
    Delete(i32),
}

/// The store after one operation on state `m`.
pub open spec fn apply_op(m: Map<i32, Todo>, op: Operation) -> Map<i32, Todo> {
    match op {
        Operation::Create(text) => create_result(m, text).0,
        Operation::Update(id, payload) => update_result(m, id, payload).0,
        Operation::Delete(id) => delete_result(m, id).0,
    }
}

/// The store a fresh repository reaches after a sequence of operations.
pub open spec fn run_ops(ops: Seq<Operation>) -> Map<i32, Todo>
    decreases ops.len(),
{
    if ops.len() <= 0 {
        Map::empty()
    } else {
        apply_op(run_ops(ops.drop_last()), ops.last())
    }
}

/// The id that the operation at position `i` assigns, when it is a create.
pub open spec fn created_id_at(ops: Seq<Operation>, i: int) -> Option<i32> {
    match ops[i] {
        Operation::Create(text) => Some(create_result(run_ops(ops.take(i)), text).1.id),
        Operation::Update(_, _) => None,
        Operation::Delete(_) => None,
    }
}

/// Whether the operation is a delete of id `k`.
pub open spec fn deletes(op: Operation, k: i32) -> bool {
    match op {
        Operation::Delete(id) => id == k,
        _ => false,
    }
}

/// The create at position `i` assigned id `k`, and no later operation in the
/// sequence deletes `k`.
pub open spec fn live_since(ops: Seq<Operation>, i: int, k: i32) -> bool {
    &&& 0 <= i < ops.len()
    &&& created_id_at(ops, i) == Some(k)
    &&& forall|j: int| i < j < ops.len() ==> !deletes(#[trigger] ops[j], k)
}

/// A live create in a history stays live when an operation that does not
/// delete its id is appended.
proof fn lemma_live_since_extends(ops: Seq<Operation>, i: int, k: i32)
    requires
        ops.len() >= 1,
        live_since(ops.drop_last(), i, k),
        !deletes(ops.last(), k),
    ensures
        live_since(ops, i, k),
{
    let n = ops.len() as int;
    let prefix = ops.drop_last();
    assert(ops.take(i) =~= prefix.take(i));
    assert(ops[i] == prefix[i]);
    assert(created_id_at(ops, i) == created_id_at(prefix, i));
    assert forall|j: int| i < j < n implies !deletes(#[trigger] ops[j], k) by {
        if j < n - 1 {
            assert(!deletes(prefix[j], k));
            assert(ops[j] == prefix[j]);
        } else {
            assert(ops[j] == ops.last());
        }
    }
}

/// Law: every id present in the store after a sequence of operations was
/// assigned by some create, and no delete of that id has happened since. The
/// contracts of `find` and `all` return only entries of the store they read,
/// so every returned todo carries such an id.
pub proof fn lemma_present_id_has_live_create(ops: Seq<Operation>, k: i32)
    requires
        run_ops(ops).contains_key(k),
    ensures
        exists|i: int| live_since(ops, i, k),
    decreases ops.len(),
{
    if ops.len() == 0 {
        assert(false);
    } else {
        let n = ops.len() as int;
        let prefix = ops.drop_last();
        let m = run_ops(prefix);
        assert(ops.take(n - 1) =~= prefix);
        match ops.last() {
            Operation::Create(text) => {
                let todo = create_result(m, text).1;
                if k == todo.id {
                    assert(created_id_at(ops, n - 1) == Some(k));
                    assert(live_since(ops, n - 1, k));
                } else {
                    assert(m.contains_key(k));
                    lemma_present_id_has_live_create(prefix, k);
                    let i = choose|i: int| live_since(prefix, i, k);
                    lemma_live_since_extends(ops, i, k);
                }
            },
            Operation::Update(_, _) => {
                assert(m.contains_key(k));
                lemma_present_id_has_live_create(prefix, k);
                let i = choose|i: int| live_since(prefix, i, k);
                lemma_live_since_extends(ops, i, k);
            },
            Operation::Delete(id) => {
                assert(m.contains_key(k) && id != k);
                lemma_present_id_has_live_create(prefix, k);
                let i = choose|i: int| live_since(prefix, i, k);
                lemma_live_since_extends(ops, i, k);
            },
        }
    }
}

} // verus!
