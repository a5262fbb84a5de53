use todos::repositories::CreateTodo;
use todos::repositories::RepositoryError;
use todos::repositories::Todo;
use todos::repositories::TodoRepository;
use todos::repositories::TodoRepositoryForMemory;
use todos::repositories::UpdateTodo;

fn create_payload(text: &str) -> CreateTodo {
    CreateTodo { text: text.to_string() }
}

#[test]
fn fresh_store_returns_no_todos() {
    let repo = TodoRepositoryForMemory::new();
    assert_eq!(repo.all(), Vec::<Todo>::new());
}

#[test]
fn create_then_find_returns_equal_todo() {
    let repo = TodoRepositoryForMemory::new();
    let created = repo.create(create_payload("a"));
    assert!(!created.completed);
    assert_eq!(created.text, "a".to_string());
    assert_eq!(repo.find(created.id), Some(created));
}

#[test]
fn end_to_end_scenario() {
    let repo = TodoRepositoryForMemory::new();

    let created = repo.create(create_payload("todo text"));
    let expected = Todo { id: 1, text: "todo text".to_string(), completed: false };
    assert_eq!(created, expected);

    assert_eq!(repo.find(1), Some(expected.clone()));
    assert_eq!(repo.all(), vec![expected]);

    let updated = repo
        .update(
            1,
            UpdateTodo { text: Some("updated todo text".to_string()), completed: Some(true) },
        )
        .unwrap();
    let expected_updated = Todo { id: 1, text: "updated todo text".to_string(), completed: true };
    assert_eq!(updated, expected_updated);

    assert_eq!(repo.delete(1), Ok(()));
    assert_eq!(repo.find(1), None);
}

#[test]
fn update_missing_id_returns_not_found() {
    let repo = TodoRepositoryForMemory::new();
    let result = repo.update(1, UpdateTodo { text: Some("x".to_string()), completed: None });
    assert_eq!(result, Err(RepositoryError::NotFound(1)));
    assert_eq!(repo.all(), Vec::<Todo>::new());
}

#[test]
fn delete_missing_id_returns_not_found() {
    let repo = TodoRepositoryForMemory::new();
    let kept = repo.create(create_payload("kept"));
    assert_eq!(repo.delete(42), Err(RepositoryError::NotFound(42)));
    assert_eq!(repo.all(), vec![kept]);
}

#[test]
fn partial_update_changes_only_completed() {
    let repo = TodoRepositoryForMemory::new();
    let created = repo.create(create_payload("a"));
    let updated = repo.update(created.id, UpdateTodo { text: None, completed: Some(true) }).unwrap();
    assert_eq!(updated.id, created.id);
    assert_eq!(updated.text, "a".to_string());
    assert!(updated.completed);
    assert_eq!(repo.find(created.id), Some(updated));
}

#[test]
fn partial_update_changes_only_text() {
    let repo = TodoRepositoryForMemory::new();
    let created = repo.create(create_payload("a"));
    let updated = repo
        .update(created.id, UpdateTodo { text: Some("b".to_string()), completed: None })
        .unwrap();
    assert_eq!(updated.id, created.id);
    assert_eq!(updated.text, "b".to_string());
    assert!(!updated.completed);
    assert_eq!(repo.find(created.id), Some(updated));
}

#[test]
fn second_delete_returns_not_found() {
    let repo = TodoRepositoryForMemory::new();
    let created = repo.create(create_payload("a"));
    assert_eq!(repo.delete(created.id), Ok(()));
    let after_first = repo.all();
    assert_eq!(repo.delete(created.id), Err(RepositoryError::NotFound(created.id)));
    assert_eq!(repo.all(), after_first);
}

#[test]
fn clones_share_one_store() {
    let repo = TodoRepositoryForMemory::new();
    let handle = repo.clone();

    let first = repo.create(create_payload("first"));
    let second = handle.create(create_payload("second"));
    assert_ne!(first.id, second.id);

    let mut ids: Vec<i32> = repo.all().iter().map(|t| t.id).collect();
    ids.sort();
    assert_eq!(ids, vec![first.id, second.id]);
    assert_eq!(handle.find(first.id), Some(first));
    assert_eq!(repo.find(second.id), Some(second));
}

#[test]
fn creates_assign_distinct_ids() {
    let repo = TodoRepositoryForMemory::new();
    let mut ids: Vec<i32> = Vec::new();
    for n in 0..10 {
        let created = repo.create(create_payload(&format!("task {}", n)));
        assert!(!ids.contains(&created.id));
        ids.push(created.id);
    }
    assert_eq!(ids, (1..=10).collect::<Vec<i32>>());
    assert_eq!(repo.all().len(), 10);
}

#[test]
fn create_after_delete_reuses_id_and_overwrites() {
    // The assigned id is the stored count plus one, so after a deletion a
    // create can collide with a surviving entry and overwrite it.
    let repo = TodoRepositoryForMemory::new();
    let first = repo.create(create_payload("first"));
    let second = repo.create(create_payload("second"));
    assert_eq!(repo.delete(first.id), Ok(()));

    let third = repo.create(create_payload("third"));
    assert_eq!(third.id, second.id);
    assert_eq!(repo.all(), vec![third.clone()]);
    assert_eq!(repo.find(second.id), Some(third));
}

#[test]
fn not_found_error_carries_offending_id() {
    let repo = TodoRepositoryForMemory::new();
    match repo.delete(7) {
        Err(RepositoryError::NotFound(id)) => assert_eq!(id, 7),
        other => panic!("expected a not-found error, got {:?}", other),
    }
}

#[test]
fn todo_new_starts_not_completed() {
    let todo = Todo::new(5, "x".to_string());
    assert_eq!(todo.id, 5);
    assert_eq!(todo.text, "x".to_string());
    assert!(!todo.completed);
}
