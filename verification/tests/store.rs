use todos::repositories::CreateTodo;
use todos::repositories::RepositoryError;
use todos::repositories::Todo;
use todos::repositories::UpdateTodo;
use todos::store::TodoStore;

#[test]
fn store_create_find_and_all() {
    let mut store = TodoStore::new();
    assert_eq!(store.all(), Vec::<Todo>::new());

    let created = store.create(CreateTodo { text: "a".to_string() });
    assert_eq!(created, Todo { id: 1, text: "a".to_string(), completed: false });
    assert_eq!(store.find(1), Some(created.clone()));
    assert_eq!(store.find(2), None);
    assert_eq!(store.all(), vec![created]);
}

#[test]
fn store_update_and_delete() {
    let mut store = TodoStore::new();
    let created = store.create(CreateTodo { text: "a".to_string() });

    let updated = store
        .update(created.id, UpdateTodo { text: Some("b".to_string()), completed: Some(true) })
        .unwrap();
    assert_eq!(updated, Todo { id: created.id, text: "b".to_string(), completed: true });
    assert_eq!(store.find(created.id), Some(updated));

    assert_eq!(store.delete(created.id), Ok(()));
    assert_eq!(store.find(created.id), None);
    assert_eq!(store.delete(created.id), Err(RepositoryError::NotFound(created.id)));
}
