use std::cell::RefCell;
use todo_rs::commands::{
    add_todo, append_todo, filter_todos, largest_id, list_todos, mark_done, mark_undone, remove_id,
    remove_todo, set_done_in,
};
use todo_rs::error::TodoError;
use todo_rs::models::{Priority, Todo};
use todo_rs::storage::Storage;

struct FakeStorage {
    todos: RefCell<Vec<Todo>>,
}

impl FakeStorage {
    fn empty() -> Self {
        FakeStorage {
            todos: RefCell::new(vec![]),
        }
    }
}

impl Storage for FakeStorage {
    fn load(&self) -> Result<Vec<Todo>, TodoError> {
        Ok(self.todos.borrow().clone())
    }
    fn save(&self, todos: &[Todo]) -> Result<(), TodoError> {
        *self.todos.borrow_mut() = todos.to_vec();
        Ok(())
    }
}

fn todo(id: u32, text: &str, done: bool) -> Todo {
    Todo {
        id,
        text: text.to_string(),
        done,
        priority: Priority::Low,
    }
}

#[test]
fn test_add_todo() {
    let storage = FakeStorage::empty();
    let todos = add_todo(&storage, "Buy milk".to_string(), Priority::Medium).unwrap();
    assert_eq!(todos.len(), 1);
    assert_eq!(todos[0].text, "Buy milk");
    assert_eq!(todos[0].id, 1);
    assert_eq!(todos[0].priority, Priority::Medium);
}

#[test]
fn test_add_todo_with_priority() {
    let storage = FakeStorage::empty();
    let todos = add_todo(&storage, "Important".to_string(), Priority::High).unwrap();
    assert_eq!(todos[0].priority, Priority::High);
}

#[test]
fn test_remove_nonexistent_returns_none() {
    let storage = FakeStorage::empty();
    let result = remove_todo(&storage, 99).unwrap();
    assert!(result.is_none());
}

#[test]
fn test_mark_done() {
    let storage = FakeStorage::empty();
    add_todo(&storage, "Task".to_string(), Priority::Low).unwrap();
    let todos = mark_done(&storage, 1).unwrap().unwrap();
    assert!(todos[0].done);
}

#[test]
fn test_mark_undone() {
    let storage = FakeStorage::empty();
    add_todo(&storage, "Task".to_string(), Priority::Low).unwrap();
    mark_done(&storage, 1).unwrap();
    let todos = mark_undone(&storage, 1).unwrap().unwrap();
    assert!(!todos[0].done);
}

#[test]
fn test_mark_undone_nonexistent_returns_none() {
    let storage = FakeStorage::empty();
    let result = mark_undone(&storage, 99).unwrap();
    assert!(result.is_none());
}

#[test]
fn test_add_multiple_ids_increment() {
    let storage = FakeStorage::empty();
    add_todo(&storage, "First".to_string(), Priority::Low).unwrap();
    add_todo(&storage, "Second".to_string(), Priority::Low).unwrap();
    let todos = add_todo(&storage, "Third".to_string(), Priority::Low).unwrap();
    assert_eq!(todos[0].id, 1);
    assert_eq!(todos[1].id, 2);
    assert_eq!(todos[2].id, 3);
}

#[test]
fn test_list_filter_done() {
    let storage = FakeStorage::empty();
    add_todo(&storage, "First".to_string(), Priority::Low).unwrap();
    add_todo(&storage, "Second".to_string(), Priority::Low).unwrap();
    mark_done(&storage, 1).unwrap();
    let todos = list_todos(&storage, Some("done")).unwrap();
    assert_eq!(todos.len(), 1);
    assert_eq!(todos[0].id, 1);
}

#[test]
fn test_list_filter_pending() {
    let storage = FakeStorage::empty();
    add_todo(&storage, "First".to_string(), Priority::Low).unwrap();
    add_todo(&storage, "Second".to_string(), Priority::Low).unwrap();
    mark_done(&storage, 1).unwrap();
    let todos = list_todos(&storage, Some("pending")).unwrap();
    assert_eq!(todos.len(), 1);
    assert_eq!(todos[0].id, 2);
}

#[test]
fn test_list_no_filter_returns_all() {
    let storage = FakeStorage::empty();
    add_todo(&storage, "First".to_string(), Priority::Low).unwrap();
    add_todo(&storage, "Second".to_string(), Priority::Low).unwrap();
    let todos = list_todos(&storage, None).unwrap();
    assert_eq!(todos.len(), 2);
}

#[test]
fn test_mark_done_nonexistent_returns_none() {
    let storage = FakeStorage::empty();
    let result = mark_done(&storage, 99).unwrap();
    assert!(result.is_none());
}

#[test]
fn test_remove_todo() {
    let storage = FakeStorage::empty();
    add_todo(&storage, "Task".to_string(), Priority::Low).unwrap();
    let result = remove_todo(&storage, 1).unwrap();
    assert!(result.is_some());
    let todos = list_todos(&storage, None).unwrap();
    assert!(todos.is_empty());
}

#[test]
fn test_unknown_filter_returns_all() {
    let todos = vec![todo(1, "a", true), todo(2, "b", false)];
    let listed = filter_todos(todos, Some("everything"));
    assert_eq!(listed.len(), 2);
    assert_eq!(listed[0].id, 1);
    assert_eq!(listed[1].id, 2);
}

#[test]
fn test_filters_split_the_list() {
    let todos = vec![todo(1, "a", true), todo(2, "b", false), todo(3, "c", true)];
    let done = filter_todos(todos.clone(), Some("done"));
    let pending = filter_todos(todos.clone(), Some("pending"));
    assert_eq!(done.len() + pending.len(), todos.len());
    assert_eq!(done.iter().map(|t| t.id).collect::<Vec<_>>(), vec![1, 3]);
    assert_eq!(pending.iter().map(|t| t.id).collect::<Vec<_>>(), vec![2]);
}

#[test]
fn test_new_id_follows_largest_not_last() {
    let todos = vec![todo(7, "a", false), todo(3, "b", false)];
    assert_eq!(largest_id(&todos), 7);
    let todos = append_todo(todos, "c".to_string(), Priority::High).unwrap();
    assert_eq!(todos.len(), 3);
    assert_eq!(todos[2].id, 8);
    assert!(!todos[2].done);
    assert_eq!(todos[2].text, "c");
    assert_eq!(todos[2].priority, Priority::High);
}

#[test]
fn test_largest_id_of_empty_list_is_zero() {
    assert_eq!(largest_id(&[]), 0);
}

#[test]
fn test_append_fails_when_ids_run_out() {
    let todos = vec![todo(u32::MAX, "a", false)];
    match append_todo(todos, "b".to_string(), Priority::Low) {
        Err(TodoError::IdsExhausted) => {}
        other => panic!("unexpected: {:?}", other.map(|v| v.len())),
    }
}

#[test]
fn test_set_done_marks_only_the_first_match() {
    let todos = vec![todo(1, "a", false), todo(2, "b", false), todo(2, "c", false)];
    let marked = set_done_in(todos, 2, true).unwrap();
    assert!(!marked[0].done);
    assert!(marked[1].done);
    assert!(!marked[2].done);
    assert_eq!(marked[1].text, "b");
}

#[test]
fn test_done_then_undone_restores() {
    let todos = vec![todo(1, "a", false), todo(2, "b", false)];
    let marked = set_done_in(todos, 2, true).unwrap();
    let back = set_done_in(marked, 2, false).unwrap();
    assert!(!back[0].done && !back[1].done);
    assert_eq!(back[1].id, 2);
}

#[test]
fn test_set_done_missing_id_gives_none() {
    let todos = vec![todo(1, "a", false)];
    assert!(set_done_in(todos, 5, true).is_none());
}

#[test]
fn test_remove_drops_every_task_with_the_id() {
    let todos = vec![todo(1, "a", false), todo(2, "b", false), todo(1, "c", true), todo(3, "d", false)];
    let left = remove_id(todos, 1).unwrap();
    assert_eq!(left.iter().map(|t| t.id).collect::<Vec<_>>(), vec![2, 3]);
}

#[test]
fn test_remove_missing_id_gives_none() {
    let todos = vec![todo(1, "a", false)];
    assert!(remove_id(todos, 2).is_none());
}

#[test]
fn test_new_id_after_removal_uses_largest_left() {
    let storage = FakeStorage::empty();
    add_todo(&storage, "First".to_string(), Priority::Low).unwrap();
    add_todo(&storage, "Second".to_string(), Priority::Low).unwrap();
    remove_todo(&storage, 2).unwrap();
    let todos = add_todo(&storage, "Third".to_string(), Priority::Low).unwrap();
    assert_eq!(todos[1].id, 2);
}

#[test]
fn test_mark_done_twice_changes_nothing() {
    let storage = FakeStorage::empty();
    add_todo(&storage, "First".to_string(), Priority::Low).unwrap();
    add_todo(&storage, "Second".to_string(), Priority::High).unwrap();
    let once = mark_done(&storage, 2).unwrap().unwrap();
    let twice = mark_done(&storage, 2).unwrap().unwrap();
    let ids_done = |v: &Vec<Todo>| v.iter().map(|t| (t.id, t.done)).collect::<Vec<_>>();
    assert_eq!(ids_done(&once), ids_done(&twice));
    assert_eq!(ids_done(&storage.todos.borrow()), vec![(1, false), (2, true)]);
}

#[test]
fn test_mark_undone_after_done_restores() {
    let storage = FakeStorage::empty();
    add_todo(&storage, "First".to_string(), Priority::Low).unwrap();
    add_todo(&storage, "Second".to_string(), Priority::Medium).unwrap();
    mark_done(&storage, 1).unwrap().unwrap();
    let back = mark_undone(&storage, 1).unwrap().unwrap();
    assert!(back.iter().all(|t| !t.done));
    assert_eq!(back[0].text, "First");
    assert_eq!(back[1].priority, Priority::Medium);
}

#[test]
fn test_remove_fresh_todo_restores_list() {
    let storage = FakeStorage::empty();
    add_todo(&storage, "First".to_string(), Priority::Low).unwrap();
    add_todo(&storage, "Second".to_string(), Priority::High).unwrap();
    let before: Vec<(u32, String)> = storage.todos.borrow().iter().map(|t| (t.id, t.text.clone())).collect();
    let added = add_todo(&storage, "Third".to_string(), Priority::Medium).unwrap();
    let fresh = added[added.len() - 1].id;
    let after = remove_todo(&storage, fresh).unwrap().unwrap();
    let after: Vec<(u32, String)> = after.iter().map(|t| (t.id, t.text.clone())).collect();
    assert_eq!(after, before);
}
