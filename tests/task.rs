use chrono::{Datelike, Utc};
use threeaday::{summarize, Date, Task};

fn today() -> Date {
    Date::from_day_number(Utc::now().date_naive().num_days_from_ce())
}

#[test]
fn test_task_new() {
    let today = today();
    let task = Task::new(1, "Test task".to_string(), false, today);

    assert_eq!(task.id, 1);
    assert_eq!(task.text, "Test task");
    assert!(!task.completed);
    assert_eq!(task.created_at, today);
}

#[test]
fn test_task_new_completed() {
    let today = today();
    let task = Task::new(42, "Completed task".to_string(), true, today);

    assert_eq!(task.id, 42);
    assert_eq!(task.text, "Completed task");
    assert!(task.completed);
    assert_eq!(task.created_at, today);
}

#[test]
fn test_is_completed_false() {
    let today = today();
    let task = Task::new(1, "Incomplete task".to_string(), false, today);

    assert!(!task.is_completed());
}

#[test]
fn test_is_completed_true() {
    let today = today();
    let task = Task::new(1, "Complete task".to_string(), true, today);

    assert!(task.is_completed());
}

#[test]
fn test_mark_completed() {
    let today = today();
    let mut task = Task::new(1, "Task to complete".to_string(), false, today);

    assert!(!task.is_completed());

    task.mark_completed();

    assert!(task.is_completed());
    assert!(task.completed);
}

#[test]
fn test_mark_completed_idempotent() {
    let today = today();
    let mut task = Task::new(1, "Already complete".to_string(), true, today);

    assert!(task.is_completed());

    task.mark_completed();

    assert!(task.is_completed());
    assert!(task.completed);
}

#[test]
fn test_task_clone() {
    let today = today();
    let task = Task::new(5, "Original task".to_string(), false, today);
    let cloned_task = task.clone();

    assert_eq!(task.id, cloned_task.id);
    assert_eq!(task.text, cloned_task.text);
    assert_eq!(task.completed, cloned_task.completed);
    assert_eq!(task.created_at, cloned_task.created_at);
}

#[test]
fn test_task_fields_independent_after_clone() {
    let today = today();
    let original = Task::new(1, "Original".to_string(), false, today);
    let mut cloned = original.clone();

    cloned.mark_completed();

    assert!(!original.is_completed());
    assert!(cloned.is_completed());
}

#[test]
fn test_task_empty_text() {
    let today = today();
    let task = Task::new(0, "".to_string(), false, today);

    assert_eq!(task.text, "");
    assert_eq!(task.id, 0);
}

#[test]
fn summary_of_empty_list() {
    let s = summarize(&Vec::new());
    assert_eq!(s.completed, 0);
    assert_eq!(s.total, 0);
}

#[test]
fn summary_counts_completed_tasks() {
    let d = Date::from_day_number(739000);
    let tasks = vec![
        Task::new(1, "task 1".to_string(), true, d),
        Task::new(2, "task 2".to_string(), false, d),
        Task::new(3, "task 3".to_string(), true, d),
    ];
    let s = summarize(&tasks);
    assert_eq!(s.completed, 2);
    assert_eq!(s.total, 3);
}
