use threeaday::{
    format_task_status, get_config_dir, get_data_dir, get_project_dirs, is_daily_goal_achieved, DAILY_GOAL_COMPLETION_COUNT,
};

#[test]
fn test_daily_goal_completion_count_constant() {
    assert_eq!(DAILY_GOAL_COMPLETION_COUNT, 3);
}

#[test]
fn test_get_project_dirs() {
    let result = get_project_dirs();
    assert!(result.is_ok());

    let proj_dirs = result.unwrap();
    assert!(proj_dirs.project_path().to_string_lossy().contains("threeaday"));
}

#[test]
fn test_format_task_status_completed() {
    let status = format_task_status(true);
    assert_eq!(status, "✓");
}

#[test]
fn test_format_task_status_incomplete() {
    let status = format_task_status(false);
    assert_eq!(status, " ");
}

#[test]
fn test_is_daily_goal_achieved_below_goal() {
    assert!(!is_daily_goal_achieved(0));
    assert!(!is_daily_goal_achieved(1));
    assert!(!is_daily_goal_achieved(2));
}

#[test]
fn test_is_daily_goal_achieved_at_goal() {
    assert!(is_daily_goal_achieved(3));
}

#[test]
fn test_is_daily_goal_achieved_above_goal() {
    assert!(is_daily_goal_achieved(4));
    assert!(is_daily_goal_achieved(10));
    assert!(is_daily_goal_achieved(100));
}

#[test]
fn test_is_daily_goal_achieved_edge_cases() {
    assert!(is_daily_goal_achieved(DAILY_GOAL_COMPLETION_COUNT));
    assert!(!is_daily_goal_achieved(DAILY_GOAL_COMPLETION_COUNT - 1));
    assert!(is_daily_goal_achieved(DAILY_GOAL_COMPLETION_COUNT + 1));
}

#[test]
fn goal_achieved_at_largest_count() {
    assert!(is_daily_goal_achieved(usize::MAX));
}

#[test]
fn data_and_config_dirs_name_the_app() {
    let data_dir = get_data_dir().unwrap();
    let config_dir = get_config_dir().unwrap();
    assert!(data_dir.to_string_lossy().contains("threeaday"));
    assert!(config_dir.to_string_lossy().contains("threeaday"));
    assert!(data_dir.is_absolute());
    assert!(config_dir.is_absolute());
}
