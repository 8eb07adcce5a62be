use vstd::prelude::*;

verus! {

#[verifier::external_type_specification]
#[verifier::external_body]
pub struct ExProjectDirs(directories::ProjectDirs);

#[verifier::external_type_specification]
#[verifier::external_body]
pub struct ExPathBuf(std::path::PathBuf);

/// Relies on directories::ProjectDirs::from: `None` when no home directory
/// can be found; which it is depends on the environment, so nothing is
/// promised.
pub assume_specification[ directories::ProjectDirs::from ](
    qualifier: &str,
    organization: &str,
    application: &str,
) -> Option<directories::ProjectDirs>;

/// Relies on directories::ProjectDirs::data_dir, copied into an owned path.
#[verifier::external_body]
fn data_dir_of(dirs: &directories::ProjectDirs) -> std::path::PathBuf {
    dirs.data_dir().to_path_buf()
}

/// Relies on directories::ProjectDirs::config_dir, copied into an owned path.
#[verifier::external_body]
fn config_dir_of(dirs: &directories::ProjectDirs) -> std::path::PathBuf {
    dirs.config_dir().to_path_buf()
}

/// The application's name, which names its directories.
pub const APP_NAME: &'static str = "threeaday";

/// Why the project directories could not be had.
#[derive(Clone, Copy, Debug, PartialEq, Eq, Structural)]
pub enum DirsError {
    /// No valid home directory was found.
    NoHomeDirectory,
}

/// The project's directories, named after the application.
pub fn get_project_dirs() -> (r: Result<directories::ProjectDirs, DirsError>)
    ensures
        r matches Err(e) ==> e == DirsError::NoHomeDirectory,
{
    match directories::ProjectDirs::from("", "", APP_NAME) {
        Some(dirs) => Ok(dirs),
        None => Err(DirsError::NoHomeDirectory),
    }
}

/// The directory that holds the task database.
pub fn get_data_dir() -> (r: Result<std::path::PathBuf, DirsError>)
    ensures
        r matches Err(e) ==> e == DirsError::NoHomeDirectory,
{
    let dirs = get_project_dirs()?;
    Ok(data_dir_of(&dirs))
}

/// The directory that holds the configuration file.
pub fn get_config_dir() -> (r: Result<std::path::PathBuf, DirsError>)
    ensures
        r matches Err(e) ==> e == DirsError::NoHomeDirectory,
{
    let dirs = get_project_dirs()?;
    Ok(config_dir_of(&dirs))
}

/// The daily goal: completing three tasks.
pub const DAILY_GOAL_COMPLETION_COUNT: usize = 3;

/// The mark shown in a task list for a completed task.
pub open spec fn status_mark(completed: bool) -> Seq<char> {
    if completed {
        seq!['\u{2713}']
    } else {
        seq![' ']
    }
}

/// Whether `completed_count` tasks reach the daily goal.
pub open spec fn goal_achieved(completed_count: nat) -> bool {
    completed_count >= DAILY_GOAL_COMPLETION_COUNT
}

/// The one-character mark for a task's completion state: a check mark or a blank.
pub fn format_task_status(completed: bool) -> (r: &'static str)
    ensures
        r@ == status_mark(completed),
{
    let r = if completed {
        "\u{2713}"
    } else {
        " "
    };
    proof {
        reveal_strlit("\u{2713}");
        reveal_strlit(" ");
    }
    r
}

/// Whether the daily goal is achieved with `completed_count` completed tasks.
pub fn is_daily_goal_achieved(completed_count: usize) -> (r: bool)
    ensures
        r == goal_achieved(completed_count as nat),
{
    completed_count >= DAILY_GOAL_COMPLETION_COUNT
}

} // verus!
