//! A daily-momentum task tracker: a quota of three tasks a day, and a
//! reminder scheduler that nudges toward it with rate-limited,
//! one-shot-per-day notifications.
//!
//! - `clock`: dates and clock readings as plain values.
//! - `scheduler`: the rules of one tick, as spec functions, and the scheduler
//!   that follows them.
//! - `laws`: what holds over sequences of ticks.
//! - `config`: the scheduler's tunables and how they are read.
//! - `task`: tasks and the day's summary.
//! - `utils`: the daily goal and the project's directories.

pub mod clock;
pub mod config;
pub mod laws;
pub mod scheduler;
pub mod task;
pub mod utils;

pub use clock::{Date, Moment};
pub use config::{Config, ConfigError, ConfigField};
pub use scheduler::{
    DailySummary, Notification, ReminderMessage, ReminderScheduler, ScheduleSettings,
    SchedulerState,
};
pub use task::{summarize, Task};
pub use utils::{
    format_task_status, get_config_dir, get_data_dir, get_project_dirs, is_daily_goal_achieved,
    DirsError, DAILY_GOAL_COMPLETION_COUNT,
};
