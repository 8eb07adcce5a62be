use vstd::prelude::*;

use crate::clock::{Date, Moment};
use crate::utils::{is_daily_goal_achieved, DAILY_GOAL_COMPLETION_COUNT};

verus! {

/// Seconds of tolerance on either side of the daily reset time.
pub const RESET_TOLERANCE_SECONDS: u32 = 60;

/// Completed and total task counts for one day, as the task store reports them.
#[derive(Clone, Copy, Debug, PartialEq, Eq, Structural)]
pub struct DailySummary {
    pub completed: usize,
    pub total: usize,
}

/// What a reminder says, chosen from the day's summary.
#[derive(Clone, Copy, Debug, PartialEq, Eq, Structural)]
pub enum ReminderMessage {
    /// No task exists yet today.
    AddFirstTask,
    /// Tasks exist but none is completed.
    StartTasks { total: usize },
    /// Some tasks are completed; `remaining` more reach the goal.
    Progress { completed: usize, total: usize, remaining: usize },
}

/// A notification that the scheduler asks to be delivered.
#[derive(Clone, Copy, Debug, PartialEq, Eq, Structural)]
pub enum Notification {
    Reminder(ReminderMessage),
    DailyReset,
    Achievement { completed: usize },
}

/// The three kinds of notification, for counting.
#[derive(Clone, Copy, Debug, PartialEq, Eq, Structural)]
pub enum NotificationKind {
    Reminder,
    DailyReset,
    Achievement,
}

impl Notification {
    pub open spec fn kind(self) -> NotificationKind {
        match self {
            Notification::Reminder(_) => NotificationKind::Reminder,
            Notification::DailyReset => NotificationKind::DailyReset,
            Notification::Achievement { .. } => NotificationKind::Achievement,
        }
    }

    /// Every notification of the scheduler stays on screen until dismissed.
    pub fn is_persistent(&self) -> (r: bool)
        ensures
            r,
    {
        true
    }
}

/// The tunables the scheduler reads: the reminder interval in minutes, the
/// daily reset time in seconds past midnight (`None` when the configured time
/// could not be read, so that the reset notice never fires), and the daily cap
/// on reminders.
#[derive(Clone, Copy, Debug, PartialEq, Eq, Structural)]
pub struct ScheduleSettings {
    pub reminder_interval_minutes: u64,
    pub reset_time: Option<u32>,
    pub max_reminders_per_day: u32,
}

/// The scheduler's day-scoped state.
#[derive(Clone, Copy, Debug, PartialEq, Eq, Structural)]
pub struct SchedulerState {
    /// The date of the last tick.
    pub current_date: Option<Date>,
    pub reminders_sent_today: u32,
    /// The instant of the most recent reminder.
    pub last_reminder_at: Option<u64>,
    pub last_reset_notified_on: Option<Date>,
    pub last_achievement_notified_on: Option<Date>,
}

impl SchedulerState {
    /// The state at process start: everything empty or zero.
    pub open spec fn initial() -> SchedulerState {
        SchedulerState {
            current_date: None,
            reminders_sent_today: 0,
            last_reminder_at: None,
            last_reset_notified_on: None,
            last_achievement_notified_on: None,
        }
    }

    /// The rate limit holds.
    pub open spec fn wf(self, settings: ScheduleSettings) -> bool {
        self.reminders_sent_today <= settings.max_reminders_per_day
    }
}

/// The reminder scheduler: fixed settings and the state that ticks evolve.
#[derive(Clone, Copy, Debug)]
pub struct ReminderScheduler {
    pub settings: ScheduleSettings,
    pub state: SchedulerState,
}

// ---------------------------------------------------------------------------
// The rules, as spec functions over one tick.

/// Day-boundary detection: a tick on another date than the last one starts a
/// new day with a zero reminder count.
pub open spec fn rolled_over(s: SchedulerState, today: Date) -> SchedulerState {
    if s.current_date == Some(today) {
        s
    } else {
        SchedulerState { current_date: Some(today), reminders_sent_today: 0, ..s }
    }
}

/// Whether the reminder interval has passed since the last reminder.
pub open spec fn interval_elapsed(settings: ScheduleSettings, s: SchedulerState, now: Moment) -> bool {
    match s.last_reminder_at {
        None => true,
        Some(t) => now.instant - t >= settings.reminder_interval_minutes * 60,
    }
}

/// The reminder rule, on a summary that the store delivered.
pub open spec fn reminder_due(
    settings: ScheduleSettings,
    s: SchedulerState,
    now: Moment,
    summary: Option<DailySummary>,
) -> bool {
    &&& summary is Some
    &&& s.reminders_sent_today < settings.max_reminders_per_day
    &&& summary.unwrap().completed < DAILY_GOAL_COMPLETION_COUNT
    &&& interval_elapsed(settings, s, now)
}

/// What a reminder says for a summary below the goal.
pub open spec fn reminder_message_for(summary: DailySummary) -> ReminderMessage {
    if summary.total == 0 {
        ReminderMessage::AddFirstTask
    } else if summary.completed == 0 {
        ReminderMessage::StartTasks { total: summary.total }
    } else {
        ReminderMessage::Progress {
            completed: summary.completed,
            total: summary.total,
            remaining: (DAILY_GOAL_COMPLETION_COUNT - summary.completed) as usize,
        }
    }
}

pub open spec fn with_reminder(
    settings: ScheduleSettings,
    s: SchedulerState,
    now: Moment,
    summary: Option<DailySummary>,
) -> SchedulerState {
    if reminder_due(settings, s, now, summary) {
        SchedulerState {
            reminders_sent_today: (s.reminders_sent_today + 1) as u32,
            last_reminder_at: Some(now.instant),
            ..s
        }
    } else {
        s
    }
}

/// Whether a time of day lies within the tolerance window around the reset time.
pub open spec fn in_reset_window(time_of_day: u32, reset_time: u32) -> bool {
    -(RESET_TOLERANCE_SECONDS as int) <= time_of_day - reset_time <= RESET_TOLERANCE_SECONDS
}

/// The daily-reset rule.
pub open spec fn reset_due(settings: ScheduleSettings, s: SchedulerState, now: Moment) -> bool {
    &&& settings.reset_time is Some
    &&& in_reset_window(now.time_of_day, settings.reset_time.unwrap())
    &&& s.last_reset_notified_on != Some(now.today)
}

pub open spec fn with_reset(settings: ScheduleSettings, s: SchedulerState, now: Moment) -> SchedulerState {
    if reset_due(settings, s, now) {
        SchedulerState { last_reset_notified_on: Some(now.today), ..s }
    } else {
        s
    }
}

/// The achievement rule, on a summary that the store delivered.
pub open spec fn achievement_due(s: SchedulerState, now: Moment, summary: Option<DailySummary>) -> bool {
    &&& summary is Some
    &&& summary.unwrap().completed >= DAILY_GOAL_COMPLETION_COUNT
    &&& s.last_achievement_notified_on != Some(now.today)
}

pub open spec fn with_achievement(s: SchedulerState, now: Moment, summary: Option<DailySummary>) -> SchedulerState {
    if achievement_due(s, now, summary) {
        SchedulerState { last_achievement_notified_on: Some(now.today), ..s }
    } else {
        s
    }
}

/// The one-element sequence holding `n` when `fire`, else the empty one.
pub open spec fn emitted_if(fire: bool, n: Notification) -> Seq<Notification> {
    if fire {
        seq![n]
    } else {
        Seq::empty()
    }
}

/// The state after one tick at `now`, with the summary the store delivered
/// (`None` when the query failed).
pub open spec fn next_state(
    settings: ScheduleSettings,
    s: SchedulerState,
    now: Moment,
    summary: Option<DailySummary>,
) -> SchedulerState {
    let s1 = rolled_over(s, now.today);
    let s2 = with_reminder(settings, s1, now, summary);
    let s3 = with_reset(settings, s2, now);
    with_achievement(s3, now, summary)
}

/// The notifications of one tick, in the order reminder, reset, achievement.
pub open spec fn tick_output(
    settings: ScheduleSettings,
    s: SchedulerState,
    now: Moment,
    summary: Option<DailySummary>,
) -> Seq<Notification> {
    let s1 = rolled_over(s, now.today);
    let s2 = with_reminder(settings, s1, now, summary);
    let s3 = with_reset(settings, s2, now);
    emitted_if(
        reminder_due(settings, s1, now, summary),
        Notification::Reminder(reminder_message_for(summary.unwrap())),
    ) + emitted_if(reset_due(settings, s2, now), Notification::DailyReset) + emitted_if(
        achievement_due(s3, now, summary),
        Notification::Achievement { completed: summary.unwrap().completed },
    )
}

fn same_date(a: Option<Date>, b: Date) -> (r: bool)
    ensures
        r == (a == Some(b)),
{
    match a {
        Some(d) => d.day_number == b.day_number,
        None => false,
    }
}

/// The reminder text chosen for a summary below the goal.
pub fn reminder_message(summary: &DailySummary) -> (r: ReminderMessage)
    requires
        summary.completed < DAILY_GOAL_COMPLETION_COUNT,
    ensures
        r == reminder_message_for(*summary),
{
    if summary.total == 0 {
        ReminderMessage::AddFirstTask
    } else if summary.completed == 0 {
        ReminderMessage::StartTasks { total: summary.total }
    } else {
        ReminderMessage::Progress {
            completed: summary.completed,
            total: summary.total,
            remaining: DAILY_GOAL_COMPLETION_COUNT - summary.completed,
        }
    }
}

impl ReminderScheduler {
    pub open spec fn wf(self) -> bool {
        self.state.wf(self.settings)
    }

    /// A scheduler with the given settings and the initial state.
    pub fn new(settings: ScheduleSettings) -> (r: ReminderScheduler)
        ensures
            r.settings == settings,
            r.state == SchedulerState::initial(),
            r.wf(),
    {
        ReminderScheduler {
            settings,
            state: SchedulerState {
                current_date: None,
                reminders_sent_today: 0,
                last_reminder_at: None,
                last_reset_notified_on: None,
                last_achievement_notified_on: None,
            },
        }
    }

    /// Whether `today` differs from the date of the last tick.
    pub fn is_new_day(&self, today: Date) -> (r: bool)
        ensures
            r == (self.state.current_date != Some(today)),
    {
        !same_date(self.state.current_date, today)
    }

    /// Starts a new day: the reminder count goes back to zero.
    pub fn reset_daily_counters(&mut self, today: Date)
        ensures
            final(self).settings == old(self).settings,
            final(self).state == (SchedulerState {
                current_date: Some(today),
                reminders_sent_today: 0,
                ..old(self).state
            }),
            final(self).wf(),
    {
        self.state.current_date = Some(today);
        self.state.reminders_sent_today = 0;
    }

    /// Day-boundary detection: on a tick of another date than the last, the
    /// reminder count is reset; otherwise nothing changes.
    pub fn begin_day(&mut self, today: Date)
        requires
            old(self).wf(),
        ensures
            final(self).settings == old(self).settings,
            final(self).state == rolled_over(old(self).state, today),
            old(self).state.current_date != Some(today) ==> final(self).state.reminders_sent_today == 0,
            final(self).wf(),
    {
        if self.is_new_day(today) {
            self.reset_daily_counters(today);
        }
    }

    /// Whether the reminder interval has passed at `now`.
    pub fn interval_has_elapsed(&self, now: Moment) -> (r: bool)
        ensures
            r == interval_elapsed(self.settings, self.state, now),
    {
        match self.state.last_reminder_at {
            None => true,
            Some(t) => {
                if now.instant < t {
                    false
                } else {
                    let elapsed = now.instant - t;
                    let minutes = self.settings.reminder_interval_minutes;
                    proof {
                        assert((elapsed / 60 >= minutes) <==> (elapsed >= minutes * 60))
                            by (nonlinear_arith);
                    }
                    elapsed / 60 >= minutes
                }
            }
        }
    }

    /// The reminder rule: below the daily cap, below the goal, and the
    /// interval has passed since the last reminder.
    pub fn should_send_reminder(&self, now: Moment, summary: &DailySummary) -> (r: bool)
        ensures
            r == reminder_due(self.settings, self.state, now, Some(*summary)),
    {
        if self.state.reminders_sent_today >= self.settings.max_reminders_per_day {
            return false;
        }
        if is_daily_goal_achieved(summary.completed) {
            return false;
        }
        self.interval_has_elapsed(now)
    }

    /// Fires the reminder rule: when it holds, records the reminder and
    /// returns it.
    pub fn send_reminder(&mut self, now: Moment, summary: &DailySummary) -> (r: Option<Notification>)
        requires
            old(self).wf(),
        ensures
            final(self).settings == old(self).settings,
            final(self).state == with_reminder(old(self).settings, old(self).state, now, Some(*summary)),
            r == (if reminder_due(old(self).settings, old(self).state, now, Some(*summary)) {
                Some(Notification::Reminder(reminder_message_for(*summary)))
            } else {
                None
            }),
            final(self).wf(),
    {
        if !self.should_send_reminder(now, summary) {
            return None;
        }
        let message = reminder_message(summary);
        self.state.reminders_sent_today = self.state.reminders_sent_today + 1;
        self.state.last_reminder_at = Some(now.instant);
        Some(Notification::Reminder(message))
    }

    /// Whether the time of day lies within a minute of the reset time; never,
    /// when the reset time could not be read.
    pub fn is_daily_reset_time(&self, now: Moment) -> (r: bool)
        ensures
            r == (self.settings.reset_time matches Some(t) && in_reset_window(now.time_of_day, t)),
    {
        match self.settings.reset_time {
            None => false,
            Some(reset) => {
                if now.time_of_day >= reset {
                    now.time_of_day - reset <= RESET_TOLERANCE_SECONDS
                } else {
                    reset - now.time_of_day <= RESET_TOLERANCE_SECONDS
                }
            }
        }
    }

    /// The daily-reset rule: in the reset window and not yet notified today.
    pub fn should_send_daily_reset(&self, now: Moment) -> (r: bool)
        ensures
            r == reset_due(self.settings, self.state, now),
    {
        self.is_daily_reset_time(now) && !same_date(self.state.last_reset_notified_on, now.today)
    }

    /// Fires the daily-reset rule: when it holds, records today's date and
    /// returns the notice.
    pub fn send_daily_reset_notification(&mut self, now: Moment) -> (r: Option<Notification>)
        requires
            old(self).wf(),
        ensures
            final(self).settings == old(self).settings,
            final(self).state == with_reset(old(self).settings, old(self).state, now),
            r == (if reset_due(old(self).settings, old(self).state, now) {
                Some(Notification::DailyReset)
            } else {
                None
            }),
            final(self).wf(),
    {
        if !self.should_send_daily_reset(now) {
            return None;
        }
        self.state.last_reset_notified_on = Some(now.today);
        Some(Notification::DailyReset)
    }

    /// Fires the achievement rule: when the goal is met and not yet
    /// acknowledged today, records today's date and returns the notice.
    pub fn check_for_achievements(&mut self, now: Moment, summary: &DailySummary) -> (r: Option<Notification>)
        requires
            old(self).wf(),
        ensures
            final(self).settings == old(self).settings,
            final(self).state == with_achievement(old(self).state, now, Some(*summary)),
            r == (if achievement_due(old(self).state, now, Some(*summary)) {
                Some(Notification::Achievement { completed: summary.completed })
            } else {
                None
            }),
            final(self).wf(),
    {
        if !is_daily_goal_achieved(summary.completed) {
            return None;
        }
        if same_date(self.state.last_achievement_notified_on, now.today) {
            return None;
        }
        self.state.last_achievement_notified_on = Some(now.today);
        Some(Notification::Achievement { completed: summary.completed })
    }

    /// One evaluation pass at `now`, with the summary that the task store
    /// delivered for today (`None` when the query failed: the reminder and
    /// achievement rules then do not fire). Returns the notifications to
    /// dispatch, in the order reminder, reset, achievement.
    pub fn tick(&mut self, now: Moment, summary: Option<DailySummary>) -> (r: Vec<Notification>)
        requires
            old(self).wf(),
        ensures
            final(self).settings == old(self).settings,
            final(self).state == next_state(old(self).settings, old(self).state, now, summary),
            r@ == tick_output(old(self).settings, old(self).state, now, summary),
            final(self).wf(),
    {
        let ghost s0 = self.state;
        let ghost settings = self.settings;
        let mut out: Vec<Notification> = Vec::new();
        self.begin_day(now.today);
        let ghost s1 = self.state;
        if let Some(sm) = &summary {
            if let Some(n) = self.send_reminder(now, sm) {
                out.push(n);
            }
        }
        let ghost s2 = self.state;
        let ghost out1 = out@;
        if let Some(n) = self.send_daily_reset_notification(now) {
            out.push(n);
        }
        let ghost s3 = self.state;
        let ghost out2 = out@;
        if let Some(sm) = &summary {
            if let Some(n) = self.check_for_achievements(now, sm) {
                out.push(n);
            }
        }
        assert(out1 =~= emitted_if(
            reminder_due(settings, s1, now, summary),
            Notification::Reminder(reminder_message_for(summary.unwrap())),
        ));
        assert(out2 =~= out1 + emitted_if(reset_due(settings, s2, now), Notification::DailyReset));
        assert(out@ =~= out2 + emitted_if(
            achievement_due(s3, now, summary),
            Notification::Achievement { completed: summary.unwrap().completed },
        ));
        out
    }
}

} // verus!
