use threeaday::{
    Config, DailySummary, Date, Moment, Notification, ReminderMessage, ReminderScheduler,
    ScheduleSettings,
};

const DAY: i32 = 739000;

fn default_scheduler() -> ReminderScheduler {
    ReminderScheduler::new(Config::default().schedule_settings())
}

fn at(day: i32, hour: u32, minute: u32, second: u32) -> Moment {
    let tod = hour * 3600 + minute * 60 + second;
    Moment::new(day as u64 * 86400 + tod as u64, Date::from_day_number(day), hour, minute, second)
        .unwrap()
}

fn summary(completed: usize, total: usize) -> Option<DailySummary> {
    Some(DailySummary { completed, total })
}

fn count(out: &[Notification], pred: fn(&Notification) -> bool) -> usize {
    out.iter().filter(|n| pred(n)).count()
}

fn is_reminder(n: &Notification) -> bool {
    matches!(n, Notification::Reminder(_))
}

fn is_reset(n: &Notification) -> bool {
    matches!(n, Notification::DailyReset)
}

fn is_achievement(n: &Notification) -> bool {
    matches!(n, Notification::Achievement { .. })
}

#[test]
fn scenario_first_task_reminder() {
    let mut s = default_scheduler();
    let out = s.tick(at(DAY, 10, 0, 0), summary(0, 0));
    assert_eq!(out, vec![Notification::Reminder(ReminderMessage::AddFirstTask)]);
    assert_eq!(s.state.reminders_sent_today, 1);
}

#[test]
fn scenario_goal_met_at_start() {
    let mut s = default_scheduler();
    let out = s.tick(at(DAY, 10, 0, 0), summary(3, 3));
    assert_eq!(out, vec![Notification::Achievement { completed: 3 }]);
    assert_eq!(count(&out, is_reminder), 0);
}

#[test]
fn scenario_rate_limited() {
    let mut s = default_scheduler();
    s.tick(at(DAY, 8, 0, 0), summary(1, 3));
    s.state.reminders_sent_today = 8;
    let out = s.tick(at(DAY, 12, 0, 0), summary(1, 3));
    assert_eq!(count(&out, is_reminder), 0);
    assert_eq!(s.state.reminders_sent_today, 8);
}

#[test]
fn scenario_rate_limited_by_ticks() {
    let mut s = default_scheduler();
    let mut sent = 0;
    for k in 0..8u32 {
        let minutes = k * 45;
        let out = s.tick(at(DAY, 7 + minutes / 60, minutes % 60, 0), summary(1, 3));
        sent += count(&out, is_reminder);
    }
    assert_eq!(sent, 8);
    assert_eq!(s.state.reminders_sent_today, 8);
    let out = s.tick(at(DAY, 18, 0, 0), summary(1, 3));
    assert_eq!(count(&out, is_reminder), 0);
}

#[test]
fn scenario_daily_reset_once() {
    let mut s = default_scheduler();
    let out = s.tick(at(DAY, 6, 0, 30), None);
    assert_eq!(out, vec![Notification::DailyReset]);
    let out = s.tick(at(DAY, 6, 1, 10), None);
    assert_eq!(count(&out, is_reset), 0);
}

#[test]
fn reset_window_edges() {
    let mut s = default_scheduler();
    assert!(!s.should_send_daily_reset(at(DAY, 5, 58, 59)));
    assert!(s.should_send_daily_reset(at(DAY, 5, 59, 0)));
    assert!(s.should_send_daily_reset(at(DAY, 6, 1, 0)));
    assert!(!s.should_send_daily_reset(at(DAY, 6, 1, 1)));
    s.tick(at(DAY, 6, 0, 0), None);
    assert!(!s.should_send_daily_reset(at(DAY, 6, 0, 30)));
    assert!(s.should_send_daily_reset(at(DAY + 1, 6, 0, 30)));
}

#[test]
fn many_ticks_in_reset_window_give_one_reset() {
    let mut s = default_scheduler();
    let mut resets = 0;
    for sec in 0..120u32 {
        let out = s.tick(at(DAY, 5, 59, 0).clone_with_offset(sec), None);
        resets += count(&out, is_reset);
    }
    assert_eq!(resets, 1);
}

trait Offset {
    fn clone_with_offset(&self, sec: u32) -> Moment;
}

impl Offset for Moment {
    fn clone_with_offset(&self, sec: u32) -> Moment {
        let tod = self.time_of_day + sec;
        Moment::new(self.instant + sec as u64, self.today, tod / 3600, tod / 60 % 60, tod % 60)
            .unwrap()
    }
}

#[test]
fn unreadable_reset_time_never_fires() {
    let mut config = Config::default();
    config.daily_reset_time = "not a time".to_string();
    let mut s = ReminderScheduler::new(config.schedule_settings());
    let out = s.tick(at(DAY, 6, 0, 0), None);
    assert!(out.is_empty());
}

#[test]
fn achievement_once_per_day_despite_fluctuation() {
    let mut s = default_scheduler();
    let mut achievements = 0;
    let completed = [2, 3, 2, 3, 4, 1, 3];
    for (k, c) in completed.iter().enumerate() {
        let out = s.tick(at(DAY, 9 + k as u32, 0, 0), summary(*c, 5));
        achievements += count(&out, is_achievement);
    }
    assert_eq!(achievements, 1);
    let out = s.tick(at(DAY + 1, 9, 0, 0), summary(3, 3));
    assert_eq!(count(&out, is_achievement), 1);
}

#[test]
fn achieved_and_acknowledged_tick_is_quiet() {
    let mut s = default_scheduler();
    s.tick(at(DAY, 9, 0, 0), summary(3, 3));
    assert_eq!(s.state.last_achievement_notified_on, Some(Date::from_day_number(DAY)));
    let out = s.tick(at(DAY, 11, 0, 0), summary(4, 4));
    assert!(out.is_empty());
    assert_eq!(s.state.last_achievement_notified_on, Some(Date::from_day_number(DAY)));
}

#[test]
fn rate_limit_over_a_day_of_minute_ticks() {
    let settings = ScheduleSettings {
        reminder_interval_minutes: 0,
        reset_time: None,
        max_reminders_per_day: 5,
    };
    let mut s = ReminderScheduler::new(settings);
    let mut reminders = 0;
    for m in 0..(24 * 60u32) {
        let out = s.tick(at(DAY, m / 60, m % 60, 0), summary(0, 2));
        reminders += count(&out, is_reminder);
    }
    assert_eq!(reminders, 5);
}

#[test]
fn day_rollover_resets_counter() {
    let mut s = default_scheduler();
    s.tick(at(DAY, 20, 0, 0), summary(1, 3));
    s.state.reminders_sent_today = 8;
    let out = s.tick(at(DAY + 1, 0, 0, 30), None);
    assert!(out.is_empty());
    assert_eq!(s.state.reminders_sent_today, 0);
    assert_eq!(s.state.current_date, Some(Date::from_day_number(DAY + 1)));
    let out = s.tick(at(DAY + 1, 9, 0, 0), summary(1, 3));
    assert_eq!(count(&out, is_reminder), 1);
    assert_eq!(s.state.reminders_sent_today, 1);
}

#[test]
fn rollover_tick_counts_its_own_reminder() {
    let mut s = default_scheduler();
    s.tick(at(DAY, 20, 0, 0), summary(1, 3));
    s.state.reminders_sent_today = 8;
    let out = s.tick(at(DAY + 1, 9, 0, 0), summary(1, 3));
    assert_eq!(count(&out, is_reminder), 1);
    assert_eq!(s.state.reminders_sent_today, 1);
}

#[test]
fn begin_day_clears_count_only_on_new_date() {
    let mut s = default_scheduler();
    s.begin_day(Date::from_day_number(DAY));
    s.state.reminders_sent_today = 4;
    s.begin_day(Date::from_day_number(DAY));
    assert_eq!(s.state.reminders_sent_today, 4);
    assert!(s.is_new_day(Date::from_day_number(DAY + 1)));
    s.begin_day(Date::from_day_number(DAY + 1));
    assert_eq!(s.state.reminders_sent_today, 0);
}

#[test]
fn reminder_waits_for_interval() {
    let mut s = default_scheduler();
    let out = s.tick(at(DAY, 9, 0, 0), summary(0, 2));
    assert_eq!(out, vec![Notification::Reminder(ReminderMessage::StartTasks { total: 2 })]);
    let out = s.tick(at(DAY, 9, 44, 59), summary(0, 2));
    assert!(out.is_empty());
    let out = s.tick(at(DAY, 9, 45, 0), summary(1, 2));
    assert_eq!(
        out,
        vec![Notification::Reminder(ReminderMessage::Progress {
            completed: 1,
            total: 2,
            remaining: 2
        })]
    );
    assert_eq!(s.state.last_reminder_at, Some(at(DAY, 9, 45, 0).instant));
}

#[test]
fn store_failure_skips_reminder_and_achievement() {
    let mut s = default_scheduler();
    let out = s.tick(at(DAY, 10, 0, 0), None);
    assert!(out.is_empty());
    assert_eq!(s.state.reminders_sent_today, 0);
    assert_eq!(s.state.last_reminder_at, None);
    assert_eq!(s.state.last_achievement_notified_on, None);
}

#[test]
fn all_three_rules_in_order() {
    let settings = ScheduleSettings {
        reminder_interval_minutes: 45,
        reset_time: Some(6 * 3600),
        max_reminders_per_day: 8,
    };
    let mut s = ReminderScheduler::new(settings);
    // One summary cannot be both below and at the goal, so a reminder and an
    // achievement never share a tick; each can share one with the reset.
    let out = s.tick(at(DAY, 6, 0, 0), summary(2, 3));
    assert_eq!(
        out,
        vec![
            Notification::Reminder(ReminderMessage::Progress { completed: 2, total: 3, remaining: 1 }),
            Notification::DailyReset,
        ]
    );
    let out = s.tick(at(DAY + 1, 6, 0, 0), summary(3, 3));
    assert_eq!(out, vec![Notification::DailyReset, Notification::Achievement { completed: 3 }]);
}

#[test]
fn zero_cap_never_reminds() {
    let settings = ScheduleSettings {
        reminder_interval_minutes: 45,
        reset_time: None,
        max_reminders_per_day: 0,
    };
    let mut s = ReminderScheduler::new(settings);
    let out = s.tick(at(DAY, 9, 0, 0), summary(0, 0));
    assert!(out.is_empty());
}

#[test]
fn clock_reading_rejects_bad_time() {
    assert!(Moment::new(0, Date::from_day_number(1), 24, 0, 0).is_none());
    assert!(Moment::new(0, Date::from_day_number(1), 23, 60, 0).is_none());
    assert!(Moment::new(0, Date::from_day_number(1), 23, 59, 60).is_none());
    assert_eq!(Moment::new(0, Date::from_day_number(1), 23, 59, 59).unwrap().time_of_day, 86399);
}

#[test]
fn notifications_are_persistent() {
    assert!(Notification::DailyReset.is_persistent());
}
