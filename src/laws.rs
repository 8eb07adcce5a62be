use vstd::prelude::*;

use crate::clock::{Date, Moment};
use crate::scheduler::{
    achievement_due, emitted_if, next_state, reminder_due, reminder_message_for, reset_due,
    rolled_over, tick_output, with_achievement, with_reminder, with_reset, DailySummary,
    Notification, NotificationKind, ScheduleSettings, SchedulerState,
};
use crate::utils::DAILY_GOAL_COMPLETION_COUNT;

verus! {

/// One tick's inputs: the clock reading and the summary the store delivered.
pub type TickInput = (Moment, Option<DailySummary>);

/// How many notifications of kind `k` a sequence holds.
pub open spec fn count_kind(out: Seq<Notification>, k: NotificationKind) -> nat
    decreases out.len(),
{
    if out.len() == 0 {
        0
    } else {
        count_kind(out.drop_last(), k) + if out.last().kind() == k {
            1nat
        } else {
            0nat
        }
    }
}

/// The state after the first `n` ticks of `ticks`, starting from `s`.
pub open spec fn state_after(settings: ScheduleSettings, s: SchedulerState, ticks: Seq<TickInput>, n: nat) -> SchedulerState
    decreases n,
{
    if n == 0 {
        s
    } else {
        let prev = state_after(settings, s, ticks, (n - 1) as nat);
        next_state(settings, prev, ticks[n - 1].0, ticks[n - 1].1)
    }
}

/// The notifications returned by tick `i` of `ticks`, starting from `s`.
pub open spec fn output_at(settings: ScheduleSettings, s: SchedulerState, ticks: Seq<TickInput>, i: nat) -> Seq<Notification> {
    tick_output(settings, state_after(settings, s, ticks, i), ticks[i as int].0, ticks[i as int].1)
}

/// How many notifications of kind `k` the first `n` ticks return.
pub open spec fn returned_count(
    settings: ScheduleSettings,
    s: SchedulerState,
    ticks: Seq<TickInput>,
    n: nat,
    k: NotificationKind,
) -> nat
    decreases n,
{
    if n == 0 {
        0
    } else {
        returned_count(settings, s, ticks, (n - 1) as nat, k) + count_kind(
            output_at(settings, s, ticks, (n - 1) as nat),
            k,
        )
    }
}

/// How many notifications of kind `k` the first `n` ticks return on ticks
/// dated `d`.
pub open spec fn returned_count_on(
    settings: ScheduleSettings,
    s: SchedulerState,
    ticks: Seq<TickInput>,
    n: nat,
    k: NotificationKind,
    d: Date,
) -> nat
    decreases n,
{
    if n == 0 {
        0
    } else {
        returned_count_on(settings, s, ticks, (n - 1) as nat, k, d) + if ticks[n - 1].0.today == d {
            count_kind(output_at(settings, s, ticks, (n - 1) as nat), k)
        } else {
            0nat
        }
    }
}

/// The dates of the ticks never go back.
pub open spec fn dates_non_decreasing(ticks: Seq<TickInput>) -> bool {
    forall|i: int, j: int|
        0 <= i <= j < ticks.len() ==> #[trigger] ticks[i].0.today.day_number
            <= #[trigger] ticks[j].0.today.day_number
}

/// A recorded date lies on or before every tick's date.
pub open spec fn not_after_ticks(recorded: Option<Date>, ticks: Seq<TickInput>, from: int) -> bool {
    recorded matches Some(x) ==> forall|j: int|
        from <= j < ticks.len() ==> x.day_number <= #[trigger] ticks[j].0.today.day_number
}

/// The date that a one-shot rule of kind `k` last fired on.
pub open spec fn last_notified_on(s: SchedulerState, k: NotificationKind) -> Option<Date> {
    match k {
        NotificationKind::DailyReset => s.last_reset_notified_on,
        _ => s.last_achievement_notified_on,
    }
}

proof fn lemma_count_concat(a: Seq<Notification>, b: Seq<Notification>, k: NotificationKind)
    ensures
        count_kind(a + b, k) == count_kind(a, k) + count_kind(b, k),
    decreases b.len(),
{
    if b.len() == 0 {
        assert(a + b =~= a);
    } else {
        assert((a + b).drop_last() =~= a + b.drop_last());
        lemma_count_concat(a, b.drop_last(), k);
    }
}

proof fn lemma_count_emitted(fire: bool, n: Notification, k: NotificationKind)
    ensures
        count_kind(emitted_if(fire, n), k) == if fire && n.kind() == k {
            1nat
        } else {
            0nat
        },
{
    if fire {
        assert(seq![n].drop_last() =~= Seq::<Notification>::empty());
        assert(count_kind(Seq::<Notification>::empty(), k) == 0);
        assert(seq![n].last() == n);
    } else {
        assert(count_kind(Seq::<Notification>::empty(), k) == 0);
    }
}

/// How many notifications of each kind one tick returns: one exactly when its
/// rule fires.
proof fn lemma_tick_counts(
    settings: ScheduleSettings,
    s: SchedulerState,
    now: Moment,
    summary: Option<DailySummary>,
)
    ensures
        ({
            let s1 = rolled_over(s, now.today);
            let s2 = with_reminder(settings, s1, now, summary);
            let s3 = with_reset(settings, s2, now);
            let out = tick_output(settings, s, now, summary);
            &&& count_kind(out, NotificationKind::Reminder) == if reminder_due(settings, s1, now, summary) {
                1nat
            } else {
                0nat
            }
            &&& count_kind(out, NotificationKind::DailyReset) == if reset_due(settings, s2, now) {
                1nat
            } else {
                0nat
            }
            &&& count_kind(out, NotificationKind::Achievement) == if achievement_due(s3, now, summary) {
                1nat
            } else {
                0nat
            }
        }),
{
    let s1 = rolled_over(s, now.today);
    let s2 = with_reminder(settings, s1, now, summary);
    let s3 = with_reset(settings, s2, now);
    let a = emitted_if(
        reminder_due(settings, s1, now, summary),
        Notification::Reminder(reminder_message_for(summary.unwrap())),
    );
    let b = emitted_if(reset_due(settings, s2, now), Notification::DailyReset);
    let c = emitted_if(
        achievement_due(s3, now, summary),
        Notification::Achievement { completed: summary.unwrap().completed },
    );
    let rn = Notification::Reminder(reminder_message_for(summary.unwrap()));
    let an = Notification::Achievement { completed: summary.unwrap().completed };
    lemma_count_concat(a, b, NotificationKind::Reminder);
    lemma_count_concat(a + b, c, NotificationKind::Reminder);
    lemma_count_concat(a, b, NotificationKind::DailyReset);
    lemma_count_concat(a + b, c, NotificationKind::DailyReset);
    lemma_count_concat(a, b, NotificationKind::Achievement);
    lemma_count_concat(a + b, c, NotificationKind::Achievement);
    lemma_count_emitted(reminder_due(settings, s1, now, summary), rn, NotificationKind::Reminder);
    lemma_count_emitted(reminder_due(settings, s1, now, summary), rn, NotificationKind::DailyReset);
    lemma_count_emitted(reminder_due(settings, s1, now, summary), rn, NotificationKind::Achievement);
    lemma_count_emitted(reset_due(settings, s2, now), Notification::DailyReset, NotificationKind::Reminder);
    lemma_count_emitted(reset_due(settings, s2, now), Notification::DailyReset, NotificationKind::DailyReset);
    lemma_count_emitted(reset_due(settings, s2, now), Notification::DailyReset, NotificationKind::Achievement);
    lemma_count_emitted(achievement_due(s3, now, summary), an, NotificationKind::Reminder);
    lemma_count_emitted(achievement_due(s3, now, summary), an, NotificationKind::DailyReset);
    lemma_count_emitted(achievement_due(s3, now, summary), an, NotificationKind::Achievement);
}

proof fn lemma_state_after_wf(settings: ScheduleSettings, s: SchedulerState, ticks: Seq<TickInput>, n: nat)
    requires
        s.wf(settings),
        n <= ticks.len(),
    ensures
        state_after(settings, s, ticks, n).wf(settings),
    decreases n,
{
    if n > 0 {
        lemma_state_after_wf(settings, s, ticks, (n - 1) as nat);
    }
}

/// Within one calendar date, the reminders that have been counted so far
/// today bound the reminders returned.
proof fn lemma_rate_limit_prefix(
    settings: ScheduleSettings,
    s: SchedulerState,
    ticks: Seq<TickInput>,
    d: Date,
    n: nat,
)
    requires
        s.wf(settings),
        n <= ticks.len(),
        forall|i: int| 0 <= i < ticks.len() ==> (#[trigger] ticks[i]).0.today == d,
    ensures
        returned_count(settings, s, ticks, n, NotificationKind::Reminder)
            <= state_after(settings, s, ticks, n).reminders_sent_today,
        n >= 1 ==> state_after(settings, s, ticks, n).current_date == Some(d),
    decreases n,
{
    if n > 0 {
        let m = (n - 1) as nat;
        lemma_rate_limit_prefix(settings, s, ticks, d, m);
        let prev = state_after(settings, s, ticks, m);
        let now = ticks[m as int].0;
        lemma_tick_counts(settings, prev, now, ticks[m as int].1);
    }
}

/// Within one calendar day, the reminders returned over any sequence of ticks
/// never exceed the daily maximum, whatever state the day starts from.
pub proof fn lemma_rate_limit(settings: ScheduleSettings, s: SchedulerState, ticks: Seq<TickInput>, d: Date)
    requires
        s.wf(settings),
        forall|i: int| 0 <= i < ticks.len() ==> (#[trigger] ticks[i]).0.today == d,
    ensures
        returned_count(settings, s, ticks, ticks.len(), NotificationKind::Reminder)
            <= settings.max_reminders_per_day,
{
    lemma_rate_limit_prefix(settings, s, ticks, d, ticks.len());
    lemma_state_after_wf(settings, s, ticks, ticks.len());
}

/// What one tick does to a one-shot rule of kind `k` (reset or achievement):
/// it fires at most once, only when not yet recorded for the tick's date, and
/// then records that date.
proof fn lemma_one_shot_step(
    settings: ScheduleSettings,
    s: SchedulerState,
    now: Moment,
    summary: Option<DailySummary>,
    k: NotificationKind,
)
    requires
        k != NotificationKind::Reminder,
    ensures
        ({
            let c = count_kind(tick_output(settings, s, now, summary), k);
            let after = last_notified_on(next_state(settings, s, now, summary), k);
            &&& c <= 1
            &&& c == 1 ==> last_notified_on(s, k) != Some(now.today) && after == Some(now.today)
            &&& c == 0 ==> after == last_notified_on(s, k)
        }),
{
    lemma_tick_counts(settings, s, now, summary);
}

/// The invariant behind one notice per date for a one-shot rule.
proof fn lemma_one_shot_prefix(
    settings: ScheduleSettings,
    s: SchedulerState,
    ticks: Seq<TickInput>,
    k: NotificationKind,
    d: Date,
    n: nat,
)
    requires
        k != NotificationKind::Reminder,
        n <= ticks.len(),
        dates_non_decreasing(ticks),
        not_after_ticks(last_notified_on(s, k), ticks, 0),
    ensures
        returned_count_on(settings, s, ticks, n, k, d) <= 1,
        last_notified_on(s, k) == Some(d) ==> returned_count_on(settings, s, ticks, n, k, d) == 0,
        not_after_ticks(last_notified_on(state_after(settings, s, ticks, n), k), ticks, n as int),
        (returned_count_on(settings, s, ticks, n, k, d) == 1 || last_notified_on(s, k) == Some(d))
            ==> (last_notified_on(state_after(settings, s, ticks, n), k) == Some(d) || (n >= 1
            && ticks[n - 1].0.today.day_number > d.day_number)),
    decreases n,
{
    if n > 0 {
        let m = (n - 1) as nat;
        lemma_one_shot_prefix(settings, s, ticks, k, d, m);
        let prev = state_after(settings, s, ticks, m);
        let now = ticks[m as int].0;
        lemma_one_shot_step(settings, prev, now, ticks[m as int].1, k);
        if m >= 1 {
            assert(ticks[m - 1].0.today.day_number <= ticks[m as int].0.today.day_number);
        }
    }
}

/// For any sequence of ticks whose dates never go back, starting from a state
/// that recorded no reset notice after the first tick's date, at most one
/// daily-reset notice is returned for each calendar date, and none for the
/// date the state already recorded.
pub proof fn lemma_single_daily_reset(
    settings: ScheduleSettings,
    s: SchedulerState,
    ticks: Seq<TickInput>,
    d: Date,
)
    requires
        dates_non_decreasing(ticks),
        not_after_ticks(s.last_reset_notified_on, ticks, 0),
    ensures
        returned_count_on(settings, s, ticks, ticks.len(), NotificationKind::DailyReset, d) <= 1,
        s.last_reset_notified_on == Some(d) ==> returned_count_on(
            settings,
            s,
            ticks,
            ticks.len(),
            NotificationKind::DailyReset,
            d,
        ) == 0,
{
    lemma_one_shot_prefix(settings, s, ticks, NotificationKind::DailyReset, d, ticks.len());
}

/// For any sequence of ticks whose dates never go back, starting from a state
/// that recorded no achievement notice after the first tick's date, at most
/// one achievement notice is returned for each calendar date, however the
/// completed count moves around the goal, and none for the date the state
/// already recorded.
pub proof fn lemma_single_daily_achievement(
    settings: ScheduleSettings,
    s: SchedulerState,
    ticks: Seq<TickInput>,
    d: Date,
)
    requires
        dates_non_decreasing(ticks),
        not_after_ticks(s.last_achievement_notified_on, ticks, 0),
    ensures
        returned_count_on(settings, s, ticks, ticks.len(), NotificationKind::Achievement, d) <= 1,
        s.last_achievement_notified_on == Some(d) ==> returned_count_on(
            settings,
            s,
            ticks,
            ticks.len(),
            NotificationKind::Achievement,
            d,
        ) == 0,
{
    lemma_one_shot_prefix(settings, s, ticks, NotificationKind::Achievement, d, ticks.len());
}

/// A tick on a new calendar date restarts the day's reminder count, whatever
/// it was the day before: afterwards the count is the number of reminders
/// that tick itself returned, at most one.
pub proof fn lemma_day_rollover_resets_counter(
    settings: ScheduleSettings,
    s: SchedulerState,
    now: Moment,
    summary: Option<DailySummary>,
)
    requires
        s.current_date != Some(now.today),
    ensures
        next_state(settings, s, now, summary).reminders_sent_today == count_kind(
            tick_output(settings, s, now, summary),
            NotificationKind::Reminder,
        ),
        next_state(settings, s, now, summary).reminders_sent_today <= 1,
        next_state(settings, s, now, summary).current_date == Some(now.today),
{
    lemma_tick_counts(settings, s, now, summary);
}

/// Ticking with the goal met and the achievement already acknowledged today
/// returns no achievement notice (and no reminder), and leaves the
/// acknowledgement as it was.
pub proof fn lemma_achieved_tick_is_quiet(
    settings: ScheduleSettings,
    s: SchedulerState,
    now: Moment,
    summary: DailySummary,
)
    requires
        summary.completed >= DAILY_GOAL_COMPLETION_COUNT,
        s.last_achievement_notified_on == Some(now.today),
    ensures
        count_kind(tick_output(settings, s, now, Some(summary)), NotificationKind::Achievement) == 0,
        count_kind(tick_output(settings, s, now, Some(summary)), NotificationKind::Reminder) == 0,
        next_state(settings, s, now, Some(summary)).last_achievement_notified_on == Some(now.today),
{
    lemma_tick_counts(settings, s, now, Some(summary));
}

} // verus!
