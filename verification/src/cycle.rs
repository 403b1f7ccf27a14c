//! One poll over the listed tasks: who is notified, and with what.

use vstd::prelude::*;
use crate::clock::{now_utc, parse_rfc3339, parsed_instant, Instant};
use crate::commands::Task;
use crate::decision::{decide, spec_decide, Config, Decision};

verus! {

/// A message for the user: a title over the task's description.
#[derive(Debug, Clone)]
pub struct Notification {
    pub title: String,
    pub body: String,
    pub nag: bool,
}

/// A notification as plain text.
pub ghost struct NotificationView {
    pub title: Seq<char>,
    pub body: Seq<char>,
    pub nag: bool,
}

impl View for Notification {
    type V = NotificationView;

    open spec fn view(&self) -> NotificationView {
        NotificationView { title: self.title@, body: self.body@, nag: self.nag }
    }
}

/// The title over a reminder.
pub open spec fn reminder_title() -> Seq<char> {
    "\u{1F4E3} Reminder"@
}

/// The title over a nag.
pub open spec fn nag_title() -> Seq<char> {
    "\u{1F621} Nagging!"@
}

/// The notification that brings up `task`: a nag or the first reminder.
pub open spec fn spec_notification_for(task: Task, nag: bool) -> NotificationView {
    NotificationView {
        title: if nag {
            nag_title()
        } else {
            reminder_title()
        },
        body: task.description@,
        nag,
    }
}

/// Builds the notification that brings up `task`. The two kinds differ in
/// their title; the body is the task's description either way.
pub fn notification_for(task: &Task, nag: bool) -> (notification: Notification)
    ensures
        notification@ == spec_notification_for(*task, nag),
{
    let title = if nag {
        String::from_str("\u{1F621} Nagging!")
    } else {
        String::from_str("\u{1F4E3} Reminder")
    };
    Notification { title, body: task.description.clone(), nag }
}

/// What a poll makes of one listed task.
#[derive(Clone, Copy, Debug, PartialEq, Eq, Structural)]
pub enum Verdict {
    /// The task is unresolved and its time cannot be read: it is skipped, and
    /// reported as damaged.
    Unreadable,
    /// The task is resolved, or was due before the day began: the poll does
    /// not look at it.
    OutOfScope,
    /// The task is a candidate, and this is the decision on it.
    Settled(Decision),
}

/// The verdict on a task, given what its time was read as.
pub open spec fn spec_verdict(
    resolved: bool,
    scheduled_at: Option<Instant>,
    boundary: Instant,
    now: Instant,
    config: Config,
) -> Verdict {
    if resolved {
        Verdict::OutOfScope
    } else {
        match scheduled_at {
            None => Verdict::Unreadable,
            Some(due) => if due@ < boundary@ {
                Verdict::OutOfScope
            } else {
                Verdict::Settled(spec_decide(due, now, config))
            },
        }
    }
}

/// Judges one listed task. `scheduled_at` is what the task's time was read
/// as, `boundary` the start of the day and `now` the instant of the poll.
pub fn evaluate_task(
    task: &Task,
    scheduled_at: Option<Instant>,
    boundary: Instant,
    now: Instant,
    config: &Config,
) -> (verdict: Verdict)
    ensures
        verdict == spec_verdict(task.resolved, scheduled_at, boundary, now, *config),
        task.resolved ==> verdict == Verdict::OutOfScope,
{
    if task.resolved {
        return Verdict::OutOfScope;
    }
    match scheduled_at {
        None => Verdict::Unreadable,
        Some(due) => {
            if due.nanos_since_epoch() < boundary.nanos_since_epoch() {
                Verdict::OutOfScope
            } else {
                Verdict::Settled(decide(due, now, config))
            }
        },
    }
}

/// The verdict of the poll at `now` on `task`, its time read from its text.
pub open spec fn task_verdict(task: Task, boundary: Instant, now: Instant, config: Config)
    -> Verdict {
    spec_verdict(task.resolved, parsed_instant(task.scheduled_at@), boundary, now, config)
}

/// The notification that the poll at `now` owes for `task`, if any: a
/// reminder or a nag where that was decided on it.
pub open spec fn task_notification(task: Task, boundary: Instant, now: Instant, config: Config)
    -> Option<NotificationView> {
    match task_verdict(task, boundary, now, config) {
        Verdict::Settled(Decision::Reminder) => Some(spec_notification_for(task, false)),
        Verdict::Settled(Decision::Nag) => Some(spec_notification_for(task, true)),
        _ => None,
    }
}

/// The notifications of one poll over `tasks`, in the order of the tasks.
pub open spec fn cycle_notifications(
    tasks: Seq<Task>,
    boundary: Instant,
    now: Instant,
    config: Config,
) -> Seq<NotificationView>
    decreases tasks.len(),
{
    if tasks.len() == 0 {
        Seq::empty()
    } else {
        let before = cycle_notifications(tasks.drop_last(), boundary, now, config);
        match task_notification(tasks.last(), boundary, now, config) {
            Some(notification) => before.push(notification),
            None => before,
        }
    }
}

/// The ids of the unresolved tasks among `tasks` whose time cannot be read,
/// in the order of the tasks.
pub open spec fn cycle_unreadable(tasks: Seq<Task>) -> Seq<i64>
    decreases tasks.len(),
{
    if tasks.len() == 0 {
        Seq::empty()
    } else {
        let before = cycle_unreadable(tasks.drop_last());
        if !tasks.last().resolved && parsed_instant(tasks.last().scheduled_at@).is_none() {
            before.push(tasks.last().id)
        } else {
            before
        }
    }
}

/// What one poll found: the notifications to show, in order, and the ids of
/// the tasks it had to skip because their time cannot be read.
#[derive(Debug, Clone)]
pub struct CycleReport {
    pub notifications: Vec<Notification>,
    pub unreadable: Vec<i64>,
}

/// The notifications of a list as plain text.
pub open spec fn notification_views(notifications: Seq<Notification>) -> Seq<NotificationView> {
    notifications.map_values(|n: Notification| n@)
}

/// Runs one poll over `tasks` as of `now`.
///
/// Each task is judged by itself: one that cannot be read is reported and
/// does not keep the others from being judged.
pub fn plan_cycle(tasks: &Vec<Task>, boundary: Instant, now: Instant, config: &Config) -> (report:
    CycleReport)
    ensures
        notification_views(report.notifications@) == cycle_notifications(
            tasks@,
            boundary,
            now,
            *config,
        ),
        report.unreadable@ == cycle_unreadable(tasks@),
{
    let mut notifications: Vec<Notification> = Vec::new();
    let mut unreadable: Vec<i64> = Vec::new();
    let mut index: usize = 0;
    assert(tasks@.subrange(0, 0) =~= Seq::<Task>::empty());
    assert(notification_views(notifications@) =~= Seq::<NotificationView>::empty());
    while index < tasks.len()
        invariant
            index <= tasks.len(),
            notification_views(notifications@) == cycle_notifications(
                tasks@.subrange(0, index as int),
                boundary,
                now,
                *config,
            ),
            unreadable@ == cycle_unreadable(tasks@.subrange(0, index as int)),
        decreases tasks.len() - index,
    {
        let task = &tasks[index];
        let ghost seen = tasks@.subrange(0, index as int);
        let ghost grown = tasks@.subrange(0, index as int + 1);
        let ghost shown = notifications@;
        assert(grown.drop_last() =~= seen);
        assert(grown.last() == *task);
        let scheduled_at = if task.resolved {
            None
        } else {
            parse_rfc3339(task.scheduled_at.as_str())
        };
        match evaluate_task(task, scheduled_at, boundary, now, config) {
            Verdict::Unreadable => {
                unreadable.push(task.id);
            },
            Verdict::Settled(Decision::Reminder) => {
                notifications.push(notification_for(task, false));
                assert(notification_views(notifications@) =~= notification_views(shown).push(
                    spec_notification_for(*task, false),
                ));
            },
            Verdict::Settled(Decision::Nag) => {
                notifications.push(notification_for(task, true));
                assert(notification_views(notifications@) =~= notification_views(shown).push(
                    spec_notification_for(*task, true),
                ));
            },
            _ => {},
        }
        index += 1;
    }
    assert(tasks@.subrange(0, index as int) =~= tasks@);
    CycleReport { notifications, unreadable }
}

/// Runs one poll over `tasks` as of the present instant, which it reads from
/// the clock once for all of them.
pub fn check_and_notify_tasks(tasks: &Vec<Task>, boundary: Instant, config: &Config) -> (report:
    CycleReport)
    ensures
        exists|now: Instant|
            notification_views(report.notifications@) == #[trigger] cycle_notifications(
                tasks@,
                boundary,
                now,
                *config,
            ),
        report.unreadable@ == cycle_unreadable(tasks@),
{
    let now = now_utc();
    plan_cycle(tasks, boundary, now, config)
}

/// A poll judges task by task: the notifications of a list are those of its
/// front part followed by those of its back part.
pub proof fn law_cycle_goes_task_by_task(
    front: Seq<Task>,
    back: Seq<Task>,
    boundary: Instant,
    now: Instant,
    config: Config,
)
    ensures
        cycle_notifications(front + back, boundary, now, config) == cycle_notifications(
            front,
            boundary,
            now,
            config,
        ) + cycle_notifications(back, boundary, now, config),
    decreases back.len(),
{
    let whole = cycle_notifications(front + back, boundary, now, config);
    let first = cycle_notifications(front, boundary, now, config);
    let second = cycle_notifications(back, boundary, now, config);
    if back.len() == 0 {
        assert(front + back =~= front);
        assert(whole =~= first + second);
    } else {
        law_cycle_goes_task_by_task(front, back.drop_last(), boundary, now, config);
        assert((front + back).drop_last() =~= front + back.drop_last());
        assert((front + back).last() == back.last());
        assert(whole =~= first + second);
    }
}

/// A task that is not listed is not notified: without the task at `index`
/// the poll shows what it shows for the tasks before it and after it, and
/// nothing else.
pub proof fn law_unlisted_task_is_not_notified(
    tasks: Seq<Task>,
    index: int,
    boundary: Instant,
    now: Instant,
    config: Config,
)
    requires
        0 <= index < tasks.len(),
    ensures
        cycle_notifications(tasks.remove(index), boundary, now, config) == cycle_notifications(
            tasks.take(index),
            boundary,
            now,
            config,
        ) + cycle_notifications(tasks.skip(index + 1), boundary, now, config),
{
    assert(tasks.remove(index) =~= tasks.take(index) + tasks.skip(index + 1));
    law_cycle_goes_task_by_task(tasks.take(index), tasks.skip(index + 1), boundary, now, config);
}

/// A resolved task is as good as unlisted: whenever the poll runs, it shows
/// what it would show had the task been left out of the list.
pub proof fn law_resolved_task_is_not_notified(
    tasks: Seq<Task>,
    index: int,
    boundary: Instant,
    now: Instant,
    config: Config,
)
    requires
        0 <= index < tasks.len(),
        tasks[index].resolved,
    ensures
        task_notification(tasks[index], boundary, now, config).is_none(),
        cycle_notifications(tasks, boundary, now, config) == cycle_notifications(
            tasks.remove(index),
            boundary,
            now,
            config,
        ),
        cycle_unreadable(tasks) == cycle_unreadable(tasks.remove(index)),
{
    let front = tasks.take(index);
    let own = seq![tasks[index]];
    let back = tasks.skip(index + 1);
    assert(tasks =~= (front + own) + back);
    assert(own.drop_last() =~= Seq::<Task>::empty());
    assert(own.last() == tasks[index]);
    assert(cycle_notifications(own.drop_last(), boundary, now, config)
        =~= Seq::<NotificationView>::empty());
    assert(cycle_notifications(own, boundary, now, config) =~= Seq::<NotificationView>::empty());
    law_cycle_goes_task_by_task(front, own, boundary, now, config);
    law_cycle_goes_task_by_task(front + own, back, boundary, now, config);
    law_unlisted_task_is_not_notified(tasks, index, boundary, now, config);
    assert(cycle_notifications(front + own, boundary, now, config) =~= cycle_notifications(
        front,
        boundary,
        now,
        config,
    ));
    assert(cycle_unreadable(own.drop_last()) =~= Seq::<i64>::empty());
    assert(cycle_unreadable(own) =~= Seq::<i64>::empty());
    lemma_unreadable_goes_task_by_task(front, own);
    lemma_unreadable_goes_task_by_task(front + own, back);
    lemma_unreadable_goes_task_by_task(front, back);
    assert(tasks.remove(index) =~= front + back);
    assert(cycle_unreadable(front + own) =~= cycle_unreadable(front));
}

/// The unreadable tasks of a list are those of its front part followed by
/// those of its back part.
pub proof fn lemma_unreadable_goes_task_by_task(front: Seq<Task>, back: Seq<Task>)
    ensures
        cycle_unreadable(front + back) == cycle_unreadable(front) + cycle_unreadable(back),
    decreases back.len(),
{
    if back.len() == 0 {
        assert(front + back =~= front);
        assert(cycle_unreadable(front + back) =~= cycle_unreadable(front) + cycle_unreadable(
            back,
        ));
    } else {
        lemma_unreadable_goes_task_by_task(front, back.drop_last());
        assert((front + back).drop_last() =~= front + back.drop_last());
        assert((front + back).last() == back.last());
        assert(cycle_unreadable(front + back) =~= cycle_unreadable(front) + cycle_unreadable(
            back,
        ));
    }
}

/// A task whose time lies ahead is not notified, however the poll is
/// configured: moving a task's time into the future silences it until that
/// time has come.
pub proof fn law_future_task_is_not_notified(
    task: Task,
    boundary: Instant,
    now: Instant,
    config: Config,
)
    requires
        config.well_formed(),
        parsed_instant(task.scheduled_at@) matches Some(due) && now@ < due@,
    ensures
        task_notification(task, boundary, now, config).is_none(),
{
}

} // verus!
