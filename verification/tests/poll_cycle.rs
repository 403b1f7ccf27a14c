use naggy::clock::{day_boundary, resolve_day_start, DayStart, Instant};
use naggy::commands::Task;
use naggy::cycle::{
    check_and_notify_tasks, evaluate_task, notification_for, plan_cycle, Verdict,
};
use naggy::decision::{Config, Decision};

const REMINDER: &str = "\u{1F4E3} Reminder";
const NAGGING: &str = "\u{1F621} Nagging!";

// 2024-03-10T12:00:00Z
const NOON: i64 = 1_710_072_000;
// 2024-03-10T00:00:00Z
const MIDNIGHT: i64 = 1_710_028_800;

fn task(id: i64, description: &str, scheduled_at: &str, resolved: bool) -> Task {
    Task {
        id,
        description: description.to_string(),
        scheduled_at: scheduled_at.to_string(),
        resolved,
    }
}

fn noon() -> Instant {
    Instant::new(NOON, 0)
}

fn midnight() -> Instant {
    Instant::new(MIDNIGHT, 0)
}

#[test]
fn reminder_carries_the_description() {
    let water = task(1, "water the plants", "2024-03-10T12:00:00Z", false);
    let shown = notification_for(&water, false);
    assert_eq!(shown.title, REMINDER);
    assert_eq!(shown.body, "water the plants");
    assert!(!shown.nag);
}

#[test]
fn nag_has_its_own_title_and_the_same_body() {
    let water = task(1, "water the plants", "2024-03-10T12:00:00Z", false);
    let shown = notification_for(&water, true);
    assert_eq!(shown.title, NAGGING);
    assert_eq!(shown.body, "water the plants");
    assert!(shown.nag);
    assert_ne!(shown.title, notification_for(&water, false).title);
}

#[test]
fn task_created_for_now_gets_one_reminder_at_the_next_poll() {
    let config = Config::production();
    let tasks = vec![task(7, "call the dentist", "2024-03-10T12:00:00Z", false)];
    let mut shown = Vec::new();
    let mut tick = NOON + 4;
    while tick < NOON + 3600 {
        let report = plan_cycle(&tasks, midnight(), Instant::new(tick, 0), &config);
        for notification in report.notifications {
            if !notification.nag {
                shown.push((tick, notification.title, notification.body));
            }
        }
        tick += 10;
    }
    assert_eq!(shown, vec![(NOON + 4, REMINDER.to_string(), "call the dentist".to_string())]);
}

#[test]
fn task_overdue_by_the_nag_period_gets_one_nag_as_it_crosses() {
    let config = Config::production();
    // due five minutes before noon
    let tasks = vec![task(8, "pay the rent", "2024-03-10T11:55:00Z", false)];
    let mut nags = Vec::new();
    let mut tick = NOON - 147;
    while tick < NOON + 290 {
        let report = plan_cycle(&tasks, midnight(), Instant::new(tick, 0), &config);
        assert!(report.unreadable.is_empty());
        for notification in report.notifications {
            assert!(notification.nag);
            assert_eq!(notification.title, NAGGING);
            assert_eq!(notification.body, "pay the rent");
            nags.push(tick);
        }
        tick += 10;
    }
    assert_eq!(nags, vec![NOON + 3]);
    let half = plan_cycle(&tasks, midnight(), Instant::new(NOON - 150, 0), &config);
    assert!(half.notifications.is_empty());
}

#[test]
fn moving_a_task_into_the_future_silences_it() {
    let config = Config::production();
    let mut tasks = vec![task(9, "renew the passport", "2024-03-10T11:55:00Z", false)];
    let before = plan_cycle(&tasks, midnight(), noon(), &config);
    assert_eq!(before.notifications.len(), 1);
    tasks[0].scheduled_at = "2031-01-01T00:00:00Z".to_string();
    let mut tick = NOON;
    while tick < NOON + 1200 {
        let report = plan_cycle(&tasks, midnight(), Instant::new(tick, 0), &config);
        assert!(report.notifications.is_empty());
        assert!(report.unreadable.is_empty());
        tick += 10;
    }
    // 2031-01-01T00:00:05Z
    let arrived = plan_cycle(&tasks, midnight(), Instant::new(1_924_992_005, 0), &config);
    assert_eq!(arrived.notifications.len(), 1);
    assert_eq!(arrived.notifications[0].title, REMINDER);
}

#[test]
fn resolved_task_is_never_notified() {
    let config = Config::production();
    let mut tasks = vec![task(3, "feed the cat", "2024-03-10T12:00:00Z", false)];
    assert_eq!(plan_cycle(&tasks, midnight(), noon(), &config).notifications.len(), 1);
    tasks[0].resolved = true;
    let mut tick = NOON - 20;
    while tick < NOON + 900 {
        let report = plan_cycle(&tasks, midnight(), Instant::new(tick, 0), &config);
        assert!(report.notifications.is_empty());
        tick += 10;
    }
    tasks[0].resolved = true;
    assert!(plan_cycle(&tasks, midnight(), noon(), &config).notifications.is_empty());
}

#[test]
fn deleted_task_leaves_the_others_as_they_were() {
    let config = Config::production();
    let mut tasks = vec![
        task(1, "first", "2024-03-10T11:55:00Z", false),
        task(2, "second", "2024-03-10T12:00:00Z", false),
        task(3, "third", "2024-03-10T11:59:55Z", false),
    ];
    let all = plan_cycle(&tasks, midnight(), noon(), &config);
    let bodies: Vec<String> = all.notifications.iter().map(|n| n.body.clone()).collect();
    assert_eq!(bodies, vec!["first", "second", "third"]);
    tasks.remove(1);
    let rest = plan_cycle(&tasks, midnight(), noon(), &config);
    let bodies: Vec<String> = rest.notifications.iter().map(|n| n.body.clone()).collect();
    assert_eq!(bodies, vec!["first", "third"]);
}

#[test]
fn poll_keeps_the_order_of_the_list_and_tells_the_kinds_apart() {
    let config = Config::production();
    let tasks = vec![
        task(1, "overdue", "2024-03-10T11:55:00Z", false),
        task(2, "waiting", "2024-03-10T11:58:00Z", false),
        task(3, "done", "2024-03-10T12:00:00Z", true),
        task(4, "garbled", "next tuesday", false),
        task(5, "just due", "2024-03-10T11:59:51.500Z", false),
        task(6, "yesterday", "2024-03-09T12:00:00Z", false),
        task(7, "later", "2024-03-10T12:00:00.000000001Z", false),
        task(8, "abroad", "2024-03-10T21:00:00+09:00", false),
        task(9, "garbled and done", "", true),
        task(10, "empty", "", false),
    ];
    let report = plan_cycle(&tasks, midnight(), noon(), &config);
    let shown: Vec<(String, String, bool)> = report
        .notifications
        .iter()
        .map(|n| (n.title.clone(), n.body.clone(), n.nag))
        .collect();
    assert_eq!(
        shown,
        vec![
            (NAGGING.to_string(), "overdue".to_string(), true),
            (REMINDER.to_string(), "just due".to_string(), false),
            (REMINDER.to_string(), "abroad".to_string(), false),
        ]
    );
    assert_eq!(report.unreadable, vec![4, 10]);
}

#[test]
fn empty_list_gives_an_empty_report() {
    let report = plan_cycle(&Vec::new(), midnight(), noon(), &Config::production());
    assert!(report.notifications.is_empty());
    assert!(report.unreadable.is_empty());
}

#[test]
fn task_from_before_the_day_began_is_out_of_scope() {
    let config = Config::production();
    // due at 23:55 the day before, polled five minutes after: a nag by the
    // clock, but the day decides
    let late = vec![task(1, "late", "2024-03-09T23:55:00Z", false)];
    let report = plan_cycle(&late, midnight(), Instant::new(MIDNIGHT + 5, 0), &config);
    assert!(report.notifications.is_empty());
    assert!(report.unreadable.is_empty());
    let report = plan_cycle(&late, Instant::new(MIDNIGHT - 300, 0), Instant::new(MIDNIGHT + 5, 0), &config);
    assert_eq!(report.notifications.len(), 1);
    assert!(report.notifications[0].nag);
}

#[test]
fn verdict_goes_by_resolution_then_reading_then_day_then_clock() {
    let config = Config::production();
    let open = task(1, "open", "ignored here", false);
    let closed = task(2, "closed", "ignored here", true);
    let due = Some(noon());
    assert_eq!(evaluate_task(&closed, due, midnight(), noon(), &config), Verdict::OutOfScope);
    assert_eq!(evaluate_task(&closed, None, midnight(), noon(), &config), Verdict::OutOfScope);
    assert_eq!(evaluate_task(&open, None, midnight(), noon(), &config), Verdict::Unreadable);
    assert_eq!(
        evaluate_task(&open, Some(Instant::new(MIDNIGHT - 1, 999_999_999)), midnight(), midnight(), &config),
        Verdict::OutOfScope
    );
    assert_eq!(
        evaluate_task(&open, Some(midnight()), midnight(), midnight(), &config),
        Verdict::Settled(Decision::Reminder)
    );
    assert_eq!(
        evaluate_task(&open, due, midnight(), Instant::new(NOON - 1, 0), &config),
        Verdict::Settled(Decision::Quiet)
    );
    assert_eq!(
        evaluate_task(&open, due, midnight(), Instant::new(NOON + 300, 0), &config),
        Verdict::Settled(Decision::Nag)
    );
}

#[test]
fn poll_by_the_clock_reminds_of_a_task_due_this_instant() {
    let config = Config::production();
    let tasks = vec![
        task(1, "right now", &chrono::Utc::now().to_rfc3339(), false),
        task(2, "far away", "9999-01-01T00:00:00Z", false),
        task(3, "garbled", "soon", false),
    ];
    let report = check_and_notify_tasks(&tasks, Instant::new(0, 0), &config);
    assert_eq!(report.notifications.len(), 1);
    assert_eq!(report.notifications[0].title, REMINDER);
    assert_eq!(report.notifications[0].body, "right now");
    assert_eq!(report.unreadable, vec![3]);
}

#[test]
fn day_starts_where_midnight_occurs_once() {
    let start = Instant::new(MIDNIGHT, 0);
    let later = Instant::new(MIDNIGHT + 3600, 0);
    assert_eq!(resolve_day_start(DayStart::Unique(start)), Some(start));
    assert_eq!(resolve_day_start(DayStart::Ambiguous(start, later)), None);
    assert_eq!(resolve_day_start(DayStart::Missing), None);
}

#[test]
fn today_began_within_the_last_day_and_a_bit() {
    if let Some(boundary) = day_boundary() {
        let now = chrono::Utc::now().timestamp();
        assert!(boundary.secs <= now);
        assert!(now - boundary.secs <= 25 * 3600 + 60);
        assert_eq!(boundary.nanos, 0);
    }
}
