use naggy::decision::Config;
use naggy::scheduler::{NotificationScheduler, Tick};

#[test]
fn scheduler_is_made_stopped() {
    let scheduler = NotificationScheduler::new(Config::production());
    assert!(!scheduler.is_running());
    assert_eq!(scheduler.tick(), Tick::Halt);
}

#[test]
fn started_scheduler_polls_every_poll_period() {
    let scheduler = NotificationScheduler::new(Config::new(7, 70).unwrap()).start();
    assert!(scheduler.is_running());
    assert_eq!(scheduler.tick(), Tick::Poll { wait_secs: 7 });
    assert_eq!(scheduler.tick(), Tick::Poll { wait_secs: 7 });
    assert_eq!(scheduler.periods(), Config::new(7, 70).unwrap());
}

#[test]
fn stopped_scheduler_halts_at_the_next_round() {
    let mut scheduler = NotificationScheduler::new(Config::production()).start();
    assert_eq!(scheduler.tick(), Tick::Poll { wait_secs: 10 });
    scheduler.stop();
    assert!(!scheduler.is_running());
    assert_eq!(scheduler.tick(), Tick::Halt);
    assert_eq!(scheduler.tick(), Tick::Halt);
}

#[test]
fn stopping_twice_is_stopping_once() {
    let mut scheduler = NotificationScheduler::new(Config::production()).start();
    scheduler.stop();
    scheduler.stop();
    assert!(!scheduler.is_running());
    assert_eq!(scheduler.tick(), Tick::Halt);
    assert_eq!(scheduler.periods(), Config::production());
}

#[test]
fn starting_twice_is_starting_once() {
    let scheduler = NotificationScheduler::new(Config::development()).start().start();
    assert!(scheduler.is_running());
    assert_eq!(scheduler.tick(), Tick::Poll { wait_secs: 10 });
}

#[test]
fn scheduler_can_be_started_again_after_a_stop() {
    let mut scheduler = NotificationScheduler::new(Config::development()).start();
    scheduler.stop();
    let scheduler = scheduler.start();
    assert_eq!(scheduler.tick(), Tick::Poll { wait_secs: 10 });
}
