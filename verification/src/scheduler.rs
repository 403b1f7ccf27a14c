//! The life of the scheduler: stopped, running, stopped again.

use vstd::prelude::*;
use crate::decision::Config;

verus! {

/// What the polling loop does at the top of a round.
#[derive(Clone, Copy, Debug, PartialEq, Eq, Structural)]
pub enum Tick {
    /// The scheduler is stopped: the loop ends, and nothing more is shown.
    Halt,
    /// The scheduler is running: the loop polls the tasks once and then
    /// sleeps for this many seconds.
    Poll { wait_secs: u64 },
}

/// The scheduler's state: whether it is running, and the periods it runs
/// with. It is made stopped, `start` sets it running and `stop` stops it.
///
/// The loop that polls belongs to the caller. It asks `tick` at the top of
/// every round and ends when told to halt, so that a stop takes effect with
/// the next round and never cuts into a poll under way.
#[derive(Clone, Copy, Debug)]
pub struct NotificationScheduler {
    running: bool,
    config: Config,
}

impl NotificationScheduler {
    /// Whether the scheduler is running.
    pub closed spec fn running(&self) -> bool {
        self.running
    }

    /// The periods the scheduler runs with.
    pub closed spec fn config(&self) -> Config {
        self.config
    }

    /// This scheduler, set running.
    pub closed spec fn started(self) -> NotificationScheduler {
        NotificationScheduler { running: true, config: self.config }
    }

    /// This scheduler, stopped.
    pub closed spec fn stopped(self) -> NotificationScheduler {
        NotificationScheduler { running: false, config: self.config }
    }

    /// What the loop is told at the top of a round.
    pub open spec fn spec_tick(&self) -> Tick {
        if self.running() {
            Tick::Poll { wait_secs: self.config().check_secs() as u64 }
        } else {
            Tick::Halt
        }
    }

    /// A stopped scheduler with the given periods.
    pub fn new(config: Config) -> (scheduler: NotificationScheduler)
        ensures
            !scheduler.running(),
            scheduler.config() == config,
    {
        NotificationScheduler { running: false, config }
    }

    /// Sets the scheduler running. One that runs already stays as it is, so
    /// the caller starts a loop only for a scheduler that was stopped.
    pub fn start(self) -> (scheduler: NotificationScheduler)
        ensures
            scheduler == self.started(),
            scheduler.running(),
            scheduler.config() == self.config(),
    {
        NotificationScheduler { running: true, config: self.config }
    }

    /// Stops the scheduler. Stopping a stopped scheduler changes nothing.
    pub fn stop(&mut self)
        ensures
            *final(self) == old(self).stopped(),
            !final(self).running(),
            final(self).config() == old(self).config(),
    {
        self.running = false;
    }

    /// Whether the scheduler is running.
    pub fn is_running(&self) -> (running: bool)
        ensures
            running == self.running(),
    {
        self.running
    }

    /// The periods the scheduler runs with.
    pub fn periods(&self) -> (config: Config)
        ensures
            config == self.config(),
    {
        self.config
    }

    /// Tells the loop what to do at the top of a round: poll and sleep one
    /// poll period while the scheduler runs, end once it is stopped.
    pub fn tick(&self) -> (tick: Tick)
        ensures
            tick == self.spec_tick(),
            !self.running() ==> tick == Tick::Halt,
    {
        if self.running {
            Tick::Poll { wait_secs: self.config.check_interval_secs() }
        } else {
            Tick::Halt
        }
    }

    /// After a stop the loop is told to halt at its next round, so no poll
    /// runs and nothing is shown any more. Stopping twice is stopping once.
    pub proof fn law_stop_ends_the_polls(self)
        ensures
            self.stopped().spec_tick() == Tick::Halt,
            self.stopped().stopped() == self.stopped(),
            !self.stopped().running(),
    {
    }

    /// A scheduler is made stopped, and runs from `start` until `stop`.
    pub proof fn law_runs_between_start_and_stop(self)
        ensures
            self.started().running(),
            self.started().spec_tick() == (Tick::Poll {
                wait_secs: self.config().check_secs() as u64,
            }),
            self.started().stopped() == self.stopped(),
            self.started().started() == self.started(),
            self.started().config() == self.config(),
            self.stopped().config() == self.config(),
    {
    }
}

} // verus!
