//! The rule that tells a reminder from a nag from silence.

use vstd::prelude::*;
use crate::clock::Instant;

verus! {

/// What a poll does about one task.
#[derive(Clone, Copy, Debug, PartialEq, Eq, Structural)]
pub enum Decision {
    /// Nothing is shown.
    Quiet,
    /// The task has just become due: the one reminder is shown.
    Reminder,
    /// The task is long overdue: it is brought up again.
    Nag,
}

/// The decision for a task that became due `elapsed` ago, polled every
/// `check` and nagged every `nag`, all three in one unit of time.
///
/// A task that is not yet due is left alone. One that became due within the
/// last poll period gets its reminder. After that it is quiet until the nag
/// period has passed, and from then on a nag is due in the first poll period
/// of every nag period.
pub open spec fn decision_at(elapsed: int, check: int, nag: int) -> Decision {
    if elapsed < 0 {
        Decision::Quiet
    } else if elapsed <= check {
        Decision::Reminder
    } else if elapsed >= nag && elapsed % nag <= check {
        Decision::Nag
    } else {
        Decision::Quiet
    }
}

/// The two periods of the scheduler, in whole seconds: how often the tasks
/// are polled, and how often an overdue task is brought up again.
#[derive(Clone, Copy, Debug, PartialEq, Eq)]
pub struct Config {
    check_interval_secs: u64,
    nag_interval_secs: u64,
}

impl Config {
    /// Both periods are positive.
    #[verifier::type_invariant]
    pub closed spec fn well_formed(&self) -> bool {
        self.check_interval_secs > 0 && self.nag_interval_secs > 0
    }

    /// The poll period in seconds.
    pub closed spec fn check_secs(&self) -> int {
        self.check_interval_secs as int
    }

    /// The nag period in seconds.
    pub closed spec fn nag_secs(&self) -> int {
        self.nag_interval_secs as int
    }

    /// The poll period in nanoseconds.
    pub open spec fn check_nanos(&self) -> int {
        self.check_secs() * 1_000_000_000
    }

    /// The nag period in nanoseconds.
    pub open spec fn nag_nanos(&self) -> int {
        self.nag_secs() * 1_000_000_000
    }

    /// A configuration with the given periods, where both are positive.
    pub fn new(check_interval_secs: u64, nag_interval_secs: u64) -> (config: Option<Config>)
        ensures
            config.is_some() <==> check_interval_secs > 0 && nag_interval_secs > 0,
            config matches Some(c) ==> c.check_secs() == check_interval_secs && c.nag_secs()
                == nag_interval_secs,
    {
        if check_interval_secs > 0 && nag_interval_secs > 0 {
            Some(Config { check_interval_secs, nag_interval_secs })
        } else {
            None
        }
    }

    /// Polls every ten seconds and nags every five minutes.
    pub fn production() -> (config: Config)
        ensures
            config.check_secs() == 10,
            config.nag_secs() == 300,
    {
        Config { check_interval_secs: 10, nag_interval_secs: 300 }
    }

    /// Polls every ten seconds and nags every minute, for trying things out.
    pub fn development() -> (config: Config)
        ensures
            config.check_secs() == 10,
            config.nag_secs() == 60,
    {
        Config { check_interval_secs: 10, nag_interval_secs: 60 }
    }

    /// The poll period in seconds.
    pub fn check_interval_secs(&self) -> (secs: u64)
        ensures
            secs == self.check_secs(),
            secs > 0,
    {
        proof {
            use_type_invariant(self);
        }
        self.check_interval_secs
    }

    /// The nag period in seconds.
    pub fn nag_interval_secs(&self) -> (secs: u64)
        ensures
            secs == self.nag_secs(),
            secs > 0,
    {
        proof {
            use_type_invariant(self);
        }
        self.nag_interval_secs
    }
}

/// The decision for a task due at `scheduled_at` when polled at `now`.
pub open spec fn spec_decide(scheduled_at: Instant, now: Instant, config: Config) -> Decision {
    decision_at(now@ - scheduled_at@, config.check_nanos(), config.nag_nanos())
}

/// Decides what the poll at `now` does about a task due at `scheduled_at`.
pub fn decide(scheduled_at: Instant, now: Instant, config: &Config) -> (decision: Decision)
    ensures
        decision == spec_decide(scheduled_at, now, *config),
        now@ < scheduled_at@ ==> decision == Decision::Quiet,
        0 <= now@ - scheduled_at@ <= config.check_nanos() ==> decision == Decision::Reminder,
{
    let elapsed: i128 = now.elapsed_since(scheduled_at);
    let check_secs: i128 = config.check_interval_secs() as i128;
    let nag_secs: i128 = config.nag_interval_secs() as i128;
    let check: i128 = check_secs * 1_000_000_000;
    let nag: i128 = nag_secs * 1_000_000_000;
    if elapsed < 0 {
        Decision::Quiet
    } else if elapsed <= check {
        Decision::Reminder
    } else if elapsed >= nag && elapsed % nag <= check {
        Decision::Nag
    } else {
        Decision::Quiet
    }
}

/// The time of poll number `index` in a steady run of polls, one every
/// `period`, that passes through `first`.
pub open spec fn poll_time(first: int, index: int, period: int) -> int {
    first + index * period
}

/// A task whose time has not come yet is left alone.
pub proof fn law_not_yet_due_is_quiet(scheduled_at: Instant, now: Instant, config: Config)
    requires
        config.well_formed(),
        now@ < scheduled_at@,
    ensures
        spec_decide(scheduled_at, now, config) == Decision::Quiet,
{
}

/// A task that became due no longer than one poll period ago gets its
/// reminder.
pub proof fn law_just_due_is_reminded(scheduled_at: Instant, now: Instant, config: Config)
    requires
        config.well_formed(),
        0 <= now@ - scheduled_at@ <= config.check_nanos(),
    ensures
        spec_decide(scheduled_at, now, config) == Decision::Reminder,
{
}

/// Steady polls never miss a reminder: whenever the task is due, one of the
/// polls finds it within its first poll period.
pub proof fn law_reminder_never_missed(scheduled_at: int, first: int, check: int, nag: int)
    requires
        check > 0,
        nag > 0,
    ensures
        exists|index: int|
            decision_at(#[trigger] poll_time(first, index, check) - scheduled_at, check, nag)
                == Decision::Reminder,
{
    let distance = scheduled_at - first;
    let whole = distance / check;
    let index = if distance % check == 0 {
        whole
    } else {
        whole + 1
    };
    assert(distance == check * whole + distance % check && 0 <= distance % check < check) by {
        vstd::arithmetic::div_mod::lemma_fundamental_div_mod(distance, check);
        vstd::arithmetic::div_mod::lemma_mod_bound(distance, check);
    }
    assert(index * check == check * whole + (if distance % check == 0 {
        0
    } else {
        check
    })) by (nonlinear_arith)
        requires
            index == (if distance % check == 0 {
                whole
            } else {
                whole + 1
            }),
    ;
    assert(0 <= poll_time(first, index, check) - scheduled_at <= check);
}

/// Steady polls remind once: two polls that both give the reminder are the
/// same poll, unless the task became due at the very instant of a poll. In
/// that case that poll and the next one both give it, and no third does.
pub proof fn law_reminder_not_repeated(
    scheduled_at: int,
    first: int,
    check: int,
    nag: int,
    one: int,
    other: int,
)
    requires
        check > 0,
        nag > 0,
        decision_at(poll_time(first, one, check) - scheduled_at, check, nag) == Decision::Reminder,
        decision_at(poll_time(first, other, check) - scheduled_at, check, nag)
            == Decision::Reminder,
    ensures
        one - other <= 1,
        other - one <= 1,
        (scheduled_at - first) % check != 0 ==> one == other,
        one != other ==> poll_time(first, one, check) == scheduled_at || poll_time(
            first,
            other,
            check,
        ) == scheduled_at,
{
    let gap = one - other;
    assert(poll_time(first, one, check) - poll_time(first, other, check) == gap * check)
        by (nonlinear_arith)
        requires
            gap == one - other,
    ;
    assert(-check <= gap * check <= check);
    assert(-1 <= gap <= 1) by (nonlinear_arith)
        requires
            check > 0,
            -check <= gap * check <= check,
    ;
    if gap != 0 {
        assert(gap == 1 ==> gap * check == check) by (nonlinear_arith);
        assert(gap == -1 ==> gap * check == -check) by (nonlinear_arith);
        let at_poll = if gap == 1 {
            other
        } else {
            one
        };
        assert(poll_time(first, at_poll, check) == scheduled_at);
        assert(scheduled_at - first == at_poll * check);
        assert((at_poll * check) % check == 0) by {
            vstd::arithmetic::div_mod::lemma_mod_multiples_basic(at_poll, check);
        }
    }
}

/// Once the nag period has passed, a poll nags exactly where the time since
/// the task became due, taken modulo the nag period, is within one poll
/// period; every other poll is quiet. The one poll left out is the one that
/// still falls into the first poll period, which gives the reminder.
pub proof fn law_nag_window(scheduled_at: Instant, now: Instant, config: Config)
    requires
        config.well_formed(),
        now@ - scheduled_at@ >= config.nag_nanos(),
        now@ - scheduled_at@ > config.check_nanos(),
    ensures
        spec_decide(scheduled_at, now, config) == Decision::Nag <==> (now@ - scheduled_at@)
            % config.nag_nanos() <= config.check_nanos(),
        spec_decide(scheduled_at, now, config) == Decision::Quiet <==> (now@ - scheduled_at@)
            % config.nag_nanos() > config.check_nanos(),
{
}

/// Steady polls never miss a nag: with a nag period longer than the poll
/// period, one of the polls falls into the first poll period of every nag
/// period after the first, and nags.
pub proof fn law_nag_never_missed(
    scheduled_at: int,
    first: int,
    check: int,
    nag: int,
    round: int,
)
    requires
        0 < check < nag,
        round >= 1,
    ensures
        exists|index: int|
            {
                let elapsed = #[trigger] poll_time(first, index, check) - scheduled_at;
                &&& round * nag <= elapsed <= round * nag + check
                &&& decision_at(elapsed, check, nag) == Decision::Nag
            },
{
    let shifted = scheduled_at + round * nag;
    law_reminder_never_missed(shifted, first, check, nag);
    let index = choose|index: int|
        decision_at(#[trigger] poll_time(first, index, check) - shifted, check, nag)
            == Decision::Reminder;
    let rest = poll_time(first, index, check) - shifted;
    let elapsed = poll_time(first, index, check) - scheduled_at;
    assert(0 <= rest <= check);
    assert(elapsed == round * nag + rest);
    assert(round * nag >= nag) by (nonlinear_arith)
        requires
            round >= 1,
            nag > 0,
    ;
    assert(elapsed % nag == rest) by {
        vstd::arithmetic::div_mod::lemma_fundamental_div_mod_converse(elapsed, nag, round, rest);
    }
}

} // verus!
