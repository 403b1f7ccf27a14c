//! Instants on the UTC time line, and the calls into `chrono` that yield them.

use vstd::prelude::*;

verus! {

/// A point on the UTC time line: the whole seconds since the Unix epoch and
/// the nanoseconds past that second.
///
/// Its view is its distance from the epoch in nanoseconds. Two instants with
/// the same view denote the same point, however the distance is split between
/// the two fields.
#[derive(Clone, Copy, Debug, PartialEq, Eq)]
pub struct Instant {
    pub secs: i64,
    pub nanos: u32,
}

impl View for Instant {
    type V = int;

    open spec fn view(&self) -> int {
        self.secs * 1_000_000_000 + self.nanos
    }
}

impl Instant {
    /// The instant `nanos` nanoseconds after the second `secs`.
    pub fn new(secs: i64, nanos: u32) -> (instant: Instant)
        ensures
            instant.secs == secs,
            instant.nanos == nanos,
            instant@ == secs * 1_000_000_000 + nanos,
    {
        Instant { secs, nanos }
    }

    /// Nanoseconds from the epoch to this instant.
    pub fn nanos_since_epoch(&self) -> (total: i128)
        ensures
            total == self@,
    {
        let secs: i128 = self.secs as i128;
        let nanos: i128 = self.nanos as i128;
        secs * 1_000_000_000 + nanos
    }

    /// Nanoseconds from `earlier` to this instant; negative where `earlier`
    /// is the later of the two.
    pub fn elapsed_since(&self, earlier: Instant) -> (elapsed: i128)
        ensures
            elapsed == self@ - earlier@,
    {
        self.nanos_since_epoch() - earlier.nanos_since_epoch()
    }
}

/// What `chrono` reads out of a text as an RFC 3339 date and time: the seconds
/// since the epoch and the nanoseconds past that second, or nothing where it
/// rejects the text.
pub uninterp spec fn rfc3339_instant(text: Seq<char>) -> Option<(i64, u32)>;

/// What `chrono` writes for the instant with these seconds and nanoseconds as
/// an RFC 3339 date and time in UTC, or nothing where the instant lies outside
/// the years it can hold.
pub uninterp spec fn rfc3339_text(secs: i64, nanos: u32) -> Option<Seq<char>>;

/// The instant that `text` denotes as an RFC 3339 date and time, if it is one.
pub open spec fn parsed_instant(text: Seq<char>) -> Option<Instant> {
    match rfc3339_instant(text) {
        Some(parts) => Some(Instant { secs: parts.0, nanos: parts.1 }),
        None => None,
    }
}

/// Parses an RFC 3339 date and time.
///
/// Trusted: calls `chrono::DateTime::parse_from_rfc3339` and reads the result
/// with `timestamp` and `timestamp_subsec_nanos`. The contract claims only
/// that the outcome is a function of the text, which it names.
#[verifier::external_body]
pub(crate) fn parse_rfc3339(text: &str) -> (parsed: Option<Instant>)
    ensures
        parsed == match rfc3339_instant(text@) {
            Some(parts) => Some((Instant { secs: parts.0, nanos: parts.1 })),
            None => None,
        },
{
    match chrono::DateTime::parse_from_rfc3339(text) {
        Ok(time) => Some(Instant { secs: time.timestamp(), nanos: time.timestamp_subsec_nanos() }),
        Err(_) => None,
    }
}

/// Writes an instant as an RFC 3339 date and time in UTC.
///
/// Trusted: calls `chrono::DateTime::from_timestamp` and, where that accepts
/// the instant, `to_rfc3339` on the result. The contract claims only that the
/// outcome is a function of the two fields, which it names.
#[verifier::external_body]
pub(crate) fn format_rfc3339(instant: Instant) -> (text: Option<String>)
    ensures
        text.is_some() == rfc3339_text(instant.secs, instant.nanos).is_some(),
        text matches Some(written) ==> rfc3339_text(instant.secs, instant.nanos) == Some(
            written@,
        ),
{
    match chrono::DateTime::from_timestamp(instant.secs, instant.nanos) {
        Some(time) => Some(time.to_rfc3339()),
        None => None,
    }
}

/// Reads the clock.
///
/// Trusted: calls `chrono::Utc::now`. Nothing is claimed of the instant that
/// comes back.
#[verifier::external_body]
pub(crate) fn now_utc() -> (now: Instant) {
    let time = chrono::Utc::now();
    Instant { secs: time.timestamp(), nanos: time.timestamp_subsec_nanos() }
}

/// Where midnight of a calendar day falls on the UTC time line, seen from the
/// machine's time zone.
#[derive(Clone, Copy, Debug, PartialEq, Eq)]
pub enum DayStart {
    /// Midnight occurs once that day.
    Unique(Instant),
    /// The clocks are set back over midnight: it occurs twice.
    Ambiguous(Instant, Instant),
    /// The clocks are set forward over midnight: it does not occur.
    Missing,
}

/// Finds the start of the current day in the machine's time zone.
///
/// Trusted: calls `chrono::Local::now`, takes its date with `date_naive`, puts
/// it at midnight with `and_time` and maps that back with
/// `TimeZone::from_local_datetime`. Nothing is claimed of what comes back.
#[verifier::external_body]
pub(crate) fn local_day_start() -> (start: DayStart) {
    let midnight = chrono::Local::now().date_naive().and_time(chrono::NaiveTime::MIN);
    match chrono::TimeZone::from_local_datetime(&chrono::Local, &midnight) {
        chrono::LocalResult::Single(t) => DayStart::Unique(
            Instant { secs: t.timestamp(), nanos: t.timestamp_subsec_nanos() },
        ),
        chrono::LocalResult::Ambiguous(a, b) => DayStart::Ambiguous(
            Instant { secs: a.timestamp(), nanos: a.timestamp_subsec_nanos() },
            Instant { secs: b.timestamp(), nanos: b.timestamp_subsec_nanos() },
        ),
        chrono::LocalResult::None => DayStart::Missing,
    }
}

/// The one instant at which the day starts, where there is exactly one.
pub open spec fn spec_resolve_day_start(start: DayStart) -> Option<Instant> {
    match start {
        DayStart::Unique(instant) => Some(instant),
        DayStart::Ambiguous(_, _) => None,
        DayStart::Missing => None,
    }
}

/// Settles on the instant at which the day starts. A day whose midnight is
/// ambiguous or missing has none.
pub fn resolve_day_start(start: DayStart) -> (boundary: Option<Instant>)
    ensures
        boundary == spec_resolve_day_start(start),
{
    match start {
        DayStart::Unique(instant) => Some(instant),
        DayStart::Ambiguous(_, _) => None,
        DayStart::Missing => None,
    }
}

/// The start of the current day in the machine's time zone, as an instant in
/// UTC. It depends on the clock and on the time zone, so nothing is promised
/// of it but that it was settled as `resolve_day_start` does.
pub fn day_boundary() -> (boundary: Option<Instant>)
    ensures
        exists|start: DayStart| boundary == spec_resolve_day_start(start),
{
    let start = local_day_start();
    resolve_day_start(start)
}

} // verus!
