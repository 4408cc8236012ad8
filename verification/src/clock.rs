//! Time: the wall clock, clock times in the configuration, and the monotonic clock.
use vstd::prelude::*;

use chrono::Timelike;

use crate::text::trim_start;

verus! {

/// A moment on the wall clock of the user.
#[derive(Debug, Clone, Copy)]
pub struct LocalTime {
    /// Seconds since the Unix epoch.
    pub timestamp: i64,
    /// Seconds since local midnight.
    pub second_of_day: u32,
}

/// No clock shows a timestamp beyond this many seconds from the epoch.
pub const TIMESTAMP_BOUND: i64 = 200_000_000_000_000;

/// Whether a wall clock can show this.
pub open spec fn shown(now: LocalTime) -> bool {
    -TIMESTAMP_BOUND <= now.timestamp <= TIMESTAMP_BOUND && now.second_of_day < 86_400
}

/// `chrono::Local::now`: the moment of the call. The timestamp counts days in an `i32`, so it
/// stays within `TIMESTAMP_BOUND`; which moment it is depends on the machine.
#[verifier::external_body]
pub(crate) fn local_now() -> (now: LocalTime)
    ensures
        shown(now),
{
    let now = chrono::Local::now();
    LocalTime {
        timestamp: now.timestamp(),
        second_of_day: now.time().num_seconds_from_midnight(),
    }
}

/// Whether the character is an ASCII digit.
pub open spec fn digit(c: char) -> bool {
    '0' <= c <= '9'
}

/// How many digits the text starts with, two at most.
pub open spec fn leading_digits(s: Seq<char>) -> int {
    if s.len() == 0 || !digit(s[0]) {
        0
    } else if s.len() == 1 || !digit(s[1]) {
        1
    } else {
        2
    }
}

/// The number that one or two digits stand for.
pub open spec fn number(s: Seq<char>) -> int {
    if s.len() == 1 {
        s[0] as int - '0' as int
    } else {
        (s[0] as int - '0' as int) * 10 + (s[1] as int - '0' as int)
    }
}

/// The second of the day that a clock time names: an hour below 24 and a minute below 60, each
/// of one or two digits, with a colon between them. White space may precede either number.
pub open spec fn clock_time(s: Seq<char>) -> Option<u32> {
    let hour_on = trim_start(s);
    let h = leading_digits(hour_on);
    let minute_on = trim_start(hour_on.skip(h + 1));
    let m = leading_digits(minute_on);
    if h > 0 && h < hour_on.len() && hour_on[h] == ':' && m > 0 && m == minute_on.len() && number(
        hour_on.take(h),
    ) < 24 && number(minute_on) < 60 {
        Some((number(hour_on.take(h)) * 3600 + number(minute_on) * 60) as u32)
    } else {
        None
    }
}

/// `chrono::NaiveTime::parse_from_str` for the format `%H:%M`: one or two digits for the hour,
/// a colon, one or two digits for the minute, white space before either number allowed and
/// nothing after the minute; the result is given in seconds since midnight.
#[verifier::external_body]
pub(crate) fn parse_clock_time(s: &str, format: &str) -> (r: Option<u32>)
    requires
        format@ == "%H:%M"@,
    ensures
        r == clock_time(s@),
{
    chrono::NaiveTime::parse_from_str(s, format).ok().map(|t| t.num_seconds_from_midnight())
}

/// `tokio::time::Instant`: a reading of the monotonic clock, of which nothing is known here.
#[verifier::external_type_specification]
#[verifier::external_body]
pub struct ExInstant(tokio::time::Instant);

/// `tokio::time::Instant::now`: a reading of the monotonic clock. Which one depends on the
/// moment of the call.
pub assume_specification[ tokio::time::Instant::now ]() -> (r: tokio::time::Instant)
;

/// `tokio::time::Instant::elapsed`: the nanoseconds from the reading to the moment of the call.
/// How many depends on that moment.
#[verifier::external_body]
fn nanos_since(start: &tokio::time::Instant) -> (r: u128)
{
    start.elapsed().as_nanos()
}

/// A monotonic clock that counts nanoseconds from its creation.
#[derive(Debug, Clone, Copy)]
pub struct Clock {
    start: tokio::time::Instant,
}

impl Clock {
    /// A clock that starts now. Which moment that is depends on the call, and nothing is said of it.
    pub(crate) fn start() -> (c: Self)
    {
        Clock { start: tokio::time::Instant::now() }
    }

    /// The nanoseconds since the clock started, or `earlier`, a reading that was taken before, where
    /// they are fewer. How many they are depends on the moment of the call.
    pub(crate) fn now(&self, earlier: u128) -> (r: u128)
        ensures
            r >= earlier,
    {
        later_reading(nanos_since(&self.start), earlier)
    }
}

/// The later of a reading of the clock and one that was taken before.
pub open spec fn later_of(reading: u128, earlier: u128) -> u128 {
    if reading < earlier {
        earlier
    } else {
        reading
    }
}

/// What a clock shows that is read as `reading` and has shown `earlier` before: it does not go
/// back.
pub fn later_reading(reading: u128, earlier: u128) -> (r: u128)
    ensures
        r == later_of(reading, earlier),
{
    if reading < earlier {
        earlier
    } else {
        reading
    }
}

} // verus!
