//! Instants of the UTC time line and how far they lie apart.
use std::time::Duration;

use vstd::prelude::*;

verus! {

/// Nanoseconds in a second.
pub const NANOS_PER_SECOND: u32 = 1_000_000_000;

/// The first second that a `chrono` date can denote.
pub const FIRST_SECOND: i64 = -8_334_601_228_800;

/// The last second that a `chrono` date can denote.
pub const LAST_SECOND: i64 = 8_210_266_876_799;

/// The longest `Duration`, in nanoseconds.
pub const LONGEST_NANOS: u128 = 18_446_744_073_709_551_615_999_999_999;

/// Seconds in a day.
pub const SECONDS_PER_DAY: i64 = 86_400;

/// An instant: whole seconds since 1970-01-01 00:00:00 UTC, leap seconds not
/// counted, and nanoseconds of the second that follows. Those from 1,000,000,000
/// on lie in the leap second behind it.
#[derive(Clone, Copy, Debug, PartialEq, Eq)]
pub struct Timestamp {
    secs: i64,
    nanos: u32,
}

/// What a [`Timestamp`] is.
pub struct TimestampView {
    pub secs: int,
    pub nanos: int,
}

impl TimestampView {
    /// The second of the day.
    pub open spec fn second_of_day(self) -> int {
        self.secs % (SECONDS_PER_DAY as int)
    }

    /// Does the instant lie in a leap second?
    pub open spec fn is_leap(self) -> bool {
        self.nanos >= NANOS_PER_SECOND
    }

    /// The nanoseconds from `then` to this instant. The only leap seconds that
    /// count are those in which the two lie: the one of the instant with the
    /// earlier time of day lies between them.
    pub open spec fn nanos_after(self, then: Self) -> int {
        let leap_seconds: int = if self.second_of_day() > then.second_of_day() && then.is_leap() {
            1
        } else if self.second_of_day() < then.second_of_day() && self.is_leap() {
            -1
        } else {
            0
        };
        (self.secs - then.secs + leap_seconds) * NANOS_PER_SECOND + (self.nanos - then.nanos)
    }
}

impl Timestamp {
    #[verifier::type_invariant]
    pub closed spec fn in_range(self) -> bool {
        &&& FIRST_SECOND <= self.secs <= LAST_SECOND
        &&& self.nanos < 2 * NANOS_PER_SECOND
    }

    /// The instant `secs` seconds and `nanos` nanoseconds after the epoch.
    pub fn new(secs: i64, nanos: u32) -> (r: Option<Timestamp>)
        ensures
            r is Some <==> FIRST_SECOND <= secs <= LAST_SECOND && nanos < 2 * NANOS_PER_SECOND,
            r matches Some(t) ==> t@ == (TimestampView { secs: secs as int, nanos: nanos as int }),
    {
        if FIRST_SECOND <= secs && secs <= LAST_SECOND && nanos < 2 * NANOS_PER_SECOND {
            Some(Timestamp { secs, nanos })
        } else {
            None
        }
    }

    /// Whole seconds since the epoch.
    pub fn secs(&self) -> (r: i64)
        ensures
            r == self@.secs,
    {
        self.secs
    }

    /// Nanoseconds of the second, and of the leap second behind it.
    pub fn nanos(&self) -> (r: u32)
        ensures
            r == self@.nanos,
    {
        self.nanos
    }

    /// The nanoseconds from `then` to this instant; nothing where they are
    /// negative.
    pub fn nanos_since(&self, then: &Timestamp) -> (r: Option<u128>)
        ensures
            r is Some <==> self@.nanos_after(then@) >= 0,
            r matches Some(n) ==> n == self@.nanos_after(then@),
    {
        proof {
            use_type_invariant(self);
            use_type_invariant(then);
        }
        elapsed_between(self, then)
    }
}

impl View for Timestamp {
    type V = TimestampView;

    closed spec fn view(&self) -> TimestampView {
        TimestampView { secs: self.secs as int, nanos: self.nanos as int }
    }
}

/// `chrono::Utc::now`: the instant at which it is called.
#[verifier::external_body]
pub(crate) fn utc_now() -> (r: Timestamp)
{
    let now = chrono::Utc::now();
    Timestamp { secs: now.timestamp(), nanos: now.timestamp_subsec_nanos() }
}

/// `chrono`'s `DateTime::signed_duration_since` and `TimeDelta::to_std`: the
/// difference of two instants, in nanoseconds, unless it is negative. `chrono`
/// takes the difference of the dates and that of the times of day, and counts a
/// leap second in the latter where the earlier time of day lies in one.
#[verifier::external_body]
fn elapsed_between(now: &Timestamp, then: &Timestamp) -> (r: Option<u128>)
    requires
        now.in_range(),
        then.in_range(),
    ensures
        r is Some <==> now@.nanos_after(then@) >= 0,
        r matches Some(n) ==> n == now@.nanos_after(then@),
{
    let now_second = chrono::DateTime::from_timestamp(now.secs, 0)?.naive_utc();
    let now = chrono::Timelike::with_nanosecond(&now_second, now.nanos)?.and_utc();
    let then_second = chrono::DateTime::from_timestamp(then.secs, 0)?.naive_utc();
    let then = chrono::Timelike::with_nanosecond(&then_second, then.nanos)?.and_utc();
    now.signed_duration_since(then).to_std().ok().map(|elapsed| elapsed.as_nanos())
}

/// The pattern in which a prompt gives the time.
pub const PROMPT_TIME_PATTERN: &'static str = "%Y-%m-%d %H:%M:%S UTC";

/// The text that `chrono`'s `DateTime::format` gives an instant for a pattern.
pub uninterp spec fn formatted_utc(instant: TimestampView, pattern: Seq<char>) -> Seq<char>;

/// `chrono`'s `DateTime::format`, for a pattern that it knows.
#[verifier::external_body]
pub(crate) fn format_utc(instant: &Timestamp, pattern: &str) -> (r: String)
    requires
        instant.in_range(),
        pattern@ == PROMPT_TIME_PATTERN@,
    ensures
        r@ == formatted_utc(instant@, pattern@),
{
    let second = chrono::DateTime::from_timestamp(instant.secs, 0).unwrap_or_default().naive_utc();
    let at = chrono::Timelike::with_nanosecond(&second, instant.nanos).unwrap_or(second).and_utc();
    at.format(pattern).to_string()
}

/// The current time as a prompt gives it.
pub fn prompt_time() -> (r: String)
    ensures
        exists|now: TimestampView| r@ == #[trigger] formatted_utc(now, PROMPT_TIME_PATTERN@),
{
    let now = utc_now();
    prompt_time_at(&now)
}

/// An instant as a prompt gives it.
pub fn prompt_time_at(now: &Timestamp) -> (r: String)
    ensures
        r@ == formatted_utc(now@, PROMPT_TIME_PATTERN@),
{
    proof {
        use_type_invariant(now);
    }
    format_utc(now, PROMPT_TIME_PATTERN)
}

/// The nanoseconds in a `Duration`.
pub uninterp spec fn nanos_of(duration: Duration) -> nat;

/// `Duration::as_nanos`: all of the duration in nanoseconds.
pub assume_specification[ Duration::as_nanos ](duration: &Duration) -> (r: u128)
    ensures
        r == nanos_of(*duration),
;

/// `Duration::from_secs`: that many whole seconds.
pub assume_specification[ Duration::from_secs ](secs: u64) -> (r: Duration)
    ensures
        nanos_of(r) == secs * NANOS_PER_SECOND,
;

/// Outside of leap seconds, the time between two instants is the difference of
/// their clocks, and is as long in one direction as in the other.
pub proof fn law_time_runs_evenly(now: TimestampView, then: TimestampView)
    requires
        0 <= now.nanos < 1_000_000_000,
        0 <= then.nanos < 1_000_000_000,
    ensures
        now.nanos_after(then) == (now.secs * 1_000_000_000 + now.nanos) - (then.secs * 1_000_000_000 + then.nanos),
        now.nanos_after(then) == -then.nanos_after(now),
        now.nanos_after(now) == 0,
{
}

/// A leap second lasts a second: an instant in one lies that much behind the
/// instant without it, and a second more lies between it and every later second
/// of the day.
pub proof fn law_leap_seconds_last_a_second(now: TimestampView, then: TimestampView)
    requires
        0 <= now.nanos < 1_000_000_000,
        1_000_000_000 <= then.nanos < 2_000_000_000,
    ensures
        now.second_of_day() > then.second_of_day() ==> now.nanos_after(then) == (now.secs - then.secs) * 1_000_000_000 + (
        now.nanos - (then.nanos - 1_000_000_000)),
        now.second_of_day() <= then.second_of_day() ==> now.nanos_after(then) == (now.secs - then.secs) * 1_000_000_000
            + (now.nanos - then.nanos),
{
}

} // verus!
