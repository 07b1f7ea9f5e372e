//! Points of time on the calendar.
use crate::time::{seconds, Duration};
use vstd::prelude::*;

verus! {

/// The first second that the calendar knows, counted from 1970.
pub const MIN_UTC_SECS: i64 = -8_334_601_228_800;

/// The last second that the calendar knows, counted from 1970.
pub const MAX_UTC_SECS: i64 = 8_210_266_876_799;

/// A point of time in Coordinated Universal Time: the seconds since the beginning of 1970, and the
/// nanoseconds since the last of them. A leap second counts as the second before it, with a
/// billion nanoseconds and more.
#[derive(Debug, Clone, Copy, PartialEq, Eq, Structural)]
pub struct UtcTime {
    pub secs: i64,
    pub nanos: u32,
}

impl UtcTime {
    /// The calendar knows the time, and it lies in no leap second.
    pub open spec fn ordinary(self) -> bool {
        MIN_UTC_SECS <= self.secs <= MAX_UTC_SECS && self.nanos < 1_000_000_000
    }

    /// The nanoseconds since the beginning of 1970, in a time of no leap second.
    pub open spec fn place(self) -> int {
        seconds(self.secs as int) + self.nanos
    }
}

/// What `chrono::DateTime::parse_from_rfc3339` reads: the seconds and nanoseconds.
pub uninterp spec fn rfc3339_time(text: Seq<char>) -> Option<(i64, u32)>;

/// What `chrono::DateTime::parse_from_str` reads with a format: the seconds and nanoseconds.
pub uninterp spec fn formatted_time(text: Seq<char>, format: Seq<char>) -> Option<(i64, u32)>;

/// What `chrono::DateTime::signed_duration_since` and `chrono::TimeDelta::to_std` give for two
/// times: the seconds and nanoseconds from the second to the first.
pub uninterp spec fn utc_difference(
    secs: i64,
    nanos: u32,
    earlier_secs: i64,
    earlier_nanos: u32,
) -> Option<(u64, u32)>;

/// `chrono::DateTime::parse_from_rfc3339`, with the time handed out as its `timestamp` and
/// `timestamp_subsec_nanos`. What it reads depends on the text alone.
#[verifier::external_body]
fn parse_rfc3339(text: &str) -> (r: Option<(i64, u32)>)
    ensures
        r == rfc3339_time(text@),
{
    let parsed = chrono::DateTime::parse_from_rfc3339(text).ok()?;
    Some((parsed.timestamp(), parsed.timestamp_subsec_nanos()))
}

/// `chrono::DateTime::parse_from_str`, with the time handed out as its `timestamp` and
/// `timestamp_subsec_nanos`. What it reads depends on the text and the format alone.
#[verifier::external_body]
fn parse_formatted(text: &str, format: &str) -> (r: Option<(i64, u32)>)
    ensures
        r == formatted_time(text@, format@),
{
    let parsed = chrono::DateTime::parse_from_str(text, format).ok()?;
    Some((parsed.timestamp(), parsed.timestamp_subsec_nanos()))
}

/// `chrono::Utc::now`, with the time handed out as its `timestamp` and `timestamp_subsec_nanos`.
/// It is never before 1970 and never in a leap second.
#[verifier::external_body]
fn read_utc() -> (r: (i64, u32))
    ensures
        0 <= r.0 <= MAX_UTC_SECS,
        r.1 < 1_000_000_000,
{
    let now = chrono::Utc::now();
    (now.timestamp(), now.timestamp_subsec_nanos())
}

/// `chrono::DateTime::signed_duration_since` followed by `chrono::TimeDelta::to_std`, on times
/// made by `chrono::DateTime::from_timestamp`. The result depends on the times alone. Between
/// times in no leap second it is the time that lies between them, and there is none where the
/// first is before the second.
#[verifier::external_body]
fn subtract_utc(secs: i64, nanos: u32, earlier_secs: i64, earlier_nanos: u32) -> (r: Option<
    (u64, u32),
>)
    ensures
        r == utc_difference(secs, nanos, earlier_secs, earlier_nanos),
        r matches Some(span) ==> span.0 <= i64::MAX && span.1 < 1_000_000_000,
        ({
            let later = UtcTime { secs, nanos };
            let earlier = UtcTime { secs: earlier_secs, nanos: earlier_nanos };
            later.ordinary() && earlier.ordinary() ==> match r {
                Some(span) => seconds(span.0 as int) + span.1 == later.place() - earlier.place(),
                None => later.place() < earlier.place(),
            }
        }),
{
    let later = chrono::DateTime::from_timestamp(secs, nanos)?;
    let earlier = chrono::DateTime::from_timestamp(earlier_secs, earlier_nanos)?;
    let span = later.signed_duration_since(earlier).to_std().ok()?;
    Some((span.as_secs(), span.subsec_nanos()))
}

/// The sum of a `chrono::DateTime` and a `chrono::TimeDelta` of whole seconds, on a time made by
/// `chrono::DateTime::from_timestamp`. Outside of leap seconds it is as many seconds later.
#[verifier::external_body]
fn add_seconds(secs: i64, nanos: u32, span: i64) -> (r: (i64, u32))
    requires
        MIN_UTC_SECS <= secs <= MAX_UTC_SECS,
        nanos < 1_000_000_000,
        MIN_UTC_SECS <= secs + span <= MAX_UTC_SECS,
    ensures
        r.0 == secs + span,
        r.1 == nanos,
{
    let start = chrono::DateTime::from_timestamp(secs, nanos).unwrap();
    let end = start + chrono::TimeDelta::seconds(span);
    (end.timestamp(), end.timestamp_subsec_nanos())
}

/// The first of two readings of a time that is there.
pub open spec fn first_reading(strict: Option<(i64, u32)>, lenient: Option<(i64, u32)>) -> Option<
    UtcTime,
> {
    match strict {
        Some(t) => Some(UtcTime { secs: t.0, nanos: t.1 }),
        None => match lenient {
            Some(t) => Some(UtcTime { secs: t.0, nanos: t.1 }),
            None => None,
        },
    }
}

/// The time that a text names, if it names one.
pub open spec fn reset_time(text: Seq<char>) -> Option<UtcTime> {
    first_reading(rfc3339_time(text), formatted_time(text, "%+"@))
}

/// The first of two readings of a time that is there.
pub fn choose_reading(strict: Option<(i64, u32)>, lenient: Option<(i64, u32)>) -> (r: Option<UtcTime>)
    ensures
        r == first_reading(strict, lenient),
{
    match strict {
        Some(t) => Some(UtcTime { secs: t.0, nanos: t.1 }),
        None => match lenient {
            Some(t) => Some(UtcTime { secs: t.0, nanos: t.1 }),
            None => None,
        },
    }
}

/// Reads the time that a text names.
pub fn parse_reset_time(text: &str) -> (r: Option<UtcTime>)
    ensures
        r == reset_time(text@),
{
    match parse_rfc3339(text) {
        Some(t) => choose_reading(Some(t), None),
        None => choose_reading(None, parse_formatted(text, "%+")),
    }
}

/// The time until `later`, none where it has passed.
pub open spec fn time_until(later: UtcTime, now: UtcTime) -> nat {
    match utc_difference(later.secs, later.nanos, now.secs, now.nanos) {
        Some(span) => (seconds(span.0 as int) + span.1) as nat,
        None => 0,
    }
}

impl UtcTime {
    /// The present time.
    pub fn now() -> (r: Self)
        ensures
            r.ordinary(),
            0 <= r.secs,
    {
        let (secs, nanos) = read_utc();
        UtcTime { secs, nanos }
    }

    /// The time that lies between `now` and this time, none where this time has passed.
    pub fn until(&self, now: UtcTime) -> (r: Duration)
        ensures
            r@ == time_until(*self, now),
            r@ < seconds(i64::MAX + 1),
            self.ordinary() && now.ordinary() ==> r@ == if self.place() <= now.place() {
                0
            } else {
                self.place() - now.place()
            },
    {
        match subtract_utc(self.secs, self.nanos, now.secs, now.nanos) {
            Some(span) => Duration::from_parts(span.0, span.1),
            None => Duration::from_secs(0),
        }
    }

    /// The time a number of seconds later.
    pub fn plus_seconds(&self, span: i64) -> (r: UtcTime)
        requires
            self.ordinary(),
            MIN_UTC_SECS <= self.secs + span <= MAX_UTC_SECS,
        ensures
            r.secs == self.secs + span,
            r.nanos == self.nanos,
    {
        let (secs, nanos) = add_seconds(self.secs, self.nanos, span);
        UtcTime { secs, nanos }
    }
}

/// A time is read strictly where it can be, and else leniently; what was read is kept to the
/// nanosecond.
pub proof fn law_strict_readings_come_first(text: Seq<char>)
    ensures
        match rfc3339_time(text) {
            Some(read) => reset_time(text) matches Some(t) && t.secs == read.0 && t.nanos == read.1,
            None => match formatted_time(text, "%+"@) {
                Some(read) => reset_time(text) matches Some(t) && t.secs == read.0 && t.nanos
                    == read.1,
                None => reset_time(text) is None,
            },
        },
{
}

/// A point of time lies a billion nanoseconds behind the one a second earlier.
pub proof fn law_places_on_the_calendar(t: UtcTime)
    ensures
        t.place() == t.secs * 1_000_000_000 + t.nanos,
        t.ordinary() ==> t.nanos <= 999_999_999,
{
}

/// The time until a point is what lies between, in seconds and nanoseconds, and none where it has
/// passed.
pub proof fn law_time_until_a_point(later: UtcTime, now: UtcTime)
    ensures
        match utc_difference(later.secs, later.nanos, now.secs, now.nanos) {
            Some(span) => time_until(later, now) == span.0 * 1_000_000_000 + span.1,
            None => time_until(later, now) == 0,
        },
{
}

/// A time that lies a number of seconds later is that far away.
pub proof fn law_later_times_are_that_far_away(
    at: UtcTime,
    span: i64,
    later: UtcTime,
    between: Duration,
)
    requires
        at.ordinary(),
        MIN_UTC_SECS <= at.secs + span <= MAX_UTC_SECS,
        0 <= span,
        call_ensures(UtcTime::plus_seconds, (&at, span), later),
        call_ensures(UtcTime::until, (&later, at), between),
    ensures
        later.ordinary(),
        between@ == span * 1_000_000_000,
        later.place() - at.place() == span * 1_000_000_000,
{
}

/// A time that has passed is not waited for.
pub proof fn law_past_times_are_not_waited_for(at: UtcTime, now: UtcTime, between: Duration)
    requires
        at.ordinary(),
        now.ordinary(),
        call_ensures(UtcTime::until, (&at, now), between),
    ensures
        at.place() <= now.place() ==> between@ == 0,
        at.place() > now.place() ==> now.place() + between@ == at.place(),
{
}

} // verus!
