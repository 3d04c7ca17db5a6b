//! Points in time, and what the calendar library says about them.

use vstd::prelude::*;

verus! {

/// The seconds of the first moment that can be told, 1 January 262144 BCE.
pub const MIN_SECONDS: i64 = -8334601228800;

/// The seconds of the last moment that can be told, 31 December 262142 CE.
pub const MAX_SECONDS: i64 = 8210266876799;

/// A point in time: whole seconds since the Unix epoch, and nanoseconds.
#[derive(Debug, Clone, Copy, PartialEq, Eq, Structural)]
pub struct Timestamp {
    /// Whole seconds since the Unix epoch.
    pub seconds: i64,
    /// Nanoseconds behind the whole second.
    pub nanos: u32,
}

/// The clock on the wall: the date, and the time of day.
#[derive(Debug, Clone, Copy, PartialEq, Eq, Structural)]
pub struct WallClock {
    /// The year. The one before 1 is 0, and those before it are negative.
    pub year: i32,
    /// The month, 1 to 12.
    pub month: u32,
    /// The day of the month, 1 to 31.
    pub day: u32,
    /// The hour, 0 to 23.
    pub hour: u32,
    /// The minute, 0 to 59.
    pub minute: u32,
}

impl WallClock {
    /// Whether the numbers are ones that a clock can show.
    pub open spec fn wf(self) -> bool {
        &&& 1 <= self.month <= 12
        &&& 1 <= self.day <= 31
        &&& self.hour < 24
        &&& self.minute < 60
    }
}

/// The text of a point in time in RFC 3339 notation, as chrono writes it.
pub uninterp spec fn rfc3339(seconds: i64, nanos: u32) -> Seq<char>;

impl Timestamp {
    /// Whether the calendar can tell this point in time.
    pub open spec fn wf(self) -> bool {
        MIN_SECONDS <= self.seconds <= MAX_SECONDS && self.nanos < 1_000_000_000
    }

    /// Nanoseconds since the Unix epoch.
    pub open spec fn total_nanos(self) -> int {
        self.seconds * 1_000_000_000 + self.nanos
    }

    /// Whether this point in time is `other` or comes later.
    pub open spec fn at_or_after(self, other: Timestamp) -> bool {
        self.seconds > other.seconds || (self.seconds == other.seconds && self.nanos
            >= other.nanos)
    }

    /// The point in time `seconds` later, if the calendar can tell it and the
    /// delay fits in 2^63 - 1 milliseconds.
    pub open spec fn later(self, seconds: i64) -> Option<Timestamp> {
        if -9223372036854775 <= seconds <= 9223372036854775 && MIN_SECONDS <= self.seconds + seconds
            <= MAX_SECONDS {
            Some(Timestamp { seconds: (self.seconds + seconds) as i64, nanos: self.nanos })
        } else {
            None
        }
    }

    /// The whole seconds from `other` to this point in time, towards zero.
    pub open spec fn seconds_since(self, other: Timestamp) -> int {
        let d = self.total_nanos() - other.total_nanos();
        if d >= 0 {
            d / 1_000_000_000
        } else {
            -((-d) / 1_000_000_000)
        }
    }

    /// The text of this point in time.
    pub open spec fn text(self) -> Seq<char> {
        rfc3339(self.seconds, self.nanos)
    }

    /// Whether this point in time is `other` or comes later.
    pub fn is_at_or_after(&self, other: &Timestamp) -> (r: bool)
        ensures
            r == self.at_or_after(*other),
    {
        self.seconds > other.seconds || (self.seconds == other.seconds && self.nanos
            >= other.nanos)
    }

    /// The point in time `seconds` later, if the calendar can tell it.
    pub fn plus_seconds(&self, seconds: i64) -> (r: Option<Timestamp>)
        requires
            self.wf(),
        ensures
            r == self.later(seconds),
            r matches Some(t) ==> t.wf(),
    {
        calendar_add(*self, seconds)
    }

    /// The whole seconds from `other` to this point in time, towards zero.
    pub fn age(&self, other: &Timestamp) -> (r: i64)
        requires
            self.wf(),
            other.wf(),
        ensures
            r == self.seconds_since(*other),
    {
        calendar_difference(*self, *other)
    }

    /// The point in time in RFC 3339 notation.
    pub fn to_rfc3339(&self) -> (r: String)
        requires
            self.wf(),
        ensures
            r@ == self.text(),
    {
        calendar_text(*self)
    }
}

/// `chrono::DateTime::checked_add_signed` with `chrono::TimeDelta::try_seconds`:
/// the delay is added to the seconds, and nothing comes back if the delay or
/// the sum is out of the calendar's range.
#[verifier::external_body]
fn calendar_add(t: Timestamp, seconds: i64) -> (r: Option<Timestamp>)
    requires
        t.wf(),
    ensures
        r == t.later(seconds),
{
    let start = chrono::DateTime::<chrono::Utc>::from_timestamp(t.seconds, t.nanos)?;
    let end = start.checked_add_signed(chrono::TimeDelta::try_seconds(seconds)?)?;
    Some(Timestamp { seconds: end.timestamp(), nanos: end.timestamp_subsec_nanos() })
}

/// `chrono::DateTime::signed_duration_since` and `chrono::TimeDelta::num_seconds`:
/// the difference in whole seconds, cut off towards zero.
#[verifier::external_body]
fn calendar_difference(later: Timestamp, earlier: Timestamp) -> (r: i64)
    requires
        later.wf(),
        earlier.wf(),
    ensures
        r == later.seconds_since(earlier),
{
    let a = chrono::DateTime::<chrono::Utc>::from_timestamp(later.seconds, later.nanos).unwrap();
    let b = chrono::DateTime::<chrono::Utc>::from_timestamp(earlier.seconds, earlier.nanos).unwrap();
    a.signed_duration_since(b).num_seconds()
}

/// `chrono::DateTime::to_rfc3339` in UTC. The notation has a name and no more:
/// the contract does not spell it out.
#[verifier::external_body]
fn calendar_text(t: Timestamp) -> (r: String)
    requires
        t.wf(),
    ensures
        r@ == rfc3339(t.seconds, t.nanos),
{
    chrono::DateTime::<chrono::Utc>::from_timestamp(t.seconds, t.nanos).unwrap().to_rfc3339()
}

/// `chrono::Utc::now`: the current time, which the calendar can tell and which
/// is not before 1970. The call itself stops the program on a machine whose
/// clock is set outside that range.
#[verifier::external_body]
pub(crate) fn utc_now() -> (r: Timestamp)
    ensures
        r.wf(),
        r.seconds >= 0,
{
    let now = chrono::Utc::now();
    Timestamp { seconds: now.timestamp(), nanos: now.timestamp_subsec_nanos() }
}

/// `chrono::Local::now`: the current date and time of day in the time zone of
/// the machine. The numbers are ones that a clock can show; no more is claimed.
#[verifier::external_body]
pub(crate) fn wall_clock_now() -> (r: WallClock)
    ensures
        r.wf(),
{
    let now = chrono::Local::now();
    WallClock {
        year: chrono::Datelike::year(&now),
        month: chrono::Datelike::month(&now),
        day: chrono::Datelike::day(&now),
        hour: chrono::Timelike::hour(&now),
        minute: chrono::Timelike::minute(&now),
    }
}

/// A point in time comes at or after itself, two of them can be told apart one
/// way or the other, and the order is passed on.
pub proof fn time_is_ordered(a: Timestamp, b: Timestamp, c: Timestamp)
    ensures
        a.at_or_after(a),
        a.at_or_after(b) || b.at_or_after(a),
        a.at_or_after(b) && b.at_or_after(a) ==> a == b,
        a.at_or_after(b) && b.at_or_after(c) ==> a.at_or_after(c),
{
}

/// A deadline that lies in the future has not passed yet, and has passed once
/// the delay is over.
pub proof fn deadline_lies_ahead(now: Timestamp, seconds: i64)
    requires
        now.wf(),
        seconds > 0,
        now.later(seconds) is Some,
    ensures
        !now.at_or_after(now.later(seconds).unwrap()),
        now.later(seconds).unwrap().wf(),
        now.later(seconds).unwrap().seconds_since(now) == seconds,
{
}

/// Points in time are compared by the nanoseconds since the epoch.
pub proof fn later_is_more_nanoseconds(a: Timestamp, b: Timestamp, r: bool)
    requires
        a.wf() && b.wf(),
        call_ensures(Timestamp::is_at_or_after, (&a, &b), r),
    ensures
        r <==> a.seconds * 1_000_000_000 + a.nanos >= b.seconds * 1_000_000_000 + b.nanos,
{
}

/// A point in time some seconds later has that many seconds more, and the same
/// nanoseconds; from the one to the other it is that many seconds.
pub proof fn seconds_are_added(
    now: Timestamp,
    seconds: i64,
    r: Option<Timestamp>,
    then: Timestamp,
    age: i64,
)
    requires
        now.wf() && then.wf(),
        call_ensures(Timestamp::plus_seconds, (&now, seconds), r),
        call_ensures(Timestamp::age, (&then, &now), age),
    ensures
        r matches Some(t) ==> t.seconds == now.seconds + seconds && t.nanos == now.nanos,
        -1_000_000_000_000 <= seconds <= 1_000_000_000_000 && 0 <= now.seconds
            <= 1_000_000_000_000 ==> r is Some,
        then.nanos == now.nanos ==> age == then.seconds - now.seconds,
        r == Some(then) ==> age == seconds,
{
}

} // verus!
