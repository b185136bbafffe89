//! Moments on the UTC time line, and what the clocks in Athens show at
//! one. Reading the system clock is the caller's part: every function here
//! takes the moment as an argument.

use chrono::{DateTime, Utc};
use chrono_tz::Europe::Athens;
use vstd::prelude::*;

verus! {

/// Nanoseconds in one second.
pub const NANOS_PER_SEC: i128 = 1_000_000_000;

/// A moment: whole seconds since 1970-01-01T00:00:00 UTC, and the
/// nanoseconds that follow them.
#[derive(Clone, Copy, Debug, PartialEq, Eq)]
pub struct Timestamp {
    pub secs: i64,
    pub nanos: u32,
}

impl View for Timestamp {
    type V = int;

    /// The moment as nanoseconds since the epoch.
    open spec fn view(&self) -> int {
        self.secs * 1_000_000_000 + self.nanos
    }
}

impl Timestamp {
    /// The moment `secs` seconds and `nanos` nanoseconds after the epoch.
    pub fn new(secs: i64, nanos: u32) -> (t: Timestamp)
        ensures
            t.secs == secs,
            t.nanos == nanos,
    {
        Timestamp { secs, nanos }
    }

    /// The moment as nanoseconds since the epoch.
    pub fn total_nanos(&self) -> (n: i128)
        ensures
            n == self@,
    {
        self.secs as i128 * NANOS_PER_SEC + self.nanos as i128
    }

    /// Whether the calendar has a date and time for this moment.
    pub open spec fn on_calendar(self) -> bool {
        calendar_holds(self.secs as int, self.nanos as int)
    }

    /// What the clocks in Athens show at this moment, where it is on the
    /// calendar.
    pub open spec fn athens_text(self) -> Seq<char> {
        athens_clock_text(self.secs as int, self.nanos as int)
    }
}

/// The first second that the calendar holds, in seconds since the epoch:
/// midnight before January 1 of the year -262143, the first day that chrono
/// has a date for.
pub const MIN_CALENDAR_SECS: i64 = -8_334_601_228_800;

/// The last second that the calendar holds, in seconds since the epoch:
/// 23:59:59 on December 31 of the year 262142, the last day that chrono has
/// a date for.
pub const MAX_CALENDAR_SECS: i64 = 8_210_266_876_799;

/// Whether the calendar has a date and time for the moment `secs` seconds
/// and `nanos` nanoseconds after the epoch. The second lies between the
/// first and the last that the calendar holds. The nanoseconds stay below a
/// second, but for the last second of a minute, which may run on into a leap
/// second and so takes up to two.
pub open spec fn calendar_holds(secs: int, nanos: int) -> bool {
    &&& MIN_CALENDAR_SECS <= secs <= MAX_CALENDAR_SECS
    &&& 0 <= nanos
    &&& nanos < 1_000_000_000 || (nanos < 2_000_000_000 && secs % 60 == 59)
}

/// The time of day in the zone Europe/Athens at the moment `secs` seconds
/// and `nanos` nanoseconds after the epoch, as chrono writes it for the
/// format `%H:%M:%S`. It is the value of
/// `DateTime::from_timestamp(secs, nanos)` taken to `chrono_tz::Europe::Athens`
/// and formatted, and it means something only where
/// `calendar_holds(secs, nanos)`.
pub uninterp spec fn athens_clock_text(secs: int, nanos: int) -> Seq<char>;

/// Whether `c` is one of the digits `0` to `9`.
pub open spec fn is_digit(c: char) -> bool {
    '0' <= c <= '9'
}

/// The number that the two digits of `s` at `at` and after it write.
pub open spec fn two_digits(s: Seq<char>, at: int) -> int {
    10 * (s[at] as int - '0' as int) + (s[at + 1] as int - '0' as int)
}

/// The shape `HH:MM:SS`: two digits, a colon, two digits, a colon, two
/// digits; the hour is at most 23, the minute at most 59, and the second at
/// most 60, which a leap second takes.
pub open spec fn clock_shaped(s: Seq<char>) -> bool {
    &&& s.len() == 8
    &&& is_digit(s[0])
    &&& is_digit(s[1])
    &&& s[2] == ':'
    &&& is_digit(s[3])
    &&& is_digit(s[4])
    &&& s[5] == ':'
    &&& is_digit(s[6])
    &&& is_digit(s[7])
    &&& two_digits(s, 0) <= 23
    &&& two_digits(s, 3) <= 59
    &&& two_digits(s, 6) <= 60
}

/// Asks chrono for the time of day in Athens at a moment:
/// `DateTime::from_timestamp`, then `with_timezone` with
/// `chrono_tz::Europe::Athens`, then `format` with `%H:%M:%S`.
///
/// The contract claims three things. The answer is there exactly where
/// `from_timestamp` has a date and time for the moment: it refuses a day
/// before `NaiveDate::MIN` or after `NaiveDate::MAX`, two thousand million
/// nanoseconds or more, and a thousand million or more in a second that is
/// not the last of its minute. The answer is a function of the two numbers
/// alone, since the zone's rules are compiled into chrono-tz. And it has the
/// shape chrono documents for `%H`, `%M` and `%S`: the hour from 00 to 23,
/// the minute from 00 to 59, the second from 00 to 60, each two digits,
/// padded with a zero.
#[verifier::external_body]
fn athens_clock(secs: i64, nanos: u32) -> (text: Option<String>)
    ensures
        text is Some <==> calendar_holds(secs as int, nanos as int),
        text matches Some(t) ==> t@ == athens_clock_text(secs as int, nanos as int)
            && clock_shaped(t@),
{
    let utc: DateTime<Utc> = DateTime::from_timestamp(secs, nanos)?;
    Some(utc.with_timezone(&Athens).format("%H:%M:%S").to_string())
}

/// The answer to "what time is it": the time of day as `HH:MM:SS`.
#[derive(Debug, PartialEq, Eq)]
pub struct TimeResponse {
    pub time: String,
}

impl TimeResponse {
    /// The answer that shows `time`.
    pub fn new(time: String) -> (r: TimeResponse)
        ensures
            r.time == time,
    {
        TimeResponse { time }
    }
}

/// The time of day in Athens at the moment `now`, or `None` where the
/// calendar has no date and time for `now`.
pub fn athens_time_at(now: Timestamp) -> (r: Option<TimeResponse>)
    ensures
        r is Some <==> now.on_calendar(),
        r matches Some(shown) ==> shown.time@ == now.athens_text() && clock_shaped(shown.time@),
{
    match athens_clock(now.secs, now.nanos) {
        Some(text) => Some(TimeResponse::new(text)),
        None => None,
    }
}

} // verus!
