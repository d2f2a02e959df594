//! Points in time as seconds and nanoseconds since the Unix epoch, and their
//! text in UTC.

use vstd::prelude::*;
use crate::text::text_of;

verus! {

/// The last second of the year 9999.
pub const MAX_SECONDS: i64 = 253_402_300_799;

/// Whether seconds and nanoseconds are those of a time between the Unix
/// epoch and the end of the year 9999.
pub open spec fn in_calendar(seconds: int, nanos: int) -> bool {
    0 <= seconds <= MAX_SECONDS && 0 <= nanos < 1_000_000_000
}

/// The text that chrono's `Display` gives for the UTC time of a timestamp,
/// if chrono can represent the time.
pub uninterp spec fn utc_display(seconds: int, nanos: int) -> Option<Seq<char>>;

/// The text that chrono's `format` gives for the UTC time of a timestamp
/// under a `strftime` pattern, if chrono can represent the time.
pub uninterp spec fn utc_formatted(seconds: int, nanos: int, pattern: Seq<char>) -> Option<
    Seq<char>,
>;

/// The text that chrono's `to_rfc3339` gives for the UTC time of a
/// timestamp, if chrono can represent the time.
pub uninterp spec fn utc_rfc3339(seconds: int, nanos: int) -> Option<Seq<char>>;

/// The pattern of a time of day in hours and minutes.
pub open spec fn hour_minute_pattern() -> Seq<char> {
    "%H:%M"@
}

/// The pattern of a date with the time of day in seconds.
pub open spec fn date_time_pattern() -> Seq<char> {
    "%Y-%m-%d %H:%M:%S"@
}

/// `DateTime::<Utc>::from_timestamp` of chrono, then `to_string` on the
/// result. The text depends on the two numbers alone and is known to Verus
/// by name only. chrono represents every time between the epoch and the end
/// of the year 9999, so there the text exists.
#[verifier::external_body]
fn display_utc(seconds: i64, nanos: u32) -> (text: Option<String>)
    ensures
        text_of(text) == utc_display(seconds as int, nanos as int),
        in_calendar(seconds as int, nanos as int) ==> text.is_some(),
{
    match chrono::DateTime::from_timestamp(seconds, nanos) {
        Some(time) => Some(time.to_string()),
        None => None,
    }
}

/// `DateTime::<Utc>::from_timestamp` of chrono, then `format` with one of
/// the two patterns of this module. The text depends on the arguments alone
/// and is known to Verus by name only. chrono represents every time between
/// the epoch and the end of the year 9999, so there the text exists.
#[verifier::external_body]
fn format_utc(seconds: i64, nanos: u32, pattern: &str) -> (text: Option<String>)
    requires
        pattern@ == hour_minute_pattern() || pattern@ == date_time_pattern(),
    ensures
        text_of(text) == utc_formatted(seconds as int, nanos as int, pattern@),
        in_calendar(seconds as int, nanos as int) ==> text.is_some(),
{
    match chrono::DateTime::from_timestamp(seconds, nanos) {
        Some(time) => Some(time.format(pattern).to_string()),
        None => None,
    }
}

/// `DateTime::<Utc>::from_timestamp` of chrono, then `to_rfc3339` on the
/// result. The text depends on the two numbers alone and is known to Verus
/// by name only. chrono represents every time between the epoch and the end
/// of the year 9999, so there the text exists.
#[verifier::external_body]
fn rfc3339_utc(seconds: i64, nanos: u32) -> (text: Option<String>)
    ensures
        text_of(text) == utc_rfc3339(seconds as int, nanos as int),
        in_calendar(seconds as int, nanos as int) ==> text.is_some(),
{
    match chrono::DateTime::from_timestamp(seconds, nanos) {
        Some(time) => Some(time.to_rfc3339()),
        None => None,
    }
}

/// Seconds in a day.
pub const DAY_SECONDS: i64 = 86_400;

/// A time between the Unix epoch and the end of the year 9999.
#[derive(Debug, Clone, Copy)]
pub struct Timestamp {
    seconds: i64,
    nanos: u32,
}

impl Timestamp {
    #[verifier::type_invariant]
    spec fn inv(self) -> bool {
        in_calendar(self.seconds as int, self.nanos as int)
    }

    /// Whole seconds since the Unix epoch.
    pub closed spec fn spec_seconds(self) -> int {
        self.seconds as int
    }

    /// Nanoseconds since the last whole second.
    pub closed spec fn spec_nanos(self) -> int {
        self.nanos as int
    }

    /// The time as chrono displays it in UTC.
    pub open spec fn display_text(self) -> Seq<char> {
        utc_display(self.spec_seconds(), self.spec_nanos()).unwrap()
    }

    /// The time of day in UTC, in hours and minutes.
    pub open spec fn hour_minute_text(self) -> Seq<char> {
        utc_formatted(self.spec_seconds(), self.spec_nanos(), hour_minute_pattern()).unwrap()
    }

    /// The date and the time of day in UTC, in seconds.
    pub open spec fn date_time_text(self) -> Seq<char> {
        utc_formatted(self.spec_seconds(), self.spec_nanos(), date_time_pattern()).unwrap()
    }

    /// The time in the RFC 3339 format, in UTC.
    pub open spec fn rfc3339_text(self) -> Seq<char> {
        utc_rfc3339(self.spec_seconds(), self.spec_nanos()).unwrap()
    }

    /// The time `seconds` and `nanos` after the Unix epoch, if it lies
    /// before the year 10000 and `nanos` is less than a second.
    pub fn new(seconds: i64, nanos: u32) -> (time: Option<Self>)
        ensures
            time.is_some() == in_calendar(seconds as int, nanos as int),
            time.is_some() ==> time.unwrap().spec_seconds() == seconds && time.unwrap().spec_nanos()
                == nanos,
    {
        if 0 <= seconds && seconds <= MAX_SECONDS && nanos < 1_000_000_000 {
            Some(Timestamp { seconds, nanos })
        } else {
            None
        }
    }

    /// The Unix epoch.
    pub fn epoch() -> (time: Self)
        ensures
            time.spec_seconds() == 0,
            time.spec_nanos() == 0,
    {
        Timestamp { seconds: 0, nanos: 0 }
    }

    /// Whole seconds since the Unix epoch.
    pub fn seconds(&self) -> (seconds: i64)
        ensures
            seconds == self.spec_seconds(),
            0 <= seconds <= MAX_SECONDS,
    {
        proof {
            use_type_invariant(self);
        }
        self.seconds
    }

    /// Nanoseconds since the last whole second.
    pub fn nanos(&self) -> (nanos: u32)
        ensures
            nanos == self.spec_nanos(),
            nanos < 1_000_000_000,
    {
        proof {
            use_type_invariant(self);
        }
        self.nanos
    }

    /// The time as chrono displays it in UTC.
    pub fn display(&self) -> (text: String)
        ensures
            utc_display(self.spec_seconds(), self.spec_nanos()) == Some(text@),
            text@ == self.display_text(),
    {
        proof {
            use_type_invariant(self);
        }
        display_utc(self.seconds, self.nanos).unwrap()
    }

    /// The time in the RFC 3339 format, in UTC.
    pub fn rfc3339(&self) -> (text: String)
        ensures
            utc_rfc3339(self.spec_seconds(), self.spec_nanos()) == Some(text@),
            text@ == self.rfc3339_text(),
    {
        proof {
            use_type_invariant(self);
        }
        rfc3339_utc(self.seconds, self.nanos).unwrap()
    }

    /// The time `days` days later, if that is before the year 10000.
    pub fn plus_days(&self, days: u32) -> (later: Option<Timestamp>)
        ensures
            later.is_some() == (self.spec_seconds() + days * DAY_SECONDS <= MAX_SECONDS),
            later.is_some() ==> later.unwrap().spec_seconds() == self.spec_seconds() + days
                * DAY_SECONDS && later.unwrap().spec_nanos() == self.spec_nanos(),
    {
        proof {
            use_type_invariant(self);
        }
        let span: i64 = (days as i64) * DAY_SECONDS;
        if span <= MAX_SECONDS - self.seconds {
            Some(Timestamp { seconds: self.seconds + span, nanos: self.nanos })
        } else {
            None
        }
    }

    /// The time of day in UTC, in hours and minutes.
    pub fn hour_minute(&self) -> (text: String)
        ensures
            utc_formatted(self.spec_seconds(), self.spec_nanos(), hour_minute_pattern()) == Some(
                text@,
            ),
            text@ == self.hour_minute_text(),
    {
        proof {
            use_type_invariant(self);
        }
        format_utc(self.seconds, self.nanos, "%H:%M").unwrap()
    }

    /// The date and the time of day in UTC, in seconds.
    pub fn date_time(&self) -> (text: String)
        ensures
            utc_formatted(self.spec_seconds(), self.spec_nanos(), date_time_pattern()) == Some(
                text@,
            ),
            text@ == self.date_time_text(),
    {
        proof {
            use_type_invariant(self);
        }
        format_utc(self.seconds, self.nanos, "%Y-%m-%d %H:%M:%S").unwrap()
    }
}

} // verus!
