//! Points in time, held to the second.
//!
//! An [`Instant`] is a count of seconds since the Unix epoch together with
//! the offset from UTC in which it is shown. Ordering and arithmetic are done
//! here on the integers; calendar work (text forms, months) is done by the
//! `chrono` crate, whose results the contracts name.

use vstd::prelude::*;
use vstd::string::*;

verus! {

/// The first second of the year 0000, in seconds since the Unix epoch.
pub const MIN_SECONDS: i64 = -62_167_219_200;

/// The last second of the year 9999, in seconds since the Unix epoch.
pub const MAX_SECONDS: i64 = 253_402_300_799;

/// The seconds of one day.
pub const DAY_SECONDS: i64 = 86_400;

/// The pattern of a calendar date.
pub const DATE_PATTERN: &'static str = "%Y-%m-%d";

/// The pattern of a calendar date with the time of day.
pub const DATE_TIME_PATTERN: &'static str = "%Y-%m-%d %H:%M:%S";

/// Whether seconds and offset make an instant: the seconds lie in the years
/// 0000 to 9999 and the offset is less than a day either way.
pub open spec fn in_range(seconds: int, offset: int) -> bool {
    MIN_SECONDS <= seconds <= MAX_SECONDS && -DAY_SECONDS < offset < DAY_SECONDS
}

/// The RFC 3339 text of an instant, as `chrono` writes it.
pub uninterp spec fn rfc3339_text(seconds: i64, offset: i32) -> Seq<char>;

/// The seconds and the offset that `chrono` reads from an RFC 3339 text, if
/// it is one.
pub uninterp spec fn rfc3339_parts(text: Seq<char>) -> Option<(i64, i32)>;

/// The text of an instant under a `strftime` pattern, as `chrono` writes it.
pub uninterp spec fn formatted_text(seconds: i64, offset: i32, pattern: Seq<char>) -> Seq<char>;

/// The seconds of the instant a number of calendar months later, as `chrono`
/// computes it in the given offset, if there is one.
pub uninterp spec fn months_later(seconds: i64, offset: i32, months: u32) -> Option<i64>;

/// The seconds at which the calendar date that a text names begins in UTC,
/// if `chrono` reads the text as a date under the `strftime` pattern.
pub uninterp spec fn date_start(text: Seq<char>, pattern: Seq<char>) -> Option<i64>;

/// Calls `DateTime::to_rfc3339` on the date and time that `DateTime::from_timestamp`
/// and `FixedOffset::east_opt` make of the arguments. Both conversions succeed
/// on every argument in range. The contract names the text.
#[verifier::external_body]
fn chrono_rfc3339(seconds: i64, offset: i32) -> (text: String)
    requires
        in_range(seconds as int, offset as int),
    ensures
        text@ == rfc3339_text(seconds, offset),
{
    let zone = chrono::FixedOffset::east_opt(offset).unwrap();
    chrono::DateTime::from_timestamp(seconds, 0).unwrap().with_timezone(&zone).to_rfc3339()
}

/// Calls `DateTime::parse_from_rfc3339` and hands out the Unix timestamp and
/// the offset of what was read, or `None` where `chrono` rejects the text.
/// The contract names the result.
#[verifier::external_body]
fn chrono_parse_rfc3339(text: &str) -> (parts: Option<(i64, i32)>)
    ensures
        parts == rfc3339_parts(text@),
{
    let read = chrono::DateTime::parse_from_rfc3339(text).ok()?;
    Some((read.timestamp(), read.offset().local_minus_utc()))
}

/// Calls `DateTime::format` with one of the two patterns of this module and
/// writes the result to a string. The contract names the text.
#[verifier::external_body]
fn chrono_format(seconds: i64, offset: i32, pattern: &str) -> (text: String)
    requires
        in_range(seconds as int, offset as int),
        pattern@ == DATE_PATTERN@ || pattern@ == DATE_TIME_PATTERN@,
    ensures
        text@ == formatted_text(seconds, offset, pattern@),
{
    let zone = chrono::FixedOffset::east_opt(offset).unwrap();
    let shown = chrono::DateTime::from_timestamp(seconds, 0).unwrap().with_timezone(&zone);
    shown.format(pattern).to_string()
}

/// Calls `DateTime::checked_add_months` and hands out the Unix timestamp of
/// the result, or `None` where `chrono` finds no such date. The contract
/// names the result.
#[verifier::external_body]
fn chrono_add_months(seconds: i64, offset: i32, months: u32) -> (later: Option<i64>)
    requires
        in_range(seconds as int, offset as int),
    ensures
        later == months_later(seconds, offset, months),
{
    let zone = chrono::FixedOffset::east_opt(offset).unwrap();
    let shown = chrono::DateTime::from_timestamp(seconds, 0).unwrap().with_timezone(&zone);
    Some(shown.checked_add_months(chrono::Months::new(months))?.timestamp())
}

/// Calls `NaiveDate::parse_from_str` and hands out the Unix timestamp of
/// that date's midnight in UTC, or `None` where `chrono` rejects the text or
/// the pattern. The contract names the result.
#[verifier::external_body]
fn chrono_parse_date(text: &str, pattern: &str) -> (start: Option<i64>)
    ensures
        start == date_start(text@, pattern@),
{
    let date = chrono::NaiveDate::parse_from_str(text, pattern).ok()?;
    Some(date.and_time(chrono::NaiveTime::MIN).and_utc().timestamp())
}

/// A point in time with the offset from UTC in which it is shown.
#[derive(Debug, Clone, Copy, PartialEq, Eq, Structural)]
pub struct Instant {
    seconds: i64,
    offset: i32,
}

/// An instant as a mathematical value.
pub struct InstantModel {
    pub seconds: int,
    pub offset: int,
}

impl View for Instant {
    type V = InstantModel;

    closed spec fn view(&self) -> InstantModel {
        InstantModel { seconds: self.seconds as int, offset: self.offset as int }
    }
}

/// The instant that `parts` stand for, if they are in range.
pub open spec fn instant_of(parts: Option<(i64, i32)>) -> Option<InstantModel> {
    match parts {
        Some((seconds, offset)) => if in_range(seconds as int, offset as int) {
            Some(InstantModel { seconds: seconds as int, offset: offset as int })
        } else {
            None
        },
        None => None,
    }
}

/// The instant `delta` seconds after `t`, if it is in range.
pub open spec fn shifted(t: InstantModel, delta: int) -> Option<InstantModel> {
    if MIN_SECONDS <= t.seconds + delta <= MAX_SECONDS {
        Some(InstantModel { seconds: t.seconds + delta, offset: t.offset })
    } else {
        None
    }
}

/// The instant with the seconds `later` in the offset of `now`, if there are
/// any and they are in range.
pub open spec fn moved(now: InstantModel, later: Option<i64>) -> Option<InstantModel> {
    match later {
        Some(s) => if MIN_SECONDS <= s <= MAX_SECONDS {
            Some(InstantModel { seconds: s as int, offset: now.offset })
        } else {
            None
        },
        None => None,
    }
}

/// The start of a day in the offset of `now`, where `start` is its start in
/// UTC, if there is one and the result is in range.
pub open spec fn dated(now: InstantModel, start: Option<i64>) -> Option<InstantModel> {
    match start {
        Some(s) => if MIN_SECONDS <= s - now.offset <= MAX_SECONDS {
            Some(InstantModel { seconds: s - now.offset, offset: now.offset })
        } else {
            None
        },
        None => None,
    }
}

impl Instant {
    #[verifier::type_invariant]
    spec fn valid(&self) -> bool {
        in_range(self.seconds as int, self.offset as int)
    }

    /// The instant of a Unix timestamp shown in an offset, if both are in range.
    pub fn new(seconds: i64, offset: i32) -> (t: Option<Instant>)
        ensures
            t is Some <==> in_range(seconds as int, offset as int),
            t matches Some(i) ==> i@.seconds == seconds && i@.offset == offset,
    {
        if MIN_SECONDS <= seconds && seconds <= MAX_SECONDS && -86_400 < offset && offset < 86_400 {
            Some(Instant { seconds, offset })
        } else {
            None
        }
    }

    /// The instant that a timestamp and an offset stand for, where there are any.
    pub fn from_parts(parts: Option<(i64, i32)>) -> (t: Option<Instant>)
        ensures
            t is Some <==> instant_of(parts) is Some,
            t matches Some(i) ==> Some(i@) == instant_of(parts),
    {
        match parts {
            Some((seconds, offset)) => Instant::new(seconds, offset),
            None => None,
        }
    }

    /// Seconds since the Unix epoch.
    pub fn seconds(&self) -> (s: i64)
        ensures
            s == self@.seconds,
            MIN_SECONDS <= s <= MAX_SECONDS,
    {
        proof {
            use_type_invariant(self);
        }
        self.seconds
    }

    /// Seconds east of UTC in which the instant is shown.
    pub fn offset(&self) -> (o: i32)
        ensures
            o == self@.offset,
            -DAY_SECONDS < o < DAY_SECONDS,
    {
        proof {
            use_type_invariant(self);
        }
        self.offset
    }

    /// The same instant, shown in UTC.
    pub fn in_utc(&self) -> (t: Instant)
        ensures
            t@.seconds == self@.seconds,
            t@.offset == 0,
    {
        proof {
            use_type_invariant(self);
        }
        Instant { seconds: self.seconds, offset: 0 }
    }

    /// The same instant, shown in the offset of `other`.
    pub fn in_offset_of(&self, other: &Instant) -> (t: Instant)
        ensures
            t@.seconds == self@.seconds,
            t@.offset == other@.offset,
    {
        proof {
            use_type_invariant(self);
            use_type_invariant(other);
        }
        Instant { seconds: self.seconds, offset: other.offset }
    }

    /// Whether this instant comes before `other`.
    pub fn is_before(&self, other: &Instant) -> (b: bool)
        ensures
            b == (self@.seconds < other@.seconds),
    {
        self.seconds < other.seconds
    }

    /// The later of two instants; the first where they are at the same second.
    pub fn later_of(a: Instant, b: Instant) -> (t: Instant)
        ensures
            t == (if a@.seconds >= b@.seconds { a } else { b }),
            t@.seconds >= a@.seconds,
            t@.seconds >= b@.seconds,
    {
        if a.seconds >= b.seconds {
            a
        } else {
            b
        }
    }

    /// The instant `delta` seconds later, if it is in range.
    pub fn plus_seconds(&self, delta: i64) -> (t: Option<Instant>)
        ensures
            t is Some <==> shifted(self@, delta as int) is Some,
            t matches Some(i) ==> Some(i@) == shifted(self@, delta as int),
    {
        proof {
            use_type_invariant(self);
        }
        match self.seconds.checked_add(delta) {
            Some(seconds) => Instant::new(seconds, self.offset),
            None => None,
        }
    }

    /// The instant `days` days of 86 400 seconds later, if it is in range.
    pub fn plus_days(&self, days: u64) -> (t: Option<Instant>)
        ensures
            t is Some <==> shifted(self@, days * DAY_SECONDS) is Some,
            t matches Some(i) ==> Some(i@) == shifted(self@, days * DAY_SECONDS),
    {
        proof {
            use_type_invariant(self);
        }
        if days > 3_700_000 {
            return None;
        }
        let delta: i64 = (days as i64) * DAY_SECONDS;
        self.plus_seconds(delta)
    }

    /// The instant that `later`, a named result of the month arithmetic,
    /// stands for in the offset of this one.
    pub fn moved_to(&self, later: Option<i64>) -> (t: Option<Instant>)
        ensures
            t is Some <==> moved(self@, later) is Some,
            t matches Some(i) ==> Some(i@) == moved(self@, later),
    {
        proof {
            use_type_invariant(self);
        }
        match later {
            Some(seconds) => Instant::new(seconds, self.offset),
            None => None,
        }
    }

    /// The instant `months` calendar months later, shown in the same offset.
    pub fn plus_months(&self, months: u32) -> (t: Option<Instant>)
        ensures
            t is Some <==> moved(
                self@,
                months_later(self@.seconds as i64, self@.offset as i32, months),
            ) is Some,
            t matches Some(i) ==> Some(i@) == moved(
                self@,
                months_later(self@.seconds as i64, self@.offset as i32, months),
            ),
    {
        proof {
            use_type_invariant(self);
        }
        let later = chrono_add_months(self.seconds, self.offset, months);
        self.moved_to(later)
    }

    /// The RFC 3339 text of the instant in its offset.
    pub fn to_rfc3339(&self) -> (text: String)
        ensures
            text@ == rfc3339_text(self@.seconds as i64, self@.offset as i32),
    {
        proof {
            use_type_invariant(self);
        }
        chrono_rfc3339(self.seconds, self.offset)
    }

    /// Reads an RFC 3339 text. Fractions of a second are dropped.
    pub fn parse_rfc3339(text: &str) -> (t: Option<Instant>)
        ensures
            t is Some <==> instant_of(rfc3339_parts(text@)) is Some,
            t matches Some(i) ==> Some(i@) == instant_of(rfc3339_parts(text@)),
    {
        Instant::from_parts(chrono_parse_rfc3339(text))
    }

    /// The calendar date of the instant in its offset, as `YYYY-MM-DD`.
    pub fn format_date(&self) -> (text: String)
        ensures
            text@ == formatted_text(self@.seconds as i64, self@.offset as i32, DATE_PATTERN@),
    {
        proof {
            use_type_invariant(self);
        }
        chrono_format(self.seconds, self.offset, DATE_PATTERN)
    }

    /// The calendar date and time of day of the instant in its offset, as
    /// `YYYY-MM-DD HH:MM:SS`.
    pub fn format_date_time(&self) -> (text: String)
        ensures
            text@ == formatted_text(self@.seconds as i64, self@.offset as i32, DATE_TIME_PATTERN@),
    {
        proof {
            use_type_invariant(self);
        }
        chrono_format(self.seconds, self.offset, DATE_TIME_PATTERN)
    }

    /// The start of a calendar date in the offset of this instant, where
    /// `start` is the named start of that date in UTC.
    pub fn date_in_offset(&self, start: Option<i64>) -> (t: Option<Instant>)
        ensures
            t is Some <==> dated(self@, start) is Some,
            t matches Some(i) ==> Some(i@) == dated(self@, start),
    {
        proof {
            use_type_invariant(self);
        }
        match start {
            Some(s) => match s.checked_sub(self.offset as i64) {
                Some(local) => Instant::new(local, self.offset),
                None => None,
            },
            None => None,
        }
    }

    /// Reads a calendar date written as `YYYY-MM-DD`: the instant at which
    /// that date begins in the offset of this one.
    pub fn parse_date(&self, text: &str) -> (t: Option<Instant>)
        ensures
            t is Some <==> dated(self@, date_start(text@, DATE_PATTERN@)) is Some,
            t matches Some(i) ==> Some(i@) == dated(self@, date_start(text@, DATE_PATTERN@)),
    {
        self.date_in_offset(chrono_parse_date(text, DATE_PATTERN))
    }
}

} // verus!
