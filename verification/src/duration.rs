//! The length of a session.
//!
//! A duration is a whole number of milliseconds. It is written as a numeral
//! followed by a unit: `ms`, `s`, `m` or `h`.

use vstd::prelude::*;
use vstd::string::*;
use crate::instant::{shifted, Instant};
use crate::text::{integer_of, join3, parse_integer, signed_decimal, signed_decimal_string};

verus! {

/// The text that says how a duration is written.
pub const DURATION_FORMAT_MESSAGE: &'static str =
    "Duration format must be a number followed by a unit (ms, s, m, h)";

/// The text that says that a duration is too long to hold.
pub const DURATION_RANGE_MESSAGE: &'static str = "Duration is out of range";

/// Division that rounds toward zero.
pub open spec fn truncating_div(a: int, b: int) -> int {
    if a >= 0 {
        a / b
    } else {
        -((-a) / b)
    }
}

/// Whether a number of milliseconds fits a duration.
pub open spec fn fits(millis: int) -> bool {
    -i64::MAX <= millis <= i64::MAX
}

/// The whole seconds of a number of milliseconds.
pub open spec fn whole_seconds(millis: int) -> int {
    truncating_div(millis, 1000)
}

/// The number a duration is stored as: its milliseconds under one second,
/// else its whole seconds.
pub open spec fn stored_number(millis: int) -> int {
    if millis < 1000 {
        millis
    } else {
        whole_seconds(millis)
    }
}

/// The duration that a stored number of seconds stands for; a number too
/// large to hold gives the longest duration of its sign.
pub open spec fn duration_of_seconds(n: int) -> int {
    if fits(n * 1000) {
        n * 1000
    } else if n < 0 {
        -i64::MAX
    } else {
        i64::MAX as int
    }
}

/// How a duration is written: in the largest unit of `ms`, `s`, `m`, `h`
/// under whose next step it stays.
pub open spec fn duration_text(millis: int) -> Seq<char> {
    if millis < 1000 {
        signed_decimal(millis) + "ms"@
    } else if whole_seconds(millis) < 60 {
        signed_decimal(whole_seconds(millis)) + "s"@
    } else if whole_seconds(millis) / 60 < 60 {
        signed_decimal(whole_seconds(millis) / 60) + "m"@
    } else {
        signed_decimal(whole_seconds(millis) / 3600) + "h"@
    }
}

/// The numeral in front of the unit of a written duration.
pub open spec fn number_part(s: Seq<char>) -> Seq<char> {
    if s.len() >= 2 && s[s.len() - 2] == 'm' && s[s.len() - 1] == 's' {
        s.subrange(0, s.len() - 2)
    } else {
        s.subrange(0, s.len() - 1)
    }
}

/// The milliseconds in one unit of a written duration; zero for no unit.
pub open spec fn unit_millis(s: Seq<char>) -> int {
    if s.len() < 2 {
        0
    } else if s[s.len() - 2] == 'm' && s[s.len() - 1] == 's' {
        1
    } else if s[s.len() - 1] == 's' {
        1000
    } else if s[s.len() - 1] == 'm' {
        60_000
    } else if s[s.len() - 1] == 'h' {
        3_600_000
    } else {
        0
    }
}

/// The milliseconds that a written duration stands for, if it is one.
pub open spec fn duration_of(s: Seq<char>) -> Option<int> {
    if s.len() < 2 {
        None
    } else {
        match integer_of(number_part(s)) {
            Some(n) => if unit_millis(s) != 0 && fits(n * unit_millis(s)) {
                Some(n * unit_millis(s))
            } else {
                None
            },
            None => None,
        }
    }
}

/// What is wrong with a text that is no duration.
pub open spec fn duration_error(s: Seq<char>) -> Seq<char> {
    if s.len() < 2 {
        DURATION_FORMAT_MESSAGE@
    } else if integer_of(number_part(s)) is None {
        "Cannot parse '"@ + number_part(s) + "' as a number"@
    } else if unit_millis(s) == 0 {
        "Invalid duration unit '"@ + s.subrange(s.len() - 1, s.len() as int)
            + "'. Must be 'ms', 's', 'm', or 'h'"@
    } else {
        DURATION_RANGE_MESSAGE@
    }
}

/// The length of a session, in milliseconds.
#[derive(Debug, Clone, Copy, PartialEq, Eq, Structural)]
pub struct DurationField {
    millis: i64,
}

impl View for DurationField {
    type V = int;

    closed spec fn view(&self) -> int {
        self.millis as int
    }
}

impl DurationField {
    #[verifier::type_invariant]
    spec fn valid(&self) -> bool {
        fits(self.millis as int)
    }

    /// A duration of so many milliseconds, if it fits.
    pub fn from_millis(millis: i64) -> (d: Option<DurationField>)
        ensures
            d is Some <==> fits(millis as int),
            d matches Some(x) ==> x@ == millis,
    {
        if millis == i64::MIN {
            None
        } else {
            Some(DurationField { millis })
        }
    }

    /// A duration of `count` units of `unit` milliseconds each, if it fits.
    fn scaled(count: i64, unit: i64) -> (d: Option<DurationField>)
        requires
            unit > 0,
        ensures
            d is Some <==> fits(count * unit),
            d matches Some(x) ==> x@ == count * unit,
    {
        match count.checked_mul(unit) {
            Some(millis) => DurationField::from_millis(millis),
            None => {
                assert(!fits(count * unit)) by (nonlinear_arith)
                    requires
                        unit > 0,
                        count * unit < i64::MIN || count * unit > i64::MAX,
                {
                }
                None
            },
        }
    }

    /// The duration of so many seconds as a stored number gives; a number too
    /// large to hold gives the longest duration of its sign.
    pub fn from_i64(n: i64) -> (d: DurationField)
        ensures
            d@ == duration_of_seconds(n as int),
    {
        match DurationField::scaled(n, 1000) {
            Some(d) => d,
            None => if n < 0 {
                DurationField { millis: -i64::MAX }
            } else {
                DurationField { millis: i64::MAX }
            },
        }
    }

    /// The milliseconds of the duration.
    pub fn millis(&self) -> (m: i64)
        ensures
            m == self@,
            fits(m as int),
    {
        proof {
            use_type_invariant(self);
        }
        self.millis
    }

    /// The whole seconds of the duration, rounded toward zero.
    pub fn seconds(&self) -> (s: i64)
        ensures
            s == whole_seconds(self@),
    {
        proof {
            use_type_invariant(self);
        }
        if self.millis >= 0 {
            self.millis / 1000
        } else {
            -((-self.millis) / 1000)
        }
    }

    /// The number the duration is stored as.
    pub fn to_i64(&self) -> (n: i64)
        ensures
            n == stored_number(self@),
    {
        if self.millis < 1000 {
            self.millis
        } else {
            self.seconds()
        }
    }

    /// Whether the duration is no time at all.
    pub fn is_zero(&self) -> (b: bool)
        ensures
            b == (self@ == 0),
    {
        self.millis == 0
    }

    /// The seconds to count down: the whole seconds of the duration, and
    /// none for a negative one.
    pub fn to_time_duration(&self) -> (seconds: u64)
        ensures
            seconds == (if self@ < 0 { 0 } else { whole_seconds(self@) }),
    {
        if self.millis < 0 {
            0
        } else {
            (self.millis / 1000) as u64
        }
    }

    /// The instant that lies the whole seconds of this duration after
    /// `date`, if it is in range.
    pub fn add_date(&self, date: &Instant) -> (later: Option<Instant>)
        ensures
            later is Some <==> shifted(date@, whole_seconds(self@)) is Some,
            later matches Some(t) ==> Some(t@) == shifted(date@, whole_seconds(self@)),
    {
        date.plus_seconds(self.seconds())
    }

    /// How the duration is written.
    pub fn text(&self) -> (s: String)
        ensures
            s@ == duration_text(self@),
    {
        proof {
            use_type_invariant(self);
        }
        let seconds = self.seconds();
        if self.millis < 1000 {
            signed_decimal_string(self.millis).concat("ms")
        } else if seconds < 60 {
            signed_decimal_string(seconds).concat("s")
        } else if seconds / 60 < 60 {
            signed_decimal_string(seconds / 60).concat("m")
        } else {
            signed_decimal_string(seconds / 3600).concat("h")
        }
    }
}

impl Default for DurationField {
    fn default() -> (d: DurationField)
        ensures
            d@ == 25 * 60_000,
    {
        DurationField { millis: 1_500_000 }
    }
}

impl From<DurationField> for String {
    fn from(d: DurationField) -> (s: String)
        ensures
            s@ == duration_text(d@),
    {
        d.text()
    }
}

impl vstd::std_specs::convert::FromSpecImpl<DurationField> for String {
    open spec fn obeys_from_spec() -> bool {
        false
    }

    open spec fn from_spec(d: DurationField) -> String {
        arbitrary()
    }
}

/// Reads a written duration: a numeral, then `ms`, `s`, `m` or `h`.
pub fn parse_duration(duration_str: &str) -> (r: Result<DurationField, String>)
    ensures
        r is Ok <==> duration_of(duration_str@) is Some,
        r matches Ok(d) ==> duration_of(duration_str@) == Some(d@),
        r matches Err(message) ==> message@ == duration_error(duration_str@),
{
    let len = duration_str.unicode_len();
    if len < 2 {
        return Err(String::from_str(DURATION_FORMAT_MESSAGE));
    }
    let last = duration_str.get_char(len - 1);
    let millis_unit = last == 's' && duration_str.get_char(len - 2) == 'm';
    let number_len = if millis_unit { len - 2 } else { len - 1 };
    let number = duration_str.substring_char(0, number_len);
    let count = match parse_integer(number) {
        Some(count) => count,
        None => {
            return Err(join3("Cannot parse '", number, "' as a number"));
        },
    };
    let unit: i64 = if millis_unit {
        1
    } else if last == 's' {
        1000
    } else if last == 'm' {
        60_000
    } else if last == 'h' {
        3_600_000
    } else {
        let unit_text = duration_str.substring_char(len - 1, len);
        return Err(
            join3("Invalid duration unit '", unit_text, "'. Must be 'ms', 's', 'm', or 'h'"),
        );
    };
    match DurationField::scaled(count, unit) {
        Some(d) => Ok(d),
        None => Err(String::from_str(DURATION_RANGE_MESSAGE)),
    }
}

impl std::str::FromStr for DurationField {
    type Err = String;

    fn from_str(s: &str) -> (r: Result<DurationField, String>)
        ensures
            r is Ok <==> duration_of(s@) is Some,
            r matches Ok(d) ==> duration_of(s@) == Some(d@),
            r matches Err(message) ==> message@ == duration_error(s@),
    {
        parse_duration(s)
    }
}

} // verus!
