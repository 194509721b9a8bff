//! Dates as a user writes them.
//!
//! A date is written either relative to now, as a count and a unit (`10d`
//! for ten days, `2m` for two calendar months, `1y` for one year, which is
//! twelve months), or as a calendar date, `YYYY-MM-DD`, which stands for the
//! start of that day in the offset of now.

use vstd::prelude::*;
use vstd::string::*;
use crate::instant::{
    date_start, dated, months_later, moved, shifted, Instant, InstantModel, DATE_PATTERN,
    DAY_SECONDS,
};
use crate::text::{integer_of, join3, parse_integer};

verus! {

/// The text that says how a date is written.
pub const DATE_FORMAT_MESSAGE: &'static str =
    "argument format must be a number followed by a unit (d, m, y) like 10d for 10 days";

/// How a date was written.
#[derive(Debug, Clone, Copy, PartialEq, Eq, Structural)]
pub enum DateForm {
    Days(u32),
    Months(u32),
    Years(u32),
    /// A calendar date; the text itself says which.
    Absolute,
}

/// Whether a character is one of the three units.
pub open spec fn is_unit(c: char) -> bool {
    c == 'd' || c == 'm' || c == 'y'
}

/// The count in front of the unit, if it is a numeral from zero to the
/// largest 32-bit number.
pub open spec fn count_of(s: Seq<char>) -> Option<u32> {
    match integer_of(s.subrange(0, s.len() - 1)) {
        Some(n) => if 0 <= n <= u32::MAX {
            Some(n as u32)
        } else {
            None
        },
        None => None,
    }
}

/// The form that a text is written in, or what is wrong with it.
pub open spec fn form_of(s: Seq<char>) -> Result<DateForm, Seq<char>> {
    if s.len() < 2 {
        Err(DATE_FORMAT_MESSAGE@)
    } else if is_unit(s.last()) {
        match count_of(s) {
            Some(n) => Ok(
                if s.last() == 'd' {
                    DateForm::Days(n)
                } else if s.last() == 'm' {
                    DateForm::Months(n)
                } else {
                    DateForm::Years(n)
                },
            ),
            None => Err("Cannot parse '"@ + s.subrange(0, s.len() - 1) + "' as a number"@),
        }
    } else {
        Ok(DateForm::Absolute)
    }
}

/// The instant that a written date stands for at the instant `now`.
pub open spec fn resolved(form: DateForm, text: Seq<char>, now: InstantModel) -> Option<
    InstantModel,
> {
    match form {
        DateForm::Days(n) => shifted(now, n * DAY_SECONDS),
        DateForm::Months(n) => moved(now, months_later(now.seconds as i64, now.offset as i32, n)),
        DateForm::Years(n) => if n * 12 <= u32::MAX {
            moved(now, months_later(now.seconds as i64, now.offset as i32, (n * 12) as u32))
        } else {
            None
        },
        DateForm::Absolute => dated(now, date_start(text, DATE_PATTERN@)),
    }
}

/// What reading a date gives: the instant, or what is wrong with the text.
pub open spec fn date_of(s: Seq<char>, now: InstantModel) -> Result<InstantModel, Seq<char>> {
    match form_of(s) {
        Err(m) => Err(m),
        Ok(form) => match resolved(form, s, now) {
            Some(t) => Ok(t),
            None => Err("could not parse date "@ + s),
        },
    }
}

/// Reads the form of a written date.
pub fn parse_date_form(s: &str) -> (r: Result<DateForm, String>)
    ensures
        r is Ok <==> form_of(s@) is Ok,
        r matches Ok(form) ==> Ok::<DateForm, Seq<char>>(form) == form_of(s@),
        r matches Err(m) ==> Err::<DateForm, Seq<char>>(m@) == form_of(s@),
{
    let len = s.unicode_len();
    if len < 2 {
        return Err(String::from_str(DATE_FORMAT_MESSAGE));
    }
    let unit = s.get_char(len - 1);
    if !(unit == 'd' || unit == 'm' || unit == 'y') {
        return Ok(DateForm::Absolute);
    }
    let number = s.substring_char(0, len - 1);
    let count: u32 = match parse_integer(number) {
        Some(n) => {
            if 0 <= n && n <= 4_294_967_295 {
                n as u32
            } else {
                return Err(join3("Cannot parse '", number, "' as a number"));
            }
        },
        None => {
            return Err(join3("Cannot parse '", number, "' as a number"));
        },
    };
    if unit == 'd' {
        Ok(DateForm::Days(count))
    } else if unit == 'm' {
        Ok(DateForm::Months(count))
    } else {
        Ok(DateForm::Years(count))
    }
}

/// Reads a written date at the instant `now`.
pub fn parse_date(s: &str, now: &Instant) -> (r: Result<Instant, String>)
    ensures
        r is Ok <==> date_of(s@, now@) is Ok,
        r matches Ok(t) ==> Ok::<InstantModel, Seq<char>>(t@) == date_of(s@, now@),
        r matches Err(m) ==> Err::<InstantModel, Seq<char>>(m@) == date_of(s@, now@),
{
    let form = match parse_date_form(s) {
        Ok(form) => form,
        Err(m) => {
            return Err(m);
        },
    };
    let found = match form {
        DateForm::Days(n) => now.plus_days(n as u64),
        DateForm::Months(n) => now.plus_months(n),
        DateForm::Years(n) => match n.checked_mul(12) {
            Some(months) => now.plus_months(months),
            None => None,
        },
        DateForm::Absolute => now.parse_date(s),
    };
    match found {
        Some(t) => Ok(t),
        None => Err(String::from_str("could not parse date ").concat(s)),
    }
}

} // verus!
