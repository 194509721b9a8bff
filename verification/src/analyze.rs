//! Requests that look back: the analysis of past days and the log of past
//! sessions.

use vstd::prelude::*;
use vstd::string::*;
use crate::instant::{months_later, moved, shifted, Instant, InstantModel};
use crate::models::CommandArgs;
use crate::session::option_instant;

verus! {

/// The text that says that an analysis reaches too far.
pub const ANALYZE_RANGE_MESSAGE: &'static str = "Days cannot be greater than 365";

/// The text that says that a log starts too early.
pub const SINCE_MESSAGE: &'static str = "Since date cannot be in the past";

/// A request to analyze the tasks around now, as far as the instant `days`.
#[derive(Debug, Clone, Copy)]
pub struct AnalyzeArgs {
    pub days: Instant,
}

/// The verdict on an analysis, where `year` is the instant twelve months
/// after now: the analysis may reach as far as that instant, and there has
/// to be one.
pub open spec fn analysis_verdict(days: InstantModel, year: Option<InstantModel>) -> Result<
    (),
    Seq<char>,
> {
    match year {
        Some(limit) => if days.seconds > limit.seconds {
            Err(ANALYZE_RANGE_MESSAGE@)
        } else {
            Ok(())
        },
        None => Err(ANALYZE_RANGE_MESSAGE@),
    }
}

/// The days that an analysis covers: as far before now as `days` lies after
/// it, and up to `days`. There are none where that start is out of range.
pub open spec fn window_of(days: InstantModel, now: InstantModel) -> Option<
    (InstantModel, InstantModel),
> {
    match shifted(now, now.seconds - days.seconds) {
        Some(start) => Some((start, days)),
        None => None,
    }
}

impl AnalyzeArgs {
    /// Checks the request against the instant one year after now.
    pub fn validate_within(&self, year: Option<Instant>) -> (r: Result<(), String>)
        ensures
            r is Ok <==> analysis_verdict(self.days@, option_instant(year)) is Ok,
            r matches Err(m) ==> Err::<(), Seq<char>>(m@) == analysis_verdict(
                self.days@,
                option_instant(year),
            ),
    {
        match year {
            Some(limit) => {
                if limit.is_before(&self.days) {
                    Err(String::from_str(ANALYZE_RANGE_MESSAGE))
                } else {
                    Ok(())
                }
            },
            None => Err(String::from_str(ANALYZE_RANGE_MESSAGE)),
        }
    }

    /// The first and the last instant that the analysis covers.
    pub fn window(&self, now: &Instant) -> (w: Option<(Instant, Instant)>)
        ensures
            w is Some <==> window_of(self.days@, now@) is Some,
            w matches Some((start, end)) ==> Some((start@, end@)) == window_of(self.days@, now@),
    {
        let back = now.seconds() - self.days.seconds();
        match now.plus_seconds(back) {
            Some(start) => Some((start, self.days)),
            None => None,
        }
    }
}

impl CommandArgs for AnalyzeArgs {
    open spec fn verdict(&self, now: InstantModel) -> Result<(), Seq<char>> {
        analysis_verdict(
            self.days@,
            moved(now, months_later(now.seconds as i64, now.offset as i32, 12)),
        )
    }

    /// An analysis is acceptable when it reaches no further than twelve
    /// calendar months after `now`.
    fn validate(&self, now: &Instant) -> (r: Result<(), String>) {
        self.validate_within(now.plus_months(12))
    }
}

/// A request for the log of sessions since a day.
#[derive(Debug, Clone, Copy)]
pub struct PomoLogsArgs {
    pub since: Option<Instant>,
}

/// The verdict on a log: it may name no day, or one that is not before now.
pub open spec fn log_verdict(since: Option<InstantModel>, now: InstantModel) -> Result<
    (),
    Seq<char>,
> {
    match since {
        Some(day) => if day.seconds < now.seconds {
            Err(SINCE_MESSAGE@)
        } else {
            Ok(())
        },
        None => Ok(()),
    }
}

impl CommandArgs for PomoLogsArgs {
    open spec fn verdict(&self, now: InstantModel) -> Result<(), Seq<char>> {
        log_verdict(option_instant(self.since), now)
    }

    /// A log is acceptable when it names no day, or one that is not before
    /// `now`.
    fn validate(&self, now: &Instant) -> (r: Result<(), String>) {
        match &self.since {
            Some(since) => {
                if since.is_before(now) {
                    Err(String::from_str(SINCE_MESSAGE))
                } else {
                    Ok(())
                }
            },
            None => Ok(()),
        }
    }
}

} // verus!
