//! Focus sessions and their life: created running, sealed exactly once.
//!
//! A session starts `Running` at the instant it is created and has no end.
//! It is finalized once, into `Paused` or `Finished`, and from then on has an
//! end that is not before its start.

use vstd::prelude::*;
use vstd::string::*;
use crate::duration::{duration_text, DurationField};
use crate::error::{Error, ErrorModel};
use crate::instant::{formatted_text, Instant, InstantModel, DATE_TIME_PATTERN};
use crate::models::{
    names, pomo_status_name, pomo_type_name, texts, CommandArgs, PomoStatus, PomoType, TableRow,
};
use crate::task::EMPTY_TITLE_MESSAGE;
use crate::text::{blank, clone_option_text, decimal, decimal_string, is_blank, option_text, text_or};

verus! {

/// The text that says that a session has no length.
pub const ZERO_DURATION_MESSAGE: &'static str = "Duration cannot be 0";

/// The text that says that a session has a negative length.
pub const NEGATIVE_DURATION_MESSAGE: &'static str = "Duration cannot be negative";

/// The text that says that a session was finalized before.
pub const ALREADY_FINALIZED_MESSAGE: &'static str = "Session is already finalized";

/// A timed interval of work or rest.
#[derive(Debug, Clone)]
pub struct PomoTask {
    /// Assigned by the store; zero until then.
    pub id: u64,
    pub status: PomoStatus,
    pub pomo_type: PomoType,
    pub title: String,
    pub duration: DurationField,
    pub category: Option<String>,
    pub start_time: Instant,
    /// Set when the session is finalized, and only then.
    pub end_time: Option<Instant>,
}

/// A session as a mathematical value.
pub struct PomoModel {
    pub id: u64,
    pub status: PomoStatus,
    pub kind: PomoType,
    pub title: Seq<char>,
    /// The length in milliseconds.
    pub duration: int,
    pub category: Option<Seq<char>>,
    pub start: InstantModel,
    pub end: Option<InstantModel>,
}

/// The instant that stands for a missing one in a view.
pub open spec fn option_instant(t: Option<Instant>) -> Option<InstantModel> {
    match t {
        Some(i) => Some(i@),
        None => None,
    }
}

impl View for PomoTask {
    type V = PomoModel;

    open spec fn view(&self) -> PomoModel {
        PomoModel {
            id: self.id,
            status: self.status,
            kind: self.pomo_type,
            title: self.title@,
            duration: self.duration@,
            category: option_text(self.category),
            start: self.start_time@,
            end: option_instant(self.end_time),
        }
    }
}

/// What holds of every session: it has an end exactly when it no longer
/// runs, and the end is not before the start.
pub open spec fn session_well_formed(s: PomoModel) -> bool {
    &&& (s.status == PomoStatus::Running) == (s.end is None)
    &&& s.end matches Some(end) ==> end.seconds >= s.start.seconds
}

/// The session that is created by a request at the instant `now`.
pub open spec fn created(
    title: Seq<char>,
    kind: PomoType,
    duration: int,
    category: Option<Seq<char>>,
    now: InstantModel,
) -> PomoModel {
    PomoModel {
        id: 0,
        status: PomoStatus::Running,
        kind,
        title,
        duration,
        category,
        start: now,
        end: None,
    }
}

/// The later of two instants; the first where they are at the same second.
pub open spec fn later(a: InstantModel, b: InstantModel) -> InstantModel {
    if a.seconds >= b.seconds {
        a
    } else {
        b
    }
}

/// Finalizing a running session at `now` with an outcome. The end is `now`,
/// or the start where the clock has gone back behind it. A session that was
/// finalized before is refused.
pub open spec fn finalized(s: PomoModel, now: InstantModel, outcome: PomoStatus) -> Result<
    PomoModel,
    ErrorModel,
> {
    if s.status == PomoStatus::Running {
        Ok(PomoModel { status: outcome, end: Some(later(now, s.start)), ..s })
    } else {
        Err(ErrorModel::Persistence(ALREADY_FINALIZED_MESSAGE@))
    }
}

/// The verdict on a session request: acceptable, or why not.
pub open spec fn session_verdict(s: PomoModel) -> Result<(), Seq<char>> {
    if s.duration == 0 {
        Err(ZERO_DURATION_MESSAGE@)
    } else if s.duration < 0 {
        Err(NEGATIVE_DURATION_MESSAGE@)
    } else if blank(s.title) {
        Err(EMPTY_TITLE_MESSAGE@)
    } else {
        Ok(())
    }
}

/// The column titles of a table of sessions.
pub open spec fn session_headers() -> Seq<Seq<char>> {
    seq![
        "id"@,
        "title"@,
        "duration"@,
        "category"@,
        "status"@,
        "type"@,
        "start-time"@,
        "end-time"@,
    ]
}

/// The cells of a session's row, where `start` and `end` are the texts of
/// its two instants.
pub open spec fn session_row(s: PomoModel, start: Seq<char>, end: Seq<char>) -> Seq<Seq<char>> {
    seq![
        decimal(s.id as nat),
        s.title,
        duration_text(s.duration),
        match s.category {
            Some(c) => c,
            None => "-"@,
        },
        pomo_status_name(s.status),
        pomo_type_name(s.kind),
        start,
        end,
    ]
}

/// The text of an instant that may be missing: a dash for none.
pub open spec fn end_text(end: Option<InstantModel>) -> Seq<char> {
    match end {
        Some(t) => formatted_text(t.seconds as i64, t.offset as i32, DATE_TIME_PATTERN@),
        None => "-"@,
    }
}

impl PomoTask {
    /// The session that a request creates at the instant `now`: running,
    /// started now, without an end, and without an identity until the store
    /// has assigned one.
    pub fn new(
        title: String,
        pomo_type: PomoType,
        duration: DurationField,
        category: Option<String>,
        now: Instant,
    ) -> (s: PomoTask)
        ensures
            s@ == created(title@, pomo_type, duration@, option_text(category), now@),
            session_well_formed(s@),
    {
        PomoTask {
            id: 0,
            status: PomoStatus::Running,
            pomo_type,
            title,
            duration,
            category,
            start_time: now,
            end_time: None,
        }
    }

    /// The session that stands where none was described: untitled work of
    /// twenty-five minutes, started at `now`.
    pub fn default_at(now: Instant) -> (s: PomoTask)
        ensures
            s@ == created(Seq::<char>::empty(), PomoType::Work, 1_500_000, None, now@),
    {
        PomoTask::new(String::new(), PomoType::Work, DurationField::default(), None, now)
    }

    /// Whether the session's fields agree with each other.
    pub fn is_well_formed(&self) -> (b: bool)
        ensures
            b == session_well_formed(self@),
    {
        match &self.end_time {
            Some(end) => !matches!(self.status, PomoStatus::Running) && !end.is_before(
                &self.start_time,
            ),
            None => matches!(self.status, PomoStatus::Running),
        }
    }

    /// Seals a running session: it gets `outcome` as its status and, as its
    /// end, `now` or its own start, whichever is later. Everything else stays.
    /// A session that was finalized before is left as it is and refused.
    pub fn finalize(&mut self, now: Instant, outcome: PomoStatus) -> (r: Result<(), Error>)
        requires
            outcome != PomoStatus::Running,
        ensures
            r is Ok <==> old(self)@.status == PomoStatus::Running,
            r is Ok ==> Ok::<PomoModel, ErrorModel>(final(self)@) == finalized(
                old(self)@,
                now@,
                outcome,
            ),
            r matches Err(e) ==> Err::<PomoModel, ErrorModel>(e@) == finalized(
                old(self)@,
                now@,
                outcome,
            ) && *final(self) == *old(self),
            r is Ok ==> session_well_formed(final(self)@),
    {
        if !matches!(self.status, PomoStatus::Running) {
            return Err(Error::Persistence(String::from_str(ALREADY_FINALIZED_MESSAGE)));
        }
        self.status = outcome;
        self.end_time = Some(Instant::later_of(now, self.start_time));
        Ok(())
    }

    /// A copy of the session.
    pub fn copy(&self) -> (s: PomoTask)
        ensures
            s@ == self@,
    {
        PomoTask {
            id: self.id,
            status: self.status,
            pomo_type: self.pomo_type,
            title: self.title.clone(),
            duration: self.duration,
            category: clone_option_text(&self.category),
            start_time: self.start_time,
            end_time: self.end_time,
        }
    }

    fn end_text(&self) -> (s: String)
        ensures
            s@ == end_text(self@.end),
    {
        match &self.end_time {
            Some(end) => end.format_date_time(),
            None => String::from_str("-"),
        }
    }
}

impl CommandArgs for PomoTask {
    open spec fn verdict(&self, now: InstantModel) -> Result<(), Seq<char>> {
        session_verdict(self@)
    }

    /// A session is acceptable when it has a positive length and a title
    /// that is not blank. The instant is not consulted.
    fn validate(&self, now: &Instant) -> (r: Result<(), String>) {
        if self.duration.is_zero() {
            return Err(String::from_str(ZERO_DURATION_MESSAGE));
        }
        if self.duration.millis() < 0 {
            return Err(String::from_str(NEGATIVE_DURATION_MESSAGE));
        }
        if is_blank(self.title.as_str()) {
            return Err(String::from_str(EMPTY_TITLE_MESSAGE));
        }
        Ok(())
    }
}

impl TableRow for PomoTask {
    open spec fn header_cells(&self) -> Seq<Seq<char>> {
        session_headers()
    }

    open spec fn row_cells(&self) -> Seq<Seq<char>> {
        session_row(
            self@,
            formatted_text(
                self@.start.seconds as i64,
                self@.start.offset as i32,
                DATE_TIME_PATTERN@,
            ),
            end_text(self@.end),
        )
    }

    fn headers(&self) -> (h: Vec<&'static str>) {
        vec![
            "id",
            "title",
            "duration",
            "category",
            "status",
            "type",
            "start-time",
            "end-time",
        ]
    }

    fn row(&self) -> (r: Vec<String>) {
        let r = vec![
            decimal_string(self.id),
            self.title.clone(),
            self.duration.text(),
            text_or(&self.category, "-"),
            String::from_str(self.status.name()),
            String::from_str(self.pomo_type.name()),
            self.start_time.format_date_time(),
            self.end_text(),
        ];
        assert(texts(r@) =~= session_row(
            self@,
            formatted_text(
                self@.start.seconds as i64,
                self@.start.offset as i32,
                DATE_TIME_PATTERN@,
            ),
            end_text(self@.end),
        ));
        r
    }
}

/// A session is sealed exactly once: finalizing a running session gives one
/// that is well-formed, has the outcome as its status and an end that is not
/// before its start, and keeps its title, kind, length, category and start;
/// finalizing the result again is refused.
pub proof fn law_finalize_once(s: PomoModel, now: InstantModel, outcome: PomoStatus, again: InstantModel)
    requires
        session_well_formed(s),
        s.status == PomoStatus::Running,
        outcome != PomoStatus::Running,
    ensures
        finalized(s, now, outcome) is Ok,
        ({
            let sealed = finalized(s, now, outcome)->Ok_0;
            &&& session_well_formed(sealed)
            &&& sealed.status == outcome
            &&& sealed.end is Some
            &&& sealed.end->0.seconds >= sealed.start.seconds
            &&& sealed.end->0.seconds >= now.seconds
            &&& sealed.title == s.title && sealed.kind == s.kind && sealed.duration == s.duration
            &&& sealed.category == s.category && sealed.start == s.start && sealed.id == s.id
            &&& finalized(sealed, again, outcome) is Err
        }),
{
}

} // verus!
