//! The countdown clock, as a state machine.
//!
//! The clock counts a fixed number of seconds down to zero and reports what
//! is left once per second. It sleeps in short slices and looks for a stop
//! signal before each of them, so a stop is seen within one slice. Like the
//! coordinator it only decides: the driver sleeps, reads the stop channel and
//! sends the reports.

use vstd::prelude::*;

verus! {

/// The slices that one second of waiting is cut into.
pub const SLICES_PER_SECOND: u8 = 10;

/// The length of one slice, in milliseconds.
pub const SLICE_MS: u64 = 100;

/// Where the clock stands.
#[derive(Debug, Clone, Copy, PartialEq, Eq, Structural)]
pub enum ClockStage {
    /// Looking for a stop signal, after this many slices of the current second.
    Checking(u8),
    /// Sleeping one slice, after this many slices of the current second.
    Sleeping(u8),
    /// Sending the time that is left.
    Reporting,
    /// Sending zero once more before leaving.
    LastReport,
    Exited,
}

/// The result of an action, handed back to the clock.
#[derive(Debug, Clone, Copy, PartialEq, Eq, Structural)]
pub enum ClockInput {
    /// Whether a stop signal was waiting.
    Stop(bool),
    Slept,
    /// Whether the report was taken; it is not when nobody reads any more.
    Sent(bool),
}

/// What the clock asks its driver to do next.
#[derive(Debug, Clone, Copy, PartialEq, Eq, Structural)]
pub enum ClockAction {
    /// Look for a stop signal without blocking.
    CheckStop,
    /// Sleep for `SLICE_MS`.
    Sleep,
    /// Send the seconds that are left.
    Report(u64),
    Exit,
}

/// A countdown: its stage and the seconds that are left.
#[derive(Debug, Clone, Copy, PartialEq, Eq, Structural)]
pub struct Clock {
    pub stage: ClockStage,
    pub remaining: u64,
}

/// One second less, but never below zero.
pub open spec fn one_less(seconds: u64) -> u64 {
    if seconds == 0 {
        0
    } else {
        (seconds - 1) as u64
    }
}

/// The action that a clock waits on.
pub open spec fn clock_action(c: Clock) -> ClockAction {
    match c.stage {
        ClockStage::Checking(_) => ClockAction::CheckStop,
        ClockStage::Sleeping(_) => ClockAction::Sleep,
        ClockStage::Reporting => ClockAction::Report(c.remaining),
        ClockStage::LastReport => ClockAction::Report(c.remaining),
        ClockStage::Exited => ClockAction::Exit,
    }
}

/// The transition function of the clock. An input that does not answer the
/// pending action changes nothing.
pub open spec fn clock_next(c: Clock, input: ClockInput) -> Clock {
    match (c.stage, input) {
        (ClockStage::Checking(_), ClockInput::Stop(true)) => Clock { stage: ClockStage::Exited, ..c },
        (ClockStage::Checking(done), ClockInput::Stop(false)) => {
            if done < SLICES_PER_SECOND {
                Clock { stage: ClockStage::Sleeping(done), ..c }
            } else {
                Clock { stage: ClockStage::Reporting, remaining: one_less(c.remaining) }
            }
        },
        (ClockStage::Sleeping(done), ClockInput::Slept) => {
            if done < SLICES_PER_SECOND {
                Clock { stage: ClockStage::Checking((done + 1) as u8), ..c }
            } else {
                Clock { stage: ClockStage::Checking(SLICES_PER_SECOND), ..c }
            }
        },
        (ClockStage::Reporting, ClockInput::Sent(taken)) => {
            if !taken {
                Clock { stage: ClockStage::Exited, ..c }
            } else if c.remaining == 0 {
                Clock { stage: ClockStage::LastReport, ..c }
            } else {
                Clock { stage: ClockStage::Checking(0), ..c }
            }
        },
        (ClockStage::LastReport, ClockInput::Sent(_)) => Clock { stage: ClockStage::Exited, ..c },
        _ => c,
    }
}

/// The clock after a whole sequence of inputs.
pub open spec fn clock_run(c: Clock, inputs: Seq<ClockInput>) -> Clock
    decreases inputs.len(),
{
    if inputs.len() == 0 {
        c
    } else {
        clock_run(clock_next(c, inputs.first()), inputs.drop_first())
    }
}

/// The inputs of `count` undisturbed slices: no stop signal, then the sleep.
pub open spec fn quiet_slices(count: nat) -> Seq<ClockInput>
    decreases count,
{
    if count == 0 {
        Seq::empty()
    } else {
        seq![ClockInput::Stop(false), ClockInput::Slept] + quiet_slices((count - 1) as nat)
    }
}

/// The inputs of one undisturbed second: ten slices, one more look for a stop
/// signal, and a report that is taken.
pub open spec fn quiet_second() -> Seq<ClockInput> {
    quiet_slices(SLICES_PER_SECOND as nat) + seq![ClockInput::Stop(false), ClockInput::Sent(true)]
}

/// The inputs of an undisturbed countdown of `seconds` seconds.
pub open spec fn quiet_seconds(seconds: nat) -> Seq<ClockInput>
    decreases seconds,
{
    if seconds == 0 {
        Seq::empty()
    } else {
        quiet_second() + quiet_seconds((seconds - 1) as nat)
    }
}

impl Clock {
    /// A clock that is about to wait its first second.
    pub fn new(seconds: u64) -> (c: Clock)
        ensures
            c == (Clock { stage: ClockStage::Checking(0), remaining: seconds }),
    {
        Clock { stage: ClockStage::Checking(0), remaining: seconds }
    }

    /// The action that the clock is waiting on.
    pub fn pending(&self) -> (action: ClockAction)
        ensures
            action == clock_action(*self),
    {
        match self.stage {
            ClockStage::Checking(_) => ClockAction::CheckStop,
            ClockStage::Sleeping(_) => ClockAction::Sleep,
            ClockStage::Reporting => ClockAction::Report(self.remaining),
            ClockStage::LastReport => ClockAction::Report(self.remaining),
            ClockStage::Exited => ClockAction::Exit,
        }
    }

    /// Takes the result of the pending action and answers with the next one.
    pub fn step(&mut self, input: ClockInput) -> (action: ClockAction)
        ensures
            *final(self) == clock_next(*old(self), input),
            action == clock_action(*final(self)),
    {
        match (self.stage, input) {
            (ClockStage::Checking(_), ClockInput::Stop(true)) => {
                self.stage = ClockStage::Exited;
            },
            (ClockStage::Checking(done), ClockInput::Stop(false)) => {
                if done < SLICES_PER_SECOND {
                    self.stage = ClockStage::Sleeping(done);
                } else {
                    self.remaining = self.remaining.saturating_sub(1);
                    self.stage = ClockStage::Reporting;
                }
            },
            (ClockStage::Sleeping(done), ClockInput::Slept) => {
                if done < SLICES_PER_SECOND {
                    self.stage = ClockStage::Checking(done + 1);
                } else {
                    self.stage = ClockStage::Checking(SLICES_PER_SECOND);
                }
            },
            (ClockStage::Reporting, ClockInput::Sent(taken)) => {
                if !taken {
                    self.stage = ClockStage::Exited;
                } else if self.remaining == 0 {
                    self.stage = ClockStage::LastReport;
                } else {
                    self.stage = ClockStage::Checking(0);
                }
            },
            (ClockStage::LastReport, ClockInput::Sent(_)) => {
                self.stage = ClockStage::Exited;
            },
            _ => {},
        }
        self.pending()
    }
}

/// Running two sequences one after the other is running their concatenation.
pub proof fn lemma_clock_run_concat(c: Clock, a: Seq<ClockInput>, b: Seq<ClockInput>)
    ensures
        clock_run(c, a + b) == clock_run(clock_run(c, a), b),
    decreases a.len(),
{
    if a.len() > 0 {
        assert((a + b).drop_first() =~= a.drop_first() + b);
        lemma_clock_run_concat(clock_next(c, a.first()), a.drop_first(), b);
    }
}

proof fn lemma_clock_run_two(c: Clock, a: ClockInput, b: ClockInput)
    ensures
        clock_run(c, seq![a, b]) == clock_next(clock_next(c, a), b),
{
    assert(seq![a, b].drop_first() =~= seq![b]);
    assert(seq![b].drop_first() =~= Seq::<ClockInput>::empty());
    let c2 = clock_next(clock_next(c, a), b);
    assert(clock_run(c2, Seq::<ClockInput>::empty()) == c2);
    assert(clock_run(clock_next(c, a), seq![b]) == c2);
}

proof fn lemma_quiet_slices(c: Clock, done: u8, count: nat)
    requires
        c.stage == ClockStage::Checking(done),
        done + count <= SLICES_PER_SECOND,
    ensures
        clock_run(c, quiet_slices(count)) == (Clock {
            stage: ClockStage::Checking((done + count) as u8),
            ..c
        }),
    decreases count,
{
    if count > 0 {
        let pair = seq![ClockInput::Stop(false), ClockInput::Slept];
        lemma_clock_run_two(c, ClockInput::Stop(false), ClockInput::Slept);
        lemma_clock_run_concat(c, pair, quiet_slices((count - 1) as nat));
        lemma_quiet_slices(clock_run(c, pair), (done + 1) as u8, (count - 1) as nat);
    }
}

/// A stop signal ends the clock at once: it leaves without another report.
pub proof fn law_stop_ends_clock(c: Clock)
    requires
        clock_action(c) == ClockAction::CheckStop,
    ensures
        clock_next(c, ClockInput::Stop(true)).stage == ClockStage::Exited,
        clock_action(clock_next(c, ClockInput::Stop(true))) == ClockAction::Exit,
{
}

/// The clock never sleeps two slices in a row, and never reports, without
/// looking for a stop signal in between: a stop is seen within one slice.
pub proof fn law_stop_checked_each_slice(c: Clock, input: ClockInput)
    ensures
        clock_action(c) == ClockAction::Sleep && clock_next(c, input) != c ==> clock_action(
            clock_next(c, input),
        ) == ClockAction::CheckStop,
        clock_action(clock_next(c, input)) == ClockAction::Sleep && clock_next(c, input) != c
            ==> clock_action(c) == ClockAction::CheckStop && input == ClockInput::Stop(false),
        clock_next(c, input).stage == ClockStage::Reporting && c.stage != ClockStage::Reporting
            ==> clock_action(c) == ClockAction::CheckStop && input == ClockInput::Stop(false),
{
}

/// A report that nobody takes ends the clock: a lost reader is a shutdown,
/// not an error.
pub proof fn law_lost_reader_ends_clock(c: Clock)
    requires
        c.stage == ClockStage::Reporting || c.stage == ClockStage::LastReport,
    ensures
        clock_next(c, ClockInput::Sent(false)).stage == ClockStage::Exited,
{
}

/// One undisturbed second: after ten slices the clock takes one second off,
/// never going below zero, and reports what is left. With time left it starts
/// the next second; at zero it goes on to report zero once more.
pub proof fn law_quiet_second(c: Clock)
    requires
        c.stage == ClockStage::Checking(0),
    ensures
        clock_run(c, quiet_slices(SLICES_PER_SECOND as nat) + seq![ClockInput::Stop(false)])
            == (Clock { stage: ClockStage::Reporting, remaining: one_less(c.remaining) }),
        clock_run(c, quiet_second()) == (Clock {
            stage: if one_less(c.remaining) == 0 {
                ClockStage::LastReport
            } else {
                ClockStage::Checking(0)
            },
            remaining: one_less(c.remaining),
        }),
{
    let slices = quiet_slices(SLICES_PER_SECOND as nat);
    lemma_quiet_slices(c, 0, SLICES_PER_SECOND as nat);
    let waited = clock_run(c, slices);
    let check = seq![ClockInput::Stop(false)];
    assert(check.drop_first() =~= Seq::<ClockInput>::empty());
    let reporting = clock_next(waited, ClockInput::Stop(false));
    assert(clock_run(reporting, Seq::<ClockInput>::empty()) == reporting);
    lemma_clock_run_concat(c, slices, check);
    lemma_clock_run_two(waited, ClockInput::Stop(false), ClockInput::Sent(true));
    lemma_clock_run_concat(c, slices, seq![ClockInput::Stop(false), ClockInput::Sent(true)]);
}

/// Natural completion: an undisturbed clock that starts with `seconds`
/// seconds, at least one, has after that many seconds counted down to zero,
/// reported it, and is about to report zero once more; after that report it
/// leaves by itself.
pub proof fn law_clock_runs_out(c: Clock, seconds: u64)
    requires
        c.stage == ClockStage::Checking(0),
        c.remaining == seconds,
        seconds > 0,
    ensures
        clock_run(c, quiet_seconds(seconds as nat)) == (Clock {
            stage: ClockStage::LastReport,
            remaining: 0,
        }),
        clock_action(clock_run(c, quiet_seconds(seconds as nat))) == ClockAction::Report(0),
        clock_next(clock_run(c, quiet_seconds(seconds as nat)), ClockInput::Sent(true)).stage
            == ClockStage::Exited,
        clock_next(clock_run(c, quiet_seconds(seconds as nat)), ClockInput::Sent(false)).stage
            == ClockStage::Exited,
    decreases seconds,
{
    law_quiet_second(c);
    let rest = quiet_seconds((seconds - 1) as nat);
    lemma_clock_run_concat(c, quiet_second(), rest);
    if seconds > 1 {
        law_clock_runs_out(clock_run(c, quiet_second()), (seconds - 1) as u64);
    }
}

/// What the clock asks to report while it takes a sequence of inputs, in
/// order: one number each time it comes to a report.
pub open spec fn clock_reports(c: Clock, inputs: Seq<ClockInput>) -> Seq<u64>
    decreases inputs.len(),
{
    if inputs.len() == 0 {
        Seq::empty()
    } else {
        let after = clock_next(c, inputs.first());
        let said = if after != c && clock_action(after) is Report {
            seq![after.remaining]
        } else {
            Seq::empty()
        };
        said + clock_reports(after, inputs.drop_first())
    }
}

/// The numbers below `from`, from the largest down to zero.
pub open spec fn descending(from: u64) -> Seq<u64>
    decreases from,
{
    if from == 0 {
        Seq::empty()
    } else {
        seq![(from - 1) as u64] + descending((from - 1) as u64)
    }
}

/// The reports of two sequences run one after the other are the reports of
/// their concatenation.
pub proof fn lemma_clock_reports_concat(c: Clock, a: Seq<ClockInput>, b: Seq<ClockInput>)
    ensures
        clock_reports(c, a + b) == clock_reports(c, a) + clock_reports(clock_run(c, a), b),
    decreases a.len(),
{
    if a.len() > 0 {
        assert((a + b).drop_first() =~= a.drop_first() + b);
        let after = clock_next(c, a.first());
        lemma_clock_reports_concat(after, a.drop_first(), b);
        let said = if after != c && clock_action(after) is Report {
            seq![after.remaining]
        } else {
            Seq::empty()
        };
        assert(said + (clock_reports(after, a.drop_first()) + clock_reports(
            clock_run(after, a.drop_first()),
            b,
        )) =~= (said + clock_reports(after, a.drop_first())) + clock_reports(
            clock_run(after, a.drop_first()),
            b,
        ));
    }
}

proof fn lemma_clock_reports_two(c: Clock, a: ClockInput, b: ClockInput)
    ensures
        clock_reports(c, seq![a, b]) == clock_reports(c, seq![a]) + clock_reports(
            clock_next(c, a),
            seq![b],
        ),
        clock_reports(c, seq![a]) == (if clock_next(c, a) != c && clock_action(clock_next(c, a))
            is Report {
            seq![clock_next(c, a).remaining]
        } else {
            Seq::<u64>::empty()
        }),
{
    assert(seq![a, b] =~= seq![a] + seq![b]);
    lemma_clock_reports_concat(c, seq![a], seq![b]);
    assert(seq![a].drop_first() =~= Seq::<ClockInput>::empty());
    let after = clock_next(c, a);
    assert(clock_run(after, Seq::<ClockInput>::empty()) == after);
    assert(clock_reports(after, Seq::<ClockInput>::empty()) =~= Seq::<u64>::empty());
}

proof fn lemma_quiet_slices_are_silent(c: Clock, done: u8, count: nat)
    requires
        c.stage == ClockStage::Checking(done),
        done + count <= SLICES_PER_SECOND,
    ensures
        clock_reports(c, quiet_slices(count)) == Seq::<u64>::empty(),
    decreases count,
{
    if count > 0 {
        let stop = ClockInput::Stop(false);
        let pair = seq![stop, ClockInput::Slept];
        let rest = quiet_slices((count - 1) as nat);
        lemma_clock_reports_two(c, stop, ClockInput::Slept);
        lemma_clock_reports_two(clock_next(c, stop), ClockInput::Slept, ClockInput::Slept);
        lemma_clock_run_two(c, stop, ClockInput::Slept);
        lemma_clock_reports_concat(c, pair, rest);
        lemma_quiet_slices_are_silent(clock_run(c, pair), (done + 1) as u8, (count - 1) as nat);
    }
}

proof fn lemma_quiet_second_reports(c: Clock)
    requires
        c.stage == ClockStage::Checking(0),
    ensures
        clock_reports(c, quiet_second()) == (if one_less(c.remaining) == 0 {
            seq![0u64, 0u64]
        } else {
            seq![one_less(c.remaining)]
        }),
{
    let slices = quiet_slices(SLICES_PER_SECOND as nat);
    let stop = ClockInput::Stop(false);
    let sent = ClockInput::Sent(true);
    lemma_quiet_slices(c, 0, SLICES_PER_SECOND as nat);
    lemma_quiet_slices_are_silent(c, 0, SLICES_PER_SECOND as nat);
    let waited = clock_run(c, slices);
    lemma_clock_reports_concat(c, slices, seq![stop, sent]);
    lemma_clock_reports_two(waited, stop, sent);
    lemma_clock_reports_two(clock_next(waited, stop), sent, sent);
    assert(Seq::<u64>::empty() + clock_reports(waited, seq![stop, sent]) =~= clock_reports(
        waited,
        seq![stop, sent],
    ));
}

/// What an undisturbed clock reports: started with `seconds` seconds, at
/// least one, it reports each number below that, down to zero, once per
/// second, and then zero once more.
pub proof fn law_clock_reports_countdown(c: Clock, seconds: u64)
    requires
        c.stage == ClockStage::Checking(0),
        c.remaining == seconds,
        seconds > 0,
    ensures
        clock_reports(c, quiet_seconds(seconds as nat)) == descending(seconds) + seq![0u64],
    decreases seconds,
{
    let rest = quiet_seconds((seconds - 1) as nat);
    lemma_quiet_second_reports(c);
    law_quiet_second(c);
    lemma_clock_reports_concat(c, quiet_second(), rest);
    if seconds > 1 {
        law_clock_reports_countdown(clock_run(c, quiet_second()), (seconds - 1) as u64);
        assert(seq![(seconds - 1) as u64] + (descending((seconds - 1) as u64) + seq![0u64])
            =~= descending(seconds) + seq![0u64]);
    }
}

} // verus!
