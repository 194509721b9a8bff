//! The control loop of a running session, as a state machine.
//!
//! The coordinator owns the display state and decides. It never touches the
//! terminal, a channel or the clock itself: each call of [`Coordinator::step`]
//! takes the result of the action it asked for last and answers with the next
//! action. Whoever drives it performs the action and hands the result back.
//!
//! The terminal belongs to the session from before the workers start until
//! after both are joined: it is prepared first, and restored on every path,
//! a failed one included. One round of the loop polls the watcher first and
//! the clock second, so a quit request wins over a countdown that reaches
//! zero in the same round.

use vstd::prelude::*;
use vstd::string::*;
use crate::clock::{clock_reports, descending, quiet_seconds, Clock, ClockStage};
use crate::error::{Error, ErrorModel};
use crate::models::{AppState, PomoStatus, PomodoroEvent};

verus! {

/// The three phases of a session's control loop.
#[derive(Debug, Clone, Copy, PartialEq, Eq, Structural)]
pub enum Phase {
    Active,
    Terminating,
    Done,
}

/// Where the loop stands: which answer it is waiting for.
#[derive(Debug, Clone, Copy, PartialEq, Eq, Structural)]
pub enum Stage {
    /// The terminal is being taken over and measured.
    Preparing,
    /// The two workers are being started.
    Starting,
    /// The first frame is being painted.
    FirstDraw,
    /// The watcher's channel is being polled.
    AwaitWatcher,
    /// The frame is being repainted after a resize.
    ResizeDraw,
    /// The clock's channel is being polled.
    AwaitClock,
    /// The frame is being repainted after a tick.
    TickDraw,
    /// Nothing arrived in this round; the loop sleeps briefly.
    Idle,
    /// Stop signals are being sent to both workers.
    Stopping,
    /// Both workers are being joined.
    Joining,
    /// The terminal is being put back into its prior mode.
    Restoring,
    /// The outcome is decided and may be persisted.
    Done,
}

/// What a non-blocking poll of the watcher's channel gave.
#[derive(Debug, Clone, Copy, PartialEq, Eq, Structural)]
pub enum WatcherPoll {
    Event(PomodoroEvent),
    Empty,
    Disconnected,
}

/// What a non-blocking poll of the clock's channel gave; a tick carries the
/// seconds that are left.
#[derive(Debug, Clone, Copy, PartialEq, Eq, Structural)]
pub enum ClockPoll {
    Tick(u64),
    Empty,
    Disconnected,
}

/// The result of an action, handed back to the coordinator.
#[derive(Debug, Clone, Copy, PartialEq, Eq, Structural)]
pub enum Input {
    /// The terminal was prepared and has this width and height.
    Prepared(u16, u16),
    /// The terminal could not be prepared.
    PrepareFailed,
    /// Both workers were started.
    Started,
    /// The frame was painted, or painting failed.
    Drawn(bool),
    Watcher(WatcherPoll),
    Clock(ClockPoll),
    Slept,
    StopSent,
    Joined,
    /// The terminal was restored, or restoring failed.
    Restored(bool),
}

/// What the coordinator asks its driver to do next.
#[derive(Debug, Clone, Copy, PartialEq, Eq, Structural)]
pub enum Action {
    /// Enter raw mode and the alternate screen, hide the cursor, and read
    /// the terminal's size.
    PrepareTerminal,
    /// Start the clock and the watcher.
    StartWorkers,
    /// Paint the whole frame from the current display state.
    Draw,
    /// Poll the watcher's channel without blocking.
    PollWatcher,
    /// Poll the clock's channel without blocking.
    PollClock,
    /// Sleep for `IDLE_SLEEP_MS`.
    Sleep,
    /// Send a stop signal to each worker that was started; a failed send is
    /// ignored.
    StopWorkers,
    /// Block until every worker that was started has exited.
    JoinWorkers,
    /// Leave the alternate screen, show the cursor, leave raw mode.
    RestoreTerminal,
    /// Persist the session with this status and the current instant as its end.
    Finalize(PomoStatus),
}

/// How long the loop sleeps when neither channel had anything, in milliseconds.
pub const IDLE_SLEEP_MS: u64 = 50;

/// The coordinator as a mathematical value.
pub struct CoordinatorModel {
    pub stage: Stage,
    pub title: Seq<char>,
    pub width: u16,
    pub height: u16,
    /// Seconds left, as last reported by the clock.
    pub remaining: u64,
    pub quited: bool,
    /// Whether a channel produced something in the current round.
    pub produced: bool,
    pub outcome: PomoStatus,
    pub terminal_failed: bool,
    /// Whether the clock was lost with time left: an anomaly worth a note,
    /// not a failure.
    pub clock_lost: bool,
}

/// The phase that a stage belongs to.
pub open spec fn phase_of(stage: Stage) -> Phase {
    match stage {
        Stage::Stopping | Stage::Joining | Stage::Restoring => Phase::Terminating,
        Stage::Done => Phase::Done,
        _ => Phase::Active,
    }
}

/// The action that a stage waits on.
pub open spec fn action_of(s: CoordinatorModel) -> Action {
    match s.stage {
        Stage::Preparing => Action::PrepareTerminal,
        Stage::Starting => Action::StartWorkers,
        Stage::FirstDraw | Stage::ResizeDraw | Stage::TickDraw => Action::Draw,
        Stage::AwaitWatcher => Action::PollWatcher,
        Stage::AwaitClock => Action::PollClock,
        Stage::Idle => Action::Sleep,
        Stage::Stopping => Action::StopWorkers,
        Stage::Joining => Action::JoinWorkers,
        Stage::Restoring => Action::RestoreTerminal,
        Stage::Done => Action::Finalize(s.outcome),
    }
}

/// The coordinator at the start of a session: nothing is prepared yet, and
/// the terminal's size is not known.
pub open spec fn initial(title: Seq<char>, seconds: u64) -> CoordinatorModel {
    CoordinatorModel {
        stage: Stage::Preparing,
        title,
        width: 0,
        height: 0,
        remaining: seconds,
        quited: false,
        produced: false,
        outcome: PomoStatus::Running,
        terminal_failed: false,
        clock_lost: false,
    }
}

/// Leaves the active phase with a decided outcome.
pub open spec fn terminate(s: CoordinatorModel, outcome: PomoStatus, failed: bool) -> CoordinatorModel {
    CoordinatorModel {
        stage: Stage::Stopping,
        outcome,
        quited: outcome == PomoStatus::Paused,
        terminal_failed: failed,
        ..s
    }
}

/// Moves to another stage of the active phase.
pub open spec fn advance(s: CoordinatorModel, stage: Stage, produced: bool) -> CoordinatorModel {
    CoordinatorModel { stage, produced, ..s }
}

/// The transition function: the state after `input` arrives in state `s`.
/// An input that does not answer the pending action changes nothing.
pub open spec fn next(s: CoordinatorModel, input: Input) -> CoordinatorModel {
    match (s.stage, input) {
        (Stage::Preparing, Input::Prepared(w, h)) => CoordinatorModel {
            stage: Stage::Starting,
            width: w,
            height: h,
            ..s
        },
        (Stage::Preparing, Input::PrepareFailed) => terminate(s, PomoStatus::Paused, true),
        (Stage::Starting, Input::Started) => advance(s, Stage::FirstDraw, false),
        (Stage::FirstDraw, Input::Drawn(ok)) => {
            if ok {
                advance(s, Stage::AwaitWatcher, false)
            } else {
                terminate(s, PomoStatus::Paused, true)
            }
        },
        (Stage::AwaitWatcher, Input::Watcher(poll)) => {
            match poll {
                WatcherPoll::Event(PomodoroEvent::Quit) => terminate(s, PomoStatus::Paused, false),
                WatcherPoll::Event(PomodoroEvent::Resize(w, h)) => CoordinatorModel {
                    stage: Stage::ResizeDraw,
                    width: w,
                    height: h,
                    produced: true,
                    ..s
                },
                WatcherPoll::Empty => advance(s, Stage::AwaitClock, s.produced),
                WatcherPoll::Disconnected => terminate(s, PomoStatus::Paused, false),
            }
        },
        (Stage::ResizeDraw, Input::Drawn(ok)) => {
            if ok {
                advance(s, Stage::AwaitClock, s.produced)
            } else {
                terminate(s, PomoStatus::Paused, true)
            }
        },
        (Stage::AwaitClock, Input::Clock(poll)) => {
            match poll {
                ClockPoll::Tick(left) => CoordinatorModel {
                    stage: Stage::TickDraw,
                    remaining: left,
                    produced: true,
                    ..s
                },
                ClockPoll::Empty => {
                    if s.produced {
                        advance(s, Stage::AwaitWatcher, false)
                    } else {
                        advance(s, Stage::Idle, false)
                    }
                },
                ClockPoll::Disconnected => {
                    if s.remaining == 0 {
                        terminate(s, PomoStatus::Finished, false)
                    } else {
                        CoordinatorModel {
                            clock_lost: true,
                            ..terminate(s, PomoStatus::Paused, false)
                        }
                    }
                },
            }
        },
        (Stage::TickDraw, Input::Drawn(ok)) => {
            if !ok {
                terminate(s, PomoStatus::Paused, true)
            } else if s.remaining == 0 {
                terminate(s, PomoStatus::Finished, false)
            } else {
                advance(s, Stage::AwaitWatcher, false)
            }
        },
        (Stage::Idle, Input::Slept) => advance(s, Stage::AwaitWatcher, false),
        (Stage::Stopping, Input::StopSent) => CoordinatorModel { stage: Stage::Joining, ..s },
        (Stage::Joining, Input::Joined) => CoordinatorModel { stage: Stage::Restoring, ..s },
        (Stage::Restoring, Input::Restored(ok)) => CoordinatorModel {
            stage: Stage::Done,
            terminal_failed: s.terminal_failed || !ok,
            ..s
        },
        _ => s,
    }
}

/// What holds of every coordinator that a session can reach.
pub open spec fn well_formed(s: CoordinatorModel) -> bool {
    if phase_of(s.stage) == Phase::Active {
        &&& s.outcome == PomoStatus::Running
        &&& !s.quited
        &&& !s.terminal_failed
        &&& !s.clock_lost
        &&& (s.stage == Stage::Preparing || s.stage == Stage::Starting || s.stage
            == Stage::FirstDraw || s.stage == Stage::AwaitWatcher) ==> !s.produced
    } else {
        &&& s.outcome != PomoStatus::Running
        &&& s.quited == (s.outcome == PomoStatus::Paused)
        &&& s.outcome == PomoStatus::Finished ==> s.remaining == 0
        &&& s.clock_lost ==> s.outcome == PomoStatus::Paused && s.remaining > 0
    }
}

/// The state after a whole sequence of inputs.
pub open spec fn run(s: CoordinatorModel, inputs: Seq<Input>) -> CoordinatorModel
    decreases inputs.len(),
{
    if inputs.len() == 0 {
        s
    } else {
        run(next(s, inputs.first()), inputs.drop_first())
    }
}

/// One round in which the watcher has nothing and the clock reports `left`.
pub open spec fn tick_round(left: u64) -> Seq<Input> {
    seq![
        Input::Watcher(WatcherPoll::Empty),
        Input::Clock(ClockPoll::Tick(left)),
        Input::Drawn(true),
    ]
}

/// One round in which neither channel has anything.
pub open spec fn idle_round() -> Seq<Input> {
    seq![Input::Watcher(WatcherPoll::Empty), Input::Clock(ClockPoll::Empty), Input::Slept]
}

/// The rounds of an undisturbed countdown: the clock reports `from - 1`, then
/// one second less in each round, down to zero.
pub open spec fn countdown(from: u64) -> Seq<Input>
    decreases from,
{
    if from == 0 {
        Seq::empty()
    } else {
        tick_round((from - 1) as u64) + countdown((from - 1) as u64)
    }
}

/// Whether the inputs hold, in this order, the acknowledgement that the stop
/// signals were sent, that both workers were joined, and that the terminal
/// was restored.
pub open spec fn orderly_shutdown(inputs: Seq<Input>) -> bool {
    exists|i: int, j: int, k: int|
        0 <= i < j < k < inputs.len() && inputs[i] == Input::StopSent && inputs[j] == Input::Joined
            && inputs[k] is Restored
}

/// The control loop of one session.
pub struct Coordinator {
    state: AppState,
    stage: Stage,
    produced: bool,
    outcome: PomoStatus,
    terminal_failed: bool,
    clock_lost: bool,
}

impl View for Coordinator {
    type V = CoordinatorModel;

    closed spec fn view(&self) -> CoordinatorModel {
        CoordinatorModel {
            stage: self.stage,
            title: self.state.title@,
            width: self.state.term_width,
            height: self.state.term_height,
            remaining: self.state.current_time,
            quited: self.state.quited,
            produced: self.produced,
            outcome: self.outcome,
            terminal_failed: self.terminal_failed,
            clock_lost: self.clock_lost,
        }
    }
}

impl Coordinator {
    /// A coordinator for a session that is about to take over the terminal.
    pub fn new(title: String, seconds: u64) -> (c: Coordinator)
        ensures
            c@ == initial(title@, seconds),
            well_formed(c@),
    {
        Coordinator {
            state: AppState {
                title,
                term_width: 0,
                term_height: 0,
                current_time: seconds,
                quited: false,
            },
            stage: Stage::Preparing,
            produced: false,
            outcome: PomoStatus::Running,
            terminal_failed: false,
            clock_lost: false,
        }
    }

    /// The display state to paint.
    pub fn app_state(&self) -> (state: &AppState)
        ensures
            state.title@ == self@.title,
            state.term_width == self@.width,
            state.term_height == self@.height,
            state.current_time == self@.remaining,
            state.quited == self@.quited,
    {
        &self.state
    }

    /// The phase the loop is in.
    pub fn phase(&self) -> (p: Phase)
        ensures
            p == phase_of(self@.stage),
    {
        match self.stage {
            Stage::Stopping | Stage::Joining | Stage::Restoring => Phase::Terminating,
            Stage::Done => Phase::Done,
            _ => Phase::Active,
        }
    }

    /// The status the session ends with: `Running` until the loop has decided.
    pub fn outcome(&self) -> (status: PomoStatus)
        ensures
            status == self@.outcome,
    {
        self.outcome
    }

    /// Whether painting or restoring the terminal failed.
    pub fn terminal_failed(&self) -> (failed: bool)
        ensures
            failed == self@.terminal_failed,
    {
        self.terminal_failed
    }

    /// Whether the clock was lost while time was left.
    pub fn clock_lost(&self) -> (lost: bool)
        ensures
            lost == self@.clock_lost,
    {
        self.clock_lost
    }

    /// What the session is answered with once its outcome is persisted:
    /// nothing more where the terminal held, else the terminal's failure,
    /// of which `reason` is the text.
    pub fn conclusion(&self, reason: &str) -> (r: Result<(), Error>)
        ensures
            r is Ok <==> !self@.terminal_failed,
            r matches Err(e) ==> e@ == ErrorModel::Terminal(reason@),
    {
        if self.terminal_failed {
            Err(Error::Terminal(String::from_str(reason)))
        } else {
            Ok(())
        }
    }

    /// The action that the coordinator is waiting on.
    pub fn pending(&self) -> (action: Action)
        ensures
            action == action_of(self@),
    {
        match self.stage {
            Stage::Preparing => Action::PrepareTerminal,
            Stage::Starting => Action::StartWorkers,
            Stage::FirstDraw | Stage::ResizeDraw | Stage::TickDraw => Action::Draw,
            Stage::AwaitWatcher => Action::PollWatcher,
            Stage::AwaitClock => Action::PollClock,
            Stage::Idle => Action::Sleep,
            Stage::Stopping => Action::StopWorkers,
            Stage::Joining => Action::JoinWorkers,
            Stage::Restoring => Action::RestoreTerminal,
            Stage::Done => Action::Finalize(self.outcome),
        }
    }

    fn terminate(&mut self, outcome: PomoStatus, failed: bool)
        ensures
            final(self)@ == terminate(old(self)@, outcome, failed),
    {
        self.state.quited = matches!(outcome, PomoStatus::Paused);
        self.outcome = outcome;
        self.terminal_failed = failed;
        self.stage = Stage::Stopping;
    }

    /// Takes the result of the pending action and answers with the next one.
    pub fn step(&mut self, input: Input) -> (action: Action)
        ensures
            final(self)@ == next(old(self)@, input),
            action == action_of(final(self)@),
            well_formed(old(self)@) ==> well_formed(final(self)@),
    {
        match (self.stage, input) {
            (Stage::Preparing, Input::Prepared(w, h)) => {
                self.state.term_width = w;
                self.state.term_height = h;
                self.stage = Stage::Starting;
            },
            (Stage::Preparing, Input::PrepareFailed) => {
                self.terminate(PomoStatus::Paused, true);
            },
            (Stage::Starting, Input::Started) => {
                self.stage = Stage::FirstDraw;
                self.produced = false;
            },
            (Stage::FirstDraw, Input::Drawn(ok)) => {
                if ok {
                    self.stage = Stage::AwaitWatcher;
                    self.produced = false;
                } else {
                    self.terminate(PomoStatus::Paused, true);
                }
            },
            (Stage::AwaitWatcher, Input::Watcher(poll)) => {
                match poll {
                    WatcherPoll::Event(PomodoroEvent::Quit) => {
                        self.terminate(PomoStatus::Paused, false);
                    },
                    WatcherPoll::Event(PomodoroEvent::Resize(w, h)) => {
                        self.state.term_width = w;
                        self.state.term_height = h;
                        self.produced = true;
                        self.stage = Stage::ResizeDraw;
                    },
                    WatcherPoll::Empty => {
                        self.stage = Stage::AwaitClock;
                    },
                    WatcherPoll::Disconnected => {
                        self.terminate(PomoStatus::Paused, false);
                    },
                }
            },
            (Stage::ResizeDraw, Input::Drawn(ok)) => {
                if ok {
                    self.stage = Stage::AwaitClock;
                } else {
                    self.terminate(PomoStatus::Paused, true);
                }
            },
            (Stage::AwaitClock, Input::Clock(poll)) => {
                match poll {
                    ClockPoll::Tick(left) => {
                        self.state.current_time = left;
                        self.produced = true;
                        self.stage = Stage::TickDraw;
                    },
                    ClockPoll::Empty => {
                        if self.produced {
                            self.stage = Stage::AwaitWatcher;
                        } else {
                            self.stage = Stage::Idle;
                        }
                        self.produced = false;
                    },
                    ClockPoll::Disconnected => {
                        if self.state.current_time == 0 {
                            self.terminate(PomoStatus::Finished, false);
                        } else {
                            self.terminate(PomoStatus::Paused, false);
                            self.clock_lost = true;
                        }
                    },
                }
            },
            (Stage::TickDraw, Input::Drawn(ok)) => {
                if !ok {
                    self.terminate(PomoStatus::Paused, true);
                } else if self.state.current_time == 0 {
                    self.terminate(PomoStatus::Finished, false);
                } else {
                    self.stage = Stage::AwaitWatcher;
                    self.produced = false;
                }
            },
            (Stage::Idle, Input::Slept) => {
                self.stage = Stage::AwaitWatcher;
                self.produced = false;
            },
            (Stage::Stopping, Input::StopSent) => {
                self.stage = Stage::Joining;
            },
            (Stage::Joining, Input::Joined) => {
                self.stage = Stage::Restoring;
            },
            (Stage::Restoring, Input::Restored(ok)) => {
                self.terminal_failed = self.terminal_failed || !ok;
                self.stage = Stage::Done;
            },
            _ => {},
        }
        self.pending()
    }
}

/// Every transition keeps a well-formed coordinator well-formed.
pub proof fn lemma_next_well_formed(s: CoordinatorModel, input: Input)
    requires
        well_formed(s),
    ensures
        well_formed(next(s, input)),
{
}

/// Running two sequences one after the other is running their concatenation.
pub proof fn lemma_run_concat(s: CoordinatorModel, a: Seq<Input>, b: Seq<Input>)
    ensures
        run(s, a + b) == run(run(s, a), b),
    decreases a.len(),
{
    if a.len() > 0 {
        assert((a + b).drop_first() =~= a.drop_first() + b);
        lemma_run_concat(next(s, a.first()), a.drop_first(), b);
    }
}

/// Whatever inputs arrive, a well-formed coordinator stays well-formed: while
/// the loop is active the session is `Running`, and once it has left the
/// active phase the outcome is `Paused` or `Finished`, `Finished` only with
/// no time left.
pub proof fn law_run_well_formed(s: CoordinatorModel, inputs: Seq<Input>)
    requires
        well_formed(s),
    ensures
        well_formed(run(s, inputs)),
    decreases inputs.len(),
{
    if inputs.len() > 0 {
        lemma_next_well_formed(s, inputs.first());
        law_run_well_formed(next(s, inputs.first()), inputs.drop_first());
    }
}

/// Quit priority: a quit request found in the watcher's poll ends the round at
/// once with the outcome `Paused`. The clock is not polled in that round, so
/// whatever it holds, a tick of zero included, cannot change the outcome.
pub proof fn law_quit_wins(s: CoordinatorModel, clock: ClockPoll)
    requires
        s.stage == Stage::AwaitWatcher,
    ensures
        ({
            let quit = next(s, Input::Watcher(WatcherPoll::Event(PomodoroEvent::Quit)));
            &&& phase_of(quit.stage) == Phase::Terminating
            &&& action_of(quit) == Action::StopWorkers
            &&& quit.outcome == PomoStatus::Paused
            &&& quit.quited
            &&& next(quit, Input::Clock(clock)) == quit
        }),
{
}

/// The watcher comes first: the clock's channel is only ever polled right
/// after the watcher's poll of the same round, or after the repaint that a
/// resize in that poll asked for.
pub proof fn law_watcher_before_clock(s: CoordinatorModel, input: Input)
    requires
        next(s, input).stage == Stage::AwaitClock,
    ensures
        s.stage == Stage::AwaitWatcher || s.stage == Stage::ResizeDraw || s.stage
            == Stage::AwaitClock,
        s.stage == Stage::AwaitWatcher ==> input == Input::Watcher(WatcherPoll::Empty),
        s.stage == Stage::ResizeDraw ==> input == Input::Drawn(true),
{
}

/// A lost watcher is treated as a quit request, and a lost clock ends the
/// session as `Finished` only if no time was left; with time left it is
/// noted as lost.
pub proof fn law_lost_worker(s: CoordinatorModel)
    ensures
        s.stage == Stage::AwaitWatcher ==> next(
            s,
            Input::Watcher(WatcherPoll::Disconnected),
        ).outcome == PomoStatus::Paused,
        s.stage == Stage::AwaitClock ==> next(s, Input::Clock(ClockPoll::Disconnected)).outcome
            == (if s.remaining == 0 {
            PomoStatus::Finished
        } else {
            PomoStatus::Paused
        }),
        s.stage == Stage::AwaitClock && !s.clock_lost ==> next(
            s,
            Input::Clock(ClockPoll::Disconnected),
        ).clock_lost == (s.remaining > 0),
{
}

/// A failed repaint in the active phase ends the session as `Paused` and goes
/// on to the orderly shutdown, so the terminal is still restored.
pub proof fn law_draw_failure_pauses(s: CoordinatorModel)
    requires
        action_of(s) == Action::Draw,
    ensures
        ({
            let failed = next(s, Input::Drawn(false));
            &&& failed.stage == Stage::Stopping
            &&& failed.outcome == PomoStatus::Paused
            &&& failed.terminal_failed
        }),
{
}

/// A round in which neither channel has anything leaves the coordinator as it was.
pub proof fn law_idle_round(s: CoordinatorModel)
    requires
        s.stage == Stage::AwaitWatcher,
        !s.produced,
    ensures
        run(s, idle_round()) == s,
{
    let a = Input::Watcher(WatcherPoll::Empty);
    let b = Input::Clock(ClockPoll::Empty);
    let c = Input::Slept;
    let s1 = next(s, a);
    let s2 = next(s1, b);
    let s3 = next(s2, c);
    assert(idle_round().drop_first() =~= seq![b, c]);
    assert(seq![b, c].drop_first() =~= seq![c]);
    assert(seq![c].drop_first() =~= Seq::<Input>::empty());
    assert(run(s3, Seq::<Input>::empty()) == s3);
    assert(run(s2, seq![c]) == s3);
    assert(run(s1, seq![b, c]) == s3);
}

/// A round in which the clock reports `left` records it; with time left the
/// loop goes on, and at zero it ends the session as `Finished`.
pub proof fn lemma_tick_round(s: CoordinatorModel, left: u64)
    requires
        s.stage == Stage::AwaitWatcher,
        !s.produced,
    ensures
        run(s, tick_round(left)) == (if left == 0 {
            terminate(CoordinatorModel { remaining: left, produced: true, ..s }, PomoStatus::Finished, false)
        } else {
            CoordinatorModel { remaining: left, ..s }
        }),
{
    let a = Input::Watcher(WatcherPoll::Empty);
    let b = Input::Clock(ClockPoll::Tick(left));
    let c = Input::Drawn(true);
    let s1 = next(s, a);
    let s2 = next(s1, b);
    let s3 = next(s2, c);
    assert(tick_round(left).drop_first() =~= seq![b, c]);
    assert(seq![b, c].drop_first() =~= seq![c]);
    assert(seq![c].drop_first() =~= Seq::<Input>::empty());
    assert(run(s3, Seq::<Input>::empty()) == s3);
    assert(run(s2, seq![c]) == s3);
    assert(run(s1, seq![b, c]) == s3);
}

/// Countdown termination: when nobody quits and every repaint succeeds, a
/// countdown of `seconds` ticks, the last of them zero, ends the session as
/// `Finished` with no time left, and the next thing the loop asks for is to
/// stop the workers.
pub proof fn law_countdown_finishes(s: CoordinatorModel, seconds: u64)
    requires
        s.stage == Stage::AwaitWatcher,
        well_formed(s),
        seconds > 0,
    ensures
        ({
            let end = run(s, countdown(seconds));
            &&& end.stage == Stage::Stopping
            &&& end.outcome == PomoStatus::Finished
            &&& end.remaining == 0
            &&& !end.quited
            &&& !end.terminal_failed
            &&& end.width == s.width && end.height == s.height && end.title == s.title
        }),
    decreases seconds,
{
    let left = (seconds - 1) as u64;
    let after = run(s, tick_round(left));
    lemma_tick_round(s, left);
    lemma_run_concat(s, tick_round(left), countdown(left));
    if left > 0 {
        law_countdown_finishes(after, left);
    }
}

/// The state after the clock's poll that follows a repaint: a tick is
/// recorded and painted, anything else passes.
pub open spec fn after_clock_poll(s: CoordinatorModel, poll: ClockPoll) -> CoordinatorModel {
    let polled = next(s, Input::Clock(poll));
    if poll is Tick {
        next(polled, Input::Drawn(true))
    } else {
        polled
    }
}

/// Resize handling: two resize events, one after the other, each lead to a
/// repaint with the dimensions of that event, and neither changes the
/// session's status. Between the two the clock's channel is polled; it may
/// have nothing or a tick with time left, which is painted in the new size,
/// and the time left is what the clock said last. Every repaint succeeds.
pub proof fn law_resizes_repaint(
    s: CoordinatorModel,
    w1: u16,
    h1: u16,
    w2: u16,
    h2: u16,
    poll: ClockPoll,
)
    requires
        s.stage == Stage::AwaitWatcher,
        well_formed(s),
        poll == ClockPoll::Empty || (poll matches ClockPoll::Tick(left) && left > 0),
    ensures
        ({
            let first = next(s, Input::Watcher(WatcherPoll::Event(PomodoroEvent::Resize(w1, h1))));
            let between = after_clock_poll(next(first, Input::Drawn(true)), poll);
            let second = next(
                between,
                Input::Watcher(WatcherPoll::Event(PomodoroEvent::Resize(w2, h2))),
            );
            &&& action_of(first) == Action::Draw
            &&& first.width == w1 && first.height == h1
            &&& first.remaining == s.remaining
            &&& between.stage == Stage::AwaitWatcher
            &&& between.width == w1 && between.height == h1
            &&& action_of(second) == Action::Draw
            &&& second.width == w2 && second.height == h2
            &&& second.outcome == PomoStatus::Running
            &&& phase_of(second.stage) == Phase::Active
            &&& second.remaining == (match poll {
                ClockPoll::Tick(left) => left,
                _ => s.remaining,
            })
            &&& second.title == s.title
        }),
{
}

/// The stages of the shutdown are passed in order: what has to have arrived
/// before a stage can be reached.
spec fn shutdown_progress(stage: Stage, inputs: Seq<Input>) -> bool {
    match stage {
        Stage::Joining => exists|i: int| 0 <= i < inputs.len() && inputs[i] == Input::StopSent,
        Stage::Restoring => exists|i: int, j: int|
            0 <= i < j < inputs.len() && inputs[i] == Input::StopSent && inputs[j]
                == Input::Joined,
        Stage::Done => orderly_shutdown(inputs),
        _ => true,
    }
}

proof fn lemma_shutdown_progress(s: CoordinatorModel, done: Seq<Input>, rest: Seq<Input>)
    requires
        shutdown_progress(s.stage, done),
    ensures
        shutdown_progress(run(s, rest).stage, done + rest),
    decreases rest.len(),
{
    if rest.len() > 0 {
        let input = rest.first();
        let t = next(s, input);
        let grown = done.push(input);
        assert(forall|i: int| 0 <= i < done.len() ==> grown[i] == done[i]);
        assert(shutdown_progress(t.stage, grown)) by {
            if t.stage == s.stage {
                match s.stage {
                    Stage::Joining => {
                        let i = choose|i: int| 0 <= i < done.len() && done[i] == Input::StopSent;
                    },
                    Stage::Restoring => {
                        let (i, j) = choose|i: int, j: int|
                            0 <= i < j < done.len() && done[i] == Input::StopSent && done[j]
                                == Input::Joined;
                    },
                    Stage::Done => {
                        let (i, j, k) = choose|i: int, j: int, k: int|
                            0 <= i < j < k < done.len() && done[i] == Input::StopSent && done[j]
                                == Input::Joined && done[k] is Restored;
                        assert(grown[i] == Input::StopSent && grown[j] == Input::Joined
                            && grown[k] is Restored);
                    },
                    _ => {},
                }
            } else {
                match t.stage {
                    Stage::Joining => {
                    },
                    Stage::Restoring => {
                        let i = choose|i: int| 0 <= i < done.len() && done[i] == Input::StopSent;
                        assert(grown[i] == Input::StopSent && grown[done.len() as int]
                            == Input::Joined);
                    },
                    Stage::Done => {
                        let (i, j) = choose|i: int, j: int|
                            0 <= i < j < done.len() && done[i] == Input::StopSent && done[j]
                                == Input::Joined;
                        assert(grown[i] == Input::StopSent && grown[j] == Input::Joined
                            && grown[done.len() as int] is Restored);
                    },
                    _ => {},
                }
            }
        }
        lemma_shutdown_progress(t, grown, rest.drop_first());
        assert(grown + rest.drop_first() =~= done + rest);
    }
}

/// Orderly shutdown: whatever inputs arrive, a session that starts in the
/// active phase reaches `Done`, where alone it asks to persist the outcome,
/// only after the stop signals were sent, then both workers were joined, then
/// the terminal was restored.
pub proof fn law_orderly_shutdown(s: CoordinatorModel, inputs: Seq<Input>)
    requires
        phase_of(s.stage) == Phase::Active,
    ensures
        run(s, inputs).stage == Stage::Done ==> orderly_shutdown(inputs),
        forall|t: CoordinatorModel| (#[trigger] action_of(t) is Finalize) <==> t.stage == Stage::Done,
{
    lemma_shutdown_progress(s, Seq::<Input>::empty(), inputs);
}

/// The inputs with which a session gets under way: the terminal is prepared
/// with a size, the workers are started, the first frame is painted.
pub open spec fn opening(width: u16, height: u16) -> Seq<Input> {
    seq![Input::Prepared(width, height), Input::Started, Input::Drawn(true)]
}

/// The inputs of an undisturbed shutdown.
pub open spec fn closing() -> Seq<Input> {
    seq![Input::StopSent, Input::Joined, Input::Restored(true)]
}

/// An undisturbed opening leaves the coordinator polling the watcher, with
/// the terminal's size recorded and the full time left.
pub proof fn lemma_opening(title: Seq<char>, seconds: u64, width: u16, height: u16)
    ensures
        run(initial(title, seconds), opening(width, height)) == (CoordinatorModel {
            stage: Stage::AwaitWatcher,
            width,
            height,
            ..initial(title, seconds)
        }),
{
    let a = Input::Prepared(width, height);
    let b = Input::Started;
    let c = Input::Drawn(true);
    let s0 = initial(title, seconds);
    let s1 = next(s0, a);
    let s2 = next(s1, b);
    let s3 = next(s2, c);
    assert(opening(width, height).drop_first() =~= seq![b, c]);
    assert(seq![b, c].drop_first() =~= seq![c]);
    assert(seq![c].drop_first() =~= Seq::<Input>::empty());
    assert(run(s3, Seq::<Input>::empty()) == s3);
    assert(run(s2, seq![c]) == s3);
    assert(run(s1, seq![b, c]) == s3);
}

/// An undisturbed shutdown leads from the decision to `Done`, where the
/// coordinator asks to persist the decided outcome.
pub proof fn lemma_closing(s: CoordinatorModel)
    requires
        s.stage == Stage::Stopping,
    ensures
        run(s, closing()) == (CoordinatorModel { stage: Stage::Done, ..s }),
        action_of(run(s, closing())) == Action::Finalize(s.outcome),
{
    let a = Input::StopSent;
    let b = Input::Joined;
    let c = Input::Restored(true);
    let s1 = next(s, a);
    let s2 = next(s1, b);
    let s3 = next(s2, c);
    assert(closing().drop_first() =~= seq![b, c]);
    assert(seq![b, c].drop_first() =~= seq![c]);
    assert(seq![c].drop_first() =~= Seq::<Input>::empty());
    assert(run(s3, Seq::<Input>::empty()) == s3);
    assert(run(s2, seq![c]) == s3);
    assert(run(s1, seq![b, c]) == s3);
}

/// A session that nobody disturbs finishes: started with a positive number
/// of seconds, with a clock that reports each second down to zero, no quit
/// request and no failure of the terminal, it ends by asking to persist the
/// status `Finished`, with no time left.
pub proof fn law_undisturbed_session_finishes(
    title: Seq<char>,
    seconds: u64,
    width: u16,
    height: u16,
)
    requires
        seconds > 0,
    ensures
        ({
            let end = run(
                initial(title, seconds),
                opening(width, height) + countdown(seconds) + closing(),
            );
            &&& end.stage == Stage::Done
            &&& action_of(end) == Action::Finalize(PomoStatus::Finished)
            &&& end.remaining == 0
            &&& !end.quited
            &&& !end.terminal_failed
        }),
{
    let start = initial(title, seconds);
    let opened = run(start, opening(width, height));
    lemma_opening(title, seconds, width, height);
    law_countdown_finishes(opened, seconds);
    let decided = run(opened, countdown(seconds));
    lemma_closing(decided);
    lemma_run_concat(start, opening(width, height), countdown(seconds));
    lemma_run_concat(start, opening(width, height) + countdown(seconds), closing());
}

/// A session that is quit at once is paused: when the first poll of the
/// watcher finds a quit request, the session ends by asking to persist the
/// status `Paused`, with all of its time left, whatever its length.
pub proof fn law_immediate_quit_pauses(title: Seq<char>, seconds: u64, width: u16, height: u16)
    ensures
        ({
            let quit = seq![Input::Watcher(WatcherPoll::Event(PomodoroEvent::Quit))];
            let end = run(initial(title, seconds), opening(width, height) + quit + closing());
            &&& end.stage == Stage::Done
            &&& action_of(end) == Action::Finalize(PomoStatus::Paused)
            &&& end.remaining == seconds
            &&& end.quited
            &&& orderly_shutdown(opening(width, height) + quit + closing())
        }),
{
    let start = initial(title, seconds);
    let quit = seq![Input::Watcher(WatcherPoll::Event(PomodoroEvent::Quit))];
    let opened = run(start, opening(width, height));
    lemma_opening(title, seconds, width, height);
    let decided = next(opened, quit[0]);
    assert(quit.drop_first() =~= Seq::<Input>::empty());
    assert(run(decided, Seq::<Input>::empty()) == decided);
    lemma_closing(decided);
    lemma_run_concat(start, opening(width, height), quit);
    lemma_run_concat(start, opening(width, height) + quit, closing());
    law_orderly_shutdown(start, opening(width, height) + quit + closing());
}

/// The terminal is the session's from before the workers start until after
/// they are joined: the workers are started only once the terminal was
/// prepared, and a terminal that could not be prepared still leads through
/// the orderly shutdown, as a paused session.
pub proof fn law_terminal_is_held(s: CoordinatorModel, input: Input)
    ensures
        next(s, input).stage == Stage::Starting && s.stage != Stage::Starting ==> s.stage
            == Stage::Preparing && input is Prepared,
        s.stage == Stage::Preparing ==> {
            let failed = next(s, Input::PrepareFailed);
            &&& failed.stage == Stage::Stopping
            &&& failed.outcome == PomoStatus::Paused
            &&& failed.terminal_failed
        },
{
}

/// The rounds in which the clock's reports arrive one by one, with nothing
/// from the watcher.
pub open spec fn rounds(ticks: Seq<u64>) -> Seq<Input>
    decreases ticks.len(),
{
    if ticks.len() == 0 {
        Seq::empty()
    } else {
        tick_round(ticks.first()) + rounds(ticks.drop_first())
    }
}

proof fn lemma_countdown_is_rounds(from: u64)
    ensures
        countdown(from) == rounds(descending(from)),
    decreases from,
{
    if from > 0 {
        let left = (from - 1) as u64;
        lemma_countdown_is_rounds(left);
        let ticks = descending(from);
        assert(ticks.drop_first() =~= descending(left));
    }
}

proof fn lemma_rounds_concat(a: Seq<u64>, b: Seq<u64>)
    ensures
        rounds(a + b) == rounds(a) + rounds(b),
    decreases a.len(),
{
    if a.len() > 0 {
        assert((a + b).drop_first() =~= a.drop_first() + b);
        lemma_rounds_concat(a.drop_first(), b);
        assert(tick_round(a.first()) + (rounds(a.drop_first()) + rounds(b)) =~= (tick_round(
            a.first(),
        ) + rounds(a.drop_first())) + rounds(b));
    }
}

proof fn lemma_late_round_is_ignored(s: CoordinatorModel, left: u64)
    requires
        s.stage == Stage::Stopping,
    ensures
        run(s, rounds(seq![left])) == s,
{
    let b = Input::Clock(ClockPoll::Tick(left));
    let c = Input::Drawn(true);
    assert(seq![left].drop_first() =~= Seq::<u64>::empty());
    assert(rounds(Seq::<u64>::empty()) =~= Seq::<Input>::empty());
    assert(tick_round(left).drop_first() =~= seq![b, c]);
    assert(seq![b, c].drop_first() =~= seq![c]);
    assert(seq![c].drop_first() =~= Seq::<Input>::empty());
    assert(run(s, Seq::<Input>::empty()) == s);
    assert(run(s, seq![c]) == s);
    assert(run(s, seq![b, c]) == s);
}

/// Countdown termination, clock and loop together: a session of a positive
/// number of seconds whose loop is fed exactly what an undisturbed clock of
/// that many seconds reports, with no quit request and no failure of the
/// terminal, ends by asking to persist the status `Finished`. The clock's
/// second report of zero arrives after the decision and changes nothing.
pub proof fn law_clock_drives_session_to_finish(
    title: Seq<char>,
    seconds: u64,
    width: u16,
    height: u16,
)
    requires
        seconds > 0,
    ensures
        ({
            let clock = Clock { stage: ClockStage::Checking(0), remaining: seconds };
            let ticks = clock_reports(clock, quiet_seconds(seconds as nat));
            let end = run(
                initial(title, seconds),
                opening(width, height) + rounds(ticks) + closing(),
            );
            &&& ticks == descending(seconds) + seq![0u64]
            &&& end.stage == Stage::Done
            &&& action_of(end) == Action::Finalize(PomoStatus::Finished)
            &&& end.remaining == 0
        }),
{
    let clock = Clock { stage: ClockStage::Checking(0), remaining: seconds };
    crate::clock::law_clock_reports_countdown(clock, seconds);
    let ticks = descending(seconds) + seq![0u64];
    let start = initial(title, seconds);
    let opened = run(start, opening(width, height));
    lemma_opening(title, seconds, width, height);
    law_countdown_finishes(opened, seconds);
    lemma_countdown_is_rounds(seconds);
    lemma_rounds_concat(descending(seconds), seq![0u64]);
    let decided = run(opened, countdown(seconds));
    lemma_late_round_is_ignored(decided, 0);
    lemma_run_concat(opened, countdown(seconds), rounds(seq![0u64]));
    lemma_closing(decided);
    lemma_run_concat(start, opening(width, height), rounds(ticks));
    lemma_run_concat(start, opening(width, height) + rounds(ticks), closing());
}

} // verus!
