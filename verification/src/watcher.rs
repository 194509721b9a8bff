//! The terminal watcher, as a state machine.
//!
//! The watcher polls the terminal with a bounded wait and looks for a stop
//! signal before each poll. It reports a quit keystroke or a failed read as
//! one `Quit` event and then leaves; it reports a resize and goes on. The
//! driver reads the terminal and the stop channel and sends the reports.

use vstd::prelude::*;
use crate::models::PomodoroEvent;

verus! {

/// The longest that one poll of the terminal waits, in milliseconds.
pub const POLL_WAIT_MS: u64 = 200;

/// What one poll of the terminal gave, as the watcher reads it.
#[derive(Debug, Clone, Copy, PartialEq, Eq, Structural)]
pub enum TerminalInput {
    /// Nothing arrived within the wait.
    Nothing,
    /// A character key; `control` says that the control key, and no other
    /// modifier, was held with it.
    Key { ch: char, control: bool },
    /// The terminal has a new width and height.
    Resize(u16, u16),
    /// Reading the terminal failed.
    ReadError,
    /// Anything else: another key, the mouse, a paste.
    Other,
}

/// Where the watcher stands.
#[derive(Debug, Clone, Copy, PartialEq, Eq, Structural)]
pub enum WatcherStage {
    Checking,
    Polling,
    ReportingQuit,
    ReportingResize(u16, u16),
    Exited,
}

/// The result of an action, handed back to the watcher.
#[derive(Debug, Clone, Copy, PartialEq, Eq, Structural)]
pub enum WatcherInput {
    /// Whether a stop signal was waiting.
    Stop(bool),
    Polled(TerminalInput),
    /// Whether the report was taken; it is not when nobody reads any more.
    Sent(bool),
}

/// What the watcher asks its driver to do next.
#[derive(Debug, Clone, Copy, PartialEq, Eq, Structural)]
pub enum WatcherAction {
    /// Look for a stop signal without blocking.
    CheckStop,
    /// Wait up to `POLL_WAIT_MS` for the terminal, and read what arrived.
    Poll,
    Report(PomodoroEvent),
    Exit,
}

/// The watcher: only its stage.
#[derive(Debug, Clone, Copy, PartialEq, Eq, Structural)]
pub struct Watcher {
    pub stage: WatcherStage,
}

/// Whether a key asks to quit: the letter q, or c together with control.
pub open spec fn is_quit_key(ch: char, control: bool) -> bool {
    ch == 'q' || (ch == 'c' && control)
}

/// The event that a terminal input is reported as, if any.
pub open spec fn event_of(input: TerminalInput) -> Option<PomodoroEvent> {
    match input {
        TerminalInput::Key { ch, control } => if is_quit_key(ch, control) {
            Some(PomodoroEvent::Quit)
        } else {
            None
        },
        TerminalInput::Resize(w, h) => Some(PomodoroEvent::Resize(w, h)),
        TerminalInput::ReadError => Some(PomodoroEvent::Quit),
        TerminalInput::Nothing | TerminalInput::Other => None,
    }
}

/// The action that a watcher waits on.
pub open spec fn watcher_action(w: Watcher) -> WatcherAction {
    match w.stage {
        WatcherStage::Checking => WatcherAction::CheckStop,
        WatcherStage::Polling => WatcherAction::Poll,
        WatcherStage::ReportingQuit => WatcherAction::Report(PomodoroEvent::Quit),
        WatcherStage::ReportingResize(width, height) => WatcherAction::Report(
            PomodoroEvent::Resize(width, height),
        ),
        WatcherStage::Exited => WatcherAction::Exit,
    }
}

/// The transition function of the watcher. An input that does not answer the
/// pending action changes nothing.
pub open spec fn watcher_next(w: Watcher, input: WatcherInput) -> Watcher {
    match (w.stage, input) {
        (WatcherStage::Checking, WatcherInput::Stop(stop)) => Watcher {
            stage: if stop {
                WatcherStage::Exited
            } else {
                WatcherStage::Polling
            },
        },
        (WatcherStage::Polling, WatcherInput::Polled(seen)) => Watcher {
            stage: match event_of(seen) {
                Some(PomodoroEvent::Quit) => WatcherStage::ReportingQuit,
                Some(PomodoroEvent::Resize(width, height)) => WatcherStage::ReportingResize(
                    width,
                    height,
                ),
                None => WatcherStage::Checking,
            },
        },
        (WatcherStage::ReportingQuit, WatcherInput::Sent(_)) => Watcher { stage: WatcherStage::Exited },
        (WatcherStage::ReportingResize(_, _), WatcherInput::Sent(taken)) => Watcher {
            stage: if taken {
                WatcherStage::Checking
            } else {
                WatcherStage::Exited
            },
        },
        _ => w,
    }
}

/// Reads a terminal input as an event for the control loop.
pub fn classify(input: TerminalInput) -> (event: Option<PomodoroEvent>)
    ensures
        event == event_of(input),
{
    match input {
        TerminalInput::Key { ch, control } => {
            if ch == 'q' || (ch == 'c' && control) {
                Some(PomodoroEvent::Quit)
            } else {
                None
            }
        },
        TerminalInput::Resize(w, h) => Some(PomodoroEvent::Resize(w, h)),
        TerminalInput::ReadError => Some(PomodoroEvent::Quit),
        TerminalInput::Nothing => None,
        TerminalInput::Other => None,
    }
}

impl Watcher {
    /// A watcher that is about to look for a stop signal.
    pub fn new() -> (w: Watcher)
        ensures
            w == (Watcher { stage: WatcherStage::Checking }),
    {
        Watcher { stage: WatcherStage::Checking }
    }

    /// The action that the watcher is waiting on.
    pub fn pending(&self) -> (action: WatcherAction)
        ensures
            action == watcher_action(*self),
    {
        match self.stage {
            WatcherStage::Checking => WatcherAction::CheckStop,
            WatcherStage::Polling => WatcherAction::Poll,
            WatcherStage::ReportingQuit => WatcherAction::Report(PomodoroEvent::Quit),
            WatcherStage::ReportingResize(width, height) => WatcherAction::Report(
                PomodoroEvent::Resize(width, height),
            ),
            WatcherStage::Exited => WatcherAction::Exit,
        }
    }

    /// Takes the result of the pending action and answers with the next one.
    pub fn step(&mut self, input: WatcherInput) -> (action: WatcherAction)
        ensures
            *final(self) == watcher_next(*old(self), input),
            action == watcher_action(*final(self)),
    {
        match (self.stage, input) {
            (WatcherStage::Checking, WatcherInput::Stop(stop)) => {
                if stop {
                    self.stage = WatcherStage::Exited;
                } else {
                    self.stage = WatcherStage::Polling;
                }
            },
            (WatcherStage::Polling, WatcherInput::Polled(seen)) => {
                match classify(seen) {
                    Some(PomodoroEvent::Quit) => {
                        self.stage = WatcherStage::ReportingQuit;
                    },
                    Some(PomodoroEvent::Resize(width, height)) => {
                        self.stage = WatcherStage::ReportingResize(width, height);
                    },
                    None => {
                        self.stage = WatcherStage::Checking;
                    },
                }
            },
            (WatcherStage::ReportingQuit, WatcherInput::Sent(_)) => {
                self.stage = WatcherStage::Exited;
            },
            (WatcherStage::ReportingResize(_, _), WatcherInput::Sent(taken)) => {
                if taken {
                    self.stage = WatcherStage::Checking;
                } else {
                    self.stage = WatcherStage::Exited;
                }
            },
            _ => {},
        }
        self.pending()
    }
}

/// Quit is final for the watcher: a quit keystroke, or a failed read, is
/// reported as one `Quit` event, and whether or not the report is taken the
/// watcher then leaves without another poll.
pub proof fn law_quit_ends_watcher(w: Watcher, seen: TerminalInput, taken: bool)
    requires
        w.stage == WatcherStage::Polling,
        seen == TerminalInput::ReadError || (seen matches TerminalInput::Key { ch, control }
            && is_quit_key(ch, control)),
    ensures
        watcher_action(watcher_next(w, WatcherInput::Polled(seen))) == WatcherAction::Report(
            PomodoroEvent::Quit,
        ),
        watcher_next(watcher_next(w, WatcherInput::Polled(seen)), WatcherInput::Sent(taken)).stage
            == WatcherStage::Exited,
{
}

/// A resize is reported with its new dimensions, and the watcher goes on to
/// the next stop check as long as the report is taken.
pub proof fn law_resize_keeps_watching(w: Watcher, width: u16, height: u16)
    requires
        w.stage == WatcherStage::Polling,
    ensures
        ({
            let reporting = watcher_next(w, WatcherInput::Polled(TerminalInput::Resize(width, height)));
            &&& watcher_action(reporting) == WatcherAction::Report(
                PomodoroEvent::Resize(width, height),
            )
            &&& watcher_next(reporting, WatcherInput::Sent(true)).stage == WatcherStage::Checking
            &&& watcher_next(reporting, WatcherInput::Sent(false)).stage == WatcherStage::Exited
        }),
{
}

/// The watcher looks for a stop signal before every poll, and a stop signal
/// ends it at once.
pub proof fn law_stop_checked_each_poll(w: Watcher, input: WatcherInput)
    ensures
        w.stage == WatcherStage::Checking ==> watcher_next(w, WatcherInput::Stop(true)).stage
            == WatcherStage::Exited,
        watcher_next(w, input).stage == WatcherStage::Polling && w.stage != WatcherStage::Polling
            ==> w.stage == WatcherStage::Checking && input == WatcherInput::Stop(false),
{
}

} // verus!
