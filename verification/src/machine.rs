//! The lifecycle as a state machine: from the state and the answer to the
//! last firmware call to the next state and the next call.
//!
//! The driver performs each [`Action`], reports what came back as an
//! [`Event`], and stops at [`Action::Exit`] or [`Action::Halt`].

use crate::console::{KeyPoll, Line};
use crate::status::{success, SUCCESS};
use vstd::prelude::*;

verus! {

/// Time to stall after a poll that found no key: ten milliseconds, in
/// microseconds.
pub const STALL_MICROSECONDS: usize = 10_000;

/// Where the application stands. Every state but the last two waits for the
/// answer to one firmware call.
#[derive(Clone, Copy, Debug, PartialEq, Eq, Structural)]
pub enum State {
    /// The console reset was requested.
    Resetting,
    /// The given line was handed to the console.
    Writing(Line),
    /// The keyboard was queried.
    Polling,
    /// The processor was told to stall.
    Stalling,
    /// A key was seen and the status was handed back.
    Exited,
    /// The console failed or answered out of turn; the application idles for
    /// good and hands back nothing.
    Halted,
}

/// What a firmware call brought back.
#[derive(Clone, Copy, Debug, PartialEq, Eq, Structural)]
pub enum Event {
    /// The console reset returned; `ok` tells whether it succeeded.
    ResetDone { ok: bool },
    /// The write of a line returned; `ok` tells whether it succeeded.
    LineWritten { ok: bool },
    /// The keyboard query returned.
    KeyPolled { poll: KeyPoll },
    /// The stall is over.
    StallDone,
}

/// What the driver has to do next.
#[derive(Clone, Copy, Debug, PartialEq, Eq, Structural)]
pub enum Action {
    /// Reset the text output, with or without the extended verification.
    ResetConsole { extended: bool },
    /// Write the line and its terminator, as one write.
    WriteLine { line: Line },
    /// Query the keyboard for a buffered key, without blocking.
    PollKey,
    /// Stall the processor for the given time.
    Stall { microseconds: usize },
    /// Return to the boot environment with the given status code.
    Exit { status: usize },
    /// Enter the permanent idle loop; never return.
    Halt,
}

impl State {
    /// No step leaves a terminal state.
    pub open spec fn is_terminal(self) -> bool {
        self is Exited || self is Halted
    }

    /// The action that leads into the state: the call whose answer the state
    /// waits for, or the way the application ended.
    pub open spec fn pending(self) -> Action {
        match self {
            State::Resetting => Action::ResetConsole { extended: false },
            State::Writing(line) => Action::WriteLine { line },
            State::Polling => Action::PollKey,
            State::Stalling => Action::Stall { microseconds: STALL_MICROSECONDS },
            State::Exited => Action::Exit { status: SUCCESS },
            State::Halted => Action::Halt,
        }
    }
}

/// State and first action of a fresh application.
pub open spec fn start_spec() -> (State, Action) {
    (State::Resetting, Action::ResetConsole { extended: false })
}

/// The transition relation, as a function.
///
/// * The result of the console reset is not looked at: the greeting follows
///   in either case.
/// * A line that was written is followed by the next line, the last line by
///   the first keyboard query. A line that could not be written halts.
/// * A query that found a key exits with success, whichever key it is. One
///   that found none stalls, and the stall is followed by the next query. One
///   that failed halts.
/// * An event that does not answer the call the state waits for is a fault
///   and halts.
/// * A terminal state takes no step.
pub open spec fn step_spec(state: State, event: Event) -> Option<(State, Action)> {
    match state {
        State::Exited | State::Halted => None,
        State::Resetting => match event {
            Event::ResetDone { .. } => Some(enter(State::Writing(Line::Greeting))),
            _ => Some(enter(State::Halted)),
        },
        State::Writing(line) => match event {
            Event::LineWritten { ok: true } => match line.successor_spec() {
                Some(next) => Some(enter(State::Writing(next))),
                None => Some(enter(State::Polling)),
            },
            _ => Some(enter(State::Halted)),
        },
        State::Polling => match event {
            Event::KeyPolled { poll: KeyPoll::Pressed(_) } => Some(enter(State::Exited)),
            Event::KeyPolled { poll: KeyPoll::Empty } => Some(enter(State::Stalling)),
            _ => Some(enter(State::Halted)),
        },
        State::Stalling => match event {
            Event::StallDone => Some(enter(State::Polling)),
            _ => Some(enter(State::Halted)),
        },
    }
}

/// A state together with the action that leads into it.
pub open spec fn enter(state: State) -> (State, Action) {
    (state, state.pending())
}

/// Starts the application: the console is to be reset, without the extended
/// verification.
pub fn start() -> (first: (State, Action))
    ensures
        first == start_spec(),
{
    (State::Resetting, Action::ResetConsole { extended: false })
}

/// Takes one step: given the state and the answer to the call it waits for,
/// returns the next state and the next action, or `None` if the state is
/// terminal.
pub fn step(state: State, event: Event) -> (next: Option<(State, Action)>)
    ensures
        next == step_spec(state, event),
{
    match state {
        State::Exited | State::Halted => None,
        State::Resetting => match event {
            Event::ResetDone { .. } => Some(write(Line::Greeting)),
            _ => Some(halt()),
        },
        State::Writing(line) => match event {
            Event::LineWritten { ok: true } => match line.successor() {
                Some(next) => Some(write(next)),
                None => Some(poll()),
            },
            _ => Some(halt()),
        },
        State::Polling => match event {
            Event::KeyPolled { poll: KeyPoll::Pressed(_) } => Some(
                (State::Exited, Action::Exit { status: success() }),
            ),
            Event::KeyPolled { poll: KeyPoll::Empty } => Some(
                (State::Stalling, Action::Stall { microseconds: STALL_MICROSECONDS }),
            ),
            _ => Some(halt()),
        },
        State::Stalling => match event {
            Event::StallDone => Some(poll()),
            _ => Some(halt()),
        },
    }
}

fn write(line: Line) -> (next: (State, Action))
    ensures
        next == enter(State::Writing(line)),
{
    (State::Writing(line), Action::WriteLine { line })
}

fn poll() -> (next: (State, Action))
    ensures
        next == enter(State::Polling),
{
    (State::Polling, Action::PollKey)
}

fn halt() -> (next: (State, Action))
    ensures
        next == enter(State::Halted),
{
    (State::Halted, Action::Halt)
}

} // verus!
