//! The states of one call and the rule that leads from one to the next.

use crate::outcome::{Failure, Outcome};
use vstd::prelude::*;

verus! {

/// Where a call stands. A state that is not `Done` names the action that its
/// driver has to perform next.
#[derive(Debug, PartialEq, Eq)]
pub enum State {
    /// The host's strings are to be decoded.
    Decoding,
    /// The engine is to typeset `latex`.
    Compiling { latex: String, destination: String },
    /// `bytes` are to replace the content of the file at `destination`.
    Writing { destination: String, bytes: Vec<u8> },
    /// The call is over.
    Done(Outcome),
}

/// What the driver reports after an action.
#[derive(Debug, PartialEq, Eq)]
pub enum Event {
    /// The two decoded strings, each `None` where it could not be decoded.
    Decoded { latex: Option<String>, destination: Option<String> },
    /// The engine's answer: the document, or nothing where it gave up.
    Compiled(Option<Vec<u8>>),
    /// Whether the file was created and written to the end.
    Written(bool),
    /// The action ended abnormally.
    Fault,
}

/// A state as a mathematical value.
pub enum StateView {
    Decoding,
    Compiling { latex: Seq<char>, destination: Seq<char> },
    Writing { destination: Seq<char>, bytes: Seq<u8> },
    Done(Outcome),
}

/// An event as a mathematical value.
pub enum EventView {
    Decoded { latex: Option<Seq<char>>, destination: Option<Seq<char>> },
    Compiled(Option<Seq<u8>>),
    Written(bool),
    Fault,
}

impl View for State {
    type V = StateView;

    open spec fn view(&self) -> StateView {
        match *self {
            State::Decoding => StateView::Decoding,
            State::Compiling { latex, destination } => StateView::Compiling {
                latex: latex@,
                destination: destination@,
            },
            State::Writing { destination, bytes } => StateView::Writing {
                destination: destination@,
                bytes: bytes@,
            },
            State::Done(outcome) => StateView::Done(outcome),
        }
    }
}

impl View for Event {
    type V = EventView;

    open spec fn view(&self) -> EventView {
        match *self {
            Event::Decoded { latex, destination } => EventView::Decoded {
                latex: latex.deep_view(),
                destination: destination.deep_view(),
            },
            Event::Compiled(Some(bytes)) => EventView::Compiled(Some(bytes@)),
            Event::Compiled(None) => EventView::Compiled(None),
            Event::Written(complete) => EventView::Written(complete),
            Event::Fault => EventView::Fault,
        }
    }
}

/// The state that follows `state` on `event`.
///
/// Each action hands its result on unchanged: the decoded source goes to the
/// engine and the engine's document to the destination. An action that
/// reports failure ends the call with the failure of its step. A fault, or a
/// report that does not answer the pending action, ends it with
/// `Failure::Internal`. A call that is over stays as it is.
pub open spec fn next_state(state: StateView, event: EventView) -> StateView {
    match (state, event) {
        (StateView::Done(outcome), _) => StateView::Done(outcome),
        (
            StateView::Decoding,
            EventView::Decoded { latex: Some(latex), destination: Some(destination) },
        ) => StateView::Compiling { latex, destination },
        (StateView::Decoding, EventView::Decoded { .. }) => StateView::Done(
            Outcome::Failed(Failure::Decoding),
        ),
        (StateView::Compiling { latex, destination }, EventView::Compiled(Some(bytes))) => {
            StateView::Writing { destination, bytes }
        },
        (StateView::Compiling { .. }, EventView::Compiled(None)) => StateView::Done(
            Outcome::Failed(Failure::Compilation),
        ),
        (StateView::Writing { .. }, EventView::Written(true)) => StateView::Done(
            Outcome::Succeeded,
        ),
        (StateView::Writing { .. }, EventView::Written(false)) => StateView::Done(
            Outcome::Failed(Failure::Io),
        ),
        _ => StateView::Done(Outcome::Failed(Failure::Internal)),
    }
}

/// The most actions that a call in `state` can still ask for.
pub open spec fn actions_left(state: StateView) -> nat {
    match state {
        StateView::Decoding => 3,
        StateView::Compiling { .. } => 2,
        StateView::Writing { .. } => 1,
        StateView::Done(_) => 0,
    }
}

/// The state reached from `state` when `events` are reported in order.
pub open spec fn run(state: StateView, events: Seq<EventView>) -> StateView
    decreases events.len(),
{
    if events.len() == 0 {
        state
    } else {
        next_state(run(state, events.drop_last()), events.last())
    }
}

impl State {
    /// The state in which every call starts.
    pub fn new() -> (state: State)
        ensures
            state@ == StateView::Decoding,
    {
        State::Decoding
    }

    /// Takes the report of the action that `self` asked for and gives the
    /// state that follows. Unless the call was over already, it is one action
    /// closer to its end.
    pub fn step(self, event: Event) -> (next: State)
        ensures
            next@ == next_state(self@, event@),
            self@ is Done || actions_left(next@) < actions_left(self@),
    {
        match (self, event) {
            (State::Done(outcome), _) => State::Done(outcome),
            (
                State::Decoding,
                Event::Decoded { latex: Some(latex), destination: Some(destination) },
            ) => State::Compiling { latex, destination },
            (State::Decoding, Event::Decoded { .. }) => State::Done(
                Outcome::Failed(Failure::Decoding),
            ),
            (State::Compiling { latex: _, destination }, Event::Compiled(Some(bytes))) => {
                State::Writing { destination, bytes }
            },
            (State::Compiling { .. }, Event::Compiled(None)) => State::Done(
                Outcome::Failed(Failure::Compilation),
            ),
            (State::Writing { .. }, Event::Written(true)) => State::Done(Outcome::Succeeded),
            (State::Writing { .. }, Event::Written(false)) => State::Done(
                Outcome::Failed(Failure::Io),
            ),
            _ => State::Done(Outcome::Failed(Failure::Internal)),
        }
    }

    /// The outcome, once the call is over.
    pub fn outcome(&self) -> (outcome: Option<Outcome>)
        ensures
            outcome == match self@ {
                StateView::Done(outcome) => Some(outcome),
                _ => None,
            },
    {
        match self {
            State::Done(outcome) => Some(*outcome),
            _ => None,
        }
    }
}

} // verus!
