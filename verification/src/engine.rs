//! The duty-cycle engine: a state machine that alternates the line's state
//! and says, one action at a time, what has to happen next.
//!
//! One iteration is three actions in a fixed order: reflect the current state
//! on the line, draw a dwell sample for that state, sleep for the clamped
//! sample. The engine performs none of them. Its caller performs the pending
//! action and reports it with the matching event; the engine then moves on.
//! After the sleep the state is replaced by its complement and the next
//! iteration begins. There is no final state.

use vstd::prelude::*;
use core::ops::Not;
use crate::dwell::{clamp, clamp_millis, dwell_parameters, parameters_of, DwellParameters};
use crate::state::{Level, State};

verus! {

/// Where the engine stands within an iteration: the action it waits for.
#[derive(Clone, Copy, Debug, PartialEq, Eq, Structural)]
pub enum Phase {
    /// The current state has yet to be reflected on the line.
    Reflect,
    /// The state is on the line; a dwell sample has yet to be drawn.
    Sample,
    /// The dwell is known and has yet to elapse.
    Dwell { millis: u64 },
}

/// What the caller has to do next.
#[derive(Clone, Copy, Debug, PartialEq, Eq, Structural)]
pub enum Action {
    /// Drive the line to `level` and show the status text of `state`.
    Reflect { state: State, level: Level },
    /// Draw one sample from the normal distribution with these parameters
    /// and round it to whole milliseconds.
    Sample { parameters: DwellParameters },
    /// Suspend for this many milliseconds.
    Sleep { millis: u64 },
}

/// What the caller reports back.
#[derive(Clone, Copy, Debug, PartialEq, Eq, Structural)]
pub enum Event {
    /// The line has been driven.
    Reflected,
    /// A sample has been drawn; it may be negative.
    Sampled { raw_millis: i64 },
    /// The sleep has run to its end.
    Slept,
}

/// The engine: the current state and the phase of the current iteration.
#[derive(Clone, Copy, Debug, PartialEq, Eq, Structural)]
pub struct Engine {
    pub state: State,
    pub phase: Phase,
}

impl Engine {
    /// The engine at the start of an iteration in state `initial`.
    pub open spec fn start(initial: State) -> Engine {
        Engine { state: initial, phase: Phase::Reflect }
    }

    /// The action that the engine waits for.
    pub open spec fn pending(self) -> Action {
        match self.phase {
            Phase::Reflect => Action::Reflect { state: self.state, level: self.state.level_spec() },
            Phase::Sample => Action::Sample { parameters: parameters_of(self.state) },
            Phase::Dwell { millis } => Action::Sleep { millis },
        }
    }

    /// Whether `event` reports the pending action.
    pub open spec fn accepts(self, event: Event) -> bool {
        match (self.phase, event) {
            (Phase::Reflect, Event::Reflected) => true,
            (Phase::Sample, Event::Sampled { .. }) => true,
            (Phase::Dwell { .. }, Event::Slept) => true,
            _ => false,
        }
    }

    /// The engine after `event`. An event that does not report the pending
    /// action leaves the engine as it is.
    pub open spec fn after(self, event: Event) -> Engine {
        match (self.phase, event) {
            (Phase::Reflect, Event::Reflected) => Engine { state: self.state, phase: Phase::Sample },
            (Phase::Sample, Event::Sampled { raw_millis }) => Engine {
                state: self.state,
                phase: Phase::Dwell { millis: clamp(raw_millis as int) as u64 },
            },
            (Phase::Dwell { .. }, Event::Slept) => Engine::start(self.state.complement()),
            _ => self,
        }
    }

    /// The engine after a sequence of events, taken in order.
    pub open spec fn run(self, events: Seq<Event>) -> Engine
        decreases events.len(),
    {
        if events.len() == 0 {
            self
        } else {
            self.run(events.drop_last()).after(events.last())
        }
    }

    /// The actions that were pending before each of `events`, in order.
    pub open spec fn trace(self, events: Seq<Event>) -> Seq<Action>
        decreases events.len(),
    {
        if events.len() == 0 {
            Seq::empty()
        } else {
            self.trace(events.drop_last()).push(self.run(events.drop_last()).pending())
        }
    }

    /// An engine about to begin its first iteration in state `initial`.
    pub fn new(initial: State) -> (engine: Engine)
        ensures
            engine == Engine::start(initial),
    {
        Engine { state: initial, phase: Phase::Reflect }
    }

    /// The action to perform now.
    pub fn action(&self) -> (action: Action)
        ensures
            action == self.pending(),
    {
        match self.phase {
            Phase::Reflect => Action::Reflect { state: self.state, level: self.state.level() },
            Phase::Sample => Action::Sample { parameters: dwell_parameters(self.state) },
            Phase::Dwell { millis } => Action::Sleep { millis },
        }
    }

    /// Takes the report of a performed action and moves on. Returns the next
    /// action, or `None`, with the engine unchanged, when `event` does not
    /// report the action that was pending.
    pub fn step(&mut self, event: Event) -> (next: Option<Action>)
        ensures
            *final(self) == old(self).after(event),
            old(self).accepts(event) ==> next == Some(final(self).pending()),
            !old(self).accepts(event) ==> next.is_none() && *final(self) == *old(self),
    {
        match (self.phase, event) {
            (Phase::Reflect, Event::Reflected) => {
                self.phase = Phase::Sample;
            },
            (Phase::Sample, Event::Sampled { raw_millis }) => {
                self.phase = Phase::Dwell { millis: clamp_millis(raw_millis) };
            },
            (Phase::Dwell { .. }, Event::Slept) => {
                self.state = self.state.not();
                self.phase = Phase::Reflect;
            },
            _ => {
                return None;
            },
        }
        Some(self.action())
    }
}

} // verus!
