//! One-time setup: the outcome of acquiring the output line decides whether
//! an engine comes into being at all.

use vstd::prelude::*;
use crate::engine::Engine;
use crate::state::State;

verus! {

/// Whether the first iteration begins in the `On` state.
pub const START_ON: bool = true;

/// The number of the pin that carries the output line.
pub const OUTPUT_PIN: u8 = 4;

/// Why the output line could not be acquired.
#[derive(Clone, Copy, Debug, PartialEq, Eq, Structural)]
pub enum AcquisitionError {
    /// The controller that owns the pins could not be reached or identified.
    ControllerUnavailable,
    /// The pin is in use elsewhere or is not exposed.
    PinNotAvailable { pin: u8 },
    /// Access to the controller was denied.
    PermissionDenied,
    /// The controller has no pin of this number.
    PinOutOfRange { pin: u8 },
}

/// A failed start. Every cause is equally fatal: there is no retry and no
/// engine.
#[derive(Clone, Copy, Debug, PartialEq, Eq, Structural)]
pub struct Fatal {
    pub cause: AcquisitionError,
}

impl Fatal {
    /// The diagnostic shown for a failed start, whatever its cause.
    pub open spec fn message_spec() -> Seq<char> {
        "Pin not available."@
    }

    /// The diagnostic to show before giving up.
    pub fn message(&self) -> (text: &'static str)
        ensures
            text@ == Fatal::message_spec(),
    {
        "Pin not available."
    }
}

/// The state in which the first iteration begins.
pub fn initial_state() -> (state: State)
    ensures
        state == State::of_bool(START_ON),
        state == State::On,
{
    State::from(START_ON)
}

/// Starts the engine on an acquired output line, or refuses to.
///
/// Given the line, returns it together with an engine at the start of its
/// first iteration in the initial state. Given an acquisition error, returns
/// that error as fatal and no engine, so that no iteration can follow.
pub fn bootstrap<P>(acquired: Result<P, AcquisitionError>) -> (started: Result<(P, Engine), Fatal>)
    ensures
        acquired.is_ok() <==> started.is_ok(),
        acquired matches Ok(line) ==> started == Ok::<(P, Engine), Fatal>(
            (line, Engine::start(State::On)),
        ),
        acquired matches Err(cause) ==> started == Err::<(P, Engine), Fatal>(Fatal { cause }),
{
    match acquired {
        Ok(line) => Ok((line, Engine::new(initial_state()))),
        Err(cause) => Err(Fatal { cause }),
    }
}

} // verus!
