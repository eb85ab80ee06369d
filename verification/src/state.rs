//! The two-valued state of the output line and the level that reflects it.

use vstd::prelude::*;
use vstd::std_specs::convert::FromSpecImpl;
use vstd::std_specs::ops::NotSpecImpl;

verus! {

/// The state of the duty cycle: the line is either on or off.
#[derive(Clone, Copy, Debug, PartialEq, Eq, Structural)]
pub enum State {
    On,
    Off,
}

/// The logic level of the output line.
#[derive(Clone, Copy, Debug, PartialEq, Eq, Structural)]
pub enum Level {
    High,
    Low,
}

impl State {
    /// The other state.
    pub open spec fn complement(self) -> State {
        match self {
            State::On => State::Off,
            State::Off => State::On,
        }
    }

    /// The state that a boolean stands for: `true` is `On`.
    pub open spec fn of_bool(b: bool) -> State {
        if b {
            State::On
        } else {
            State::Off
        }
    }

    /// The level that reflects this state on the line.
    pub open spec fn level_spec(self) -> Level {
        match self {
            State::On => Level::High,
            State::Off => Level::Low,
        }
    }

    /// The text shown for this state, as a sequence of characters.
    pub open spec fn marker_spec(self) -> Seq<char> {
        match self {
            State::On => seq!['O', 'n'],
            State::Off => seq!['O', 'f', 'f'],
        }
    }

    /// The level to drive the line to: high for `On`, low for `Off`.
    pub fn level(self) -> (level: Level)
        ensures
            level == self.level_spec(),
    {
        match self {
            State::On => Level::High,
            State::Off => Level::Low,
        }
    }

    /// The status text for this state: `"On"` or `"Off"`.
    pub fn marker(self) -> (text: &'static str)
        ensures
            text@ == self.marker_spec(),
    {
        match self {
            State::On => {
                proof {
                    reveal_strlit("On");
                }
                assert("On"@ =~= seq!['O', 'n']);
                "On"
            },
            State::Off => {
                proof {
                    reveal_strlit("Off");
                }
                assert("Off"@ =~= seq!['O', 'f', 'f']);
                "Off"
            },
        }
    }
}

impl core::ops::Not for State {
    type Output = State;

    /// `!state` is the complement.
    fn not(self) -> (flipped: State) {
        match self {
            State::On => State::Off,
            State::Off => State::On,
        }
    }
}

impl NotSpecImpl for State {
    open spec fn obeys_not_spec() -> bool {
        true
    }

    open spec fn not_req(self) -> bool {
        true
    }

    open spec fn not_spec(self) -> State {
        self.complement()
    }
}

impl From<bool> for State {
    /// `true` becomes `On`, `false` becomes `Off`.
    fn from(b: bool) -> (state: State) {
        if b {
            State::On
        } else {
            State::Off
        }
    }
}

impl FromSpecImpl<bool> for State {
    open spec fn obeys_from_spec() -> bool {
        true
    }

    open spec fn from_spec(b: bool) -> State {
        State::of_bool(b)
    }
}

/// Complementing twice gives the state back, and the two states are each
/// other's complement.
pub proof fn lemma_complement_involution(s: State)
    ensures
        s.complement().complement() == s,
        s.complement() != s,
        State::On.complement() == State::Off,
        State::Off.complement() == State::On,
{
}

/// A boolean and the state made from it agree: `true` gives `On`, `false`
/// gives `Off`, and flipping the boolean flips the state.
pub proof fn lemma_of_bool(b: bool)
    ensures
        State::of_bool(true) == State::On,
        State::of_bool(false) == State::Off,
        State::of_bool(!b) == State::of_bool(b).complement(),
        (State::of_bool(b) == State::On) == b,
{
}

} // verus!
