//! Dwell times: the distribution that each state draws from, and the clamp
//! that turns a raw sample into a duration.
//!
//! All times are whole milliseconds. Drawing the sample itself is left to the
//! caller; this module fixes which distribution is asked for and what becomes
//! of the value that comes back.

use vstd::prelude::*;
use crate::state::State;

verus! {

/// Mean dwell time in the `Off` state, in milliseconds.
pub const OFF_TIME_MEAN: u32 = 15000;

/// Standard deviation of the dwell time in the `Off` state, in milliseconds.
pub const OFF_TIME_STD_DEV: u32 = 3000;

/// Mean dwell time in the `On` state, in milliseconds.
pub const ON_TIME_MEAN: u32 = 10000;

/// Standard deviation of the dwell time in the `On` state, in milliseconds.
pub const ON_TIME_STD_DEV: u32 = 1000;

/// Mean and standard deviation of a normal distribution of dwell times, in
/// milliseconds. Both are unsigned, so the deviation is never negative; a
/// deviation of zero makes every dwell equal to the mean.
#[derive(Clone, Copy, Debug, PartialEq, Eq, Structural)]
pub struct DwellParameters {
    pub mean: u32,
    pub std_dev: u32,
}

/// The distribution that a state's dwell time is drawn from.
pub open spec fn parameters_of(state: State) -> DwellParameters {
    match state {
        State::Off => DwellParameters { mean: 15000, std_dev: 3000 },
        State::On => DwellParameters { mean: 10000, std_dev: 1000 },
    }
}

/// A raw sample with everything below zero raised to zero.
pub open spec fn clamp(raw: int) -> nat {
    if raw > 0 {
        raw as nat
    } else {
        0
    }
}

/// Selects the distribution for the dwell in `state`: `Off` dwells around
/// 15000 ms with deviation 3000 ms, `On` around 10000 ms with deviation
/// 1000 ms.
pub fn dwell_parameters(state: State) -> (parameters: DwellParameters)
    ensures
        parameters == parameters_of(state),
        state == State::Off ==> parameters.mean == 15000 && parameters.std_dev == 3000,
        state == State::On ==> parameters.mean == 10000 && parameters.std_dev == 1000,
{
    match state {
        State::Off => DwellParameters { mean: OFF_TIME_MEAN, std_dev: OFF_TIME_STD_DEV },
        State::On => DwellParameters { mean: ON_TIME_MEAN, std_dev: ON_TIME_STD_DEV },
    }
}

/// Turns a rounded sample into a dwell duration: a negative sample gives no
/// dwell at all, any other is kept as it is.
pub fn clamp_millis(raw_millis: i64) -> (millis: u64)
    ensures
        millis == clamp(raw_millis as int),
        raw_millis <= 0 ==> millis == 0,
        raw_millis > 0 ==> millis == raw_millis,
{
    if raw_millis > 0 {
        raw_millis as u64
    } else {
        0
    }
}

/// Clamping takes the larger of the value and zero, and clamping again
/// changes nothing.
pub proof fn lemma_clamp(raw: int)
    ensures
        clamp(raw) == vstd::math::max(raw, 0),
        clamp(clamp(raw) as int) == clamp(raw),
        clamp(raw) >= 0,
        clamp(raw) >= raw,
        raw >= 0 ==> clamp(raw) == raw,
{
}

} // verus!
