//! A two-state duty-cycle engine with randomized dwell times.
//!
//! The engine alternates a single output line between `On` and `Off`. It does
//! no input or output of its own: it tells its caller what to do next (drive
//! the line, draw a sample, sleep) and is told when that has happened.

pub mod bootstrap;
pub mod dwell;
pub mod engine;
pub mod protocol;
pub mod state;
