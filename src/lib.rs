//! Countdown timer for a ring of eight lights and two push buttons.
//!
//! Every component is a state machine that is advanced by the caller's
//! loop: the debouncer turns raw samples into edges, the clocks turn hardware
//! wrap events into milliseconds, the display turns a render directive into
//! the state of each light, and the timer engine ties them together.

use vstd::prelude::*;

/// Debounced push buttons.
pub mod button;
/// The state of the ring of lights and how it blinks.
pub mod display;
/// The countdown engine.
pub mod engine;
/// A snake of lights that runs around the ring, and a press-stepper.
pub mod snake;
/// Millisecond clocks built on a wrapping hardware counter.
pub mod systick;

pub use display::{BlinkKind, CompassDisplay};
pub use engine::SimpleTimer;

verus! {

/// Time in milliseconds.
pub type Milliseconds = u32;

} // verus!
