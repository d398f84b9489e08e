//! Timing core of a four-lane rhythm game.
//!
//! The library converts a chart of musical note events into precisely
//! scheduled spawn decisions, keeps a drift-corrected beat clock at a fixed
//! tempo, and judges lane presses against the notes currently in flight,
//! updating a score/streak record.  All time values are integer microseconds
//! and all positions are integer milli-pixels, so every computation here is
//! exact; the host layer converts to and from its own units at the boundary.

pub mod beat_clock;
pub mod components;
pub mod constants;
pub mod resources;
pub mod systems;
pub mod timers;
pub mod types;
