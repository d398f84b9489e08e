//! Per-entity records the core observes and judges: live notes and the
//! small self-expiring effects that accompany presses and hits.

use vstd::prelude::*;

use crate::timers::CountdownTimer;

verus! {

/// A note currently in flight: its lane, its vertical position on the
/// playfield (in milli-pixels, decreasing as the note falls towards the
/// judgment line), and a one-shot flag recording that its arrival at the
/// judgment line was already noticed.
#[derive(Clone, Copy, Debug, PartialEq, Eq, Structural)]
pub struct Note {
    /// Lane the note falls in.
    pub lane: usize,
    /// Vertical position of the note's centre, in milli-pixels.
    pub y_mpx: i64,
    /// Whether the note's arrival at the judgment line was already noticed;
    /// suppresses duplicate arrival effects.
    pub target_triggered: bool,
}

/// Press animation of one lane's target square, retired when its countdown
/// runs out.
#[derive(Clone, Copy, Debug, PartialEq, Eq, Structural)]
pub struct PressAnimation {
    /// Time the animation has left.
    pub timer: CountdownTimer,
    /// Lane whose target square is animated.
    pub lane: usize,
}

/// Judgment feedback text shown after a hit, retired when its countdown
/// runs out.
#[derive(Clone, Copy, Debug, PartialEq, Eq, Structural)]
pub struct ScoreText {
    /// Time the text has left on screen.
    pub timer: CountdownTimer,
}

/// Turns the metronome's visual flash off again when its countdown runs
/// out.
#[derive(Clone, Copy, Debug, PartialEq, Eq, Structural)]
pub struct FlashTimer {
    /// Time the flash has left.
    pub timer: CountdownTimer,
}

} // verus!
