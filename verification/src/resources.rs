//! Long-lived state records: the note scheduler, the score, and the
//! metronome.

use vstd::prelude::*;

use crate::constants::{
    FIRST_TARGET_TIME_MICROS, LANE_COUNT, MAX_TIME_MICROS, SCHEDULE_HORIZON_MICROS,
    SONG_START_MICROS, SPAWN_CHECK_PERIOD_MICROS,
};
use crate::timers::RepeatingTimer;
use crate::types::NoteDuration;

verus! {

/// State of the note scheduler: the chart it walks, the next entry to
/// emit, and the drift-corrected instant at which that entry must reach
/// the judgment line.
pub struct NoteSpawnTimer {
    /// Repeating timer that paces the spawn checks.
    pub timer: RepeatingTimer,
    /// The chart: `(duration, lane)` pairs in playback order.
    pub current_pattern: Vec<(NoteDuration, usize)>,
    /// Index of the next chart entry to emit; wraps to zero when the
    /// pattern is exhausted.
    pub pattern_index: usize,
    /// Instant at which the next emitted note must reach the judgment
    /// line, in microseconds.
    pub next_beat_time: i64,
    /// Epoch of the song, the reference instant for drift correction.
    pub song_start_time: i64,
}

impl NoteSpawnTimer {
    /// Well-formedness: the pace timer is sound, the epoch and the target
    /// instant are within the clock bounds, the next entry index never
    /// passes the end of the pattern, and every chart entry names a real
    /// lane.
    pub open spec fn wf(self) -> bool {
        &&& self.timer.wf()
        &&& 0 <= self.song_start_time <= MAX_TIME_MICROS
        &&& 0 <= self.next_beat_time <= SCHEDULE_HORIZON_MICROS
        &&& self.pattern_index <= self.current_pattern@.len()
        &&& forall|i: int|
            0 <= i < self.current_pattern@.len() ==> self.current_pattern@[i].1 < LANE_COUNT
    }
}

impl Default for NoteSpawnTimer {
    /// A scheduler with an empty chart, paced at the standard check
    /// period, whose first note would reach the judgment line at the
    /// standard first target instant.
    fn default() -> (t: Self)
        ensures
            t.wf(),
            t.timer.period_micros == SPAWN_CHECK_PERIOD_MICROS,
            t.timer.elapsed_micros == 0,
            t.current_pattern@.len() == 0,
            t.pattern_index == 0,
            t.next_beat_time == FIRST_TARGET_TIME_MICROS,
            t.song_start_time == SONG_START_MICROS,
    {
        NoteSpawnTimer {
            timer: RepeatingTimer::new(SPAWN_CHECK_PERIOD_MICROS),
            current_pattern: Vec::new(),
            pattern_index: 0,
            next_beat_time: FIRST_TARGET_TIME_MICROS,
            song_start_time: SONG_START_MICROS,
        }
    }
}

/// Cumulative score and current streak.  The score never decreases; the
/// streak only grows or is reset to zero.
#[derive(Clone, Copy, Debug, PartialEq, Eq, Structural)]
pub struct GameScore {
    /// Total points awarded so far.
    pub score: u32,
    /// Consecutive hits since the last miss or merely-okay hit.
    pub streak: u32,
}

impl Default for GameScore {
    /// A fresh score record: no points, no streak.
    fn default() -> (s: Self)
        ensures
            s.score == 0,
            s.streak == 0,
    {
        GameScore { score: 0, streak: 0 }
    }
}

/// State of the metronome: a fixed-cadence beat emitter independent of
/// note scheduling.
#[derive(Clone, Copy, Debug, PartialEq, Eq, Structural)]
pub struct Metronome {
    /// Instant of the next beat, in microseconds.
    pub next_beat_time: i64,
    /// Epoch of the song, the reference instant for drift correction.
    pub song_start_time: i64,
    /// Whether the metronome is running; while inactive it does not
    /// advance, freezing its phase until reactivated.
    pub is_active: bool,
}

impl Metronome {
    /// Well-formedness: the epoch is within the clock bounds and the next
    /// beat stays within the reach of one correction step around them.
    pub open spec fn wf(self) -> bool {
        &&& 0 <= self.song_start_time <= MAX_TIME_MICROS
        &&& 0 <= self.next_beat_time <= SCHEDULE_HORIZON_MICROS
    }
}

} // verus!
