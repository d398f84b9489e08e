//! Fixed configuration of the game: tempo, geometry, tolerances and scoring.
//!
//! Times are integer microseconds, positions are integer milli-pixels
//! (one thousandth of a pixel), and speeds are milli-pixels per second.

use vstd::prelude::*;

verus! {

/// Microseconds in one second; converts between the two unit domains.
pub const MICROS_PER_SEC: i64 = 1_000_000;

/// Tempo of the song in beats per minute.
pub const BPM: i64 = 60;

/// Length of one beat in microseconds: 60 seconds divided by the tempo.
pub const BEAT_INTERVAL_MICROS: i64 = 1_000_000;

/// Duration of a whole note: four beats.
pub const WHOLE_NOTE_MICROS: i64 = BEAT_INTERVAL_MICROS * 4;

/// Duration of a half note: two beats.
pub const HALF_NOTE_MICROS: i64 = BEAT_INTERVAL_MICROS * 2;

/// Duration of a quarter note: exactly one beat.
pub const QUARTER_NOTE_MICROS: i64 = BEAT_INTERVAL_MICROS;

/// Duration of an eighth note: half a beat.
pub const EIGHTH_NOTE_MICROS: i64 = 500_000;

/// Duration of a sixteenth note: a quarter of a beat.
pub const SIXTEENTH_NOTE_MICROS: i64 = 250_000;

/// Duration of a triplet eighth: two thirds of a beat, rounded to the
/// nearest microsecond.
pub const TRIPLET_NOTE_MICROS: i64 = 666_667;

/// Width of the playfield window in milli-pixels.
pub const WINDOW_WIDTH_MPX: i64 = 800_000;

/// Height of the playfield window in milli-pixels.
pub const WINDOW_HEIGHT_MPX: i64 = 600_000;

/// Number of lanes a note or a press can fall in.
pub const LANE_COUNT: usize = 4;

/// Side length of a note square in milli-pixels.
pub const NOTE_SIZE_MPX: i64 = 40_000;

/// Vertical position of the judgment line.
pub const TARGET_Y_MPX: i64 = -200_000;

/// Downward speed of a falling note, in milli-pixels per second.
pub const NOTE_SPEED_MPX_PER_SEC: i64 = 150_000;

/// Vertical position at which notes are born.
pub const SPAWN_Y_MPX: i64 = 400_000;

/// Distance a note travels from its birth to the judgment line.
pub const TRAVEL_DISTANCE_MPX: i64 = SPAWN_Y_MPX - TARGET_Y_MPX;

/// Time a note needs to travel from its birth to the judgment line.
/// `lemma_travel_time_identity` proves this agrees exactly with the
/// travel distance and the note speed.
pub const TRAVEL_TIME_MICROS: i64 = 4_000_000;

/// Height of the window around the judgment line within which a press can
/// match a note.
pub const HIT_ZONE_HEIGHT_MPX: i64 = 100_000;

/// Half the hit zone height: the zone extends this far on either side of
/// the judgment line.
pub const HALF_HIT_ZONE_MPX: i64 = 50_000;

/// Largest distance from the judgment line at which a note still overlaps
/// the target square: half the note size.
pub const MAX_HIT_DISTANCE_MPX: i64 = 20_000;

/// Half-height of the band around the judgment line in which a note counts
/// as having arrived.
pub const TARGET_BAND_MPX: i64 = 10_000;

/// Notes below this height have left the screen and are discarded.
pub const OFFSCREEN_Y_MPX: i64 = -400_000;

/// Period of the scheduler's repeating spawn-check timer.
pub const SPAWN_CHECK_PERIOD_MICROS: i64 = 100_000;

/// A note may be born this much before its computed spawn instant, so that
/// frame-time quantization cannot push it past the instant entirely.
pub const SPAWN_TOLERANCE_MICROS: i64 = 50_000;

/// Pause inserted after the pattern is exhausted, before it loops.
pub const PATTERN_RESTART_PAUSE_MICROS: i64 = 2_000_000;

/// A note duration within this distance of one beat counts as a whole-beat
/// advance and is re-anchored to the absolute phase.
pub const SNAP_EPSILON_MICROS: i64 = 1_000;

/// Instant at which the first scheduled note reaches the judgment line.
pub const FIRST_TARGET_TIME_MICROS: i64 = 2_000_000;

/// Epoch of the song: the reference instant for drift correction.
pub const SONG_START_MICROS: i64 = 1_000_000;

/// Lifetime of the judgment feedback text shown after a hit.
pub const SCORE_TEXT_LIFETIME_MICROS: i64 = 1_000_000;

/// Lifetime of the metronome's visual flash.
pub const FLASH_LIFETIME_MICROS: i64 = 100_000;

/// Lifetime of the button press animation.
pub const PRESS_ANIMATION_MICROS: i64 = 200_000;

/// Overlap percentage (in thousandths of a percent) at or above which a hit
/// is judged excellent.
pub const EXCELLENT_MIN_MILLI_PCT: i64 = 70_000;

/// Overlap percentage (in thousandths of a percent) at or above which a hit
/// is judged at least great.
pub const GREAT_MIN_MILLI_PCT: i64 = 50_000;

/// Overlap percentage (in thousandths of a percent) at or above which a hit
/// is judged at least good.
pub const GOOD_MIN_MILLI_PCT: i64 = 30_000;

/// Points for an excellent hit.
pub const EXCELLENT_POINTS: u32 = 100;

/// Points for a great hit.
pub const GREAT_POINTS: u32 = 75;

/// Points for a good hit.
pub const GOOD_POINTS: u32 = 50;

/// Points for a hit that is merely okay.
pub const OKAY_POINTS: u32 = 25;

/// Upper bound on the clock values the core accepts, roughly thirty years
/// of microseconds; keeps every intermediate computation inside `i64`.
pub const MAX_TIME_MICROS: i64 = 1_000_000_000_000_000;

/// Upper bound the scheduler keeps on its next target instant: the clock
/// bound plus the slack one scheduling step can add.
pub const SCHEDULE_HORIZON_MICROS: i64 = MAX_TIME_MICROS + 10_000_000;

/// Horizontal centre of a lane, for lane indices below `LANE_COUNT`.
pub open spec fn spec_lane_x_mpx(lane: int) -> i64 {
    if lane == 0 {
        -150_000i64
    } else if lane == 1 {
        -50_000i64
    } else if lane == 2 {
        50_000i64
    } else {
        150_000i64
    }
}

/// Horizontal centre of a lane.
pub fn lane_x_mpx(lane: usize) -> (x: i64)
    requires
        lane < LANE_COUNT,
    ensures
        x == spec_lane_x_mpx(lane as int),
{
    if lane == 0 {
        -150_000
    } else if lane == 1 {
        -50_000
    } else if lane == 2 {
        50_000
    } else {
        150_000
    }
}

/// Travel-time identity: the configured travel time is exactly the travel
/// distance divided by the note speed, with no remainder.
pub proof fn lemma_travel_time_identity()
    ensures
        TRAVEL_TIME_MICROS * NOTE_SPEED_MPX_PER_SEC == TRAVEL_DISTANCE_MPX * MICROS_PER_SEC,
        TRAVEL_TIME_MICROS == TRAVEL_DISTANCE_MPX * MICROS_PER_SEC / (NOTE_SPEED_MPX_PER_SEC as int),
{
}

} // verus!
