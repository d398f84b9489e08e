//! Note durations, display colour classes, and judgment tiers.

use vstd::prelude::*;

use crate::constants::{
    BEAT_INTERVAL_MICROS, EIGHTH_NOTE_MICROS, EXCELLENT_MIN_MILLI_PCT, EXCELLENT_POINTS,
    GOOD_MIN_MILLI_PCT, GOOD_POINTS, GREAT_MIN_MILLI_PCT, GREAT_POINTS, HALF_NOTE_MICROS,
    OKAY_POINTS, QUARTER_NOTE_MICROS, SIXTEENTH_NOTE_MICROS, SNAP_EPSILON_MICROS,
    TRIPLET_NOTE_MICROS, WHOLE_NOTE_MICROS,
};

verus! {

/// Musical length of a chart entry; each variant carries a fixed duration
/// and a fixed display colour.
#[derive(Clone, Copy, Debug, PartialEq, Eq, Structural)]
pub enum NoteDuration {
    Whole,
    Half,
    Quarter,
    Eighth,
    Sixteenth,
    Triplet,
}

/// Colour class a sprite is drawn with; the host maps each to a concrete
/// colour value.
#[derive(Clone, Copy, Debug, PartialEq, Eq, Structural)]
pub enum ColorClass {
    Red,
    Green,
    Blue,
    Yellow,
    LightBlue,
    Gray,
}

impl NoteDuration {
    /// Duration of this note in microseconds.
    pub open spec fn spec_micros(self) -> i64 {
        match self {
            NoteDuration::Whole => WHOLE_NOTE_MICROS,
            NoteDuration::Half => HALF_NOTE_MICROS,
            NoteDuration::Quarter => QUARTER_NOTE_MICROS,
            NoteDuration::Eighth => EIGHTH_NOTE_MICROS,
            NoteDuration::Sixteenth => SIXTEENTH_NOTE_MICROS,
            NoteDuration::Triplet => TRIPLET_NOTE_MICROS,
        }
    }

    /// Duration of this note in microseconds.
    pub fn to_micros(&self) -> (d: i64)
        ensures
            d == self.spec_micros(),
            0 < d <= WHOLE_NOTE_MICROS,
    {
        match self {
            NoteDuration::Whole => WHOLE_NOTE_MICROS,
            NoteDuration::Half => HALF_NOTE_MICROS,
            NoteDuration::Quarter => QUARTER_NOTE_MICROS,
            NoteDuration::Eighth => EIGHTH_NOTE_MICROS,
            NoteDuration::Sixteenth => SIXTEENTH_NOTE_MICROS,
            NoteDuration::Triplet => TRIPLET_NOTE_MICROS,
        }
    }

    /// Whether one advance by this duration counts as a whole unsubdivided
    /// beat, and is therefore re-anchored to the absolute phase.
    pub open spec fn spec_is_whole_beat(self) -> bool {
        -SNAP_EPSILON_MICROS < self.spec_micros() - BEAT_INTERVAL_MICROS < SNAP_EPSILON_MICROS
    }

    /// Whether one advance by this duration counts as a whole unsubdivided
    /// beat.
    pub fn is_whole_beat(&self) -> (b: bool)
        ensures
            b == self.spec_is_whole_beat(),
    {
        let diff = self.to_micros() - BEAT_INTERVAL_MICROS;
        -SNAP_EPSILON_MICROS < diff && diff < SNAP_EPSILON_MICROS
    }

    /// Human-readable name of the duration.
    pub open spec fn spec_name(self) -> Seq<char> {
        match self {
            NoteDuration::Whole => "Whole"@,
            NoteDuration::Half => "Half"@,
            NoteDuration::Quarter => "Quarter"@,
            NoteDuration::Eighth => "Eighth"@,
            NoteDuration::Sixteenth => "Sixteenth"@,
            NoteDuration::Triplet => "Triplet"@,
        }
    }

    /// Human-readable name of the duration.
    pub fn name(&self) -> (r: &'static str)
        ensures
            r@ == self.spec_name(),
    {
        match self {
            NoteDuration::Whole => "Whole",
            NoteDuration::Half => "Half",
            NoteDuration::Quarter => "Quarter",
            NoteDuration::Eighth => "Eighth",
            NoteDuration::Sixteenth => "Sixteenth",
            NoteDuration::Triplet => "Triplet",
        }
    }

    /// Colour class a note of this duration is drawn with: red for the
    /// durations on the beat, blue for upbeats, green for subdivisions,
    /// yellow for triplets.
    pub open spec fn spec_color(self) -> ColorClass {
        match self {
            NoteDuration::Whole => ColorClass::Red,
            NoteDuration::Half => ColorClass::Red,
            NoteDuration::Quarter => ColorClass::Red,
            NoteDuration::Eighth => ColorClass::Blue,
            NoteDuration::Sixteenth => ColorClass::Green,
            NoteDuration::Triplet => ColorClass::Yellow,
        }
    }

    /// Colour class a note of this duration is drawn with.
    pub fn color(&self) -> (c: ColorClass)
        ensures
            c == self.spec_color(),
    {
        match self {
            NoteDuration::Whole => ColorClass::Red,
            NoteDuration::Half => ColorClass::Red,
            NoteDuration::Quarter => ColorClass::Red,
            NoteDuration::Eighth => ColorClass::Blue,
            NoteDuration::Sixteenth => ColorClass::Green,
            NoteDuration::Triplet => ColorClass::Yellow,
        }
    }
}

/// Discrete quality tier of a judged hit.
#[derive(Clone, Copy, Debug, PartialEq, Eq, Structural)]
pub enum Judgment {
    Excellent,
    Great,
    Good,
    Okay,
}

/// Tier a given overlap percentage (in thousandths of a percent) falls in:
/// the thresholds are inclusive lower bounds.
pub open spec fn spec_judgment_for_overlap(overlap_milli_pct: int) -> Judgment {
    if overlap_milli_pct >= EXCELLENT_MIN_MILLI_PCT {
        Judgment::Excellent
    } else if overlap_milli_pct >= GREAT_MIN_MILLI_PCT {
        Judgment::Great
    } else if overlap_milli_pct >= GOOD_MIN_MILLI_PCT {
        Judgment::Good
    } else {
        Judgment::Okay
    }
}

/// Tier a given overlap percentage (in thousandths of a percent) falls in.
pub fn judgment_for_overlap(overlap_milli_pct: i64) -> (j: Judgment)
    ensures
        j == spec_judgment_for_overlap(overlap_milli_pct as int),
{
    if overlap_milli_pct >= EXCELLENT_MIN_MILLI_PCT {
        Judgment::Excellent
    } else if overlap_milli_pct >= GREAT_MIN_MILLI_PCT {
        Judgment::Great
    } else if overlap_milli_pct >= GOOD_MIN_MILLI_PCT {
        Judgment::Good
    } else {
        Judgment::Okay
    }
}

impl Judgment {
    /// Points this tier is worth.
    pub open spec fn spec_points(self) -> u32 {
        match self {
            Judgment::Excellent => EXCELLENT_POINTS,
            Judgment::Great => GREAT_POINTS,
            Judgment::Good => GOOD_POINTS,
            Judgment::Okay => OKAY_POINTS,
        }
    }

    /// Points this tier is worth.
    pub fn points(&self) -> (p: u32)
        ensures
            p == self.spec_points(),
            0 < p <= EXCELLENT_POINTS,
    {
        match self {
            Judgment::Excellent => EXCELLENT_POINTS,
            Judgment::Great => GREAT_POINTS,
            Judgment::Good => GOOD_POINTS,
            Judgment::Okay => OKAY_POINTS,
        }
    }

    /// Whether a hit of this tier extends the streak; only the lowest tier
    /// resets it.
    pub open spec fn spec_keeps_streak(self) -> bool {
        !(self is Okay)
    }

    /// Whether a hit of this tier extends the streak.
    pub fn keeps_streak(&self) -> (b: bool)
        ensures
            b == self.spec_keeps_streak(),
    {
        match self {
            Judgment::Okay => false,
            _ => true,
        }
    }

    /// Label the feedback text shows for this tier.
    pub open spec fn spec_label(self) -> Seq<char> {
        match self {
            Judgment::Excellent => "EXCELLENT!"@,
            Judgment::Great => "GREAT!"@,
            Judgment::Good => "GOOD"@,
            Judgment::Okay => "OK"@,
        }
    }

    /// Label the feedback text shows for this tier.
    pub fn label(&self) -> (r: &'static str)
        ensures
            r@ == self.spec_label(),
    {
        match self {
            Judgment::Excellent => "EXCELLENT!",
            Judgment::Great => "GREAT!",
            Judgment::Good => "GOOD",
            Judgment::Okay => "OK",
        }
    }

    /// Colour class the feedback text is drawn with.
    pub open spec fn spec_color(self) -> ColorClass {
        match self {
            Judgment::Excellent => ColorClass::Yellow,
            Judgment::Great => ColorClass::Green,
            Judgment::Good => ColorClass::LightBlue,
            Judgment::Okay => ColorClass::Gray,
        }
    }

    /// Colour class the feedback text is drawn with.
    pub fn color(&self) -> (c: ColorClass)
        ensures
            c == self.spec_color(),
    {
        match self {
            Judgment::Excellent => ColorClass::Yellow,
            Judgment::Great => ColorClass::Green,
            Judgment::Good => ColorClass::LightBlue,
            Judgment::Okay => ColorClass::Gray,
        }
    }
}

} // verus!
