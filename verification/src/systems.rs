//! Tick-driven systems of the core: note scheduling, judgment of lane
//! presses, the miss path, arrival detection, movement, effect expiry, and
//! the metronome.

use vstd::prelude::*;

use crate::beat_clock::{
    advance_target_time, lemma_round_div_close, round_div, spec_advance_for, spec_round_div,
};
use crate::components::{FlashTimer, Note, PressAnimation, ScoreText};
use crate::timers::{spec_countdown_after, CountdownTimer};
use crate::constants::{
    BEAT_INTERVAL_MICROS, EXCELLENT_POINTS, FLASH_LIFETIME_MICROS, HALF_HIT_ZONE_MPX,
    HIT_ZONE_HEIGHT_MPX, MAX_HIT_DISTANCE_MPX, MAX_TIME_MICROS, MICROS_PER_SEC,
    NOTE_SPEED_MPX_PER_SEC, OFFSCREEN_Y_MPX, PATTERN_RESTART_PAUSE_MICROS,
    SPAWN_TOLERANCE_MICROS, TARGET_BAND_MPX, TARGET_Y_MPX, TRAVEL_TIME_MICROS,
};
use crate::resources::{GameScore, Metronome, NoteSpawnTimer};
use crate::types::{spec_judgment_for_overlap, judgment_for_overlap, Judgment, NoteDuration};

verus! {

/// Whether a vertical position lies within the hit zone centred on the
/// judgment line.
pub open spec fn spec_in_hit_zone(y_mpx: int) -> bool {
    TARGET_Y_MPX - HALF_HIT_ZONE_MPX <= y_mpx <= TARGET_Y_MPX + HALF_HIT_ZONE_MPX
}

/// Whether a note can match a press in the given lane: same lane, and
/// positioned within the hit zone.
pub open spec fn spec_is_hit_candidate(n: Note, lane: int) -> bool {
    n.lane == lane && spec_in_hit_zone(n.y_mpx as int)
}

/// Continuous proximity metric between a note and the judgment line, in
/// thousandths of a percent: 100 percent at the line itself, falling
/// linearly to zero at half a note size away, and zero anywhere further
/// (still a candidate, merely not overlapping the target square).
pub open spec fn spec_overlap_milli_pct(y_mpx: int) -> int {
    let distance = if y_mpx >= TARGET_Y_MPX {
        y_mpx - TARGET_Y_MPX
    } else {
        TARGET_Y_MPX - y_mpx
    };
    if distance <= MAX_HIT_DISTANCE_MPX {
        (MAX_HIT_DISTANCE_MPX - distance) * 100_000 / (MAX_HIT_DISTANCE_MPX as int)
    } else {
        0
    }
}

/// Continuous proximity metric between a note and the judgment line, in
/// thousandths of a percent.
pub fn overlap_milli_pct(y_mpx: i64) -> (overlap: i64)
    requires
        spec_in_hit_zone(y_mpx as int),
    ensures
        overlap == spec_overlap_milli_pct(y_mpx as int),
        0 <= overlap <= 100_000,
{
    let distance = if y_mpx >= TARGET_Y_MPX {
        y_mpx - TARGET_Y_MPX
    } else {
        TARGET_Y_MPX - y_mpx
    };
    if distance <= MAX_HIT_DISTANCE_MPX {
        (MAX_HIT_DISTANCE_MPX - distance) * 100_000 / MAX_HIT_DISTANCE_MPX
    } else {
        0
    }
}

/// Resolution of a judged hit: which live note was consumed, how closely
/// it overlapped the judgment line, and the tier that overlap earned.
/// The host despawns the note and shows the tier's feedback text.
#[derive(Clone, Copy, Debug, PartialEq, Eq, Structural)]
pub struct HitResult {
    /// Index of the consumed note in the live-note list handed in.
    pub note_index: usize,
    /// Overlap of that note with the judgment line, in thousandths of a
    /// percent.
    pub overlap_milli_pct: i64,
    /// Tier the overlap earned.
    pub judgment: Judgment,
}

/// Award a judged hit: every tier adds its points to the score, and the
/// streak grows by one unless the tier resets it.
pub fn apply_judgment(judgment: Judgment, game_score: &mut GameScore)
    requires
        old(game_score).score + EXCELLENT_POINTS <= u32::MAX,
        old(game_score).streak < u32::MAX,
    ensures
        final(game_score).score == old(game_score).score + judgment.spec_points(),
        final(game_score).streak == (if judgment.spec_keeps_streak() {
            old(game_score).streak + 1
        } else {
            0int
        }),
{
    let points = judgment.points();
    game_score.score = game_score.score + points;
    if judgment.keeps_streak() {
        game_score.streak = game_score.streak + 1;
    } else {
        game_score.streak = 0;
    }
}

/// Judge a press in `pressed_lane` against the live notes.
///
/// Among the candidates — notes in that lane whose position lies in the
/// hit zone — the first one with the highest overlap wins; it is scored by
/// its overlap's tier and the score and streak are updated.  A press with
/// no candidate is a no-op.
pub fn check_note_hit(pressed_lane: usize, notes: &Vec<Note>, game_score: &mut GameScore) -> (result:
    Option<HitResult>)
    requires
        old(game_score).score + EXCELLENT_POINTS <= u32::MAX,
        old(game_score).streak < u32::MAX,
    ensures
        result is Some <==> exists|i: int|
            0 <= i < notes@.len() && spec_is_hit_candidate(notes@[i], pressed_lane as int),
        result is None ==> *final(game_score) == *old(game_score),
        result matches Some(hit) ==> ({
            &&& hit.note_index < notes@.len()
            &&& spec_is_hit_candidate(notes@[hit.note_index as int], pressed_lane as int)
            &&& hit.overlap_milli_pct == spec_overlap_milli_pct(
                notes@[hit.note_index as int].y_mpx as int,
            )
            &&& forall|j: int|
                0 <= j < notes@.len() && spec_is_hit_candidate(notes@[j], pressed_lane as int)
                    ==> spec_overlap_milli_pct(notes@[j].y_mpx as int) <= hit.overlap_milli_pct
            &&& forall|j: int|
                0 <= j < hit.note_index && spec_is_hit_candidate(notes@[j], pressed_lane as int)
                    ==> spec_overlap_milli_pct(notes@[j].y_mpx as int) < hit.overlap_milli_pct
            &&& hit.judgment == spec_judgment_for_overlap(hit.overlap_milli_pct as int)
            &&& final(game_score).score == old(game_score).score + hit.judgment.spec_points()
            &&& final(game_score).streak == (if hit.judgment.spec_keeps_streak() {
                old(game_score).streak + 1
            } else {
                0int
            })
        }),
{
    let mut best: Option<(usize, i64)> = None;
    let mut i: usize = 0;
    while i < notes.len()
        invariant
            i <= notes@.len(),
            best is None ==> forall|j: int|
                0 <= j < i ==> !spec_is_hit_candidate(notes@[j], pressed_lane as int),
            best matches Some((bi, bo)) ==> ({
                &&& bi < i
                &&& spec_is_hit_candidate(notes@[bi as int], pressed_lane as int)
                &&& bo == spec_overlap_milli_pct(notes@[bi as int].y_mpx as int)
                &&& forall|j: int|
                    0 <= j < i && spec_is_hit_candidate(notes@[j], pressed_lane as int)
                        ==> spec_overlap_milli_pct(notes@[j].y_mpx as int) <= bo
                &&& forall|j: int|
                    0 <= j < bi && spec_is_hit_candidate(notes@[j], pressed_lane as int)
                        ==> spec_overlap_milli_pct(notes@[j].y_mpx as int) < bo
            }),
        decreases notes@.len() - i,
    {
        let note = &notes[i];
        if note.lane == pressed_lane {
            let in_zone = TARGET_Y_MPX - HALF_HIT_ZONE_MPX <= note.y_mpx && note.y_mpx
                <= TARGET_Y_MPX + HALF_HIT_ZONE_MPX;
            if in_zone {
                let overlap = overlap_milli_pct(note.y_mpx);
                match best {
                    Some((_, current_best)) => {
                        if overlap > current_best {
                            best = Some((i, overlap));
                        }
                    },
                    None => {
                        best = Some((i, overlap));
                    },
                }
            }
        }
        i = i + 1;
    }
    match best {
        Some((note_index, overlap)) => {
            let judgment = judgment_for_overlap(overlap);
            apply_judgment(judgment, game_score);
            Some(HitResult { note_index, overlap_milli_pct: overlap, judgment })
        },
        None => None,
    }
}

/// Whether a note has fallen past the hit zone without being consumed.
pub open spec fn spec_is_missed(n: Note) -> bool {
    n.y_mpx < TARGET_Y_MPX - HIT_ZONE_HEIGHT_MPX
}

/// Miss path, run every tick independently of presses: every live note
/// that has fallen past the hit zone is removed and resets the streak to
/// zero; the score is not otherwise penalized.  Returns the indices of the
/// missed notes, in increasing order, for the host to despawn.
pub fn handle_missed_notes(notes: &Vec<Note>, game_score: &mut GameScore) -> (missed: Vec<usize>)
    ensures
        forall|k: int|
            0 <= k < missed@.len() ==> missed@[k] < notes@.len() && spec_is_missed(
                notes@[missed@[k] as int],
            ),
        forall|k1: int, k2: int| 0 <= k1 < k2 < missed@.len() ==> missed@[k1] < missed@[k2],
        forall|j: int|
            0 <= j < notes@.len() && spec_is_missed(notes@[j]) ==> missed@.contains(j as usize),
        final(game_score).score == old(game_score).score,
        final(game_score).streak == (if exists|j: int|
            0 <= j < notes@.len() && spec_is_missed(notes@[j]) {
            0int
        } else {
            old(game_score).streak as int
        }),
{
    let mut missed: Vec<usize> = Vec::new();
    let mut i: usize = 0;
    while i < notes.len()
        invariant
            i <= notes@.len(),
            forall|k: int|
                0 <= k < missed@.len() ==> missed@[k] < i && spec_is_missed(
                    notes@[missed@[k] as int],
                ),
            forall|k1: int, k2: int| 0 <= k1 < k2 < missed@.len() ==> missed@[k1] < missed@[k2],
            forall|j: int| 0 <= j < i && spec_is_missed(notes@[j]) ==> missed@.contains(j as usize),
        decreases notes@.len() - i,
    {
        let ghost pre = missed@;
        if notes[i].y_mpx < TARGET_Y_MPX - HIT_ZONE_HEIGHT_MPX {
            missed.push(i);
        }
        proof {
            assert forall|j: int|
                0 <= j < i + 1 && spec_is_missed(notes@[j]) implies missed@.contains(
                j as usize,
            ) by {
                if j == i {
                    assert(missed@[pre.len() as int] == i as usize);
                } else {
                    let k = choose|k: int| 0 <= k < pre.len() && pre[k] == j as usize;
                    assert(missed@[k] == j as usize);
                }
            }
        }
        i = i + 1;
    }
    if missed.len() > 0 {
        game_score.streak = 0;
        proof {
            let j = missed@[0] as int;
            assert(spec_is_missed(notes@[j]));
        }
    } else {
        proof {
            assert forall|j: int| 0 <= j < notes@.len() implies !spec_is_missed(notes@[j]) by {
                if spec_is_missed(notes@[j]) {
                    assert(missed@.contains(j as usize));
                }
            }
        }
    }
    missed
}

/// Whether a note has fallen below the bottom of the screen.
pub open spec fn spec_is_offscreen(n: Note) -> bool {
    n.y_mpx < OFFSCREEN_Y_MPX
}

/// Housekeeping: the indices of the notes that have left the screen, in
/// increasing order, for the host to despawn.
pub fn cleanup_notes(notes: &Vec<Note>) -> (gone: Vec<usize>)
    ensures
        forall|k: int|
            0 <= k < gone@.len() ==> gone@[k] < notes@.len() && spec_is_offscreen(
                notes@[gone@[k] as int],
            ),
        forall|k1: int, k2: int| 0 <= k1 < k2 < gone@.len() ==> gone@[k1] < gone@[k2],
        forall|j: int|
            0 <= j < notes@.len() && spec_is_offscreen(notes@[j]) ==> gone@.contains(j as usize),
{
    let mut gone: Vec<usize> = Vec::new();
    let mut i: usize = 0;
    while i < notes.len()
        invariant
            i <= notes@.len(),
            forall|k: int|
                0 <= k < gone@.len() ==> gone@[k] < i && spec_is_offscreen(
                    notes@[gone@[k] as int],
                ),
            forall|k1: int, k2: int| 0 <= k1 < k2 < gone@.len() ==> gone@[k1] < gone@[k2],
            forall|j: int|
                0 <= j < i && spec_is_offscreen(notes@[j]) ==> gone@.contains(j as usize),
        decreases notes@.len() - i,
    {
        let ghost pre = gone@;
        if notes[i].y_mpx < OFFSCREEN_Y_MPX {
            gone.push(i);
        }
        proof {
            assert forall|j: int|
                0 <= j < i + 1 && spec_is_offscreen(notes@[j]) implies gone@.contains(
                j as usize,
            ) by {
                if j == i {
                    assert(gone@[pre.len() as int] == i as usize);
                } else {
                    let k = choose|k: int| 0 <= k < pre.len() && pre[k] == j as usize;
                    assert(gone@[k] == j as usize);
                }
            }
        }
        i = i + 1;
    }
    gone
}

/// Whether a note's position lies within the arrival band around the
/// judgment line.
pub open spec fn spec_at_target(n: Note) -> bool {
    TARGET_Y_MPX - TARGET_BAND_MPX <= n.y_mpx <= TARGET_Y_MPX + TARGET_BAND_MPX
}

/// Arrival detection: every note inside the arrival band whose arrival was
/// not yet noticed has its one-shot flag set, so the host plays the
/// arrival effect exactly once per note.  Returns the indices of the newly
/// arrived notes, in increasing order.
pub fn note_target_detection(notes: &mut Vec<Note>) -> (arrived: Vec<usize>)
    ensures
        final(notes)@.len() == old(notes)@.len(),
        forall|j: int|
            0 <= j < old(notes)@.len() ==> final(notes)@[j] == (if spec_at_target(old(notes)@[j])
                && !old(notes)@[j].target_triggered {
                Note { target_triggered: true, ..old(notes)@[j] }
            } else {
                old(notes)@[j]
            }),
        forall|k: int|
            0 <= k < arrived@.len() ==> arrived@[k] < old(notes)@.len() && spec_at_target(
                old(notes)@[arrived@[k] as int],
            ) && !old(notes)@[arrived@[k] as int].target_triggered,
        forall|k1: int, k2: int| 0 <= k1 < k2 < arrived@.len() ==> arrived@[k1] < arrived@[k2],
        forall|j: int|
            0 <= j < old(notes)@.len() && spec_at_target(old(notes)@[j]) && !old(
                notes,
            )@[j].target_triggered ==> arrived@.contains(j as usize),
{
    let mut arrived: Vec<usize> = Vec::new();
    let mut i: usize = 0;
    while i < notes.len()
        invariant
            i <= notes@.len(),
            notes@.len() == old(notes)@.len(),
            forall|j: int| i <= j < notes@.len() ==> notes@[j] == old(notes)@[j],
            forall|j: int|
                0 <= j < i ==> notes@[j] == (if spec_at_target(old(notes)@[j]) && !old(
                    notes,
                )@[j].target_triggered {
                    Note { target_triggered: true, ..old(notes)@[j] }
                } else {
                    old(notes)@[j]
                }),
            forall|k: int|
                0 <= k < arrived@.len() ==> arrived@[k] < i && spec_at_target(
                    old(notes)@[arrived@[k] as int],
                ) && !old(notes)@[arrived@[k] as int].target_triggered,
            forall|k1: int, k2: int| 0 <= k1 < k2 < arrived@.len() ==> arrived@[k1] < arrived@[k2],
            forall|j: int|
                0 <= j < i && spec_at_target(old(notes)@[j]) && !old(notes)@[j].target_triggered
                    ==> arrived@.contains(j as usize),
        decreases notes@.len() - i,
    {
        let note = notes[i];
        let ghost pre = arrived@;
        let in_band = TARGET_Y_MPX - TARGET_BAND_MPX <= note.y_mpx && note.y_mpx <= TARGET_Y_MPX
            + TARGET_BAND_MPX;
        if in_band && !note.target_triggered {
            notes[i] = Note { target_triggered: true, ..note };
            arrived.push(i);
        }
        proof {
            assert forall|j: int|
                0 <= j < i + 1 && spec_at_target(old(notes)@[j]) && !old(
                notes,
            )@[j].target_triggered implies arrived@.contains(j as usize) by {
                if j == i {
                    assert(arrived@[pre.len() as int] == i as usize);
                } else {
                    let k = choose|k: int| 0 <= k < pre.len() && pre[k] == j as usize;
                    assert(arrived@[k] == j as usize);
                }
            }
        }
        i = i + 1;
    }
    arrived
}

/// Movement: every live note falls by the note speed times the tick's
/// elapsed time (rounded down to a whole milli-pixel).
pub fn move_notes(notes: &mut Vec<Note>, delta_micros: i64)
    requires
        0 <= delta_micros <= 60 * MICROS_PER_SEC,
        forall|j: int|
            0 <= j < old(notes)@.len() ==> -MAX_TIME_MICROS <= #[trigger] old(notes)@[j].y_mpx
                <= MAX_TIME_MICROS,
    ensures
        final(notes)@.len() == old(notes)@.len(),
        forall|j: int|
            0 <= j < old(notes)@.len() ==> final(notes)@[j] == (Note {
                y_mpx: (old(notes)@[j].y_mpx - NOTE_SPEED_MPX_PER_SEC * delta_micros
                    / (MICROS_PER_SEC as int)) as i64,
                ..old(notes)@[j]
            }),
{
    let fall = NOTE_SPEED_MPX_PER_SEC * delta_micros / MICROS_PER_SEC;
    let mut i: usize = 0;
    while i < notes.len()
        invariant
            i <= notes@.len(),
            notes@.len() == old(notes)@.len(),
            0 <= fall <= NOTE_SPEED_MPX_PER_SEC * 60,
            fall == NOTE_SPEED_MPX_PER_SEC * delta_micros / (MICROS_PER_SEC as int),
            forall|j: int|
                0 <= j < old(notes)@.len() ==> -MAX_TIME_MICROS <= #[trigger] old(
                    notes,
                )@[j].y_mpx <= MAX_TIME_MICROS,
            forall|j: int| i <= j < notes@.len() ==> notes@[j] == old(notes)@[j],
            forall|j: int|
                0 <= j < i ==> notes@[j] == (Note {
                    y_mpx: (old(notes)@[j].y_mpx - fall) as i64,
                    ..old(notes)@[j]
                }),
        decreases notes@.len() - i,
    {
        let note = notes[i];
        notes[i] = Note { y_mpx: note.y_mpx - fall, ..note };
        i = i + 1;
    }
}

/// Expiry of the judgment feedback texts: advance every text's countdown
/// by the tick's elapsed time and return the indices of the texts whose
/// time has run out, in increasing order, for the host to retire.
pub fn cleanup_score_text(texts: &mut Vec<ScoreText>, delta_micros: i64) -> (expired: Vec<usize>)
    requires
        0 <= delta_micros,
        forall|j: int| 0 <= j < old(texts)@.len() ==> (#[trigger] old(texts)@[j].timer).wf(),
    ensures
        final(texts)@.len() == old(texts)@.len(),
        forall|j: int|
            0 <= j < old(texts)@.len() ==> (#[trigger] final(texts)@[j]).timer.remaining_micros
                == spec_countdown_after(
                old(texts)@[j].timer.remaining_micros as int,
                delta_micros as int,
            ),
        forall|k: int|
            0 <= k < expired@.len() ==> expired@[k] < old(texts)@.len()
                && final(texts)@[expired@[k] as int].timer.remaining_micros == 0,
        forall|k1: int, k2: int| 0 <= k1 < k2 < expired@.len() ==> expired@[k1] < expired@[k2],
        forall|j: int|
            0 <= j < old(texts)@.len() && spec_countdown_after(
                old(texts)@[j].timer.remaining_micros as int,
                delta_micros as int,
            ) == 0 ==> expired@.contains(j as usize),
{
    let mut expired: Vec<usize> = Vec::new();
    let mut i: usize = 0;
    while i < texts.len()
        invariant
            i <= texts@.len(),
            texts@.len() == old(texts)@.len(),
            0 <= delta_micros,
            forall|j: int| 0 <= j < texts@.len() ==> (#[trigger] old(texts)@[j].timer).wf(),
            forall|j: int| i <= j < texts@.len() ==> texts@[j] == old(texts)@[j],
            forall|j: int|
                0 <= j < i ==> (#[trigger] texts@[j]).timer.remaining_micros
                    == spec_countdown_after(
                    old(texts)@[j].timer.remaining_micros as int,
                    delta_micros as int,
                ),
            forall|k: int|
                0 <= k < expired@.len() ==> expired@[k] < i
                    && texts@[expired@[k] as int].timer.remaining_micros == 0,
            forall|k1: int, k2: int| 0 <= k1 < k2 < expired@.len() ==> expired@[k1] < expired@[k2],
            forall|j: int|
                0 <= j < i && spec_countdown_after(
                    old(texts)@[j].timer.remaining_micros as int,
                    delta_micros as int,
                ) == 0 ==> expired@.contains(j as usize),
        decreases texts@.len() - i,
    {
        let mut text = texts[i];
        let ghost pre = expired@;
        text.timer.tick(delta_micros);
        texts[i] = text;
        if text.timer.finished() {
            expired.push(i);
        }
        proof {
            assert forall|j: int|
                0 <= j < i + 1 && spec_countdown_after(
                    old(texts)@[j].timer.remaining_micros as int,
                    delta_micros as int,
                ) == 0 implies expired@.contains(j as usize) by {
                if j == i {
                    assert(expired@[pre.len() as int] == i as usize);
                } else {
                    let k = choose|k: int| 0 <= k < pre.len() && pre[k] == j as usize;
                    assert(expired@[k] == j as usize);
                }
            }
        }
        i = i + 1;
    }
    expired
}

/// Expiry of the metronome flashes: advance every flash countdown by the
/// tick's elapsed time and return the indices of the countdowns that ran
/// out during this very tick, in increasing order — the host turns the
/// flash off and retires the timer.
pub fn handle_metronome_flash(flash_timers: &mut Vec<FlashTimer>, delta_micros: i64) -> (done: Vec<
    usize,
>)
    requires
        0 <= delta_micros,
        forall|j: int| 0 <= j < old(flash_timers)@.len() ==> (#[trigger] old(flash_timers)@[j].timer).wf(),
    ensures
        final(flash_timers)@.len() == old(flash_timers)@.len(),
        forall|j: int|
            0 <= j < old(flash_timers)@.len()
                ==> (#[trigger] final(flash_timers)@[j]).timer.remaining_micros == spec_countdown_after(
                old(flash_timers)@[j].timer.remaining_micros as int,
                delta_micros as int,
            ),
        forall|k: int|
            0 <= k < done@.len() ==> done@[k] < old(flash_timers)@.len() && 0 < old(
                flash_timers,
            )@[done@[k] as int].timer.remaining_micros && old(
                flash_timers,
            )@[done@[k] as int].timer.remaining_micros <= delta_micros,
        forall|k1: int, k2: int| 0 <= k1 < k2 < done@.len() ==> done@[k1] < done@[k2],
        forall|j: int|
            0 <= j < old(flash_timers)@.len() && 0 < old(flash_timers)@[j].timer.remaining_micros
                && old(flash_timers)@[j].timer.remaining_micros <= delta_micros ==> done@.contains(
                j as usize,
            ),
{
    let mut done: Vec<usize> = Vec::new();
    let mut i: usize = 0;
    while i < flash_timers.len()
        invariant
            i <= flash_timers@.len(),
            flash_timers@.len() == old(flash_timers)@.len(),
            0 <= delta_micros,
            forall|j: int|
                0 <= j < flash_timers@.len() ==> (#[trigger] old(flash_timers)@[j].timer).wf(),
            forall|j: int| i <= j < flash_timers@.len() ==> flash_timers@[j] == old(flash_timers)@[j],
            forall|j: int|
                0 <= j < i ==> (#[trigger] flash_timers@[j]).timer.remaining_micros
                    == spec_countdown_after(
                    old(flash_timers)@[j].timer.remaining_micros as int,
                    delta_micros as int,
                ),
            forall|k: int|
                0 <= k < done@.len() ==> done@[k] < i && 0 < old(
                    flash_timers,
                )@[done@[k] as int].timer.remaining_micros && old(
                    flash_timers,
                )@[done@[k] as int].timer.remaining_micros <= delta_micros,
            forall|k1: int, k2: int| 0 <= k1 < k2 < done@.len() ==> done@[k1] < done@[k2],
            forall|j: int|
                0 <= j < i && 0 < old(flash_timers)@[j].timer.remaining_micros && old(
                    flash_timers,
                )@[j].timer.remaining_micros <= delta_micros ==> done@.contains(j as usize),
        decreases flash_timers@.len() - i,
    {
        let mut flash = flash_timers[i];
        let ghost pre = done@;
        let just_finished = flash.timer.tick(delta_micros);
        flash_timers[i] = flash;
        if just_finished {
            done.push(i);
        }
        proof {
            assert forall|j: int|
                0 <= j < i + 1 && 0 < old(flash_timers)@[j].timer.remaining_micros && old(
                    flash_timers,
                )@[j].timer.remaining_micros <= delta_micros implies done@.contains(
                j as usize,
            ) by {
                if j == i {
                    assert(done@[pre.len() as int] == i as usize);
                } else {
                    let k = choose|k: int| 0 <= k < pre.len() && pre[k] == j as usize;
                    assert(done@[k] == j as usize);
                }
            }
        }
        i = i + 1;
    }
    done
}

/// One firing of the metronome: the ordinal of the beat and the lifetime
/// of the visual flash the host shows for it.
#[derive(Clone, Copy, Debug, PartialEq, Eq, Structural)]
pub struct BeatPulse {
    /// Ordinal of the beat since the song epoch, starting at one.
    pub beat_number: i64,
    /// How long the host shows the flash.
    pub flash_micros: i64,
}

/// Metronome: an independent fixed-cadence beat emitter.  While active,
/// it fires once `current_time` reaches the next beat instant, emits a
/// pulse numbered from the song epoch, and re-anchors the next instant to
/// the beat after the one nearest to `current_time` — the same snap that
/// keeps the note scheduler phase-locked.  While inactive it does not
/// advance, freezing its phase until reactivated.
pub fn metronome_system(metronome: &mut Metronome, current_time: i64) -> (pulse: Option<BeatPulse>)
    requires
        old(metronome).wf(),
        0 <= current_time <= MAX_TIME_MICROS,
    ensures
        final(metronome).wf(),
        final(metronome).song_start_time == old(metronome).song_start_time,
        final(metronome).is_active == old(metronome).is_active,
        !(old(metronome).is_active && current_time >= old(metronome).next_beat_time) ==> (
        *final(metronome) == *old(metronome) && pulse is None),
        (old(metronome).is_active && current_time >= old(metronome).next_beat_time) ==> ({
            &&& pulse matches Some(p)
            &&& p.beat_number == spec_round_div(
                old(metronome).next_beat_time - old(metronome).song_start_time,
                BEAT_INTERVAL_MICROS as int,
            ) + 1
            &&& p.flash_micros == FLASH_LIFETIME_MICROS
            &&& final(metronome).next_beat_time == old(metronome).song_start_time + (
            spec_round_div(
                current_time - old(metronome).song_start_time,
                BEAT_INTERVAL_MICROS as int,
            ) + 1) * BEAT_INTERVAL_MICROS
        }),
{
    if !metronome.is_active {
        return None;
    }
    if current_time >= metronome.next_beat_time {
        proof {
            lemma_round_div_close(
                metronome.next_beat_time - metronome.song_start_time,
                BEAT_INTERVAL_MICROS as int,
            );
            lemma_round_div_close(
                current_time - metronome.song_start_time,
                BEAT_INTERVAL_MICROS as int,
            );
        }
        let beat_number = round_div(
            metronome.next_beat_time - metronome.song_start_time,
            BEAT_INTERVAL_MICROS,
        ) + 1;
        let beats_elapsed = round_div(
            current_time - metronome.song_start_time,
            BEAT_INTERVAL_MICROS,
        );
        metronome.next_beat_time = metronome.song_start_time + (beats_elapsed + 1)
            * BEAT_INTERVAL_MICROS;
        Some(BeatPulse { beat_number, flash_micros: FLASH_LIFETIME_MICROS })
    } else {
        None
    }
}

/// Decision the scheduler hands to the host: materialize a note of this
/// duration in this lane now, so that it reaches the judgment line at the
/// target instant.
#[derive(Clone, Copy, Debug, PartialEq, Eq, Structural)]
pub struct SpawnCommand {
    /// Lane the note is born in.
    pub lane: usize,
    /// Musical duration of the chart entry, which also fixes the note's
    /// colour class.
    pub duration: NoteDuration,
    /// Instant at which the note must reach the judgment line.
    pub target_time_micros: i64,
}

/// Whether the spawn instant for a note that must arrive at
/// `next_beat_time` has been reached: the arrival instant minus the travel
/// time, widened by the spawn tolerance.
pub open spec fn spec_spawn_due(next_beat_time: int, current_time: int) -> bool {
    current_time >= next_beat_time - TRAVEL_TIME_MICROS - SPAWN_TOLERANCE_MICROS
}

/// One scheduler step, driven by the host once per tick.
///
/// The pace timer accumulates the tick's elapsed time and the step does
/// nothing more until a full check period has passed.  When it fires:
/// if the current chart entry's spawn instant has been reached, that entry
/// is emitted and the target instant advances by the entry's duration with
/// drift correction; if instead the chart is exhausted, the chart restarts
/// from its beginning after a fixed pause (so patterns loop indefinitely,
/// and an empty chart idles forever); otherwise nothing changes.
pub fn spawn_notes(timer: &mut NoteSpawnTimer, current_time: i64, delta_micros: i64) -> (command:
    Option<SpawnCommand>)
    requires
        old(timer).wf(),
        0 <= current_time <= MAX_TIME_MICROS,
        0 <= delta_micros <= MAX_TIME_MICROS,
    ensures
        final(timer).wf(),
        final(timer).current_pattern@ == old(timer).current_pattern@,
        final(timer).song_start_time == old(timer).song_start_time,
        final(timer).timer.period_micros == old(timer).timer.period_micros,
        final(timer).timer.elapsed_micros == (old(timer).timer.elapsed_micros + delta_micros) % (
        old(timer).timer.period_micros as int),
        ({
            let fired = old(timer).timer.elapsed_micros + delta_micros >= old(
                timer,
            ).timer.period_micros;
            let due = spec_spawn_due(old(timer).next_beat_time as int, current_time as int);
            let idx = old(timer).pattern_index as int;
            let len = old(timer).current_pattern@.len() as int;
            &&& !fired ==> (final(timer).pattern_index == old(timer).pattern_index && final(timer).next_beat_time == old(timer).next_beat_time && command is None)
            &&& (fired && due && idx < len) ==> ({
                let entry = old(timer).current_pattern@[idx];
                &&& command matches Some(c)
                &&& c.lane == entry.1
                &&& c.duration == entry.0
                &&& c.target_time_micros == old(timer).next_beat_time
                &&& final(timer).pattern_index == old(timer).pattern_index + 1
                &&& final(timer).next_beat_time == spec_advance_for(
                    old(timer).song_start_time as int,
                    old(timer).next_beat_time as int,
                    entry.0,
                )
            })
            &&& (fired && idx >= len) ==> (final(timer).pattern_index == 0 && final(timer).next_beat_time == current_time + PATTERN_RESTART_PAUSE_MICROS && command is None)
            &&& (fired && !due && idx < len) ==> (final(timer).pattern_index == old(
                timer,
            ).pattern_index && final(timer).next_beat_time == old(timer).next_beat_time
                && command is None)
        }),
{
    let fired = timer.timer.tick(delta_micros);
    if !fired {
        return None;
    }
    let spawn_time = timer.next_beat_time - TRAVEL_TIME_MICROS;
    if current_time >= spawn_time - SPAWN_TOLERANCE_MICROS && timer.pattern_index
        < timer.current_pattern.len() {
        let entry = timer.current_pattern[timer.pattern_index];
        let target_time = timer.next_beat_time;
        let advanced = advance_target_time(timer.song_start_time, timer.next_beat_time, entry.0);
        timer.next_beat_time = advanced;
        timer.pattern_index = timer.pattern_index + 1;
        Some(SpawnCommand { lane: entry.1, duration: entry.0, target_time_micros: target_time })
    } else if timer.pattern_index >= timer.current_pattern.len() {
        timer.pattern_index = 0;
        timer.next_beat_time = current_time + PATTERN_RESTART_PAUSE_MICROS;
        None
    } else {
        None
    }
}

/// The chart entry at a given position of the demo pattern: four notes of
/// each duration from whole down to sixteenth, then sixteen more
/// sixteenths, the lanes cycling left to right throughout.
pub open spec fn spec_demo_entry(i: int) -> (NoteDuration, usize) {
    let duration = if i < 4 {
        NoteDuration::Whole
    } else if i < 8 {
        NoteDuration::Half
    } else if i < 12 {
        NoteDuration::Quarter
    } else if i < 16 {
        NoteDuration::Eighth
    } else {
        NoteDuration::Sixteenth
    };
    (duration, (i % 4) as usize)
}

/// Number of entries in the demo pattern.
pub const DEMO_PATTERN_LEN: usize = 36;

/// The demo chart: a timing exercise with four notes of every duration
/// and a closing run of sixteen fast sixteenths, cycling through the
/// lanes.
pub fn create_demo_pattern() -> (pattern: Vec<(NoteDuration, usize)>)
    ensures
        pattern@.len() == DEMO_PATTERN_LEN,
        forall|i: int| 0 <= i < DEMO_PATTERN_LEN ==> pattern@[i] == spec_demo_entry(i),
{
    let mut pattern: Vec<(NoteDuration, usize)> = Vec::new();
    let mut i: usize = 0;
    while i < DEMO_PATTERN_LEN
        invariant
            i <= DEMO_PATTERN_LEN,
            pattern@.len() == i,
            forall|j: int| 0 <= j < i ==> pattern@[j] == spec_demo_entry(j),
        decreases DEMO_PATTERN_LEN - i,
    {
        let duration = if i < 4 {
            NoteDuration::Whole
        } else if i < 8 {
            NoteDuration::Half
        } else if i < 12 {
            NoteDuration::Quarter
        } else if i < 16 {
            NoteDuration::Eighth
        } else {
            NoteDuration::Sixteenth
        };
        pattern.push((duration, i % 4));
        i = i + 1;
    }
    pattern
}

/// Press animations: advance every animation's countdown by the tick's
/// elapsed time and return the indices of the animations that finished,
/// in increasing order — the host restores those lanes' target squares to
/// their resting size and retires the animation.  While an animation
/// runs, the host derives the square's displayed size from the remaining
/// time.
pub fn animate_button_press(animations: &mut Vec<PressAnimation>, delta_micros: i64) -> (done:
    Vec<usize>)
    requires
        0 <= delta_micros,
        forall|j: int|
            0 <= j < old(animations)@.len() ==> (#[trigger] old(animations)@[j].timer).wf(),
    ensures
        final(animations)@.len() == old(animations)@.len(),
        forall|j: int|
            0 <= j < old(animations)@.len() ==> #[trigger] final(animations)@[j] == (
            PressAnimation {
                timer: CountdownTimer {
                    remaining_micros: spec_countdown_after(
                        old(animations)@[j].timer.remaining_micros as int,
                        delta_micros as int,
                    ) as i64,
                },
                ..old(animations)@[j]
            }),
        forall|k: int|
            0 <= k < done@.len() ==> done@[k] < old(animations)@.len() && 0 < old(
                animations,
            )@[done@[k] as int].timer.remaining_micros && old(
                animations,
            )@[done@[k] as int].timer.remaining_micros <= delta_micros,
        forall|k1: int, k2: int| 0 <= k1 < k2 < done@.len() ==> done@[k1] < done@[k2],
        forall|j: int|
            0 <= j < old(animations)@.len() && 0 < old(animations)@[j].timer.remaining_micros
                && old(animations)@[j].timer.remaining_micros <= delta_micros ==> done@.contains(
                j as usize,
            ),
{
    let mut done: Vec<usize> = Vec::new();
    let mut i: usize = 0;
    while i < animations.len()
        invariant
            i <= animations@.len(),
            animations@.len() == old(animations)@.len(),
            0 <= delta_micros,
            forall|j: int|
                0 <= j < animations@.len() ==> (#[trigger] old(animations)@[j].timer).wf(),
            forall|j: int| i <= j < animations@.len() ==> animations@[j] == old(animations)@[j],
            forall|j: int|
                0 <= j < i ==> #[trigger] animations@[j] == (PressAnimation {
                    timer: CountdownTimer {
                        remaining_micros: spec_countdown_after(
                            old(animations)@[j].timer.remaining_micros as int,
                            delta_micros as int,
                        ) as i64,
                    },
                    ..old(animations)@[j]
                }),
            forall|k: int|
                0 <= k < done@.len() ==> done@[k] < i && 0 < old(
                    animations,
                )@[done@[k] as int].timer.remaining_micros && old(
                    animations,
                )@[done@[k] as int].timer.remaining_micros <= delta_micros,
            forall|k1: int, k2: int| 0 <= k1 < k2 < done@.len() ==> done@[k1] < done@[k2],
            forall|j: int|
                0 <= j < i && 0 < old(animations)@[j].timer.remaining_micros && old(
                    animations,
                )@[j].timer.remaining_micros <= delta_micros ==> done@.contains(j as usize),
        decreases animations@.len() - i,
    {
        let mut animation = animations[i];
        let ghost pre = done@;
        let just_finished = animation.timer.tick(delta_micros);
        animations[i] = animation;
        if just_finished {
            done.push(i);
        }
        proof {
            assert forall|j: int|
                0 <= j < i + 1 && 0 < old(animations)@[j].timer.remaining_micros && old(
                    animations,
                )@[j].timer.remaining_micros <= delta_micros implies done@.contains(
                j as usize,
            ) by {
                if j == i {
                    assert(done@[pre.len() as int] == i as usize);
                } else {
                    let k = choose|k: int| 0 <= k < pre.len() && pre[k] == j as usize;
                    assert(done@[k] == j as usize);
                }
            }
        }
        i = i + 1;
    }
    done
}

} // verus!
