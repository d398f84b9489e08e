//! Tests of the note scheduler, the chart, note movement and arrival, and
//! the self-expiring effects.

use rusty_rhythm::components::{FlashTimer, Note, PressAnimation, ScoreText};
use rusty_rhythm::constants::{
    BEAT_INTERVAL_MICROS, FIRST_TARGET_TIME_MICROS, FLASH_LIFETIME_MICROS, LANE_COUNT,
    MICROS_PER_SEC, NOTE_SPEED_MPX_PER_SEC, OFFSCREEN_Y_MPX, PATTERN_RESTART_PAUSE_MICROS,
    PRESS_ANIMATION_MICROS, SCORE_TEXT_LIFETIME_MICROS, SONG_START_MICROS,
    SPAWN_CHECK_PERIOD_MICROS, SPAWN_Y_MPX, TARGET_Y_MPX, TRAVEL_TIME_MICROS,
};
use rusty_rhythm::beat_clock::advance_target_time;
use rusty_rhythm::constants::lane_x_mpx;
use rusty_rhythm::resources::{GameScore, NoteSpawnTimer};
use rusty_rhythm::systems::{
    animate_button_press, cleanup_notes, cleanup_score_text, create_demo_pattern,
    handle_metronome_flash, move_notes, note_target_detection, spawn_notes, DEMO_PATTERN_LEN,
};
use rusty_rhythm::timers::{CountdownTimer, RepeatingTimer};
use rusty_rhythm::types::{ColorClass, NoteDuration};

fn scheduler_with(pattern: Vec<(NoteDuration, usize)>) -> NoteSpawnTimer {
    let mut timer = NoteSpawnTimer::default();
    timer.current_pattern = pattern;
    timer
}

#[test]
fn defaults_match_the_song_setup() {
    let timer = NoteSpawnTimer::default();
    assert_eq!(timer.timer.period_micros, SPAWN_CHECK_PERIOD_MICROS);
    assert!(timer.current_pattern.is_empty());
    assert_eq!(timer.pattern_index, 0);
    assert_eq!(timer.next_beat_time, FIRST_TARGET_TIME_MICROS);
    assert_eq!(timer.song_start_time, SONG_START_MICROS);
    let score = GameScore::default();
    assert_eq!(score.score, 0);
    assert_eq!(score.streak, 0);
}

#[test]
fn pattern_loops_after_a_pause() {
    // Pattern loop: a two-entry chart is emitted, the index wraps to zero
    // with the target instant reset to the current time plus the pause,
    // and after the pause the first entry comes again.
    let mut timer = scheduler_with(vec![
        (NoteDuration::Quarter, 0),
        (NoteDuration::Quarter, 1),
    ]);
    let period = SPAWN_CHECK_PERIOD_MICROS;

    // First target instant is 2 s, travel time 4 s: both entries are
    // already due once the pace timer fires.
    let c1 = spawn_notes(&mut timer, period, period).expect("first entry");
    assert_eq!(c1.lane, 0);
    assert_eq!(c1.duration, NoteDuration::Quarter);
    assert_eq!(c1.target_time_micros, FIRST_TARGET_TIME_MICROS);
    assert_eq!(timer.pattern_index, 1);
    assert_eq!(timer.next_beat_time, FIRST_TARGET_TIME_MICROS + BEAT_INTERVAL_MICROS);

    let c2 = spawn_notes(&mut timer, 2 * period, period).expect("second entry");
    assert_eq!(c2.lane, 1);
    assert_eq!(timer.pattern_index, 2);

    // Chart exhausted: the next firing restarts it.
    let now = 3 * period;
    assert!(spawn_notes(&mut timer, now, period).is_none());
    assert_eq!(timer.pattern_index, 0);
    assert_eq!(timer.next_beat_time, now + PATTERN_RESTART_PAUSE_MICROS);

    // The restarted first entry is not due before the pause has brought
    // its spawn instant near, and comes again afterwards.
    let again = spawn_notes(&mut timer, now + period, period).expect("first entry again");
    assert_eq!(again.lane, 0);
    assert_eq!(again.target_time_micros, now + PATTERN_RESTART_PAUSE_MICROS);
    assert_eq!(timer.pattern_index, 1);
}

#[test]
fn empty_pattern_idles_forever() {
    let mut timer = scheduler_with(Vec::new());
    for step in 1..=20i64 {
        let now = step * SPAWN_CHECK_PERIOD_MICROS;
        assert!(spawn_notes(&mut timer, now, SPAWN_CHECK_PERIOD_MICROS).is_none());
        assert_eq!(timer.pattern_index, 0);
    }
}

#[test]
fn note_not_yet_due_is_not_spawned() {
    // A chart whose first arrival lies far ahead: the scheduler fires its
    // pace timer but emits nothing until the spawn instant minus the
    // tolerance is reached.
    let mut timer = scheduler_with(vec![(NoteDuration::Whole, 2)]);
    timer.next_beat_time = 10 * MICROS_PER_SEC;
    let spawn_instant = timer.next_beat_time - TRAVEL_TIME_MICROS;
    assert!(spawn_notes(&mut timer, spawn_instant - 60_000, SPAWN_CHECK_PERIOD_MICROS).is_none());
    assert_eq!(timer.pattern_index, 0);
    let c = spawn_notes(&mut timer, spawn_instant - 40_000, SPAWN_CHECK_PERIOD_MICROS)
        .expect("inside the tolerance window");
    assert_eq!(c.lane, 2);
}

#[test]
fn scheduler_applies_snap_only_on_whole_beats() {
    // A sixteenth advance accumulates additively even from an off-grid
    // instant; a quarter advance is re-anchored to the grid.
    let start = SONG_START_MICROS;
    let off_grid = start + BEAT_INTERVAL_MICROS + 30_000;
    let s = advance_target_time(start, off_grid, NoteDuration::Sixteenth);
    assert_eq!(s, off_grid + NoteDuration::Sixteenth.to_micros());
    let q = advance_target_time(start, off_grid, NoteDuration::Quarter);
    assert_eq!(q, start + 2 * BEAT_INTERVAL_MICROS);
}

#[test]
fn demo_pattern_walks_the_durations() {
    let pattern = create_demo_pattern();
    assert_eq!(pattern.len(), DEMO_PATTERN_LEN);
    assert_eq!(pattern[0], (NoteDuration::Whole, 0));
    assert_eq!(pattern[3], (NoteDuration::Whole, 3));
    assert_eq!(pattern[4], (NoteDuration::Half, 0));
    assert_eq!(pattern[11], (NoteDuration::Quarter, 3));
    assert_eq!(pattern[12], (NoteDuration::Eighth, 0));
    assert_eq!(pattern[17], (NoteDuration::Sixteenth, 1));
    assert_eq!(pattern[35], (NoteDuration::Sixteenth, 3));
    for (i, (_, lane)) in pattern.iter().enumerate() {
        assert_eq!(*lane, i % 4);
        assert!(*lane < LANE_COUNT);
    }
}

#[test]
fn notes_fall_at_the_note_speed() {
    let mut notes = vec![
        Note { lane: 0, y_mpx: SPAWN_Y_MPX, target_triggered: false },
        Note { lane: 3, y_mpx: TARGET_Y_MPX + 10_000, target_triggered: true },
    ];
    // One fiftieth of a second: 150 000 mpx/s becomes 3 000 mpx.
    move_notes(&mut notes, MICROS_PER_SEC / 50);
    assert_eq!(notes[0].y_mpx, SPAWN_Y_MPX - NOTE_SPEED_MPX_PER_SEC / 50);
    assert_eq!(notes[1].y_mpx, TARGET_Y_MPX + 10_000 - 3_000);
    assert!(notes[1].target_triggered);
}

#[test]
fn a_note_travels_to_the_line_in_the_travel_time() {
    let mut notes = vec![Note { lane: 0, y_mpx: SPAWN_Y_MPX, target_triggered: false }];
    for _ in 0..40 {
        move_notes(&mut notes, TRAVEL_TIME_MICROS / 40);
    }
    assert_eq!(notes[0].y_mpx, TARGET_Y_MPX);
}

#[test]
fn arrival_is_noticed_exactly_once() {
    let mut notes = vec![
        Note { lane: 0, y_mpx: TARGET_Y_MPX + 5_000, target_triggered: false },
        Note { lane: 1, y_mpx: TARGET_Y_MPX + 200_000, target_triggered: false },
    ];
    let arrived = note_target_detection(&mut notes);
    assert_eq!(arrived, vec![0]);
    assert!(notes[0].target_triggered);
    assert!(!notes[1].target_triggered);
    // The one-shot flag suppresses a second arrival report.
    let again = note_target_detection(&mut notes);
    assert!(again.is_empty());
}

#[test]
fn offscreen_notes_are_collected() {
    let notes = vec![
        Note { lane: 0, y_mpx: OFFSCREEN_Y_MPX - 1, target_triggered: true },
        Note { lane: 1, y_mpx: OFFSCREEN_Y_MPX, target_triggered: false },
        Note { lane: 2, y_mpx: OFFSCREEN_Y_MPX - 90_000, target_triggered: false },
    ];
    let gone = cleanup_notes(&notes);
    assert_eq!(gone, vec![0, 2]);
}

#[test]
fn score_text_expires_after_its_lifetime() {
    let mut texts = vec![
        ScoreText { timer: CountdownTimer::new(SCORE_TEXT_LIFETIME_MICROS) },
        ScoreText { timer: CountdownTimer::new(SCORE_TEXT_LIFETIME_MICROS / 4) },
    ];
    let expired = cleanup_score_text(&mut texts, SCORE_TEXT_LIFETIME_MICROS / 2);
    assert_eq!(expired, vec![1]);
    assert_eq!(texts[0].timer.remaining_micros, SCORE_TEXT_LIFETIME_MICROS / 2);
    let expired = cleanup_score_text(&mut texts, SCORE_TEXT_LIFETIME_MICROS / 2);
    assert_eq!(expired, vec![0, 1]);
}

#[test]
fn flash_turns_off_exactly_once() {
    let mut flashes = vec![FlashTimer { timer: CountdownTimer::new(FLASH_LIFETIME_MICROS) }];
    assert!(handle_metronome_flash(&mut flashes, FLASH_LIFETIME_MICROS / 2).is_empty());
    let done = handle_metronome_flash(&mut flashes, FLASH_LIFETIME_MICROS);
    assert_eq!(done, vec![0]);
    // Already exhausted: not reported again.
    assert!(handle_metronome_flash(&mut flashes, FLASH_LIFETIME_MICROS).is_empty());
}

#[test]
fn press_animation_settles_after_its_lifetime() {
    let mut animations = vec![
        PressAnimation { timer: CountdownTimer::new(PRESS_ANIMATION_MICROS), lane: 2 },
        PressAnimation { timer: CountdownTimer::new(PRESS_ANIMATION_MICROS / 2), lane: 0 },
    ];
    let settled = animate_button_press(&mut animations, PRESS_ANIMATION_MICROS / 2);
    assert_eq!(settled, vec![1]);
    assert_eq!(animations[0].timer.remaining_micros, PRESS_ANIMATION_MICROS / 2);
    assert_eq!(animations[0].lane, 2);
    let settled = animate_button_press(&mut animations, PRESS_ANIMATION_MICROS / 2);
    assert_eq!(settled, vec![0]);
}

#[test]
fn lanes_sit_symmetrically_around_the_centre() {
    assert_eq!(lane_x_mpx(0), -150_000);
    assert_eq!(lane_x_mpx(1), -50_000);
    assert_eq!(lane_x_mpx(2), 50_000);
    assert_eq!(lane_x_mpx(3), 150_000);
}

#[test]
fn durations_and_colors_match_the_chart_legend() {
    assert_eq!(NoteDuration::Whole.to_micros(), 4 * BEAT_INTERVAL_MICROS);
    assert_eq!(NoteDuration::Half.to_micros(), 2 * BEAT_INTERVAL_MICROS);
    assert_eq!(NoteDuration::Quarter.to_micros(), BEAT_INTERVAL_MICROS);
    assert_eq!(NoteDuration::Eighth.to_micros(), BEAT_INTERVAL_MICROS / 2);
    assert_eq!(NoteDuration::Sixteenth.to_micros(), BEAT_INTERVAL_MICROS / 4);
    assert_eq!(NoteDuration::Triplet.to_micros(), 666_667);
    assert_eq!(NoteDuration::Whole.name(), "Whole");
    assert_eq!(NoteDuration::Triplet.name(), "Triplet");
    assert_eq!(NoteDuration::Whole.color(), ColorClass::Red);
    assert_eq!(NoteDuration::Half.color(), ColorClass::Red);
    assert_eq!(NoteDuration::Quarter.color(), ColorClass::Red);
    assert_eq!(NoteDuration::Eighth.color(), ColorClass::Blue);
    assert_eq!(NoteDuration::Sixteenth.color(), ColorClass::Green);
    assert_eq!(NoteDuration::Triplet.color(), ColorClass::Yellow);
}

#[test]
fn spawn_checks_are_paced_by_the_repeating_timer() {
    let mut timer = scheduler_with(vec![(NoteDuration::Quarter, 0)]);
    // A tick shorter than the check period: the pace timer does not fire
    // and nothing is scheduled, however due the note is.
    assert!(spawn_notes(&mut timer, 50_000, 50_000).is_none());
    assert_eq!(timer.pattern_index, 0);
    // The next tick completes the period and the note comes.
    assert!(spawn_notes(&mut timer, 100_000, 50_000).is_some());
    assert_eq!(timer.pattern_index, 1);
    // The pace timer state is part of the scheduler's record.
    let fresh = RepeatingTimer::new(SPAWN_CHECK_PERIOD_MICROS);
    assert_eq!(fresh.elapsed_micros, 0);
}
