//! Tests of the judgment engine: overlap scoring, tier mapping, the
//! best-candidate selection, and the miss path.

use rusty_rhythm::components::Note;
use rusty_rhythm::constants::{HIT_ZONE_HEIGHT_MPX, TARGET_Y_MPX};
use rusty_rhythm::resources::GameScore;
use rusty_rhythm::systems::{
    apply_judgment, check_note_hit, handle_missed_notes, overlap_milli_pct,
};
use rusty_rhythm::types::{judgment_for_overlap, Judgment};

fn live(lane: usize, y_mpx: i64) -> Note {
    Note { lane, y_mpx, target_triggered: false }
}

#[test]
fn tier_thresholds_are_inclusive_lower_bounds() {
    // Judgment tiering: overlaps of 100, 70, 69.999, 50, 49.999, 30,
    // 29.999 and 0 percent, in thousandths of a percent.
    let cases: [(i64, Judgment, u32, bool); 8] = [
        (100_000, Judgment::Excellent, 100, true),
        (70_000, Judgment::Excellent, 100, true),
        (69_999, Judgment::Great, 75, true),
        (50_000, Judgment::Great, 75, true),
        (49_999, Judgment::Good, 50, true),
        (30_000, Judgment::Good, 50, true),
        (29_999, Judgment::Okay, 25, false),
        (0, Judgment::Okay, 25, false),
    ];
    for (overlap, tier, points, keeps) in cases {
        let j = judgment_for_overlap(overlap);
        assert_eq!(j, tier);
        assert_eq!(j.points(), points);
        assert_eq!(j.keeps_streak(), keeps);
        // Streak behavior: every tier adds points; only the lowest resets
        // the streak.
        let mut score = GameScore { score: 1000, streak: 7 };
        apply_judgment(j, &mut score);
        assert_eq!(score.score, 1000 + points);
        assert_eq!(score.streak, if keeps { 8 } else { 0 });
    }
}

#[test]
fn overlap_falls_linearly_from_the_line() {
    assert_eq!(overlap_milli_pct(TARGET_Y_MPX), 100_000);
    assert_eq!(overlap_milli_pct(TARGET_Y_MPX + 6_000), 70_000);
    assert_eq!(overlap_milli_pct(TARGET_Y_MPX - 6_000), 70_000);
    assert_eq!(overlap_milli_pct(TARGET_Y_MPX + 10_000), 50_000);
    assert_eq!(overlap_milli_pct(TARGET_Y_MPX + 20_000), 0);
    // In the hit zone but past the note's own extent: zero overlap.
    assert_eq!(overlap_milli_pct(TARGET_Y_MPX + 30_000), 0);
    assert_eq!(overlap_milli_pct(TARGET_Y_MPX - 50_000), 0);
}

#[test]
fn single_press_consumes_only_the_best_candidate() {
    // At-most-one-winner: candidates with overlaps of 20%, 65% and 40% in
    // one lane; the press consumes exactly the 65% note.
    let notes = vec![
        live(2, TARGET_Y_MPX + 16_000),  // (20000-16000)*5 = 20%
        live(2, TARGET_Y_MPX + 7_000),   // (20000-7000)*5  = 65%
        live(2, TARGET_Y_MPX - 12_000),  // (20000-12000)*5 = 40%
    ];
    let mut score = GameScore { score: 0, streak: 3 };
    let hit = check_note_hit(2, &notes, &mut score).expect("a candidate wins");
    assert_eq!(hit.note_index, 1);
    assert_eq!(hit.overlap_milli_pct, 65_000);
    assert_eq!(hit.judgment, Judgment::Great);
    assert_eq!(score.score, 75);
    assert_eq!(score.streak, 4);
}

#[test]
fn tie_goes_to_the_first_candidate() {
    let notes = vec![
        live(0, TARGET_Y_MPX + 8_000),
        live(0, TARGET_Y_MPX - 8_000),
    ];
    let mut score = GameScore::default();
    let hit = check_note_hit(0, &notes, &mut score).expect("a candidate wins");
    assert_eq!(hit.note_index, 0);
    assert_eq!(hit.overlap_milli_pct, 60_000);
}

#[test]
fn press_without_candidate_is_a_no_op() {
    let notes = vec![
        live(1, TARGET_Y_MPX + 8_000),            // wrong lane
        live(0, TARGET_Y_MPX + 60_000),           // above the hit zone
        live(0, TARGET_Y_MPX - 51_000),           // below the hit zone
    ];
    let mut score = GameScore { score: 500, streak: 9 };
    assert!(check_note_hit(0, &notes, &mut score).is_none());
    assert_eq!(score.score, 500);
    assert_eq!(score.streak, 9);
}

#[test]
fn zero_overlap_candidate_still_scores_okay() {
    // In the hit zone but not overlapping the target square: judged, at
    // the lowest tier, and the streak resets.
    let notes = vec![live(3, TARGET_Y_MPX + 45_000)];
    let mut score = GameScore { score: 200, streak: 12 };
    let hit = check_note_hit(3, &notes, &mut score).expect("in-zone note is a candidate");
    assert_eq!(hit.overlap_milli_pct, 0);
    assert_eq!(hit.judgment, Judgment::Okay);
    assert_eq!(score.score, 225);
    assert_eq!(score.streak, 0);
}

#[test]
fn missed_note_resets_streak() {
    // Miss path: a note past `target_y - hit_zone_height` is removed and
    // the streak becomes zero even if it was positive.
    let notes = vec![
        live(0, TARGET_Y_MPX),
        live(1, TARGET_Y_MPX - HIT_ZONE_HEIGHT_MPX - 1),
    ];
    let mut score = GameScore { score: 300, streak: 6 };
    let missed = handle_missed_notes(&notes, &mut score);
    assert_eq!(missed, vec![1]);
    assert_eq!(score.score, 300);
    assert_eq!(score.streak, 0);
}

#[test]
fn no_miss_keeps_streak() {
    // Sitting exactly on the miss boundary is not yet a miss.
    let notes = vec![live(0, TARGET_Y_MPX - HIT_ZONE_HEIGHT_MPX)];
    let mut score = GameScore { score: 300, streak: 6 };
    let missed = handle_missed_notes(&notes, &mut score);
    assert!(missed.is_empty());
    assert_eq!(score.streak, 6);
}
