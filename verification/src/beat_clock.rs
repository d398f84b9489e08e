//! Drift-corrected beat arithmetic.
//!
//! A running target instant is advanced by a note's duration on every
//! firing.  Whenever the advance was one whole unsubdivided beat, the
//! instant is re-anchored ("snapped") to the nearest exact multiple of the
//! beat interval past the song epoch, so an unbounded run of whole-beat
//! advances stays phase-locked to the tempo while subdivided durations
//! accumulate additively, preserving their exact ratios within a beat.

use vstd::arithmetic::div_mod::{lemma_fundamental_div_mod, lemma_fundamental_div_mod_converse};
use vstd::prelude::*;

use crate::constants::{BEAT_INTERVAL_MICROS, MAX_TIME_MICROS, SCHEDULE_HORIZON_MICROS, SIXTEENTH_NOTE_MICROS};
use crate::types::NoteDuration;

verus! {

/// Quotient of `delta / interval` rounded to the nearest integer, with
/// ties away from zero.
pub open spec fn spec_round_div(delta: int, interval: int) -> int
    recommends
        0 < interval,
{
    if delta >= 0 {
        (delta + interval / 2) / interval
    } else {
        -((-delta + interval / 2) / interval)
    }
}

/// Rounding to the nearest multiple moves a value by at most half the
/// interval.
pub proof fn lemma_round_div_close(delta: int, interval: int)
    requires
        0 < interval,
    ensures
        delta - interval / 2 <= spec_round_div(delta, interval) * interval <= delta + interval
            / 2,
{
    let h = interval / 2;
    if delta >= 0 {
        let q = (delta + h) / interval;
        lemma_fundamental_div_mod(delta + h, interval);
        vstd::arithmetic::div_mod::lemma_mod_bound(delta + h, interval);
        assert(interval * q == delta + h - ((delta + h) % interval));
        assert(interval * q == q * interval) by (nonlinear_arith);
    } else {
        let q = (-delta + h) / interval;
        lemma_fundamental_div_mod(-delta + h, interval);
        vstd::arithmetic::div_mod::lemma_mod_bound(-delta + h, interval);
        assert(interval * q == -delta + h - ((-delta + h) % interval));
        assert(interval * q == q * interval) by (nonlinear_arith);
        assert((-q) * interval == -(q * interval)) by (nonlinear_arith);
    }
}

/// Rounding an exact multiple of the interval returns its factor.
pub proof fn lemma_round_div_of_multiple(k: int, interval: int)
    requires
        0 < interval,
    ensures
        spec_round_div(k * interval, interval) == k,
{
    let h = interval / 2;
    if k >= 0 {
        assert(k * interval >= 0) by (nonlinear_arith)
            requires
                k >= 0,
                interval > 0,
        ;
        lemma_fundamental_div_mod_converse(k * interval + h, interval, k, h);
    } else {
        assert(k * interval < 0) by (nonlinear_arith)
            requires
                k < 0,
                interval > 0,
        ;
        assert(-(k * interval) == (-k) * interval) by (nonlinear_arith);
        lemma_fundamental_div_mod_converse((-k) * interval + h, interval, -k, h);
    }
}

/// Quotient of `delta / interval` rounded to the nearest integer, with
/// ties away from zero.
pub fn round_div(delta: i64, interval: i64) -> (q: i64)
    requires
        0 < interval <= MAX_TIME_MICROS,
        -3 * MAX_TIME_MICROS <= delta <= 3 * MAX_TIME_MICROS,
    ensures
        q == spec_round_div(delta as int, interval as int),
{
    let half = interval / 2;
    if delta >= 0 {
        (delta + half) / interval
    } else {
        -((-delta + half) / interval)
    }
}

/// The instant on the exact beat grid nearest to `t`: the song epoch plus
/// the rounded number of whole beats between the epoch and `t`.
pub open spec fn spec_snap_to_beat(song_start: int, t: int) -> int {
    song_start + spec_round_div(t - song_start, BEAT_INTERVAL_MICROS as int)
        * BEAT_INTERVAL_MICROS
}

/// Re-anchor `t` to the exact beat grid of the song epoch.
pub fn snap_to_beat(song_start: i64, t: i64) -> (snapped: i64)
    requires
        0 <= song_start <= MAX_TIME_MICROS,
        -MAX_TIME_MICROS <= t <= 2 * MAX_TIME_MICROS,
    ensures
        snapped == spec_snap_to_beat(song_start as int, t as int),
        t - BEAT_INTERVAL_MICROS / 2 <= snapped <= t + BEAT_INTERVAL_MICROS / 2,
{
    proof {
        lemma_round_div_close(t - song_start, BEAT_INTERVAL_MICROS as int);
    }
    let beats = round_div(t - song_start, BEAT_INTERVAL_MICROS);
    song_start + beats * BEAT_INTERVAL_MICROS
}

/// A point on the exact beat grid is a fixed point of the snap.
pub proof fn lemma_snap_fixed_on_grid(song_start: int, k: int)
    ensures
        spec_snap_to_beat(song_start, song_start + k * BEAT_INTERVAL_MICROS) == song_start + k
            * BEAT_INTERVAL_MICROS,
{
    lemma_round_div_of_multiple(k, BEAT_INTERVAL_MICROS as int);
}

/// The scheduler's advance of its target instant by one note: add the
/// note's duration, and re-anchor to the beat grid when that duration was
/// one whole beat.
pub open spec fn spec_advance_for(song_start: int, next: int, duration: NoteDuration) -> int {
    let bumped = next + duration.spec_micros();
    if duration.spec_is_whole_beat() {
        spec_snap_to_beat(song_start, bumped)
    } else {
        bumped
    }
}

/// Advance the target instant by one note's duration, with drift
/// correction on whole-beat advances.
pub fn advance_target_time(song_start: i64, next: i64, duration: NoteDuration) -> (advanced: i64)
    requires
        0 <= song_start <= MAX_TIME_MICROS,
        -MAX_TIME_MICROS <= next <= SCHEDULE_HORIZON_MICROS,
    ensures
        advanced == spec_advance_for(song_start as int, next as int, duration),
        next + duration.spec_micros() - BEAT_INTERVAL_MICROS / 2 <= advanced <= next
            + duration.spec_micros() + BEAT_INTERVAL_MICROS / 2,
{
    let bumped = next + duration.to_micros();
    if duration.is_whole_beat() {
        snap_to_beat(song_start, bumped)
    } else {
        bumped
    }
}

/// `n` whole-beat advances applied one after another, starting from the
/// song epoch itself.
pub open spec fn spec_iterated_whole_beats(song_start: int, n: nat) -> int
    decreases n,
{
    if n == 0 {
        song_start
    } else {
        spec_advance_for(
            song_start,
            spec_iterated_whole_beats(song_start, (n - 1) as nat),
            NoteDuration::Quarter,
        )
    }
}

/// Drift bound: any number of consecutive whole-beat advances starting
/// from the song epoch lands exactly on the epoch plus that many beat
/// intervals — the snap keeps the clock phase-locked for an unbounded run.
pub proof fn lemma_drift_bound(song_start: int, n: nat)
    ensures
        spec_iterated_whole_beats(song_start, n) == song_start + n * BEAT_INTERVAL_MICROS,
    decreases n,
{
    if n == 0 {
        assert(song_start + 0 * BEAT_INTERVAL_MICROS == song_start);
    } else {
        lemma_drift_bound(song_start, (n - 1) as nat);
        assert((n - 1) * BEAT_INTERVAL_MICROS + BEAT_INTERVAL_MICROS == n
            * BEAT_INTERVAL_MICROS) by (nonlinear_arith);
        lemma_snap_fixed_on_grid(song_start, n as int);
    }
}

/// The metronome's advance stays phase-locked: a beat noticed anywhere
/// within the half beat after its scheduled grid instant is re-anchored
/// to exactly the following grid instant, however irregular the tick that
/// noticed it.
pub proof fn lemma_metronome_advance_on_grid(song_start: int, k: int, current: int)
    requires
        song_start + k * BEAT_INTERVAL_MICROS <= current,
        current < song_start + k * BEAT_INTERVAL_MICROS + BEAT_INTERVAL_MICROS / 2,
    ensures
        song_start + (spec_round_div(current - song_start, BEAT_INTERVAL_MICROS as int) + 1)
            * BEAT_INTERVAL_MICROS == song_start + (k + 1) * BEAT_INTERVAL_MICROS,
{
    let b = BEAT_INTERVAL_MICROS as int;
    let h = b / 2;
    let delta = current - song_start;
    let r = delta - k * b;
    if delta >= 0 {
        lemma_fundamental_div_mod_converse(delta + h, b, k, r + h);
    } else {
        assert((-k) * b == -(k * b)) by (nonlinear_arith);
        lemma_fundamental_div_mod_converse(-delta + h, b, -k, h - r);
    }
    assert((spec_round_div(delta, b) + 1) * b == (k + 1) * b);
}

/// Subdivision fidelity: from any instant on the beat grid, four
/// sixteenth-note advances accumulate additively — none of them is
/// snapped — and their sum equals exactly the one whole-beat advance from
/// the same instant.
pub proof fn lemma_subdivision_fidelity(song_start: int, k: int)
    ensures
        !NoteDuration::Sixteenth.spec_is_whole_beat(),
        ({
            let next0 = song_start + k * BEAT_INTERVAL_MICROS;
            let s1 = spec_advance_for(song_start, next0, NoteDuration::Sixteenth);
            let s2 = spec_advance_for(song_start, s1, NoteDuration::Sixteenth);
            let s3 = spec_advance_for(song_start, s2, NoteDuration::Sixteenth);
            let s4 = spec_advance_for(song_start, s3, NoteDuration::Sixteenth);
            &&& s1 == next0 + SIXTEENTH_NOTE_MICROS
            &&& s2 == next0 + 2 * SIXTEENTH_NOTE_MICROS
            &&& s3 == next0 + 3 * SIXTEENTH_NOTE_MICROS
            &&& s4 == next0 + BEAT_INTERVAL_MICROS
            &&& s4 == spec_advance_for(song_start, next0, NoteDuration::Quarter)
        }),
{
    lemma_snap_fixed_on_grid(song_start, k + 1);
}

} // verus!
