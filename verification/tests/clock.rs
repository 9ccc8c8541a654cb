use beat_clock::metronome::{
    closest_beat, down_beats, initial_metronome, is_down_beat, metronome_system, nanos_per_beat,
    toggle_started, Metronome,
};

/// One nanosecond in phase units at 60 bpm (4 * 60 units).
const UNITS_60: u128 = 240;

fn running(beat: u8, bpm: u64, nanos_accumulated: u128) -> Metronome {
    Metronome {
        beat,
        bpm,
        is_beat_start_frame: false,
        nanos_accumulated,
        started: true,
    }
}

#[test]
fn initial_metronome_fields() {
    let m = initial_metronome(85);
    assert_eq!(m.beat, 0);
    assert_eq!(m.bpm, 85);
    assert!(!m.is_beat_start_frame);
    assert_eq!(m.nanos_accumulated, 0);
    assert!(!m.started);
}

#[test]
fn nanos_per_beat_exact_division() {
    assert_eq!(nanos_per_beat(60), 250_000_000);
    assert_eq!(nanos_per_beat(100), 150_000_000);
}

#[test]
fn nanos_per_beat_rounds_down() {
    assert_eq!(nanos_per_beat(85), 176_470_588);
    assert_eq!(nanos_per_beat(7), 2_142_857_142);
}

#[test]
fn one_full_step_advances_the_beat() {
    let mut m = initial_metronome(60);
    toggle_started(&mut m);
    assert!(m.started);
    metronome_system(&mut m, 250_000_000);
    assert_eq!(m.beat, 1);
    assert_eq!(m.nanos_accumulated, 0);
    assert!(m.is_beat_start_frame);
}

#[test]
fn partial_frames_accumulate_exactly() {
    let mut m = initial_metronome(60);
    toggle_started(&mut m);
    metronome_system(&mut m, 100_000_000);
    assert_eq!(m.beat, 0);
    assert!(!m.is_beat_start_frame);
    assert_eq!(m.nanos_accumulated, 100_000_000 * UNITS_60);
    metronome_system(&mut m, 150_000_000);
    assert_eq!(m.beat, 1);
    assert!(m.is_beat_start_frame);
    assert_eq!(m.nanos_accumulated, 0);
}

#[test]
fn non_terminating_step_length_stays_exact() {
    // At 85 bpm a step is 60e9/340 ns, not a whole number of nanoseconds.
    // The floor of the step length must not yet advance the beat; one more
    // nanosecond must.
    let mut m = initial_metronome(85);
    toggle_started(&mut m);
    metronome_system(&mut m, 176_470_588);
    assert_eq!(m.beat, 0);
    assert!(!m.is_beat_start_frame);
    metronome_system(&mut m, 1);
    assert_eq!(m.beat, 1);
    assert!(m.is_beat_start_frame);
    // 176_470_589 ns * 340 units = 60_000_000_260, so 260 units remain.
    assert_eq!(m.nanos_accumulated, 260);
}

#[test]
fn beat_wraps_at_sixteen() {
    let mut m = running(15, 60, 0);
    metronome_system(&mut m, 250_000_000);
    assert_eq!(m.beat, 0);
    assert!(m.is_beat_start_frame);
}

#[test]
fn large_delta_advances_one_step_per_tick() {
    let mut m = initial_metronome(60);
    toggle_started(&mut m);
    // Two and a half steps in one frame: only one beat is consumed now,
    // the surplus drains on the next tick instead of skipping beats.
    metronome_system(&mut m, 625_000_000);
    assert_eq!(m.beat, 1);
    assert!(m.is_beat_start_frame);
    assert_eq!(m.nanos_accumulated, 375_000_000 * UNITS_60);
    metronome_system(&mut m, 0);
    assert_eq!(m.beat, 2);
    assert!(m.is_beat_start_frame);
    assert_eq!(m.nanos_accumulated, 125_000_000 * UNITS_60);
    metronome_system(&mut m, 0);
    assert_eq!(m.beat, 2);
    assert!(!m.is_beat_start_frame);
}

#[test]
fn stopped_clock_is_inert() {
    let mut m = running(7, 60, 42_000 * UNITS_60);
    m.started = false;
    for _ in 0..5 {
        metronome_system(&mut m, 250_000_000);
        assert_eq!(m.beat, 7);
        assert_eq!(m.nanos_accumulated, 42_000 * UNITS_60);
        assert!(!m.is_beat_start_frame);
        assert!(!m.started);
    }
}

#[test]
fn toggling_mid_bar_preserves_position() {
    let mut m = initial_metronome(60);
    toggle_started(&mut m);
    metronome_system(&mut m, 250_000_000);
    metronome_system(&mut m, 60_000_000);
    let beat_before = m.beat;
    let phase_before = m.nanos_accumulated;
    toggle_started(&mut m);
    assert!(!m.started);
    metronome_system(&mut m, 999_000_000);
    toggle_started(&mut m);
    assert!(m.started);
    assert_eq!(m.beat, beat_before);
    assert_eq!(m.nanos_accumulated, phase_before);
}

#[test]
fn closest_beat_rounds_to_nearer_boundary() {
    // Less than half a step in: the current beat is nearest.
    assert_eq!(closest_beat(&running(3, 60, 124_999_999 * UNITS_60)), 3);
    // Exactly half a step: already rounds to the previous beat.
    assert_eq!(closest_beat(&running(3, 60, 125_000_000 * UNITS_60)), 2);
    // Wraps to 15 from beat 0.
    assert_eq!(closest_beat(&running(0, 60, 200_000_000 * UNITS_60)), 15);
    assert_eq!(closest_beat(&running(0, 60, 0)), 0);
}

#[test]
fn phase_stays_within_one_step_across_mixed_frames() {
    // Frames of assorted lengths, each spanning at most one step: after
    // every tick the phase is inside the step and the beat moved by one
    // (mod 16) exactly on the frames that report a beat start.
    let step_ns = nanos_per_beat(85);
    let deltas = [16_666_667u64, 33_333_333, 7_000_000, step_ns, 1, 100_000_000];
    let mut m = initial_metronome(85);
    toggle_started(&mut m);
    for round in 0..200 {
        let prev_beat = m.beat;
        metronome_system(&mut m, deltas[round % deltas.len()]);
        assert!(m.nanos_accumulated < 60_000_000_000);
        if m.is_beat_start_frame {
            assert_eq!(m.beat, (prev_beat + 1) % 16);
        } else {
            assert_eq!(m.beat, prev_beat);
        }
    }
}

#[test]
fn down_beats_are_the_four_strong_beats() {
    let m = initial_metronome(60);
    assert_eq!(down_beats(&m), vec![0, 4, 8, 12]);
}

#[test]
fn is_down_beat_matches_the_list() {
    for beat in 0u8..16 {
        let m = running(beat, 60, 0);
        assert_eq!(is_down_beat(&m), beat % 4 == 0);
    }
}
