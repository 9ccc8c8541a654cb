//! The metronome: a process-wide musical clock over a 16-step bar.
//!
//! The clock converts elapsed wall-clock nanoseconds into beat positions
//! using exact arithmetic. A step (one sixteenth note) lasts
//! `60_000_000_000 / (bpm * 4)` nanoseconds, which is rarely a whole number,
//! so the offset within the current step is stored scaled by `bpm * 4`:
//! one stored unit is `1 / (bpm * 4)` of a nanosecond, a nanosecond is
//! `bpm * 4` units, and a whole step is exactly `60_000_000_000` units
//! regardless of tempo. Every comparison against the step length is
//! integer-exact, so the beat grid never drifts over a long session.

use vstd::prelude::*;

verus! {

/// Nanoseconds in one minute. Measured in scaled phase units, this is also
/// the exact length of one sixteenth-note step at any tempo (see the module
/// documentation).
pub const NANOS_PER_MINUTE: u64 = 60_000_000_000;

/// The musical clock. One instance drives a whole session: it is advanced
/// once per frame by `metronome_system` and read by everything else.
#[derive(Clone, Copy, PartialEq, Eq, Structural, Debug)]
pub struct Metronome {
    /// Current position in the 16-step bar, always in `[0, 16)`.
    pub beat: u8,
    /// Beats per minute of the backing track, fixed for the session.
    pub bpm: u64,
    /// True only during the single frame in which `beat` advanced.
    pub is_beat_start_frame: bool,
    /// Offset within the current step, in units of `1 / (bpm * 4)` ns;
    /// `NANOS_PER_MINUTE` units make one whole step.
    pub nanos_accumulated: u128,
    /// While false the clock is paused and does not advance.
    pub started: bool,
}

impl Metronome {
    /// Well-formedness: the tempo is positive, `bpm * 4` fits a `u64`
    /// (the conversion factor between nanoseconds and phase units), and the
    /// beat lies within the bar.
    pub open spec fn wf(self) -> bool {
        &&& 1 <= self.bpm
        &&& 4 * self.bpm <= u64::MAX
        &&& self.beat < 16
    }

    /// The clock's offset lies strictly within one step. This holds after
    /// every tick whose delta spans at most one step; a larger delta leaves
    /// a surplus that drains over the following ticks.
    pub open spec fn phase_within_step(self) -> bool {
        self.nanos_accumulated < NANOS_PER_MINUTE
    }

    /// The beat whose start instant is nearest to the clock's current
    /// position: the current beat while less than half a step has elapsed,
    /// the previous beat (wrapping at the bar) afterwards.
    pub open spec fn closest_beat_spec(self) -> u8 {
        if 2 * self.nanos_accumulated < NANOS_PER_MINUTE {
            self.beat
        } else if self.beat == 0 {
            15
        } else {
            (self.beat - 1) as u8
        }
    }

    /// The grace-window test, stated over exact phase units. `shifted` is
    /// how many steps the clock sits past the target beat (negative when the
    /// target is still ahead); when the target lies at most half a bar in
    /// the past, the distance to it is the phase already spent in the
    /// current step, otherwise the time remaining until the next step
    /// boundary. Whole steps beyond the first along the shorter arc of the
    /// circular bar are added on top. The test passes when that total
    /// distance is at most `nanos_window` nanoseconds, compared exactly
    /// (one nanosecond is `4 * bpm` phase units).
    pub open spec fn in_window(self, target_beat: int, nanos_window: int) -> bool {
        let shifted: int = self.beat - target_beat;
        let on_beat_or_after_beat: bool = 0 <= shifted && shifted <= 8;
        let since_start_or_till_next: int = if on_beat_or_after_beat {
            self.nanos_accumulated as int
        } else {
            NANOS_PER_MINUTE - self.nanos_accumulated
        };
        let beat_distance: int = 8 - abs_spec(abs_spec(shifted) - 8);
        let whole_steps: int = if beat_distance - 1 > 0 { beat_distance - 1 } else { 0 };
        since_start_or_till_next + whole_steps * NANOS_PER_MINUTE
            <= nanos_window * (4 * self.bpm)
    }

    /// The state after one tick of `delta_nanos` elapsed wall-clock time:
    /// a paused clock only clears the beat-start flag; a running clock adds
    /// the delta to its phase and, when a whole step has accumulated,
    /// advances the beat by exactly one (wrapping at 16) and keeps the
    /// remainder. At most one step is consumed per tick.
    pub open spec fn ticked(self, delta_nanos: int) -> Metronome {
        if !self.started {
            Metronome { is_beat_start_frame: false, ..self }
        } else {
            let sum: int = self.nanos_accumulated + delta_nanos * (4 * self.bpm);
            if sum >= NANOS_PER_MINUTE {
                Metronome {
                    beat: if self.beat == 15 { 0 } else { (self.beat + 1) as u8 },
                    is_beat_start_frame: true,
                    nanos_accumulated: (sum - NANOS_PER_MINUTE) as u128,
                    ..self
                }
            } else {
                Metronome {
                    is_beat_start_frame: false,
                    nanos_accumulated: sum as u128,
                    ..self
                }
            }
        }
    }
}

/// Magnitude of an integer.
pub open spec fn abs_spec(x: int) -> int {
    if x < 0 {
        -x
    } else {
        x
    }
}

/// A fresh clock at the start of a session: beat 0, empty phase, paused.
pub fn initial_metronome(bpm: u64) -> (r: Metronome)
    requires
        1 <= bpm,
        4 * bpm <= u64::MAX,
    ensures
        r == (Metronome {
            beat: 0,
            bpm: bpm,
            is_beat_start_frame: false,
            nanos_accumulated: 0,
            started: false,
        }),
        r.wf(),
{
    Metronome {
        beat: 0,
        bpm: bpm,
        is_beat_start_frame: false,
        nanos_accumulated: 0,
        started: false,
    }
}

/// Advance the clock by one frame's elapsed wall-clock time. This is the
/// single writer of the shared clock and must run before anything that reads
/// it in the same frame.
pub fn metronome_system(metronome: &mut Metronome, delta_nanos: u64)
    requires
        old(metronome).wf(),
        old(metronome).started ==> old(metronome).nanos_accumulated
            + delta_nanos * (4 * old(metronome).bpm) <= u128::MAX,
    ensures
        *final(metronome) == old(metronome).ticked(delta_nanos as int),
        final(metronome).wf(),
        final(metronome).bpm == old(metronome).bpm,
        final(metronome).started == old(metronome).started,
        // the beat advances by exactly one (mod 16) on a beat-start frame
        // and is stable on every other frame
        final(metronome).is_beat_start_frame
            ==> final(metronome).beat == (old(metronome).beat + 1) % 16,
        !final(metronome).is_beat_start_frame
            ==> final(metronome).beat == old(metronome).beat,
        // a paused clock is inert: nothing moves, the flag is forced off
        !old(metronome).started ==> {
            &&& final(metronome).beat == old(metronome).beat
            &&& final(metronome).nanos_accumulated == old(metronome).nanos_accumulated
            &&& !final(metronome).is_beat_start_frame
        },
        // the phase stays within one step whenever the delta spans at most
        // one step
        old(metronome).started && old(metronome).phase_within_step()
            && delta_nanos * (4 * old(metronome).bpm) <= NANOS_PER_MINUTE
            ==> final(metronome).phase_within_step(),
{
    if metronome.started {
        let units_per_nano: u64 = 4 * metronome.bpm;
        let delta_units: u128 = (delta_nanos as u128) * (units_per_nano as u128);
        let sum: u128 = metronome.nanos_accumulated + delta_units;
        if sum >= NANOS_PER_MINUTE as u128 {
            metronome.is_beat_start_frame = true;
            metronome.beat = if metronome.beat == 15 { 0 } else { metronome.beat + 1 };
            metronome.nanos_accumulated = sum - NANOS_PER_MINUTE as u128;
        } else {
            metronome.is_beat_start_frame = false;
            metronome.nanos_accumulated = sum;
        }
    } else {
        metronome.is_beat_start_frame = false;
    }
}

/// Nanoseconds in one sixteenth-note step at the given tempo, rounded down
/// to a whole number. Only a rounded value can be returned here; the clock
/// itself never uses it and keeps exact phase units instead.
pub fn nanos_per_beat(bpm: u64) -> (r: u64)
    requires
        1 <= bpm,
    ensures
        r == NANOS_PER_MINUTE as int / (4 * bpm),
{
    let denom: u128 = 4 * (bpm as u128);
    let q: u128 = (NANOS_PER_MINUTE as u128) / denom;
    proof {
        assert(q <= NANOS_PER_MINUTE) by (nonlinear_arith)
            requires
                q == (NANOS_PER_MINUTE as u128) as int / denom as int,
                denom >= 1,
        ;
    }
    q as u64
}

/// Is the clock's current position within `nanos_window` nanoseconds of the
/// instant the target beat starts, in either direction around the circular
/// 16-step bar? The comparison is exact; no rounding is involved.
pub fn within_nanos_window(metronome: &Metronome, beat: u8, nanos_window: u64) -> (r: bool)
    requires
        metronome.wf(),
    ensures
        r == metronome.in_window(beat as int, nanos_window as int),
{
    let shifted: i32 = metronome.beat as i32 - beat as i32;
    let on_beat_or_after_beat: bool = shifted >= 0 && shifted <= 8;
    let abs_shifted: i32 = if shifted < 0 { -shifted } else { shifted };
    let folded: i32 = abs_shifted - 8;
    let abs_folded: i32 = if folded < 0 { -folded } else { folded };
    let beat_distance: i32 = 8 - abs_folded;
    let whole_steps: u128 = if beat_distance > 1 { (beat_distance - 1) as u128 } else { 0 };
    let units_per_nano: u64 = 4 * metronome.bpm;
    proof {
        assert((nanos_window as int) * (units_per_nano as int) <= u128::MAX)
            by (nonlinear_arith)
            requires
                0 <= nanos_window <= u64::MAX,
                0 <= units_per_nano <= u64::MAX,
        ;
    }
    let window_units: u128 = (nanos_window as u128) * (units_per_nano as u128);
    let step_units: u128 = NANOS_PER_MINUTE as u128;
    if on_beat_or_after_beat {
        // phase + whole_steps * step fits the window
        if metronome.nanos_accumulated > window_units {
            false
        } else {
            whole_steps * step_units <= window_units - metronome.nanos_accumulated
        }
    } else {
        // (step - phase) + whole_steps * step fits the window
        let until_units: u128 = whole_steps * step_units + step_units;
        if until_units <= metronome.nanos_accumulated {
            true
        } else {
            until_units - metronome.nanos_accumulated <= window_units
        }
    }
}

/// The beat whose start instant lies nearest to the clock's current
/// position, looking at most half a step in either direction.
pub fn closest_beat(metronome: &Metronome) -> (r: u8)
    ensures
        r == metronome.closest_beat_spec(),
{
    if metronome.nanos_accumulated < 30_000_000_000u128 {
        metronome.beat
    } else if metronome.beat == 0 {
        15
    } else {
        metronome.beat - 1
    }
}

/// The four strong beats of the bar, used for coarser gating.
pub open spec fn down_beats_spec() -> Seq<u8> {
    seq![0u8, 4u8, 8u8, 12u8]
}

/// The strong beats of the 16-step bar, in order.
pub fn down_beats(metronome: &Metronome) -> (r: Vec<u8>)
    ensures
        r@ == down_beats_spec(),
{
    let mut v: Vec<u8> = Vec::new();
    v.push(0);
    v.push(4);
    v.push(8);
    v.push(12);
    proof {
        assert(v@ =~= down_beats_spec());
    }
    v
}

/// Does the clock currently sit on one of the four strong beats?
pub fn is_down_beat(metronome: &Metronome) -> (r: bool)
    ensures
        r == down_beats_spec().contains(metronome.beat),
{
    let b: u8 = metronome.beat;
    let r: bool = b == 0 || b == 4 || b == 8 || b == 12;
    proof {
        if b == 0 {
            assert(down_beats_spec()[0] == b);
        } else if b == 4 {
            assert(down_beats_spec()[1] == b);
        } else if b == 8 {
            assert(down_beats_spec()[2] == b);
        } else if b == 12 {
            assert(down_beats_spec()[3] == b);
        } else {
            assert forall|i: int| 0 <= i < down_beats_spec().len()
                implies down_beats_spec()[i] != b by {}
        }
    }
    r
}

/// Flip the clock between running and paused. The position within the bar
/// is kept, so resuming continues exactly where the pause left off; the
/// caller is responsible for pausing and resuming the backing track with it.
pub fn toggle_started(metronome: &mut Metronome)
    ensures
        final(metronome).started == !old(metronome).started,
        final(metronome).beat == old(metronome).beat,
        final(metronome).bpm == old(metronome).bpm,
        final(metronome).nanos_accumulated == old(metronome).nanos_accumulated,
        final(metronome).is_beat_start_frame == old(metronome).is_beat_start_frame,
{
    metronome.started = !metronome.started;
}

impl Metronome {
    /// The state after a whole run of ticks, one per entry of `deltas`.
    pub open spec fn ticked_all(self, deltas: Seq<u64>) -> Metronome
        decreases deltas.len(),
    {
        if deltas.len() == 0 {
            self
        } else {
            self.ticked_all(deltas.drop_last()).ticked(deltas.last() as int)
        }
    }
}

/// Phase bound: over any run of ticks of a running, well-formed clock in
/// which every single delta spans at most one step, the offset within the
/// current step stays in `[0, one step)` after every tick. (A delta that
/// spans more than one step leaves a transient surplus instead, which
/// drains over the following ticks; such deltas are excluded here.)
pub proof fn lemma_phase_stays_within_step(m: Metronome, deltas: Seq<u64>)
    requires
        m.wf(),
        m.phase_within_step(),
        forall|i: int| 0 <= i < deltas.len()
            ==> (#[trigger] deltas[i]) * (4 * m.bpm) <= NANOS_PER_MINUTE,
    ensures
        forall|i: int| 0 <= i <= deltas.len() ==> {
            let part = #[trigger] m.ticked_all(deltas.subrange(0, i));
            &&& part.wf()
            &&& part.phase_within_step()
            &&& part.bpm == m.bpm
            &&& part.started == m.started
        },
    decreases deltas.len(),
{
    if deltas.len() == 0 {
        assert forall|i: int| 0 <= i <= deltas.len()
            implies {
                let part = #[trigger] m.ticked_all(deltas.subrange(0, i));
                &&& part.wf()
                &&& part.phase_within_step()
                &&& part.bpm == m.bpm
                &&& part.started == m.started
            } by {
            assert(m.ticked_all(deltas.subrange(0, i)) == m);
        }
    } else {
        let shorter = deltas.drop_last();
        lemma_phase_stays_within_step(m, shorter);
        assert forall|i: int| 0 <= i <= deltas.len()
            implies {
                let part = #[trigger] m.ticked_all(deltas.subrange(0, i));
                &&& part.wf()
                &&& part.phase_within_step()
                &&& part.bpm == m.bpm
                &&& part.started == m.started
            } by {
            if i < deltas.len() {
                assert(deltas.subrange(0, i) =~= shorter.subrange(0, i));
            } else {
                assert(deltas.subrange(0, i) =~= deltas);
                assert(shorter.subrange(0, shorter.len() as int) =~= shorter);
                let before = m.ticked_all(shorter);
                assert(m.ticked_all(deltas) == before.ticked(deltas.last() as int));
            }
        }
    }
}

/// A stopped clock is inert: with `started == false`, any run of ticks
/// leaves beat, phase and tempo untouched, and the beat-start flag is
/// forced off by the first tick.
pub proof fn lemma_stopped_clock_is_inert(m: Metronome, deltas: Seq<u64>)
    requires
        !m.started,
    ensures
        m.ticked_all(deltas).beat == m.beat,
        m.ticked_all(deltas).nanos_accumulated == m.nanos_accumulated,
        m.ticked_all(deltas).bpm == m.bpm,
        !m.ticked_all(deltas).started,
        deltas.len() > 0 ==> !m.ticked_all(deltas).is_beat_start_frame,
    decreases deltas.len(),
{
    if deltas.len() > 0 {
        lemma_stopped_clock_is_inert(m, deltas.drop_last());
    }
}

/// Window symmetry at the boundary instant: exactly at the start of a beat
/// (zero phase), the window test accepts that very beat for every
/// tolerance, including a tolerance of zero.
pub proof fn lemma_window_holds_at_beat_instant(m: Metronome, nanos_window: u64)
    requires
        m.wf(),
        m.nanos_accumulated == 0,
    ensures
        m.in_window(m.beat as int, nanos_window as int),
{
    assert((nanos_window as int) * (4 * m.bpm) >= 0) by (nonlinear_arith)
        requires
            nanos_window >= 0,
            m.bpm >= 0,
    ;
}

/// Window monotonicity: for a fixed clock state and target beat, widening
/// the tolerance never turns an accepted input into a rejected one.
pub proof fn lemma_window_monotone_in_tolerance(
    m: Metronome,
    target_beat: u8,
    narrow: u64,
    wide: u64,
)
    requires
        m.wf(),
        narrow <= wide,
        m.in_window(target_beat as int, narrow as int),
    ensures
        m.in_window(target_beat as int, wide as int),
{
    assert((narrow as int) * (4 * m.bpm) <= (wide as int) * (4 * m.bpm))
        by (nonlinear_arith)
        requires
            narrow <= wide,
            m.bpm >= 0,
    ;
}

} // verus!
