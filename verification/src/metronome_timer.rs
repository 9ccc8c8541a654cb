//! A beat-counting timer for beat-scoped effects.
//!
//! The timer measures its lifetime in beats of the shared metronome rather
//! than in wall-clock time, so it is robust against frame-rate jitter,
//! pausing and partial frames. It counts up on every beat-start frame and
//! wraps after reaching its configured duration, supporting both one-shot
//! consumers (which despawn on `just_finished`) and repeating ones.

use vstd::prelude::*;

use crate::metronome::Metronome;

verus! {

/// Where the timer is in its life cycle.
#[derive(Clone, Copy, PartialEq, Eq, Structural, Debug)]
pub enum MetronomeTimerState {
    /// Never ticked while the clock was running.
    NotStarted,
    /// Started noticeably after a beat, so the count waits for the next
    /// beat-start frame before it begins at zero.
    WaitingForFirstBeat,
    /// Counting beats; `beats_elapsed` stays in `[0, number_beats_duration]`.
    Counting { beats_elapsed: u8 },
}

/// A countdown measured in beats of the shared metronome.
#[derive(Clone, Copy, PartialEq, Eq, Structural, Debug)]
pub struct MetronomeTimer {
    /// Total lifetime in beats, fixed at construction, at least 1.
    pub number_beats_duration: u8,
    /// Current life-cycle state.
    pub timer_state: MetronomeTimerState,
    /// Wall-clock nanoseconds since the current cycle began; diagnostic
    /// only, the beat count never depends on it.
    pub elapsed_nanos: u128,
}

impl MetronomeTimer {
    /// Well-formedness: a positive duration, and a running count that never
    /// exceeds it.
    pub open spec fn wf(self) -> bool {
        &&& 1 <= self.number_beats_duration
        &&& (self.timer_state matches MetronomeTimerState::Counting { beats_elapsed }
            ==> beats_elapsed <= self.number_beats_duration)
    }

    /// The state after one tick against the given metronome snapshot.
    /// A paused clock leaves the timer untouched. Otherwise the wall-clock
    /// accumulator grows by the delta and the count advances: a fresh timer
    /// starts at zero when the clock sits nearest its current beat and waits
    /// for the next beat-start otherwise; a waiting timer begins at zero on
    /// a beat-start frame; a count that already reached the duration wraps
    /// back to zero (with the accumulator reset) before counting on.
    pub open spec fn ticked(self, metronome: Metronome, delta_nanos: int) -> MetronomeTimer {
        if !metronome.started {
            self
        } else {
            let elapsed: u128 = (self.elapsed_nanos + delta_nanos) as u128;
            match self.timer_state {
                MetronomeTimerState::NotStarted => MetronomeTimer {
                    timer_state: if metronome.closest_beat_spec() == metronome.beat {
                        MetronomeTimerState::Counting { beats_elapsed: 0 }
                    } else {
                        MetronomeTimerState::WaitingForFirstBeat
                    },
                    elapsed_nanos: elapsed,
                    ..self
                },
                MetronomeTimerState::WaitingForFirstBeat => MetronomeTimer {
                    timer_state: if metronome.is_beat_start_frame {
                        MetronomeTimerState::Counting { beats_elapsed: 0 }
                    } else {
                        MetronomeTimerState::WaitingForFirstBeat
                    },
                    elapsed_nanos: elapsed,
                    ..self
                },
                MetronomeTimerState::Counting { beats_elapsed } => {
                    let wrapped: bool = beats_elapsed == self.number_beats_duration;
                    let base: u8 = if wrapped { 0 } else { beats_elapsed };
                    let kept: u128 = if wrapped { 0 } else { elapsed };
                    MetronomeTimer {
                        timer_state: MetronomeTimerState::Counting {
                            beats_elapsed: if metronome.is_beat_start_frame {
                                (base + 1) as u8
                            } else {
                                base
                            },
                        },
                        elapsed_nanos: kept,
                        ..self
                    }
                },
            }
        }
    }

    /// True exactly on the frame where the count sits at the full duration
    /// and the beat advanced.
    pub open spec fn just_finished_spec(self, metronome: Metronome) -> bool {
        &&& self.timer_state matches MetronomeTimerState::Counting { beats_elapsed }
        &&& metronome.is_beat_start_frame
        &&& beats_elapsed == self.number_beats_duration
    }

    /// The externally visible beat count: zero before counting begins.
    pub open spec fn beats_elapsed_spec(self) -> u8 {
        match self.timer_state {
            MetronomeTimerState::Counting { beats_elapsed } => beats_elapsed,
            _ => 0,
        }
    }

    /// A fresh timer that will live for `number_beats_duration` beats.
    pub fn new(number_beats_duration: u8) -> (r: MetronomeTimer)
        requires
            1 <= number_beats_duration,
        ensures
            r == (MetronomeTimer {
                number_beats_duration: number_beats_duration,
                timer_state: MetronomeTimerState::NotStarted,
                elapsed_nanos: 0,
            }),
            r.wf(),
    {
        MetronomeTimer {
            number_beats_duration: number_beats_duration,
            timer_state: MetronomeTimerState::NotStarted,
            elapsed_nanos: 0,
        }
    }

    /// Advance the timer by one frame against the current metronome
    /// snapshot. A no-op while the clock is paused.
    pub fn tick(&mut self, metronome: &Metronome, delta_nanos: u64)
        requires
            old(self).wf(),
            metronome.started ==> old(self).elapsed_nanos + delta_nanos <= u128::MAX,
        ensures
            *final(self) == old(self).ticked(*metronome, delta_nanos as int),
            final(self).wf(),
            final(self).number_beats_duration == old(self).number_beats_duration,
    {
        if !metronome.started {
            return;
        }
        self.elapsed_nanos = self.elapsed_nanos + delta_nanos as u128;
        match self.timer_state {
            MetronomeTimerState::NotStarted => {
                let at_beat: bool = crate::metronome::closest_beat(metronome) == metronome.beat;
                self.timer_state = if at_beat {
                    MetronomeTimerState::Counting { beats_elapsed: 0 }
                } else {
                    MetronomeTimerState::WaitingForFirstBeat
                };
            },
            MetronomeTimerState::WaitingForFirstBeat => {
                if metronome.is_beat_start_frame {
                    self.timer_state = MetronomeTimerState::Counting { beats_elapsed: 0 };
                }
            },
            MetronomeTimerState::Counting { beats_elapsed } => {
                let mut base: u8 = beats_elapsed;
                if base == self.number_beats_duration {
                    self.elapsed_nanos = 0;
                    base = 0;
                }
                if metronome.is_beat_start_frame {
                    base = base + 1;
                }
                self.timer_state = MetronomeTimerState::Counting { beats_elapsed: base };
            },
        }
    }

    /// True exactly on the frame where the timer crossed its final beat
    /// boundary: the signal for one-shot consumers to stop their effect.
    pub fn just_finished(&self, metronome: &Metronome) -> (r: bool)
        ensures
            r == self.just_finished_spec(*metronome),
    {
        match self.timer_state {
            MetronomeTimerState::Counting { beats_elapsed } => {
                metronome.is_beat_start_frame && beats_elapsed == self.number_beats_duration
            },
            _ => false,
        }
    }

    /// How many beats have elapsed in the current cycle, clamped to zero
    /// before counting begins. Stable within a beat, so consumers may use
    /// it as a once-per-beat key.
    pub fn beats_elapsed(&self) -> (r: u8)
        ensures
            r == self.beats_elapsed_spec(),
    {
        match self.timer_state {
            MetronomeTimerState::Counting { beats_elapsed } => beats_elapsed,
            _ => 0,
        }
    }
}

impl MetronomeTimer {
    /// The state after ticking once against each metronome snapshot in
    /// `frames`, in order. The wall-clock delta is taken as zero: the beat
    /// count never depends on it (see
    /// `lemma_count_independent_of_delta`).
    pub open spec fn ticked_all(self, frames: Seq<Metronome>) -> MetronomeTimer
        decreases frames.len(),
    {
        if frames.len() == 0 {
            self
        } else {
            self.ticked_all(frames.drop_last()).ticked(frames.last(), 0)
        }
    }
}

/// How many of the given frames are beat-start frames.
pub open spec fn count_beat_starts(frames: Seq<Metronome>) -> int
    decreases frames.len(),
{
    if frames.len() == 0 {
        0
    } else {
        count_beat_starts(frames.drop_last())
            + if frames.last().is_beat_start_frame { 1int } else { 0 }
    }
}

/// A prefix of a run never holds more beat-start frames than the whole.
pub proof fn lemma_count_beat_starts_prefix(frames: Seq<Metronome>, i: int)
    requires
        0 <= i <= frames.len(),
    ensures
        0 <= count_beat_starts(frames.subrange(0, i)) <= count_beat_starts(frames),
    decreases frames.len() - i,
{
    if i == frames.len() {
        assert(frames.subrange(0, i) =~= frames);
        lemma_count_beat_starts_nonneg(frames);
    } else {
        lemma_count_beat_starts_prefix(frames, i + 1);
        lemma_count_beat_starts_nonneg(frames.subrange(0, i));
        assert(frames.subrange(0, i) =~= frames.subrange(0, i + 1).drop_last());
    }
}

/// The number of beat-start frames in a run is never negative.
pub proof fn lemma_count_beat_starts_nonneg(frames: Seq<Metronome>)
    ensures
        count_beat_starts(frames) >= 0,
    decreases frames.len(),
{
    if frames.len() > 0 {
        lemma_count_beat_starts_nonneg(frames.drop_last());
    }
}

/// The life-cycle state after a tick does not depend on the wall-clock
/// delta; only the diagnostic accumulator does.
pub proof fn lemma_count_independent_of_delta(
    t: MetronomeTimer,
    m: Metronome,
    delta_a: int,
    delta_b: int,
)
    ensures
        t.ticked(m, delta_a).timer_state == t.ticked(m, delta_b).timer_state,
        t.ticked(m, delta_a).number_beats_duration
            == t.ticked(m, delta_b).number_beats_duration,
{
}

/// A counting timer counts exactly the beat-start frames of a running
/// metronome: over any run of frames, all with the clock started, in which
/// the count never reaches the full duration before the final frame, the
/// count grows by precisely the number of beat-start frames seen.
pub proof fn lemma_timer_counts_beat_starts(
    t: MetronomeTimer,
    frames: Seq<Metronome>,
    from: u8,
)
    requires
        t.wf(),
        t.timer_state == (MetronomeTimerState::Counting { beats_elapsed: from }),
        forall|i: int| 0 <= i < frames.len() ==> (#[trigger] frames[i]).started,
        from + count_beat_starts(frames) <= t.number_beats_duration,
        frames.len() > 0
            ==> from + count_beat_starts(frames.drop_last()) < t.number_beats_duration,
    ensures
        t.ticked_all(frames).timer_state == (MetronomeTimerState::Counting {
            beats_elapsed: (from + count_beat_starts(frames)) as u8,
        }),
        t.ticked_all(frames).number_beats_duration == t.number_beats_duration,
        t.ticked_all(frames).wf(),
    decreases frames.len(),
{
    lemma_count_beat_starts_nonneg(frames);
    if frames.len() > 0 {
        let shorter = frames.drop_last();
        lemma_count_beat_starts_nonneg(shorter);
        if shorter.len() > 0 {
            assert(count_beat_starts(shorter.drop_last())
                <= count_beat_starts(shorter)) by {
                lemma_count_beat_starts_prefix(shorter, shorter.len() - 1);
                assert(shorter.subrange(0, shorter.len() - 1) =~= shorter.drop_last());
            }
        }
        lemma_timer_counts_beat_starts(t, shorter, from);
        assert(frames[frames.len() - 1].started);
    }
}

/// Duration exactness: a timer that began counting at zero, driven over a
/// run of frames of a running metronome that holds exactly its duration in
/// beat-start frames, the last frame being one of them, reports
/// `just_finished` on that last frame and on none before it.
pub proof fn lemma_timer_duration_exact(t: MetronomeTimer, frames: Seq<Metronome>)
    requires
        t.wf(),
        t.timer_state == (MetronomeTimerState::Counting { beats_elapsed: 0 }),
        forall|i: int| 0 <= i < frames.len() ==> (#[trigger] frames[i]).started,
        frames.len() > 0,
        frames.last().is_beat_start_frame,
        count_beat_starts(frames) == t.number_beats_duration,
    ensures
        t.ticked_all(frames).just_finished_spec(frames.last()),
        forall|i: int| 0 <= i < frames.len() - 1
            ==> !t.ticked_all(#[trigger] frames.subrange(0, i + 1))
                .just_finished_spec(frames[i]),
{
    let n = t.number_beats_duration;
    assert(count_beat_starts(frames.drop_last()) == n - 1);
    lemma_timer_counts_beat_starts(t, frames, 0);
    assert forall|i: int| 0 <= i < frames.len() - 1
        implies !t.ticked_all(#[trigger] frames.subrange(0, i + 1))
            .just_finished_spec(frames[i]) by {
        let part = frames.subrange(0, i + 1);
        assert(0 <= count_beat_starts(part) <= n - 1) by {
            lemma_count_beat_starts_prefix(frames.drop_last(), i + 1);
            assert(frames.drop_last().subrange(0, i + 1) =~= part);
        }
        assert(part.len() > 0 ==> count_beat_starts(part.drop_last())
            < t.number_beats_duration) by {
            lemma_count_beat_starts_prefix(part, part.len() - 1);
            assert(part.subrange(0, part.len() - 1) =~= part.drop_last());
        }
        assert(forall|j: int| 0 <= j < part.len() ==> (#[trigger] part[j]).started);
        lemma_timer_counts_beat_starts(t, part, 0);
    }
}

/// Repeat wraparound: once the count sits at the full duration (the frame
/// on which `just_finished` fired), a further tick of the running clock
/// starts an identical fresh cycle: the count returns to zero, consuming
/// the new frame's beat if it starts one, and the wall-clock accumulator
/// is cleared.
pub proof fn lemma_timer_repeats_after_finish(
    t: MetronomeTimer,
    m: Metronome,
    delta_nanos: int,
)
    requires
        t.wf(),
        t.timer_state == (MetronomeTimerState::Counting {
            beats_elapsed: t.number_beats_duration,
        }),
        m.started,
    ensures
        t.ticked(m, delta_nanos) == (MetronomeTimer {
            number_beats_duration: t.number_beats_duration,
            timer_state: MetronomeTimerState::Counting {
                beats_elapsed: if m.is_beat_start_frame { 1u8 } else { 0u8 },
            },
            elapsed_nanos: 0,
        }),
{
}

} // verus!
