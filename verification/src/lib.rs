//! Beat-synchronization core for a rhythm game: a musical clock driven by
//! wall-clock deltas, a grace-window test that decides whether an input lands
//! close enough to a target beat, and a beat-counting timer for beat-scoped
//! effects. All time arithmetic is exact; no floating point is involved.

pub mod metronome;
pub mod metronome_timer;
pub mod window_size;
