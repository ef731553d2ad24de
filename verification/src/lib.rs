//! A verified two-phase countdown timer.
//!
//! The library owns the phase state machine and the elapsed-time accounting:
//! how the run/pause flag gates the countdown, how monotonic-clock samples
//! become decrements of the remaining time, and how a phase's expiry flips
//! the timer into the other phase and emits a phase-change event. Rendering,
//! keyboard handling and the notification transport live outside it.

mod clock;
pub mod timer;

pub use timer::App;
pub use timer::Mode;
pub use timer::TimerModel;
