//! The coordination core of a keystroke counter: a shared score that advances
//! once every so many key presses, a three-press combo that starts a timed
//! bonus countdown, and the audio directives that accompany both.
//!
//! Every state change is a function from the shared state and one input (a
//! key press, a timer tick) to the next state and an ordered list of effects
//! for the caller to carry out while it still holds exclusive access.

pub mod audio;
pub mod dispatch;
pub mod effect;
pub mod keys;
pub mod listener;
pub mod mode;
pub mod persist;
pub mod runs;
pub mod state;
pub mod text;
pub mod timer;
