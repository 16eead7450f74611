//! An analog clock face with an attached stopwatch.
//!
//! The library computes everything a host window needs for one repaint:
//! the hand positions of the live clock, the draw commands for a face, the
//! stopwatch state machine, and the `MM:SS.mmm` text for the elapsed time.
//! All time values are integers (milliseconds for the monotonic stopwatch
//! clock, nanoseconds for hand positions), so every computation is exact;
//! the host converts the symbolic draw commands to screen floats when it
//! paints them.

pub mod display;
pub mod face;
pub mod frame;
pub mod geometry;
pub mod reading;
pub mod stopwatch;
