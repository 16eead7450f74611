//! One repaint of the widget: the live clock face, the wall-clock heading,
//! the stopwatch's face and its readout, computed together from the two
//! clocks the host supplies.

use vstd::prelude::*;

use crate::display::{elapsed_text, format_elapsed, format_wall_clock, wall_clock_text};
use crate::face::{face_commands, render_face, DrawCommand, Region};
use crate::reading::ClockReading;
use crate::stopwatch::Stopwatch;

verus! {

/// Everything the host needs to paint one frame.
pub struct Frame {
    /// The face of the live wall clock.
    pub live_face: Vec<DrawCommand>,
    /// The wall clock as `HH:MM:SS` on the twenty-four-hour dial.
    pub heading: String,
    /// The face showing the stopwatch's elapsed time.
    pub elapsed_face: Vec<DrawCommand>,
    /// The stopwatch's readout as `MM:SS.mmm`.
    pub elapsed_label: String,
}

/// Computes one repaint: the live face from the wall-clock components
/// (wrapped onto the twelve-hour dial), the heading from the same
/// components, and the stopwatch's face and readout from its elapsed time
/// at the monotonic instant `now_ms`. Reads nothing but its arguments and
/// changes nothing.
pub fn compose_frame(
    live_region: Region,
    elapsed_region: Region,
    hour24: u32,
    minute: u32,
    second: u32,
    nanos: u32,
    sw: &Stopwatch,
    now_ms: u64,
) -> (f: Frame)
    requires
        hour24 < 24,
        minute < 60,
        second < 60,
        nanos < 1_000_000_000,
        sw.spec_elapsed(now_ms) <= u64::MAX,
    ensures
        f.live_face@ == face_commands(
            live_region,
            ClockReading::spec_from_components(hour24 % 12, minute, second, nanos),
        ),
        f.heading@ == wall_clock_text(hour24 as int, minute as int, second as int),
        f.elapsed_face@ == face_commands(
            elapsed_region,
            ClockReading::spec_from_elapsed_ms(sw.spec_elapsed(now_ms) as u64),
        ),
        f.elapsed_label@ == elapsed_text(sw.spec_elapsed(now_ms)),
{
    let live_reading = ClockReading::from_components(hour24 % 12, minute, second, nanos);
    let elapsed_ms: u64 = sw.time(now_ms);
    let elapsed_reading = ClockReading::from_elapsed_ms(elapsed_ms);
    Frame {
        live_face: render_face(live_region, &live_reading),
        heading: format_wall_clock(hour24, minute, second),
        elapsed_face: render_face(elapsed_region, &elapsed_reading),
        elapsed_label: format_elapsed(elapsed_ms),
    }
}

/// The label of the start/stop button: it names the transition a click
/// would make, so it reads `halt` while a run is open and `start` while
/// the stopwatch is halted.
pub fn toggle_button_label(running: bool) -> (label: &'static str)
    ensures
        running ==> label@ == "halt"@,
        !running ==> label@ == "start"@,
{
    if running {
        "halt"
    } else {
        "start"
    }
}

} // verus!
