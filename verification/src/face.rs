//! The clock face renderer: turns a region and a reading into the list of
//! draw commands for one analog face.
//!
//! The commands are symbolic: a circle, and radial segments given by their
//! angle and their two distances from the center. The host converts each
//! radial segment to cartesian endpoints when it paints (see
//! `geometry::polar_to_cartesian` for the exact conversion convention).

use vstd::prelude::*;

use crate::geometry::{Point, TurnFraction};
use crate::reading::{
    ClockReading, HOUR_HAND_PERIOD_NS, MINUTE_HAND_PERIOD_NS, SECOND_HAND_PERIOD_NS,
};

verus! {

/// The palette of the face; the host maps each role to a concrete colour.
#[derive(Clone, Copy, PartialEq, Eq, Structural, Debug)]
pub enum Color {
    /// Frame and tick marks.
    Gray,
    /// The second hand, the most visually distinct.
    Red,
    /// The minute hand's accent.
    LightBlue,
    /// The hour hand.
    White,
}

/// One primitive for the host's drawing surface. Coordinates are whole
/// pixels; stroke widths are in tenths of a pixel.
#[derive(Clone, Copy, PartialEq, Eq, Structural, Debug)]
pub enum DrawCommand {
    /// A stroked circle.
    Circle { center: Point, radius: u32, width_tenths: u32, color: Color },
    /// A straight segment along the spoke at `angle`, from distance `from`
    /// out of `center` to distance `to`.
    Radial {
        center: Point,
        angle: TurnFraction,
        from: i64,
        to: i64,
        width_tenths: u32,
        color: Color,
    },
}

/// The axis-aligned region a face is drawn into: top-left corner, width and
/// height in pixels.
#[derive(Clone, Copy, PartialEq, Eq, Structural, Debug)]
pub struct Region {
    pub x: i32,
    pub y: i32,
    pub width: u32,
    pub height: u32,
}

/// The inset between the region's border and the face's frame, and also
/// the length of a tick mark.
pub const FACE_INSET: u32 = 10;

/// The midpoint of the region.
pub open spec fn face_center(region: Region) -> Point {
    Point {
        x: (region.x + region.width as int / 2) as i64,
        y: (region.y + region.height as int / 2) as i64,
    }
}

/// The face's radius: half the smaller region side, minus the inset; a
/// degenerate region simply yields radius zero.
pub open spec fn face_radius(region: Region) -> u32 {
    let half = (if region.width <= region.height {
        region.width
    } else {
        region.height
    }) as int / 2;
    if half >= FACE_INSET {
        (half - FACE_INSET) as u32
    } else {
        0u32
    }
}

/// The frame: one stroked circle of the full radius.
pub open spec fn spec_frame_circle(center: Point, radius: u32) -> DrawCommand {
    DrawCommand::Circle { center, radius, width_tenths: 20, color: Color::Gray }
}

/// Tick mark `k` of twelve: a short radial segment at `k` twelfths of a
/// turn, running from distance `radius - 10` to distance `radius`.
pub open spec fn spec_tick(center: Point, radius: u32, k: int) -> DrawCommand {
    DrawCommand::Radial {
        center,
        angle: TurnFraction { num: k as u64, den: 12 },
        from: (radius - FACE_INSET) as i64,
        to: radius as i64,
        width_tenths: 20,
        color: Color::Gray,
    }
}

/// A hand: a radial segment from the center out to `length`.
pub open spec fn spec_hand(
    center: Point,
    length: int,
    angle: TurnFraction,
    width_tenths: u32,
    color: Color,
) -> DrawCommand {
    DrawCommand::Radial {
        center,
        angle,
        from: 0,
        to: length as i64,
        width_tenths,
        color,
    }
}

/// Everything one face consists of, in drawing order: the frame circle,
/// the twelve tick marks, then the second, minute and hour hands, each at
/// its hand's fraction of a turn and scaled to nine, seven and five tenths
/// of the radius.
pub open spec fn face_commands(region: Region, r: ClockReading) -> Seq<DrawCommand> {
    let center = face_center(region);
    let radius = face_radius(region);
    seq![spec_frame_circle(center, radius)] + Seq::new(12, |k: int| spec_tick(center, radius, k))
        + seq![
        spec_hand(
            center,
            radius * 9 / 10,
            TurnFraction { num: r.second_ns, den: SECOND_HAND_PERIOD_NS },
            15,
            Color::Red,
        ),
        spec_hand(
            center,
            radius * 7 / 10,
            TurnFraction { num: r.minute_ns, den: MINUTE_HAND_PERIOD_NS },
            30,
            Color::LightBlue,
        ),
        spec_hand(
            center,
            radius * 5 / 10,
            TurnFraction { num: r.hour_ns, den: HOUR_HAND_PERIOD_NS },
            40,
            Color::White,
        ),
    ]
}

/// Produces the draw commands for one face of `reading` inside `region`.
pub fn render_face(region: Region, reading: &ClockReading) -> (cmds: Vec<DrawCommand>)
    ensures
        cmds@ == face_commands(region, *reading),
{
    let center = Point {
        x: region.x as i64 + (region.width / 2) as i64,
        y: region.y as i64 + (region.height / 2) as i64,
    };
    let smaller: u32 = if region.width <= region.height {
        region.width
    } else {
        region.height
    };
    let half: u32 = smaller / 2;
    let radius: u32 = if half >= FACE_INSET {
        half - FACE_INSET
    } else {
        0
    };
    assert(center == face_center(region));
    assert(radius == face_radius(region));
    let mut cmds: Vec<DrawCommand> = Vec::new();
    cmds.push(DrawCommand::Circle { center, radius, width_tenths: 20, color: Color::Gray });
    let mut k: u64 = 0;
    while k < 12
        invariant
            k <= 12,
            cmds@.len() == 1 + k,
            cmds@[0] == spec_frame_circle(center, radius),
            forall|i: int| 0 <= i < k ==> cmds@[1 + i] == spec_tick(center, radius, i),
        decreases 12 - k,
    {
        cmds.push(DrawCommand::Radial {
            center,
            angle: TurnFraction { num: k, den: 12 },
            from: radius as i64 - FACE_INSET as i64,
            to: radius as i64,
            width_tenths: 20,
            color: Color::Gray,
        });
        k = k + 1;
    }
    let r64: u64 = radius as u64;
    cmds.push(DrawCommand::Radial {
        center,
        angle: TurnFraction { num: reading.second_ns, den: SECOND_HAND_PERIOD_NS },
        from: 0,
        to: (r64 * 9 / 10) as i64,
        width_tenths: 15,
        color: Color::Red,
    });
    cmds.push(DrawCommand::Radial {
        center,
        angle: TurnFraction { num: reading.minute_ns, den: MINUTE_HAND_PERIOD_NS },
        from: 0,
        to: (r64 * 7 / 10) as i64,
        width_tenths: 30,
        color: Color::LightBlue,
    });
    cmds.push(DrawCommand::Radial {
        center,
        angle: TurnFraction { num: reading.hour_ns, den: HOUR_HAND_PERIOD_NS },
        from: 0,
        to: (r64 * 5 / 10) as i64,
        width_tenths: 40,
        color: Color::White,
    });
    proof {
        assert(cmds@ =~= face_commands(region, *reading));
    }
    cmds
}

/// Law: every tick mark lies on the spoke at `k` twelfths of a turn out of
/// the face center, and its endpoints sit at distances `radius - 10` and
/// `radius`; being one radial segment, the mark is colinear with the
/// center by construction.
pub proof fn lemma_tick_marks(region: Region, reading: ClockReading, k: int)
    requires
        0 <= k < 12,
    ensures
        face_commands(region, reading)[1 + k] == spec_tick(
            face_center(region),
            face_radius(region),
            k,
        ),
        spec_tick(face_center(region), face_radius(region), k) == (DrawCommand::Radial {
            center: face_center(region),
            angle: TurnFraction { num: k as u64, den: 12 },
            from: (face_radius(region) - FACE_INSET) as i64,
            to: face_radius(region) as i64,
            width_tenths: 20,
            color: Color::Gray,
        }),
{
}

} // verus!
