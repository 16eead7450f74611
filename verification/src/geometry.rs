//! Points and angles for the clock face.
//!
//! An angle is an exact fraction of a full clockwise turn, with zero
//! pointing straight up (twelve o'clock). The polar conversion works in
//! fixed point so that it stays exact: the host supplies the sine and
//! cosine of the angle scaled by `TRIG_SCALE`, and receives a point whose
//! coordinates are scaled by `TRIG_SCALE` in turn.

use vstd::prelude::*;

verus! {

/// A point on the drawing surface. `x` grows rightwards, `y` downwards.
#[derive(Clone, Copy, PartialEq, Eq, Structural, Debug)]
pub struct Point {
    pub x: i64,
    pub y: i64,
}

/// An angle as the exact fraction `num / den` of a full clockwise turn,
/// measured from straight up. `den` is a period (ticks per turn or
/// nanoseconds per revolution) and is always positive where the library
/// produces a value.
#[derive(Clone, Copy, PartialEq, Eq, Structural, Debug)]
pub struct TurnFraction {
    pub num: u64,
    pub den: u64,
}

/// The fixed-point scale of the trigonometric inputs and of the converted
/// coordinates.
pub const TRIG_SCALE: i64 = 1000;

/// The horizontal coordinate of a polar offset, scaled by `TRIG_SCALE`.
pub open spec fn polar_x(center: Point, length: i64, sin_scaled: i64) -> int {
    center.x * TRIG_SCALE + sin_scaled * length
}

/// The vertical coordinate of a polar offset, scaled by `TRIG_SCALE`. The
/// subtraction folds in the downward-growing screen axis: a positive cosine
/// (an angle near twelve o'clock) moves the point up, to smaller `y`.
pub open spec fn polar_y(center: Point, length: i64, cos_scaled: i64) -> int {
    center.y * TRIG_SCALE - cos_scaled * length
}

/// Converts a polar offset from `center` to screen coordinates, in fixed
/// point: `sin_scaled` and `cos_scaled` are the sine and cosine of the
/// angle scaled by `TRIG_SCALE`, and the returned point is scaled by
/// `TRIG_SCALE` likewise.
pub fn polar_to_cartesian(center: Point, length: i64, sin_scaled: i64, cos_scaled: i64) -> (p:
    Point)
    requires
        -TRIG_SCALE <= sin_scaled <= TRIG_SCALE,
        -TRIG_SCALE <= cos_scaled <= TRIG_SCALE,
        -1_000_000_000 <= length <= 1_000_000_000,
        -1_000_000_000 <= center.x <= 1_000_000_000,
        -1_000_000_000 <= center.y <= 1_000_000_000,
    ensures
        p.x == polar_x(center, length, sin_scaled),
        p.y == polar_y(center, length, cos_scaled),
{
    proof {
        assert(-1_000_000_000_000 <= sin_scaled * length <= 1_000_000_000_000)
            by (nonlinear_arith)
            requires
                -1000 <= sin_scaled <= 1000,
                -1_000_000_000 <= length <= 1_000_000_000,
        ;
        assert(-1_000_000_000_000 <= cos_scaled * length <= 1_000_000_000_000)
            by (nonlinear_arith)
            requires
                -1000 <= cos_scaled <= 1000,
                -1_000_000_000 <= length <= 1_000_000_000,
        ;
    }
    Point { x: center.x * TRIG_SCALE + sin_scaled * length, y: center.y * TRIG_SCALE - cos_scaled * length }
}

/// Law: at angle zero the polar offset points straight up. The sine and
/// cosine of angle zero are `0` and `TRIG_SCALE`, and with them the
/// converted point keeps the horizontal position of the center and sits
/// `length` above it (above: smaller `y`, the axis grows downwards).
pub proof fn lemma_polar_zero_points_up(center: Point, length: i64)
    ensures
        polar_x(center, length, 0) == center.x * TRIG_SCALE,
        polar_y(center, length, TRIG_SCALE) == (center.y - length) * TRIG_SCALE,
{
}

} // verus!
