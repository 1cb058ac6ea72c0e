//! The sketch's state: an ordered sequence of colored points.

use vstd::prelude::*;
use crate::color::Color;

verus! {

/// One point of the sketch: a position in fixed-point micro-units on the
/// centered canvas, and the color it was given when the grid was built.
/// The position drifts every tick; the color never changes.
#[derive(Clone, Copy)]
pub struct Point {
    /// Horizontal position, in micro-units (`FIX_ONE` per canvas unit).
    pub x: i64,
    /// Vertical position, in micro-units.
    pub y: i64,
    /// The point's fixed color.
    pub color: Color,
}

/// The whole state: the points, in the stable order the builder produced
/// them.  The count is fixed after creation; only coordinates change.
pub struct Model {
    /// The points, in builder order.
    pub points: Vec<Point>,
}

impl Model {
    /// The number of points.
    pub fn len(&self) -> (n: usize)
        ensures
            n == self.points@.len(),
    {
        self.points.len()
    }
}

} // verus!
