//! A verified core for a generative-art sketch: a grid of colored points is
//! seeded across a centered canvas, every tick each point drifts by a unit
//! step whose direction is derived from a coherent-noise sample at the
//! point's own position, and each frame is rendered as one filled circle per
//! point, with the background cleared exactly once on the first frame so
//! that the trails accumulate.
//!
//! All quantities are carried in fixed-point micro-units (`FIX_ONE` per
//! canvas unit), so the grid layout, the noise-to-angle mapping, the
//! displacement rule and the frame plan are exact integer functions.  The
//! host that owns the window supplies the pieces that are not functions of
//! the state alone: random color draws, the noise field itself, and the
//! trigonometry that turns an angle into a unit direction.

use vstd::prelude::*;

pub mod color;
pub mod model;
pub mod grid;
pub mod update;
pub mod render;

verus! {

/// One canvas unit, in the fixed-point micro-unit scale used for every
/// coordinate and displacement in the library.
pub const FIX_ONE: i64 = 1_000_000;

/// Half of one canvas unit in micro-units; `extent * HALF_FIX` is the exact
/// center offset `extent * FIX_ONE / 2` of a canvas of even micro-width.
pub const HALF_FIX: i64 = 500_000;

} // verus!
