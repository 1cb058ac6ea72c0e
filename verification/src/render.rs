//! The renderer's decisions: what one frame draws.  Each tick yields a
//! plan — whether to clear the background, and one filled circle per point —
//! and the host only has to carry the plan onto its canvas and present it
//! once.  The background is cleared exactly on the first frame, so that
//! later frames accumulate trails instead of redrawing from scratch.

use vstd::prelude::*;
use crate::color::Color;
use crate::model::Model;

verus! {

/// The diameter of the circle drawn for every point, in micro-units:
/// `3.0` canvas units.
pub const DOT_DIAMETER: i64 = 3_000_000;

/// Whether the background is cleared on the frame with this 1-based index:
/// only on the very first.
pub open spec fn clears_on(frame_index: u64) -> bool {
    frame_index == 1
}

/// One filled circle of a frame plan: centered on a point, of the fixed
/// diameter, in the point's color.
#[derive(Clone, Copy)]
pub struct Circle {
    /// Center, horizontal, in micro-units.
    pub x: i64,
    /// Center, vertical, in micro-units.
    pub y: i64,
    /// Diameter, in micro-units.
    pub diameter: i64,
    /// Fill color.
    pub color: Color,
}

/// Everything one frame draws, in drawing order: an optional background
/// clear first, then one circle per point.
pub struct DrawPlan {
    /// Whether this frame paints the whole background before the circles.
    pub clear_background: bool,
    /// The circles, one per point, in point order.
    pub circles: Vec<Circle>,
}

/// The two-state clear machine behind the "clear only on the first frame"
/// rule, kept as an explicit frame counter: a fresh renderer has drawn no
/// frame, and a frame's plan clears the background exactly when it is
/// frame 1 of the run.
pub struct Renderer {
    frames: u64,
}

impl Renderer {
    /// How many frames this renderer has planned so far.
    pub closed spec fn frames_drawn(self) -> u64 {
        self.frames
    }

    /// A renderer that has not planned any frame yet.
    pub fn new() -> (r: Renderer)
        ensures
            r.frames_drawn() == 0,
    {
        Renderer { frames: 0 }
    }

    /// Plans the next frame: the plan clears the background exactly when
    /// this is the first frame of the run, and draws one circle per point,
    /// centered on the point, of the fixed diameter, in the point's color.
    #[verifier::loop_isolation(false)]
    pub fn plan_frame(&mut self, m: &Model) -> (p: DrawPlan)
        requires
            old(self).frames_drawn() < u64::MAX,
        ensures
            final(self).frames_drawn() == old(self).frames_drawn() + 1,
            p.clear_background == clears_on(final(self).frames_drawn()),
            p.circles@.len() == m.points@.len(),
            forall|i: int|
                0 <= i < m.points@.len() ==> {
                    &&& (#[trigger] p.circles@[i]).x == m.points@[i].x
                    &&& p.circles@[i].y == m.points@[i].y
                    &&& p.circles@[i].diameter == DOT_DIAMETER
                    &&& p.circles@[i].color == m.points@[i].color
                },
    {
        self.frames = self.frames + 1;
        let clear_background = self.frames == 1;
        let n: usize = m.points.len();
        let mut circles: Vec<Circle> = Vec::new();
        let mut i: usize = 0;
        while i < n
            invariant
                i <= n,
                circles@.len() == i,
                forall|k: int|
                    0 <= k < i ==> {
                        &&& (#[trigger] circles@[k]).x == m.points@[k].x
                        &&& circles@[k].y == m.points@[k].y
                        &&& circles@[k].diameter == DOT_DIAMETER
                        &&& circles@[k].color == m.points@[k].color
                    },
            decreases n - i,
        {
            let pt = m.points[i];
            circles.push(Circle { x: pt.x, y: pt.y, diameter: DOT_DIAMETER, color: pt.color });
            i = i + 1;
        }
        DrawPlan { clear_background, circles }
    }
}

/// Over a run of frames indexed 1, 2, 3, …, the background clear fires
/// exactly once: it fires on frame 1, and on no frame after it.
pub proof fn lemma_clear_fires_exactly_once(i: u64)
    requires
        1 <= i,
    ensures
        clears_on(1),
        i >= 2 ==> !clears_on(i),
{
}

} // verus!
