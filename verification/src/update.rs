//! The state updater: each tick, every point independently takes one unit
//! step in a direction read off the noise field at its own position.
//!
//! The verified part of the rule is everything that is a function of plain
//! values: the linear mapping from a noise sample to an angle, and the
//! displacement of every point by its step.  The host samples the noise
//! field and turns the angle into a unit direction `(cos a, sin a)`; the
//! two halves meet on fixed-point micro-units.

use vstd::prelude::*;
use crate::model::{Model, Point};

verus! {

/// The angle range the noise sample is mapped onto, in degrees to either
/// side of zero.
pub const ANGLE_SPAN_DEG: i64 = 360;

/// The angle a noise sample is mapped to: the linear map that carries
/// `[-1, 1]` onto `[-360, 360]` degrees is `n ↦ 360 · n`, and it is applied
/// to every sample, in range or not, exactly as a linear interpolation
/// would be.  Samples and angles are both in micro-units, so a sample of
/// `n` micro-ones becomes `360 · n` micro-degrees.
pub open spec fn angle_of_noise(n: int) -> int {
    ANGLE_SPAN_DEG * n
}

impl Point {
    /// Displaces the point by one step, leaving its color alone.  The
    /// coordinates move by exactly the step handed in; nothing bounds them
    /// to the canvas — drifting off it is the sketch's intent.
    pub fn displace(&mut self, dx: i64, dy: i64)
        requires
            i64::MIN <= old(self).x + dx <= i64::MAX,
            i64::MIN <= old(self).y + dy <= i64::MAX,
        ensures
            final(self).x == old(self).x + dx,
            final(self).y == old(self).y + dy,
            final(self).color == old(self).color,
    {
        self.x = self.x + dx;
        self.y = self.y + dy;
    }
}

/// Maps a noise sample in micro-ones to an angle in micro-degrees:
/// the lerp of `[-1, 1]` onto `[-360, 360]` degrees, which is `360 · n`.
pub fn noise_to_angle(n: i64) -> (a: i64)
    requires
        i64::MIN <= ANGLE_SPAN_DEG * n <= i64::MAX,
    ensures
        a == angle_of_noise(n as int),
{
    ANGLE_SPAN_DEG * n
}

impl Model {
    /// Advances every point by its own step, in order, independently: the
    /// point count is kept, point `i` moves by exactly `steps[i]`, and no
    /// color changes.
    #[verifier::loop_isolation(false)]
    pub fn update(&mut self, steps: &Vec<(i64, i64)>)
        requires
            steps@.len() == old(self).points@.len(),
            forall|i: int|
                0 <= i < steps@.len() ==> {
                    &&& i64::MIN <= (#[trigger] old(self).points@[i]).x + steps@[i].0 <= i64::MAX
                    &&& i64::MIN <= old(self).points@[i].y + steps@[i].1 <= i64::MAX
                },
        ensures
            final(self).points@.len() == old(self).points@.len(),
            forall|i: int|
                0 <= i < old(self).points@.len() ==> {
                    &&& (#[trigger] final(self).points@[i]).x == old(self).points@[i].x
                        + steps@[i].0
                    &&& final(self).points@[i].y == old(self).points@[i].y + steps@[i].1
                    &&& final(self).points@[i].color == old(self).points@[i].color
                },
    {
        let n: usize = self.points.len();
        let mut i: usize = 0;
        while i < n
            invariant
                i <= n,
                self.points@.len() == n,
                forall|k: int|
                    0 <= k < i ==> {
                        &&& (#[trigger] self.points@[k]).x == old(self).points@[k].x + steps@[k].0
                        &&& self.points@[k].y == old(self).points@[k].y + steps@[k].1
                        &&& self.points@[k].color == old(self).points@[k].color
                    },
                forall|k: int| i <= k < n ==> #[trigger] self.points@[k] == old(self).points@[k],
            decreases n - i,
        {
            let s: (i64, i64) = steps[i];
            self.points[i].displace(s.0, s.1);
            i = i + 1;
        }
    }
}

/// One tick is a pure function of the point's own pre-update position and
/// the noise sample read there: run twice from equal positions with equal
/// samples — hence equal angles, hence equal unit directions and equal
/// steps — the point lands on equal positions.  No other point and no
/// hidden state enters the rule.
pub proof fn lemma_update_deterministic(p: Point, q: Point, n: i64, m: i64, dx: i64, dy: i64)
    requires
        p.x == q.x,
        p.y == q.y,
        n == m,
    ensures
        angle_of_noise(n as int) == angle_of_noise(m as int),
        p.x + dx == q.x + dx,
        p.y + dy == q.y + dy,
{
}

/// Two consecutive ticks undo each other only when the second step is the
/// exact opposite of the first: for any other pair of steps the point ends
/// away from where it began.  (With steps read off a noise field, a return
/// needs the two sampled directions to cancel exactly — a coincidence, not
/// a property of the rule.)
pub proof fn lemma_two_ticks_no_return(x: int, y: int, dx1: int, dy1: int, dx2: int, dy2: int)
    requires
        dx1 + dx2 != 0 || dy1 + dy2 != 0,
    ensures
        x + dx1 + dx2 != x || y + dy1 + dy2 != y,
{
}

/// A point that takes the same nonzero step on every tick — as under a
/// noise field that is constant at its positions — drifts forever and never
/// revisits its starting coordinate.
pub proof fn lemma_constant_drift_never_returns(x: int, dx: int, n: int)
    requires
        dx != 0,
        n >= 1,
    ensures
        x + n * dx != x,
{
    assert(n * dx != 0) by (nonlinear_arith)
        requires
            dx != 0,
            n >= 1,
    ;
}

} // verus!
