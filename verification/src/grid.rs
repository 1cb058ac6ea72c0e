//! The state builder: one colored point per cell of a regular grid, mapped
//! into canvas-centered coordinates.

use vstd::prelude::*;
use vstd::arithmetic::div_mod::{
    lemma_div_by_self, lemma_div_is_ordered, lemma_div_nonincreasing,
    lemma_fundamental_div_mod, lemma_fundamental_div_mod_converse, lemma_mod_bound,
    lemma_multiply_divide_lt,
};
use crate::color::Color;
use crate::model::{Model, Point};
use crate::{FIX_ONE, HALF_FIX};

verus! {

/// The grid spacing in canvas units: the canvas width divided by the
/// density, rounded down.  Both axes are walked with this one step.
pub open spec fn grid_step(width: u32, density: u32) -> int {
    width as int / density as int
}

/// How many columns the walk `0, S, 2S, … < width` visits.
pub open spec fn grid_cols(width: u32, density: u32) -> int {
    (width as int - 1) / grid_step(width, density) + 1
}

/// How many rows the walk `0, S, 2S, … < height` visits (the step is
/// derived from the width on both axes).
pub open spec fn grid_rows(width: u32, height: u32, density: u32) -> int {
    (height as int - 1) / grid_step(width, density) + 1
}

/// How many points the builder produces: one per (column, row) pair.
pub open spec fn grid_count(width: u32, height: u32, density: u32) -> int {
    grid_cols(width, density) * grid_rows(width, height, density)
}

/// The centered coordinate of grid line `c` on an axis of the given extent,
/// in micro-units: the raw offset `c * step`, shifted left by half the
/// extent and right by one step.
pub open spec fn grid_coord(c: int, extent: u32, step: int) -> int {
    c * step * FIX_ONE - extent as int * HALF_FIX + step * FIX_ONE
}

/// The x-coordinate of the `i`-th point: columns are the outer walk, so the
/// column index is `i` divided by the row count.
pub open spec fn grid_x(width: u32, height: u32, density: u32, i: int) -> int {
    grid_coord(i / grid_rows(width, height, density), width, grid_step(width, density))
}

/// The y-coordinate of the `i`-th point: the row index is `i` modulo the
/// row count.
pub open spec fn grid_y(width: u32, height: u32, density: u32, i: int) -> int {
    grid_coord(i % grid_rows(width, height, density), height, grid_step(width, density))
}

/// A builder input is workable when the canvas is positive and at least one
/// whole grid step fits across the width, so the spacing is not zero.
pub open spec fn valid_grid(width: u32, height: u32, density: u32) -> bool {
    &&& 1 <= density <= width
    &&& 1 <= height
}

/// If `a <= b / c` then `a * c <= b`, for nonnegative `a`, `b` and positive
/// `c`: a column index below the column count keeps its raw offset on the
/// canvas.
proof fn lemma_mul_le_of_le_div(a: int, b: int, c: int)
    requires
        0 <= a,
        0 <= b,
        1 <= c,
        a <= b / c,
    ensures
        a * c <= b,
{
    lemma_fundamental_div_mod(b, c);
    lemma_mod_bound(b, c);
    assert(a * c <= (b / c) * c) by (nonlinear_arith)
        requires
            0 <= a,
            a <= b / c,
            1 <= c,
    ;
}

/// The number of points the builder will produce for these inputs.
pub fn grid_point_count(width: u32, height: u32, density: u32) -> (n: u64)
    requires
        valid_grid(width, height, density),
    ensures
        n == grid_count(width, height, density),
{
    let step: u32 = width / density;
    proof {
        lemma_div_is_ordered(density as int, width as int, density as int);
        lemma_div_by_self(density as int);
        lemma_div_nonincreasing(width as int - 1, step as int);
        lemma_div_nonincreasing(height as int - 1, step as int);
    }
    let ncols: u64 = ((width - 1) / step + 1) as u64;
    let nrows: u64 = ((height - 1) / step + 1) as u64;
    assert(ncols * nrows < 0x1_0000_0000_0000_0000) by (nonlinear_arith)
        requires
            0 <= ncols < 0x1_0000_0000,
            0 <= nrows < 0x1_0000_0000,
    ;
    ncols * nrows
}

/// Builds the initial state: one point per grid cell, the columns walked
/// outermost, each point at its centered coordinates and wearing the color
/// handed in for its position in the walk.  The grid is exhaustive — the
/// count and every coordinate are pinned by [`grid_count`], [`grid_x`] and
/// [`grid_y`] — and the colors are taken over unchanged, one per point.
#[verifier::loop_isolation(false)]
pub fn build_model(width: u32, height: u32, density: u32, colors: &Vec<Color>) -> (m: Model)
    requires
        valid_grid(width, height, density),
        colors@.len() == grid_count(width, height, density),
    ensures
        m.points@.len() == grid_count(width, height, density),
        forall|i: int|
            0 <= i < m.points@.len() ==> {
                &&& (#[trigger] m.points@[i]).x == grid_x(width, height, density, i)
                &&& m.points@[i].y == grid_y(width, height, density, i)
                &&& m.points@[i].color == colors@[i]
            },
{
    let step: u32 = width / density;
    proof {
        lemma_div_is_ordered(density as int, width as int, density as int);
        lemma_div_by_self(density as int);
        lemma_div_nonincreasing(width as int - 1, step as int);
        lemma_div_nonincreasing(height as int - 1, step as int);
    }
    let ncols: u64 = ((width - 1) / step + 1) as u64;
    let nrows: u64 = ((height - 1) / step + 1) as u64;
    let mut points: Vec<Point> = Vec::new();
    let mut col: u64 = 0;
    while col < ncols
        invariant
            col <= ncols,
            points@.len() == col * nrows,
            forall|i: int|
                0 <= i < points@.len() ==> {
                    &&& (#[trigger] points@[i]).x == grid_x(width, height, density, i)
                    &&& points@[i].y == grid_y(width, height, density, i)
                    &&& points@[i].color == colors@[i]
                },
        decreases ncols - col,
    {
        let mut row: u64 = 0;
        proof {
            assert(col * nrows >= 0) by (nonlinear_arith)
                requires
                    0 <= col,
                    0 <= nrows,
            ;
        }
        while row < nrows
            invariant
                row <= nrows,
                col < ncols,
                points@.len() == col * nrows + row,
                forall|i: int|
                    0 <= i < points@.len() ==> {
                        &&& (#[trigger] points@[i]).x == grid_x(width, height, density, i)
                        &&& points@[i].y == grid_y(width, height, density, i)
                        &&& points@[i].color == colors@[i]
                    },
            decreases nrows - row,
        {
            proof {
                lemma_mul_le_of_le_div(col as int, width as int - 1, step as int);
                lemma_mul_le_of_le_div(row as int, height as int - 1, step as int);
            }
            let x_units: u64 = col * step as u64;
            let y_units: u64 = row * step as u64;
            let px: i64 = x_units as i64 * FIX_ONE - width as i64 * HALF_FIX + step as i64
                * FIX_ONE;
            let py: i64 = y_units as i64 * FIX_ONE - height as i64 * HALF_FIX + step as i64
                * FIX_ONE;
            let idx: usize = points.len();
            proof {
                assert(col * nrows + row < ncols * nrows) by (nonlinear_arith)
                    requires
                        0 <= col < ncols,
                        0 <= row < nrows,
                ;
                lemma_fundamental_div_mod_converse(
                    idx as int,
                    nrows as int,
                    col as int,
                    row as int,
                );
            }
            let c: Color = colors[idx];
            points.push(Point { x: px, y: py, color: c });
            row = row + 1;
        }
        proof {
            assert((col + 1) * nrows == col * nrows + nrows) by (nonlinear_arith);
        }
        col = col + 1;
    }
    Model { points }
}

/// When the spacing divides both extents — as it does on the reference
/// canvas, 720 by 720 at density 20 — the builder's count is exactly
/// `(width / step) * (height / step)` points; the walk up to the extent
/// and the division round the same way.
pub proof fn lemma_count_on_divisible_canvas(width: u32, height: u32, density: u32)
    requires
        valid_grid(width, height, density),
        width as int % grid_step(width, density) == 0,
        height as int % grid_step(width, density) == 0,
    ensures
        grid_cols(width, density) == width as int / grid_step(width, density),
        grid_rows(width, height, density) == height as int / grid_step(width, density),
        grid_count(width, height, density) == (width as int / grid_step(width, density)) * (
        height as int / grid_step(width, density)),
{
    let s = grid_step(width, density);
    lemma_div_is_ordered(density as int, width as int, density as int);
    lemma_div_by_self(density as int);
    let q = width as int / s;
    let r = height as int / s;
    lemma_fundamental_div_mod(width as int, s);
    lemma_fundamental_div_mod(height as int, s);
    assert(width as int - 1 == (q - 1) * s + (s - 1)) by (nonlinear_arith)
        requires
            width as int == s * q,
    ;
    assert(height as int - 1 == (r - 1) * s + (s - 1)) by (nonlinear_arith)
        requires
            height as int == s * r,
    ;
    lemma_fundamental_div_mod_converse(width as int - 1, s, q - 1, s - 1);
    lemma_fundamental_div_mod_converse(height as int - 1, s, r - 1, s - 1);
}

/// Every grid point starts inside the centered canvas, allowing the one
/// step of offset the builder adds on each axis: the x-coordinate lies in
/// `[-width / 2, width / 2 + step]` and the y-coordinate in
/// `[-height / 2, height / 2 + step]`, in micro-units.
pub proof fn lemma_grid_point_in_canvas(width: u32, height: u32, density: u32, i: int)
    requires
        valid_grid(width, height, density),
        0 <= i < grid_count(width, height, density),
    ensures
        -(width as int) * HALF_FIX <= grid_x(width, height, density, i),
        grid_x(width, height, density, i) <= width as int * HALF_FIX + grid_step(width, density)
            * FIX_ONE,
        -(height as int) * HALF_FIX <= grid_y(width, height, density, i),
        grid_y(width, height, density, i) <= height as int * HALF_FIX + grid_step(width, density)
            * FIX_ONE,
{
    let s = grid_step(width, density);
    let nrows = grid_rows(width, height, density);
    let ncols = grid_cols(width, density);
    lemma_div_is_ordered(density as int, width as int, density as int);
    lemma_div_by_self(density as int);
    lemma_mod_bound(i, nrows);
    lemma_mul_le_of_le_div(i % nrows, height as int - 1, s);
    assert(nrows >= 1) by {
        lemma_div_nonincreasing(height as int - 1, s);
    }
    assert(0 <= i / nrows) by {
        lemma_fundamental_div_mod(i, nrows);
        lemma_mod_bound(i, nrows);
        assert(nrows * (i / nrows) >= 0 ==> i / nrows >= 0) by (nonlinear_arith)
            requires
                nrows >= 1,
        ;
    }
    assert(i / nrows < ncols) by {
        lemma_multiply_divide_lt(i, nrows, ncols);
    }
    lemma_mul_le_of_le_div(i / nrows, width as int - 1, s);
    let col = i / nrows;
    let row = i % nrows;
    assert(0 <= col * s) by (nonlinear_arith)
        requires
            0 <= col,
            0 <= s,
    ;
    assert(0 <= row * s) by (nonlinear_arith)
        requires
            0 <= row,
            0 <= s,
    ;
    assert(col * s * FIX_ONE <= (width as int - 1) * FIX_ONE && 0 <= col * s * FIX_ONE)
        by (nonlinear_arith)
        requires
            0 <= col * s <= width as int - 1,
    ;
    assert(row * s * FIX_ONE <= (height as int - 1) * FIX_ONE && 0 <= row * s * FIX_ONE)
        by (nonlinear_arith)
        requires
            0 <= row * s <= height as int - 1,
    ;
}

} // verus!

