//! Integer coordinates and the fixed-point scheme of the tessellator.
//!
//! Glyphs are drawn on a `GRID` x `GRID` cell (the unit cell at a resolution
//! of 1/`GRID`). Layout inputs — line origins and per-character steps — are
//! integers in a caller-chosen layout unit. Output vertices are integers in
//! *subunits*, `SUBDIV` per layout unit, which is exactly the resolution at
//! which the fixed base scale (8/10 of a cell horizontally, 7/10 vertically)
//! times any grid coordinate times any integer step is an integer: one grid
//! step spans `SUBDIV / GRID` = 10 subunits, so the base scale contributes
//! `X_STEP` = 8 (resp. `Y_STEP` = 7) subunits per grid step. Every output
//! coordinate is therefore exact — no rounding anywhere.

use vstd::prelude::*;

verus! {

/// Side of the glyph cell grid: glyph coordinates lie in `0 ..= GRID`.
pub const GRID: i64 = 20;

/// Output subunits per layout unit.
pub const SUBDIV: i64 = 200;

/// Horizontal base scale: subunits of output per horizontal grid step,
/// i.e. 8/10 of the 10 subunits a full-size grid step would span.
pub const X_STEP: i64 = 8;

/// Vertical base scale: subunits of output per vertical grid step,
/// i.e. 7/10 of the 10 subunits a full-size grid step would span.
pub const Y_STEP: i64 = 7;

/// A 2D point with integer coordinates. Used both for glyph-cell
/// coordinates (in grid steps) and for output vertices (in subunits).
#[derive(Debug, Clone, Copy, PartialEq, Eq, Structural)]
pub struct Point {
    pub x: i64,
    pub y: i64,
}

impl View for Point {
    type V = (int, int);

    open spec fn view(&self) -> (int, int) {
        (self.x as int, self.y as int)
    }
}

/// The mathematical content of a sequence of points.
pub open spec fn points_model(s: Seq<Point>) -> Seq<(int, int)> {
    s.map_values(|p: Point| p@)
}

/// Where a glyph-cell point `g` lands in output subunits, for a cursor at
/// `cursor` (layout units) and a per-character step of `size` (layout units).
/// The vertical axis is flipped: glyph y grows downward, world y upward.
pub open spec fn transformed(cursor: (int, int), size: (int, int), g: (int, int)) -> (int, int) {
    (
        SUBDIV * cursor.0 + X_STEP * g.0 * size.0,
        SUBDIV * cursor.1 - Y_STEP * g.1 * size.1,
    )
}

} // verus!
