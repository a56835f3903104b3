//! The built-in stroke font: a fixed map from character to line-segment
//! endpoints on the glyph cell grid.
//!
//! Each glyph is an ordered list of points; consecutive pairs (points 2i and
//! 2i+1) are the endpoints of one segment. Coordinates are in grid steps of
//! the `GRID` x `GRID` cell, with y growing downward. The table is static:
//! lookup is deterministic and total, and unmapped characters yield nothing.

use vstd::prelude::*;
use crate::geometry::{Point, GRID};

verus! {

/// The glyph of `c`, as grid-step coordinates, or `None` for a character
/// outside the fixed table.
pub open spec fn glyph_model(c: char) -> Option<Seq<(int, int)>> {
    if c == 'A' {
        Some(seq![(0, 20), (10, 0), (10, 0), (20, 20), (5, 10), (15, 10)])
    } else if c == 'E' {
        Some(seq![(20, 0), (0, 0), (0, 0), (0, 20), (0, 20), (20, 20), (0, 10), (10, 10)])
    } else if c == 'H' {
        Some(seq![(0, 0), (0, 20), (20, 0), (20, 20), (0, 10), (20, 10)])
    } else if c == 'L' {
        Some(seq![(0, 0), (0, 20), (0, 20), (20, 20)])
    } else if c == 'O' {
        Some(seq![(0, 0), (20, 0), (20, 0), (20, 20), (20, 20), (0, 20), (0, 20), (0, 0)])
    } else {
        None
    }
}

/// Every glyph is well formed: an even number of points (so none is left
/// without a segment partner), all lying on the cell grid.
pub proof fn lemma_glyph_well_formed(c: char)
    ensures
        glyph_model(c) matches Some(pts) ==> {
            &&& pts.len() % 2 == 0
            &&& forall|i: int|
                0 <= i < pts.len() ==> 0 <= #[trigger] pts[i].0 <= GRID && 0 <= pts[i].1 <= GRID
        },
{
}

/// Looks `c` up in the fixed table.
pub fn glyph_points(c: char) -> (r: Option<Vec<Point>>)
    ensures
        match r {
            Some(v) => glyph_model(c) == Some(crate::geometry::points_model(v@)),
            None => glyph_model(c) is None,
        },
{
    let r = match c {
        'A' => Some(
            vec![
                Point { x: 0, y: 20 },
                Point { x: 10, y: 0 },
                Point { x: 10, y: 0 },
                Point { x: 20, y: 20 },
                Point { x: 5, y: 10 },
                Point { x: 15, y: 10 },
            ],
        ),
        'E' => Some(
            vec![
                Point { x: 20, y: 0 },
                Point { x: 0, y: 0 },
                Point { x: 0, y: 0 },
                Point { x: 0, y: 20 },
                Point { x: 0, y: 20 },
                Point { x: 20, y: 20 },
                Point { x: 0, y: 10 },
                Point { x: 10, y: 10 },
            ],
        ),
        'H' => Some(
            vec![
                Point { x: 0, y: 0 },
                Point { x: 0, y: 20 },
                Point { x: 20, y: 0 },
                Point { x: 20, y: 20 },
                Point { x: 0, y: 10 },
                Point { x: 20, y: 10 },
            ],
        ),
        'L' => Some(
            vec![
                Point { x: 0, y: 0 },
                Point { x: 0, y: 20 },
                Point { x: 0, y: 20 },
                Point { x: 20, y: 20 },
            ],
        ),
        'O' => Some(
            vec![
                Point { x: 0, y: 0 },
                Point { x: 20, y: 0 },
                Point { x: 20, y: 0 },
                Point { x: 20, y: 20 },
                Point { x: 20, y: 20 },
                Point { x: 0, y: 20 },
                Point { x: 0, y: 20 },
                Point { x: 0, y: 0 },
            ],
        ),
        _ => None,
    };
    proof {
        if r is Some {
            assert(glyph_model(c) == Some(crate::geometry::points_model(r->Some_0@)))
                by {
                assert(crate::geometry::points_model(r->Some_0@) =~= glyph_model(c)->Some_0);
            }
        }
    }
    r
}

} // verus!
