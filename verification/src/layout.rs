//! The layout engine: walks text lines and tessellates them into a flat
//! list of line-segment endpoints.

use vstd::prelude::*;
use crate::geometry::{Point, points_model, transformed, SUBDIV, X_STEP, Y_STEP, GRID};
use crate::glyphs::{glyph_model, glyph_points};

verus! {

/// The character that starts a new row within a text line.
pub const LINE_BREAK: char = '\n';

/// One line of text: the characters, the origin of the line in layout
/// units, and the per-character step (width, height) in layout units.
#[derive(Debug, Clone)]
pub struct TextLine {
    pub text: Vec<char>,
    pub position: Point,
    pub char_size: Point,
}

/// The points a single character contributes, with the cursor at `cursor`
/// and a per-character step of `size`: its glyph's points, transformed into
/// output subunits, or nothing for an unmapped character.
pub open spec fn char_points(c: char, cursor: (int, int), size: (int, int)) -> Seq<(int, int)> {
    match glyph_model(c) {
        Some(pts) => pts.map_values(|g: (int, int)| transformed(cursor, size, g)),
        None => Seq::empty(),
    }
}

/// Where the cursor stands after `c`: it advances by the character width
/// unconditionally, and a line break then resets it to the line's starting
/// x and moves it down one row (so the break's own advance is undone).
pub open spec fn next_cursor(c: char, cursor: (int, int), start_x: int, size: (int, int)) -> (
    int,
    int,
) {
    let advanced = (cursor.0 + size.0, cursor.1);
    if c == LINE_BREAK {
        (start_x, advanced.1 - size.1)
    } else {
        advanced
    }
}

/// The points of the rest of a text line, read from a cursor at `cursor`.
pub open spec fn line_points_from(
    text: Seq<char>,
    cursor: (int, int),
    start_x: int,
    size: (int, int),
) -> Seq<(int, int)>
    decreases text.len(),
{
    if text.len() == 0 {
        Seq::empty()
    } else {
        char_points(text[0], cursor, size) + line_points_from(
            text.drop_first(),
            next_cursor(text[0], cursor, start_x, size),
            start_x,
            size,
        )
    }
}

/// All points of one text line, starting at its origin.
pub open spec fn line_points(l: TextLine) -> Seq<(int, int)> {
    line_points_from(l.text@, l.position@, l.position@.0, l.char_size@)
}

/// All points of a list of text lines, concatenated in input order.
pub open spec fn layout_model(lines: Seq<TextLine>) -> Seq<(int, int)>
    decreases lines.len(),
{
    if lines.len() == 0 {
        Seq::empty()
    } else {
        line_points(lines[0]) + layout_model(lines.drop_first())
    }
}

/// Largest magnitude accepted for a line origin or character step, so that
/// every cursor position and output coordinate fits in an `i64`.
pub const COORD_LIMIT: i64 = 1_000_000;

/// Largest accepted character count of one text line, for the same reason.
pub const TEXT_LIMIT: usize = 1_000_000;

/// The machine bounds under which a line can be laid out exactly.
pub open spec fn line_ok(l: TextLine) -> bool {
    &&& l.text@.len() <= TEXT_LIMIT
    &&& -COORD_LIMIT <= l.position.x <= COORD_LIMIT
    &&& -COORD_LIMIT <= l.position.y <= COORD_LIMIT
    &&& -COORD_LIMIT <= l.char_size.x <= COORD_LIMIT
    &&& -COORD_LIMIT <= l.char_size.y <= COORD_LIMIT
}

pub open spec fn lines_ok(lines: Seq<TextLine>) -> bool {
    forall|i: int| 0 <= i < lines.len() ==> line_ok(#[trigger] lines[i])
}

/// Reports whether every line is within the machine bounds of `layout`.
pub fn check_lines(lines: &Vec<TextLine>) -> (ok: bool)
    ensures
        ok == lines_ok(lines@),
{
    let mut j: usize = 0;
    while j < lines.len()
        invariant
            j <= lines@.len(),
            forall|k: int| 0 <= k < j ==> line_ok(#[trigger] lines@[k]),
        decreases lines@.len() - j,
    {
        let l = &lines[j];
        let within = l.text.len() <= TEXT_LIMIT && -COORD_LIMIT <= l.position.x
            && l.position.x <= COORD_LIMIT && -COORD_LIMIT <= l.position.y
            && l.position.y <= COORD_LIMIT && -COORD_LIMIT <= l.char_size.x
            && l.char_size.x <= COORD_LIMIT && -COORD_LIMIT <= l.char_size.y
            && l.char_size.y <= COORD_LIMIT;
        if !within {
            return false;
        }
        j += 1;
    }
    true
}

/// Tessellates `lines` into a flat list of line-segment endpoints, in input
/// order: for each line, for each character in turn, the character's glyph
/// points transformed to the cursor (nothing for an unmapped character),
/// with the cursor advancing one character width per character and the line
/// break starting a new row. Coordinates are exact, in output subunits.
#[verifier::loop_isolation(false)]
pub fn layout(lines: &Vec<TextLine>) -> (out: Vec<Point>)
    requires
        lines_ok(lines@),
    ensures
        points_model(out@) == layout_model(lines@),
{
    let mut out: Vec<Point> = Vec::new();
    proof {
        assert(lines@.skip(0) =~= lines@);
        assert(points_model(out@) + layout_model(lines@) =~= layout_model(lines@));
    }
    let mut j: usize = 0;
    while j < lines.len()
        invariant
            j <= lines@.len(),
            points_model(out@) + layout_model(lines@.skip(j as int)) == layout_model(lines@),
        decreases lines@.len() - j,
    {
        let line = &lines[j];
        let px: i64 = line.position.x;
        let py: i64 = line.position.y;
        let sx: i64 = line.char_size.x;
        let sy: i64 = line.char_size.y;
        let ghost size: (int, int) = (sx as int, sy as int);
        let mut cx: i64 = px;
        let mut cy: i64 = py;
        proof {
            assert(line_ok(lines@[j as int]));
            assert(lines@.skip(j as int)[0] == lines@[j as int]);
            assert(lines@.skip(j as int).drop_first() =~= lines@.skip(j as int + 1));
            assert(layout_model(lines@.skip(j as int)) == line_points(lines@[j as int])
                + layout_model(lines@.skip(j as int + 1)));
            assert(line.text@.skip(0) =~= line.text@);
            assert(points_model(out@) + line_points_from(
                line.text@.skip(0),
                (cx as int, cy as int),
                px as int,
                size,
            ) + layout_model(lines@.skip(j as int + 1)) =~= points_model(out@) + layout_model(
                lines@.skip(j as int),
            ));
        }
        let mut i: usize = 0;
        while i < line.text.len()
            invariant
                i <= line.text@.len(),
                -(COORD_LIMIT * (1 + i as int)) <= cx as int <= COORD_LIMIT * (1 + i as int),
                -(COORD_LIMIT * (1 + i as int)) <= cy as int <= COORD_LIMIT * (1 + i as int),
                points_model(out@) + line_points_from(
                    line.text@.skip(i as int),
                    (cx as int, cy as int),
                    px as int,
                    size,
                ) + layout_model(lines@.skip(j as int + 1)) == layout_model(lines@),
            decreases line.text@.len() - i,
        {
            let c = line.text[i];
            let ghost cursor: (int, int) = (cx as int, cy as int);
            let ghost before_char = out@;
            match glyph_points(c) {
                Some(v) => {
                    proof {
                        crate::glyphs::lemma_glyph_well_formed(c);
                        assert(char_points(c, cursor, size) == points_model(v@).map_values(
                            |g: (int, int)| transformed(cursor, size, g),
                        ));
                        assert(char_points(c, cursor, size).take(0) =~= Seq::<(int, int)>::empty());
                        assert(points_model(out@) =~= points_model(before_char) + char_points(
                            c,
                            cursor,
                            size,
                        ).take(0));
                    }
                    let mut k: usize = 0;
                    while k < v.len()
                        invariant
                            k <= v@.len(),
                            points_model(out@) == points_model(before_char) + char_points(
                                c,
                                cursor,
                                size,
                            ).take(k as int),
                        decreases v@.len() - k,
                    {
                        let g = v[k];
                        proof {
                            assert(points_model(v@)[k as int] == g@);
                            assert(0 <= g.x <= GRID && 0 <= g.y <= GRID);
                            assert(-160 * 1_000_000 <= X_STEP * (g.x as int) * (sx as int) <= 160
                                * 1_000_000) by (nonlinear_arith)
                                requires
                                    0 <= g.x as int <= 20,
                                    -1_000_000 <= sx as int <= 1_000_000,
                            ;
                            assert(-140 * 1_000_000 <= Y_STEP * (g.y as int) * (sy as int) <= 140
                                * 1_000_000) by (nonlinear_arith)
                                requires
                                    0 <= g.y as int <= 20,
                                    -1_000_000 <= sy as int <= 1_000_000,
                            ;
                        }
                        let vx: i64 = SUBDIV * cx + X_STEP * g.x * sx;
                        let vy: i64 = SUBDIV * cy - Y_STEP * g.y * sy;
                        let ghost before_point = out@;
                        out.push(Point { x: vx, y: vy });
                        proof {
                            let cpts = char_points(c, cursor, size);
                            assert(cpts[k as int] == transformed(cursor, size, points_model(v@)[k as int]));
                            assert((vx as int, vy as int) == transformed(cursor, size, g@));
                            assert(points_model(out@) =~= points_model(before_point).push(
                                (vx as int, vy as int),
                            ));
                            assert(cpts.take(k as int + 1) =~= cpts.take(k as int).push(
                                cpts[k as int],
                            ));
                            assert(points_model(out@) =~= points_model(before_char) + cpts.take(
                                k as int + 1,
                            ));
                        }
                        k += 1;
                    }
                    proof {
                        assert(char_points(c, cursor, size).take(v@.len() as int) =~= char_points(
                            c,
                            cursor,
                            size,
                        ));
                    }
                },
                None => {
                    proof {
                        assert(char_points(c, cursor, size) =~= Seq::<(int, int)>::empty());
                        assert(points_model(out@) =~= points_model(before_char) + char_points(
                            c,
                            cursor,
                            size,
                        ));
                    }
                },
            }
            cx = cx + sx;
            if c == LINE_BREAK {
                cx = px;
                cy = cy - sy;
            }
            proof {
                assert((cx as int, cy as int) == next_cursor(c, cursor, px as int, size));
                assert(line.text@.skip(i as int)[0] == c);
                assert(line.text@.skip(i as int).drop_first() =~= line.text@.skip(i as int + 1));
                assert(line_points_from(line.text@.skip(i as int), cursor, px as int, size)
                    == char_points(c, cursor, size) + line_points_from(
                    line.text@.skip(i as int + 1),
                    next_cursor(c, cursor, px as int, size),
                    px as int,
                    size,
                ));
                assert(points_model(out@) + line_points_from(
                    line.text@.skip(i as int + 1),
                    (cx as int, cy as int),
                    px as int,
                    size,
                ) + layout_model(lines@.skip(j as int + 1)) =~= points_model(before_char)
                    + line_points_from(line.text@.skip(i as int), cursor, px as int, size)
                    + layout_model(lines@.skip(j as int + 1)));
            }
            i += 1;
        }
        proof {
            assert(line.text@.skip(line.text@.len() as int) =~= Seq::<char>::empty());
            assert(points_model(out@) + layout_model(lines@.skip(j as int + 1)) =~= points_model(
                out@,
            ) + line_points_from(
                Seq::<char>::empty(),
                (cx as int, cy as int),
                px as int,
                size,
            ) + layout_model(lines@.skip(j as int + 1)));
        }
        j += 1;
    }
    proof {
        assert(lines@.skip(lines@.len() as int) =~= Seq::<TextLine>::empty());
        assert(points_model(out@) + Seq::<(int, int)>::empty() =~= points_model(out@));
    }
    out
}

/// A character contributes an even number of points, so its segments pair
/// up exactly.
proof fn lemma_char_points_even(c: char, cursor: (int, int), size: (int, int))
    ensures
        char_points(c, cursor, size).len() % 2 == 0,
{
    crate::glyphs::lemma_glyph_well_formed(c);
}

proof fn lemma_line_points_from_even(
    text: Seq<char>,
    cursor: (int, int),
    start_x: int,
    size: (int, int),
)
    ensures
        line_points_from(text, cursor, start_x, size).len() % 2 == 0,
    decreases text.len(),
{
    if text.len() != 0 {
        lemma_char_points_even(text[0], cursor, size);
        lemma_line_points_from_even(
            text.drop_first(),
            next_cursor(text[0], cursor, start_x, size),
            start_x,
            size,
        );
    }
}

/// The whole layout has an even number of points: drawn pairwise as
/// segments, no vertex is left unmatched.
pub proof fn lemma_layout_even_len(lines: Seq<TextLine>)
    ensures
        layout_model(lines).len() % 2 == 0,
    decreases lines.len(),
{
    if lines.len() != 0 {
        lemma_line_points_from_even(
            lines[0].text@,
            lines[0].position@,
            lines[0].position@.0,
            lines[0].char_size@,
        );
        lemma_layout_even_len(lines.drop_first());
    }
}

/// A character other than the line break moves the cursor exactly one
/// character width to the right and leaves its vertical position alone —
/// also when the character is unmapped and contributed no points.
pub proof fn lemma_cursor_advance(c: char, cursor: (int, int), start_x: int, size: (int, int))
    requires
        c != LINE_BREAK,
    ensures
        next_cursor(c, cursor, start_x, size) == (cursor.0 + size.0, cursor.1),
{
}

/// The line break resets the cursor's horizontal position to the line's
/// starting x and places it one character height below the row it ended,
/// undoing the break's own horizontal advance.
pub proof fn lemma_cursor_line_break(cursor: (int, int), start_x: int, size: (int, int))
    ensures
        next_cursor(LINE_BREAK, cursor, start_x, size) == (start_x, cursor.1 - size.1),
{
}

/// Laying out no lines yields no points.
pub proof fn lemma_layout_no_lines()
    ensures
        layout_model(Seq::<TextLine>::empty()) == Seq::<(int, int)>::empty(),
{
}

/// A line whose text is empty yields no points.
pub proof fn lemma_layout_empty_text(l: TextLine)
    requires
        l.text@.len() == 0,
    ensures
        layout_model(seq![l]) == Seq::<(int, int)>::empty(),
{
    assert(seq![l].drop_first() =~= Seq::<TextLine>::empty());
    assert(line_points(l) + layout_model(Seq::<TextLine>::empty()) =~= Seq::<(int, int)>::empty());
}

/// The layout is a pure function of the lines' characters, origins and
/// steps (plus the fixed glyph table): two inputs that agree on those — for
/// instance the same input given twice — yield identical output sequences.
pub proof fn lemma_layout_determined(a: Seq<TextLine>, b: Seq<TextLine>)
    requires
        a.len() == b.len(),
        forall|i: int|
            0 <= i < a.len() ==> {
                &&& (#[trigger] a[i]).text@ == b[i].text@
                &&& a[i].position == b[i].position
                &&& a[i].char_size == b[i].char_size
            },
    ensures
        layout_model(a) == layout_model(b),
    decreases a.len(),
{
    if a.len() != 0 {
        assert(line_points(a[0]) == line_points(b[0]));
        lemma_layout_determined(a.drop_first(), b.drop_first());
    }
}

/// The vertex count handed to the draw call: the flat float count of the
/// buffer, two per point, every consecutive pair of points one segment.
pub fn vertex_count(points: &Vec<Point>) -> (n: usize)
    requires
        2 * points@.len() <= usize::MAX,
    ensures
        n == 2 * points@.len(),
{
    2 * points.len()
}

} // verus!
