use system_text::geometry::Point;
use system_text::glyphs::glyph_points;
use system_text::layout::{check_lines, layout, vertex_count, TextLine};

fn pt(x: i64, y: i64) -> Point {
    Point { x, y }
}

fn line(text: &str, position: (i64, i64), char_size: (i64, i64)) -> TextLine {
    TextLine {
        text: text.chars().collect(),
        position: pt(position.0, position.1),
        char_size: pt(char_size.0, char_size.1),
    }
}

#[test]
fn glyphs_have_even_point_counts() {
    for c in ['A', 'E', 'H', 'L', 'O'] {
        let points = glyph_points(c).expect("supported character");
        assert!(points.len() % 2 == 0);
        assert!(!points.is_empty());
    }
}

#[test]
fn unmapped_characters_have_no_glyph() {
    for c in ['x', 'a', '0', ' ', '\n', '?'] {
        assert!(glyph_points(c).is_none());
    }
}

#[test]
fn glyph_h_matches_table() {
    let points = glyph_points('H').unwrap();
    assert_eq!(
        points,
        vec![pt(0, 0), pt(0, 20), pt(20, 0), pt(20, 20), pt(0, 10), pt(20, 10)]
    );
}

#[test]
fn scenario_he_line() {
    // "HE" at the origin with unit character size: the six 'H' points at
    // cursor (0,0), then the eight 'E' points at cursor (1,0), each scaled
    // by the 0.8 x 0.7 base scale. Coordinates in subunits (200 per unit).
    let out = layout(&vec![line("HE", (0, 0), (1, 1))]);
    let expected = vec![
        // 'H'
        pt(0, 0),
        pt(0, -140),
        pt(160, 0),
        pt(160, -140),
        pt(0, -70),
        pt(160, -70),
        // 'E', one character width to the right
        pt(360, 0),
        pt(200, 0),
        pt(200, 0),
        pt(200, -140),
        pt(200, -140),
        pt(360, -140),
        pt(200, -70),
        pt(280, -70),
    ];
    assert_eq!(out, expected);
    assert_eq!(vertex_count(&out), 28);
}

#[test]
fn scenario_line_break() {
    // "A\nA" starting at (2,3): the break resets x to 2 and moves y down to
    // 2, so the second 'A' is laid out with the cursor at (2,2).
    let out = layout(&vec![line("A\nA", (2, 3), (1, 1))]);
    let expected = vec![
        // first 'A', cursor (2,3)
        pt(400, 460),
        pt(480, 600),
        pt(480, 600),
        pt(560, 460),
        pt(440, 530),
        pt(520, 530),
        // second 'A', cursor (2,2)
        pt(400, 260),
        pt(480, 400),
        pt(480, 400),
        pt(560, 260),
        pt(440, 330),
        pt(520, 330),
    ];
    assert_eq!(out, expected);
}

#[test]
fn scenario_unmapped_character_advances_cursor() {
    // 'x' has no glyph: alone it contributes nothing, but it still advances
    // the cursor, so in "xA" the 'A' sits one character width to the right.
    assert_eq!(layout(&vec![line("x", (0, 0), (1, 1))]), vec![]);
    let out = layout(&vec![line("xA", (0, 0), (1, 1))]);
    let expected = vec![
        pt(200, -140),
        pt(280, 0),
        pt(280, 0),
        pt(360, -140),
        pt(240, -70),
        pt(320, -70),
    ];
    assert_eq!(out, expected);
}

#[test]
fn cursor_advances_by_char_width() {
    // "LL" with a character step of (3,2): the second 'L' is shifted by
    // exactly one character width (3 units = 600 subunits), and the glyph
    // strokes are stretched by the step as well.
    let out = layout(&vec![line("LL", (0, 0), (3, 2))]);
    let expected = vec![
        pt(0, 0),
        pt(0, -280),
        pt(0, -280),
        pt(480, -280),
        pt(600, 0),
        pt(600, -280),
        pt(600, -280),
        pt(1080, -280),
    ];
    assert_eq!(out, expected);
}

#[test]
fn layout_of_no_lines_is_empty() {
    assert_eq!(layout(&vec![]), vec![]);
}

#[test]
fn layout_of_empty_text_is_empty() {
    let out = layout(&vec![line("", (5, 7), (2, 2))]);
    assert_eq!(out, vec![]);
    assert_eq!(vertex_count(&out), 0);
}

#[test]
fn layout_is_deterministic() {
    let input = vec![line("HELLO", (1, 2), (2, 3)), line("A\nE", (-4, 0), (1, 1))];
    let first = layout(&input);
    let second = layout(&input);
    assert_eq!(first, second);
    assert!(first.len() % 2 == 0);
}

#[test]
fn multiple_lines_concatenate_in_order() {
    let first = layout(&vec![line("L", (0, 0), (1, 1))]);
    let second = layout(&vec![line("O", (10, 10), (1, 1))]);
    let both = layout(&vec![line("L", (0, 0), (1, 1)), line("O", (10, 10), (1, 1))]);
    let mut expected = first.clone();
    expected.extend(second.iter().copied());
    assert_eq!(both, expected);
}

#[test]
fn check_lines_accepts_bounded_input() {
    let input = vec![line("HELLO", (1_000_000, -1_000_000), (1_000_000, 1))];
    assert!(check_lines(&input));
}

#[test]
fn check_lines_rejects_out_of_range_coordinates() {
    assert!(!check_lines(&vec![line("H", (1_000_001, 0), (1, 1))]));
    assert!(!check_lines(&vec![line("H", (0, 0), (1, -1_000_001))]));
}
