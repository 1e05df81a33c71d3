use editor_core::text::{
    apply_goal_col, char_to_line_col, clamp_char, clamp_col_to_line, clamp_cursor_to_line_editable,
    clamp_range, line_col_to_char, line_editable_bounds, line_len_without_newline,
    move_char_clamped, ordered_pair, CharIdx, CharRange, ColIdx, GoalCol, LineCol, LineIdx,
};

// Line starts of "ab\ncde\n\nf": lines "ab\n", "cde\n", "\n", "f".
const STARTS: [usize; 4] = [0, 3, 7, 8];
const LENS: [usize; 4] = [2, 3, 0, 1];

#[test]
fn char_to_line_col_finds_containing_line() {
    let f = |l: usize| STARTS[l];
    assert_eq!(char_to_line_col(CharIdx(0), 4, f), LineCol::new(0, 0));
    assert_eq!(char_to_line_col(CharIdx(2), 4, f), LineCol::new(0, 2));
    assert_eq!(char_to_line_col(CharIdx(3), 4, f), LineCol::new(1, 0));
    assert_eq!(char_to_line_col(CharIdx(6), 4, f), LineCol::new(1, 3));
    assert_eq!(char_to_line_col(CharIdx(7), 4, f), LineCol::new(2, 0));
    assert_eq!(char_to_line_col(CharIdx(9), 4, f), LineCol::new(3, 1));
    assert_eq!(char_to_line_col(CharIdx(50), 4, f), LineCol::new(3, 42));
    assert_eq!(char_to_line_col(CharIdx(5), 0, f), LineCol::new(0, 0));
}

#[test]
fn line_col_to_char_clamps() {
    let f = |l: usize| STARTS[l];
    let g = |l: usize| LENS[l];
    assert_eq!(line_col_to_char(LineCol::new(1, 2), 4, f, g), CharIdx(5));
    assert_eq!(line_col_to_char(LineCol::new(1, 9), 4, f, g), CharIdx(6));
    assert_eq!(line_col_to_char(LineCol::new(9, 9), 4, f, g), CharIdx(9));
    assert_eq!(line_col_to_char(LineCol::new(2, 3), 4, f, g), CharIdx(7));
    assert_eq!(line_col_to_char(LineCol::new(2, 3), 0, f, g), CharIdx(0));
}

#[test]
fn index_types() {
    assert_eq!(CharIdx::new(4).get(), 4);
    assert_eq!(CharIdx(usize::MAX - 1).saturating_add(5), CharIdx(usize::MAX));
    assert_eq!(CharIdx(3).saturating_add(5), CharIdx(8));
    assert_eq!(CharIdx(3).saturating_sub(5), CharIdx(0));
    assert_eq!(CharIdx(9).saturating_sub(5), CharIdx(4));
    assert_eq!(LineIdx::new(2).get(), 2);
    assert_eq!(ColIdx::new(7).get(), 7);
    assert_eq!(GoalCol::new(6).goal_col, ColIdx(6));
    let lc = LineCol::new(1, 2);
    assert_eq!(lc.line, LineIdx(1));
    assert_eq!(lc.col, ColIdx(2));
}

#[test]
fn char_range_helpers() {
    let r = CharRange::new(CharIdx(7), CharIdx(2));
    assert!(r.is_empty());
    assert_eq!(r.len(), 0);
    assert_eq!(r.normalized(), CharRange::new(CharIdx(2), CharIdx(7)));
    assert_eq!(r.normalized().len(), 5);
    assert!(!r.normalized().is_empty());
    assert_eq!(r.clamp_to_len(4), CharRange::new(CharIdx(2), CharIdx(4)));
    assert_eq!(clamp_range(r, 1), CharRange::new(CharIdx(1), CharIdx(1)));
    assert_eq!(clamp_range(CharRange::new(CharIdx(1), CharIdx(3)), 10), CharRange::new(CharIdx(1), CharIdx(3)));
}

#[test]
fn clamping_helpers() {
    assert_eq!(clamp_char(CharIdx(9), 4), CharIdx(4));
    assert_eq!(clamp_char(CharIdx(2), 4), CharIdx(2));
    assert_eq!(clamp_col_to_line(ColIdx(9), 3), ColIdx(3));
    assert_eq!(apply_goal_col(ColIdx(2), 3), ColIdx(2));
    assert_eq!(apply_goal_col(ColIdx(8), 3), ColIdx(3));
    assert_eq!(line_len_without_newline(5, true), 4);
    assert_eq!(line_len_without_newline(0, true), 0);
    assert_eq!(line_len_without_newline(5, false), 5);
    assert_eq!(ordered_pair(CharIdx(5), CharIdx(1)), (CharIdx(1), CharIdx(5)));
    assert_eq!(ordered_pair(CharIdx(1), CharIdx(5)), (CharIdx(1), CharIdx(5)));
}

#[test]
fn moving_by_delta() {
    assert_eq!(move_char_clamped(CharIdx(3), 0, 2), CharIdx(2));
    assert_eq!(move_char_clamped(CharIdx(3), 4, 5), CharIdx(5));
    assert_eq!(move_char_clamped(CharIdx(3), 1, 5), CharIdx(4));
    assert_eq!(move_char_clamped(CharIdx(3), -1, 5), CharIdx(2));
    assert_eq!(move_char_clamped(CharIdx(3), -9, 5), CharIdx(0));
    assert_eq!(move_char_clamped(CharIdx(usize::MAX), isize::MIN, 5), CharIdx(usize::MAX / 2));
    assert_eq!(move_char_clamped(CharIdx(usize::MAX - 1), isize::MAX, usize::MAX), CharIdx(usize::MAX));
}

#[test]
fn editable_bounds() {
    assert_eq!(line_editable_bounds(CharIdx(10), 4, true), (CharIdx(10), CharIdx(13)));
    assert_eq!(line_editable_bounds(CharIdx(10), 4, false), (CharIdx(10), CharIdx(14)));
    assert_eq!(clamp_cursor_to_line_editable(CharIdx(20), CharIdx(10), CharIdx(13)), CharIdx(13));
    assert_eq!(clamp_cursor_to_line_editable(CharIdx(5), CharIdx(10), CharIdx(13)), CharIdx(10));
    assert_eq!(clamp_cursor_to_line_editable(CharIdx(11), CharIdx(10), CharIdx(13)), CharIdx(11));
}
