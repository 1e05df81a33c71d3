use editor_core::{Edit, EncodingError, Pos, Selection, TextBuffer};
use editor_core::util::is_word_char;
use editor_core::viewport::{snapshot_lines, TextViewport};

#[test]
fn pos_char_roundtrip_basic() {
    let b = TextBuffer::from_str("hello\nworld\n");
    // line 0: "hello"
    let p = Pos::new(0, 3);
    let c = b.pos_to_char(p);
    assert_eq!(b.rope().char(c), 'l');
    let p2 = b.char_to_pos(c);
    assert_eq!(p2, p);
}

#[test]
fn clamp_column_to_line_len() {
    let b = TextBuffer::from_str("hi\n");
    let p = b.clamp_pos(Pos::new(0, 999));
    assert_eq!(p, Pos::new(0, 2));
}

#[test]
fn insert_and_delete() {
    let mut b = TextBuffer::from_str("ac\n");
    let cur = b.insert(Pos::new(0, 1), "b");
    assert_eq!(b.to_string(), "abc\n");
    assert_eq!(cur, Pos::new(0, 2));

    let cur2 = b.delete_range(Pos::new(0, 1), Pos::new(0, 2));
    assert_eq!(b.to_string(), "ac\n");
    assert_eq!(cur2, Pos::new(0, 1));
}

#[test]
fn backspace_at_start_noop() {
    let mut b = TextBuffer::from_str("x");
    let sel = Selection::empty(Pos::new(0, 0));
    let sel2 = b.backspace(sel);
    assert_eq!(b.to_string(), "x");
    assert_eq!(sel2.cursor, Pos::new(0, 0));
}

#[test]
fn delete_forward() {
    let mut b = TextBuffer::from_str("xy");
    let sel = Selection::empty(Pos::new(0, 0));
    let sel2 = b.delete(sel);
    assert_eq!(b.to_string(), "y");
    assert_eq!(sel2.cursor, Pos::new(0, 0));
}

#[test]
fn selection_slice_and_delete() {
    let mut b = TextBuffer::from_str("hello world");
    let sel = Selection::new(Pos::new(0, 6), Pos::new(0, 11));
    assert_eq!(b.slice_selection(sel), "world");
    let (cur, did) = b.delete_selection(sel);
    assert!(did);
    assert_eq!(cur, Pos::new(0, 6));
    assert_eq!(b.to_string(), "hello ");
}

#[test]
fn word_motions_ascii() {
    let b = TextBuffer::from_str("abc  def_12!");
    let p = Pos::new(0, 6); // in "def_12"
    let start = b.word_start_before(p);
    assert_eq!(start, Pos::new(0, 5));
    let end = b.word_end_after(start);
    assert_eq!(end, Pos::new(0, 11));
}

#[test]
fn line_len_excludes_newline() {
    let b = TextBuffer::from_str("a\nbb\n");
    assert_eq!(b.line_len_chars(0), 1);
    assert_eq!(b.line_len_chars(1), 2);
}

#[test]
fn line_range_excludes_newline() {
    let b = TextBuffer::from_str("a\nbb\n");
    let r0 = b.line_char_range(0);
    assert_eq!(b.slice_chars(r0.start, r0.end), "a");
    let r1 = b.line_char_range(1);
    assert_eq!(b.slice_chars(r1.start, r1.end), "bb");
}

#[test]
fn apply_edit_replace() {
    let mut b = TextBuffer::from_str("kitten");
    // "kit" -> "smit"
    let cur = b.apply_edit(Edit::replace(0..3, "smit"));
    assert_eq!(b.to_string(), "smitten");
    assert_eq!(cur, Pos::new(0, 4));
}

#[test]
fn empty_buffer_has_one_line() {
    let b = TextBuffer::new();
    assert_eq!(b.len_lines(), 1);
    assert_eq!(b.len_chars(), 0);
}

#[test]
fn insert_and_delete_selection_smoke() {
    let mut b = TextBuffer::from_str("ab");

    let sel = Selection::empty(Pos::new(0, 2));
    let new_cursor = b.insert(sel.cursor, "c");
    assert_eq!(b.to_string(), "abc");
    assert_eq!(new_cursor, Pos::new(0, 3));

    let sel2 = Selection::new(Pos::new(0, 1), Pos::new(0, 2));
    let (cur, did) = b.delete_selection(sel2);
    assert!(did);
    assert_eq!(cur, Pos::new(0, 1));
    assert_eq!(b.to_string(), "ac");
}

// ---------------------------------------------------------------------------

#[test]
fn clamp_is_idempotent() {
    let b = TextBuffer::from_str("ab\ncde");
    for p in [Pos::new(7, 9), Pos::new(0, 5), Pos::new(1, 1), Pos::new(1, 0), Pos::new(0, 0)] {
        let once = b.clamp_pos(p);
        assert_eq!(b.clamp_pos(once), once);
    }
    assert_eq!(b.clamp_pos(Pos::new(7, 9)), Pos::new(1, 3));
    assert_eq!(b.clamp_pos(Pos::new(0, 5)), Pos::new(0, 2));
    assert_eq!(b.clamp_line(9), 1);
}

#[test]
fn every_offset_round_trips() {
    let b = TextBuffer::from_str("hello\nworld\n\nx");
    for c in 0..=b.len_chars() {
        assert_eq!(b.pos_to_char(b.char_to_pos(c)), c);
    }
    // Offsets past the end are clamped.
    assert_eq!(b.char_to_pos(999), Pos::new(3, 1));
}

#[test]
fn every_valid_position_round_trips() {
    let b = TextBuffer::from_str("hello\nworld\n\nx");
    for line in 0..b.len_lines() {
        for col in 0..=b.line_len_chars(line) {
            let p = Pos::new(line, col);
            assert_eq!(b.char_to_pos(b.pos_to_char(p)), p);
        }
    }
}

#[test]
fn offset_on_newline_maps_to_end_of_line() {
    let b = TextBuffer::from_str("ab\ncd");
    assert_eq!(b.char_to_pos(2), Pos::new(0, 2));
    assert_eq!(b.char_to_pos(3), Pos::new(1, 0));
    assert_eq!(b.pos_to_char(Pos::new(1, 2)), 5);
    assert_eq!(b.line_to_char(1), 3);
    assert_eq!(b.line_to_char(7), 3);
    assert_eq!(b.char_to_line(2), 0);
    assert_eq!(b.char_to_line(3), 1);
    assert_eq!(b.char_to_line(100), 1);
}

#[test]
fn line_count_is_at_least_one() {
    assert_eq!(TextBuffer::from_str("").len_lines(), 1);
    assert_eq!(TextBuffer::from_str("a").len_lines(), 1);
    assert_eq!(TextBuffer::from_str("a\n").len_lines(), 2);
    assert_eq!(TextBuffer::from_str("\n\n").len_lines(), 3);
    assert_eq!(TextBuffer::default().len_lines(), 1);
}

#[test]
fn trailing_newline_gives_empty_last_line() {
    let b = TextBuffer::from_str("a\nbb\n");
    assert_eq!(b.len_lines(), 3);
    assert_eq!(b.line_len_chars(2), 0);
    assert_eq!(b.line_string(0), "a");
    assert_eq!(b.line_string(1), "bb");
    assert_eq!(b.line_string(2), "");
    assert_eq!(b.line_string(50), "");
    assert_eq!(b.line_char_range(1), 2..4);
}

#[test]
fn carriage_return_is_not_a_line_break() {
    let b = TextBuffer::from_str("a\r\nb\rc");
    assert_eq!(b.len_lines(), 2);
    assert_eq!(b.line_len_chars(0), 2);
    assert_eq!(b.line_string(1), "b\rc");
}

#[test]
fn multibyte_characters_count_once() {
    let b = TextBuffer::from_str("héllo\nwörld");
    assert_eq!(b.len_chars(), 11);
    assert_eq!(b.line_len_chars(0), 5);
    assert_eq!(b.char_at(Pos::new(1, 1)), Some('ö'));
    assert_eq!(b.pos_to_char(Pos::new(1, 2)), 8);
}

#[test]
fn insert_then_delete_restores() {
    let original = "one\ntwo\nthree";
    for (p, t) in [
        (Pos::new(1, 2), "xyz"),
        (Pos::new(0, 0), "a\nb\n"),
        (Pos::new(2, 5), "\n"),
        (Pos::new(1, 3), ""),
    ] {
        let mut b = TextBuffer::from_str(original);
        let end = b.insert(p, t);
        let back = b.delete_range(p, end);
        assert_eq!(b.to_string(), original);
        assert_eq!(back, p);
    }
}

#[test]
fn insert_returns_end_of_inserted_text() {
    let mut b = TextBuffer::from_str("ab");
    let cur = b.insert(Pos::new(0, 1), "x\nyz");
    assert_eq!(b.to_string(), "ax\nyzb");
    assert_eq!(cur, Pos::new(1, 2));
    // An out-of-range position is clamped before inserting.
    let cur = b.insert(Pos::new(9, 9), "!");
    assert_eq!(b.to_string(), "ax\nyzb!");
    assert_eq!(cur, Pos::new(1, 4));
}

#[test]
fn delete_range_is_order_independent() {
    let mut a = TextBuffer::from_str("hello\nworld");
    let mut b = a.clone();
    let ra = a.delete_range(Pos::new(0, 3), Pos::new(1, 2));
    let rb = b.delete_range(Pos::new(1, 2), Pos::new(0, 3));
    assert_eq!(a.to_string(), "helrld");
    assert_eq!(b.to_string(), "helrld");
    assert_eq!(ra, Pos::new(0, 3));
    assert_eq!(rb, Pos::new(0, 3));
}

#[test]
fn backspace_removes_previous_char_and_joins_lines() {
    let mut b = TextBuffer::from_str("ab\ncd");
    let sel = b.backspace(Selection::empty(Pos::new(1, 0)));
    assert_eq!(b.to_string(), "abcd");
    assert_eq!(sel, Selection::empty(Pos::new(0, 2)));
    let sel = b.backspace(Selection::new(Pos::new(0, 3), Pos::new(0, 1)));
    assert_eq!(b.to_string(), "ad");
    assert_eq!(sel, Selection::empty(Pos::new(0, 1)));
}

#[test]
fn backspace_at_start_keeps_clamped_cursor() {
    let mut b = TextBuffer::from_str("");
    let sel = b.backspace(Selection::empty(Pos::new(3, 4)));
    assert_eq!(b.to_string(), "");
    assert_eq!(sel, Selection::empty(Pos::new(0, 0)));
}

#[test]
fn delete_at_end_is_noop() {
    let mut b = TextBuffer::from_str("ab\ncd");
    let sel = b.delete(Selection::empty(Pos::new(1, 2)));
    assert_eq!(b.to_string(), "ab\ncd");
    assert_eq!(sel, Selection::empty(Pos::new(1, 2)));
    let sel = b.delete(Selection::empty(Pos::new(5, 9)));
    assert_eq!(b.to_string(), "ab\ncd");
    assert_eq!(sel, Selection::empty(Pos::new(1, 2)));
}

#[test]
fn delete_at_end_of_line_joins_lines() {
    let mut b = TextBuffer::from_str("ab\ncd");
    let sel = b.delete(Selection::empty(Pos::new(0, 2)));
    assert_eq!(b.to_string(), "abcd");
    assert_eq!(sel.cursor, Pos::new(0, 2));
    let sel = b.delete(Selection::new(Pos::new(0, 0), Pos::new(0, 2)));
    assert_eq!(b.to_string(), "cd");
    assert_eq!(sel, Selection::empty(Pos::new(0, 0)));
}

#[test]
fn delete_selection_on_empty_selection() {
    let mut b = TextBuffer::from_str("abc");
    let (cur, did) = b.delete_selection(Selection::empty(Pos::new(0, 7)));
    assert!(!did);
    assert_eq!(cur, Pos::new(0, 3));
    assert_eq!(b.to_string(), "abc");
}

#[test]
fn delete_selection_reversed_returns_range_start() {
    let mut b = TextBuffer::from_str("abc\ndef");
    let (cur, did) = b.delete_selection(Selection::new(Pos::new(1, 1), Pos::new(0, 1)));
    assert!(did);
    assert_eq!(cur, Pos::new(0, 1));
    assert_eq!(b.to_string(), "aef");
}

#[test]
fn insert_newline_splits_and_replaces() {
    let mut b = TextBuffer::from_str("abcd");
    let sel = b.insert_newline(Selection::empty(Pos::new(0, 2)));
    assert_eq!(b.to_string(), "ab\ncd");
    assert_eq!(sel, Selection::empty(Pos::new(1, 0)));
    let sel = b.insert_newline(Selection::new(Pos::new(1, 2), Pos::new(0, 1)));
    assert_eq!(b.to_string(), "a\n");
    assert_eq!(sel, Selection::empty(Pos::new(1, 0)));
}

#[test]
fn replace_selection_inserts_or_replaces() {
    let mut b = TextBuffer::from_str("hello world");
    let sel = b.replace_selection(Selection::new(Pos::new(0, 0), Pos::new(0, 5)), "goodbye");
    assert_eq!(b.to_string(), "goodbye world");
    assert_eq!(sel, Selection::empty(Pos::new(0, 7)));
    let sel = b.replace_selection(Selection::empty(Pos::new(0, 13)), "!\n");
    assert_eq!(b.to_string(), "goodbye world!\n");
    assert_eq!(sel, Selection::empty(Pos::new(1, 0)));
}

#[test]
fn apply_edit_reversed_range_matches_ordered() {
    let text = "0123456789abcdef";
    let mut forward = TextBuffer::from_str(text);
    let mut backward = TextBuffer::from_str(text);
    let pf = forward.apply_edit(Edit::replace(3..10, "XY"));
    #[allow(clippy::reversed_empty_ranges)]
    let pb = backward.apply_edit(Edit::replace(10..3, "XY"));
    assert_eq!(forward.to_string(), "012XYabcdef");
    assert_eq!(backward.to_string(), forward.to_string());
    assert_eq!(pf, Pos::new(0, 5));
    assert_eq!(pb, pf);
}

#[test]
fn apply_edit_insert_delete_and_clamp() {
    let mut b = TextBuffer::from_str("abc");
    let p = b.apply_edit(Edit::insert(1, "\nz"));
    assert_eq!(b.to_string(), "a\nzbc");
    assert_eq!(p, Pos::new(1, 1));
    let p = b.apply_edit(Edit::delete(0..2));
    assert_eq!(b.to_string(), "zbc");
    assert_eq!(p, Pos::new(0, 0));
    let p = b.apply_edit(Edit::replace(2..100, "!"));
    assert_eq!(b.to_string(), "zb!");
    assert_eq!(p, Pos::new(0, 3));
    let p = b.apply_edit(Edit::insert(50, "?"));
    assert_eq!(b.to_string(), "zb!?");
    assert_eq!(p, Pos::new(0, 4));
}

#[test]
fn edit_constructors() {
    let e = Edit::insert(4, "ab");
    assert_eq!(e.range, 4..4);
    assert_eq!(e.insert, "ab");
    let d = Edit::delete(1..3);
    assert_eq!(d.range, 1..3);
    assert_eq!(d.insert, "");
    let r = Edit::replace(2..5, "xyz");
    assert_eq!(r.clone(), r);
}

#[test]
fn selection_order_and_emptiness() {
    let a = Pos::new(1, 5);
    let b = Pos::new(2, 0);
    assert_eq!(Selection::new(a, b).ordered(), (a, b));
    assert_eq!(Selection::new(b, a).ordered(), (a, b));
    assert_eq!(Selection::new(Pos::new(0, 4), Pos::new(0, 2)).ordered(), (Pos::new(0, 2), Pos::new(0, 4)));
    assert!(Selection::empty(a).is_empty());
    assert!(!Selection::new(a, b).is_empty());
    assert_eq!(Pos::zero(), Pos::new(0, 0));
}

#[test]
fn horizontal_moves_saturate() {
    let b = TextBuffer::from_str("ab\nc");
    assert_eq!(b.move_left(Pos::new(0, 0)), Pos::new(0, 0));
    assert_eq!(b.move_left(Pos::new(1, 0)), Pos::new(0, 2));
    assert_eq!(b.move_right(Pos::new(0, 2)), Pos::new(1, 0));
    assert_eq!(b.move_right(Pos::new(1, 1)), Pos::new(1, 1));
    assert_eq!(b.move_right(Pos::new(8, 8)), Pos::new(1, 1));
}

#[test]
fn vertical_moves_keep_column_where_possible() {
    let b = TextBuffer::from_str("abcd\nx\nlonger");
    assert_eq!(b.move_down(Pos::new(0, 3)), Pos::new(1, 1));
    assert_eq!(b.move_down(Pos::new(1, 1)), Pos::new(2, 1));
    assert_eq!(b.move_down(Pos::new(2, 4)), Pos::new(2, 4));
    assert_eq!(b.move_up(Pos::new(2, 5)), Pos::new(1, 1));
    assert_eq!(b.move_up(Pos::new(1, 0)), Pos::new(0, 0));
    assert_eq!(b.move_up(Pos::new(0, 3)), Pos::new(0, 3));
}

#[test]
fn char_at_and_before() {
    let b = TextBuffer::from_str("ab\nc");
    assert_eq!(b.char_at(Pos::new(0, 1)), Some('b'));
    assert_eq!(b.char_at(Pos::new(0, 2)), None);
    assert_eq!(b.char_at(Pos::new(1, 0)), Some('c'));
    assert_eq!(b.char_before(Pos::new(0, 0)), None);
    assert_eq!(b.char_before(Pos::new(1, 0)), Some('\n'));
    assert_eq!(b.char_before(Pos::new(1, 1)), Some('c'));
}

#[test]
fn slices_clamp_and_reorder() {
    let b = TextBuffer::from_str("hello\nworld");
    assert_eq!(b.slice_chars(8, 2), "llo\nwo");
    assert_eq!(b.slice_chars(3, 999), "lo\nworld");
    assert_eq!(b.slice_pos_range(Pos::new(1, 2), Pos::new(0, 4)), "o\nwo");
    assert_eq!(b.slice_selection(Selection::new(Pos::new(0, 9), Pos::new(0, 3))), "lo");
}

#[test]
fn word_motions_edges() {
    let b = TextBuffer::from_str("  foo bar  ");
    assert_eq!(b.word_start_before(Pos::new(0, 0)), Pos::new(0, 0));
    assert_eq!(b.word_start_before(Pos::new(0, 11)), Pos::new(0, 6));
    assert_eq!(b.word_start_before(Pos::new(0, 5)), Pos::new(0, 2));
    assert_eq!(b.word_end_after(Pos::new(0, 0)), Pos::new(0, 5));
    assert_eq!(b.word_end_after(Pos::new(0, 9)), Pos::new(0, 11));
    let m = TextBuffer::from_str("ab\n  cd");
    assert_eq!(m.word_end_after(Pos::new(0, 2)), Pos::new(1, 4));
    assert_eq!(m.word_start_before(Pos::new(1, 2)), Pos::new(0, 0));
}

#[test]
fn word_char_classification() {
    assert!(is_word_char('a'));
    assert!(is_word_char('Z'));
    assert!(is_word_char('7'));
    assert!(is_word_char('_'));
    assert!(!is_word_char('-'));
    assert!(!is_word_char(' '));
    assert!(!is_word_char('é'));
}

#[test]
fn from_utf8_accepts_valid_and_rejects_invalid() {
    let b = TextBuffer::from_utf8("a\nβ".as_bytes().to_vec()).unwrap();
    assert_eq!(b.to_string(), "a\nβ");
    assert_eq!(b.len_chars(), 3);
    assert_eq!(TextBuffer::from_utf8(vec![0x61, 0xff, 0x62]).unwrap_err(), EncodingError);
    assert!(TextBuffer::from_utf8(Vec::new()).unwrap().is_empty());
}

#[test]
fn clone_is_independent() {
    let mut a = TextBuffer::from_str("abc");
    let b = a.clone();
    a.insert(Pos::new(0, 0), "x");
    assert_eq!(a.to_string(), "xabc");
    assert_eq!(b.to_string(), "abc");
    assert!(!b.is_empty());
}

#[test]
fn viewport_snapshot_cuts_lines() {
    let b = TextBuffer::from_str("hello\nworld wide\n\nxyz");
    let v = TextViewport { scroll_x: 2, scroll_y: 1, width: 4, height: 10 };
    assert_eq!(snapshot_lines(&b, &v), vec!["rld ".to_string(), String::new(), "z".to_string()]);
    let v = TextViewport { scroll_x: 0, scroll_y: 0, width: 80, height: 2 };
    assert_eq!(snapshot_lines(&b, &v), vec!["hello".to_string(), "world wide".to_string()]);
    let v = TextViewport { scroll_x: 0, scroll_y: usize::MAX, width: 80, height: 5 };
    assert!(snapshot_lines(&b, &v).is_empty());
}
