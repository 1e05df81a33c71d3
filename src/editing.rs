//! Editing operations: insertion, deletion and replacement.
//!
//! Each operation clamps its input, changes the text through the rope, and
//! returns where the cursor lands afterwards.

use vstd::prelude::*;

use crate::buffer::TextBuffer;
use crate::edit::Edit;
use crate::model::{
    clamp_offset, clamp_pos_in, lemma_offset_round_trip, lemma_pos_to_offset_bound, offset_to_pos, pos_to_offset, splice,
};
use crate::pos::{Pos, Selection};
use crate::rope_store::{rope_from_str, rope_insert, rope_len_chars, rope_remove};
use crate::util::{max_pos, min_pos};
use vstd::math::{max, min};

verus! {

/// The ends of an edit's range, each clamped into the text, in order.
pub open spec fn edit_bounds(s: Seq<char>, start: int, end: int) -> (int, int) {
    let a = clamp_offset(s, start);
    let b = clamp_offset(s, end);
    (min(a, b), max(a, b))
}

/// The text after an edit of range `start..end` (in either order) with text `t`.
pub open spec fn edited_text(s: Seq<char>, start: int, end: int, t: Seq<char>) -> Seq<char> {
    let (lo, hi) = edit_bounds(s, start, end);
    splice(s, lo, hi, t)
}

/// Where the cursor lands after that edit: just after the inserted text.
pub open spec fn edited_cursor(s: Seq<char>, start: int, end: int, t: Seq<char>) -> Pos {
    let (lo, hi) = edit_bounds(s, start, end);
    offset_to_pos(edited_text(s, start, end, t), lo + t.len())
}

impl TextBuffer {
    /// Inserts `text` at the (clamped) position; returns the position just after it.
    pub fn insert(&mut self, pos: Pos, text: &str) -> (r: Pos)
        requires
            old(self).wf(),
        ensures
            final(self).wf(),
            final(self)@ == splice(
                old(self)@,
                pos_to_offset(old(self)@, pos),
                pos_to_offset(old(self)@, pos),
                text@,
            ),
            r == offset_to_pos(final(self)@, pos_to_offset(old(self)@, pos) + text@.len()),
    {
        let at = self.pos_to_char(pos);
        proof {
            self.lemma_view();
        }
        rope_insert(&mut self.rope, at, text);
        // The rope reports its new length as a `usize`, which bounds the end offset.
        let len_after = self.len_chars();
        let inserted_chars = rope_len_chars(&rope_from_str(text));
        proof {
            self.lemma_view();
            assert(at + inserted_chars <= len_after);
            assert(self@ =~= splice(old(self)@, at as int, at as int, text@));
        }
        self.char_to_pos(at + inserted_chars)
    }

    /// Deletes the text between two positions, given in either order; returns the
    /// position where the deletion started.
    pub fn delete_range(&mut self, a: Pos, b: Pos) -> (r: Pos)
        requires
            old(self).wf(),
        ensures
            final(self).wf(),
            ({
                let oa = pos_to_offset(old(self)@, a);
                let ob = pos_to_offset(old(self)@, b);
                &&& final(self)@ == splice(old(self)@, min(oa, ob), max(oa, ob), Seq::empty())
                &&& r == offset_to_pos(final(self)@, min(oa, ob))
            }),
    {
        let start = self.pos_to_char(min_pos(self, a, b));
        let end = self.pos_to_char(max_pos(self, a, b));
        proof {
            self.lemma_view();
        }
        if start < end {
            rope_remove(&mut self.rope, start, end);
        }
        proof {
            self.lemma_view();
            assert(self@ =~= splice(old(self)@, start as int, end as int, Seq::empty()));
        }
        self.char_to_pos(start)
    }

    /// Deletes a non-empty selection. Returns the new cursor and whether anything
    /// was deleted; an empty selection leaves the text alone and yields its
    /// clamped cursor.
    pub fn delete_selection(&mut self, sel: Selection) -> (r: (Pos, bool))
        requires
            old(self).wf(),
        ensures
            final(self).wf(),
            r.1 == (sel.anchor != sel.cursor),
            sel.anchor == sel.cursor ==> final(self)@ == old(self)@ && r.0 == clamp_pos_in(
                old(self)@,
                sel.cursor,
            ),
            sel.anchor != sel.cursor ==> ({
                let oa = pos_to_offset(old(self)@, sel.anchor);
                let ob = pos_to_offset(old(self)@, sel.cursor);
                &&& final(self)@ == splice(old(self)@, min(oa, ob), max(oa, ob), Seq::empty())
                &&& r.0 == offset_to_pos(final(self)@, min(oa, ob))
            }),
    {
        if sel.is_empty() {
            return (self.clamp_pos(sel.cursor), false);
        }
        let (start, end) = sel.ordered();
        let new_cursor = self.delete_range(start, end);
        (new_cursor, true)
    }

    /// Backspace: deletes a non-empty selection, otherwise the character before the
    /// (clamped) cursor, if any. Returns an empty selection at the new cursor.
    pub fn backspace(&mut self, sel: Selection) -> (r: Selection)
        requires
            old(self).wf(),
        ensures
            final(self).wf(),
            r.anchor == r.cursor,
            sel.anchor != sel.cursor ==> ({
                let oa = pos_to_offset(old(self)@, sel.anchor);
                let ob = pos_to_offset(old(self)@, sel.cursor);
                &&& final(self)@ == splice(old(self)@, min(oa, ob), max(oa, ob), Seq::empty())
                &&& r.cursor == offset_to_pos(final(self)@, min(oa, ob))
            }),
            sel.anchor == sel.cursor ==> ({
                let o = pos_to_offset(old(self)@, sel.cursor);
                if o == 0 {
                    &&& final(self)@ == old(self)@
                    &&& r.cursor == clamp_pos_in(old(self)@, sel.cursor)
                } else {
                    &&& final(self)@ == splice(old(self)@, o - 1, o, Seq::empty())
                    &&& r.cursor == offset_to_pos(final(self)@, o - 1)
                }
            }),
    {
        if !sel.is_empty() {
            let (cursor, _) = self.delete_selection(sel);
            return Selection::empty(cursor);
        }
        let cursor = self.clamp_pos(sel.cursor);
        let at = self.pos_to_char(cursor);
        if at == 0 {
            return Selection::empty(cursor);
        }
        let start = at - 1;
        proof {
            self.lemma_view();
        }
        rope_remove(&mut self.rope, start, at);
        proof {
            self.lemma_view();
        }
        let new_cursor = self.char_to_pos(start);
        Selection::empty(new_cursor)
    }

    /// Forward delete: deletes a non-empty selection, otherwise the character at
    /// the (clamped) cursor, if any. Returns an empty selection at the new cursor.
    pub fn delete(&mut self, sel: Selection) -> (r: Selection)
        requires
            old(self).wf(),
        ensures
            final(self).wf(),
            r.anchor == r.cursor,
            sel.anchor != sel.cursor ==> ({
                let oa = pos_to_offset(old(self)@, sel.anchor);
                let ob = pos_to_offset(old(self)@, sel.cursor);
                &&& final(self)@ == splice(old(self)@, min(oa, ob), max(oa, ob), Seq::empty())
                &&& r.cursor == offset_to_pos(final(self)@, min(oa, ob))
            }),
            sel.anchor == sel.cursor ==> ({
                let o = pos_to_offset(old(self)@, sel.cursor);
                if o >= old(self)@.len() {
                    &&& final(self)@ == old(self)@
                    &&& r.cursor == clamp_pos_in(old(self)@, sel.cursor)
                } else {
                    &&& final(self)@ == splice(old(self)@, o, o + 1, Seq::empty())
                    &&& r.cursor == offset_to_pos(final(self)@, o)
                }
            }),
    {
        if !sel.is_empty() {
            let (cursor, _) = self.delete_selection(sel);
            return Selection::empty(cursor);
        }
        let cursor = self.clamp_pos(sel.cursor);
        let at = self.pos_to_char(cursor);
        let maxc = self.len_chars();
        if at >= maxc {
            return Selection::empty(cursor);
        }
        proof {
            self.lemma_view();
        }
        rope_remove(&mut self.rope, at, at + 1);
        proof {
            self.lemma_view();
        }
        let new_cursor = self.char_to_pos(at);
        Selection::empty(new_cursor)
    }

    /// Replaces the selection (or inserts at the cursor, when it is empty) with a
    /// line feed. Returns an empty selection just after it.
    pub fn insert_newline(&mut self, sel: Selection) -> (r: Selection)
        requires
            old(self).wf(),
        ensures
            final(self).wf(),
            r.anchor == r.cursor,
            ({
                let oa = pos_to_offset(old(self)@, sel.anchor);
                let ob = pos_to_offset(old(self)@, sel.cursor);
                &&& final(self)@ == splice(old(self)@, min(oa, ob), max(oa, ob), seq!['\n'])
                &&& r.cursor == offset_to_pos(final(self)@, min(oa, ob) + 1)
            }),
    {
        proof {
            reveal_strlit("\n");
        }
        if !sel.is_empty() {
            let (start, end) = sel.ordered();
            let cursor = self.delete_range(start, end);
            let ghost lo = min(
                pos_to_offset(old(self)@, sel.anchor),
                pos_to_offset(old(self)@, sel.cursor),
            );
            proof {
                lemma_pos_to_offset_bound(old(self)@, sel.anchor);
                lemma_pos_to_offset_bound(old(self)@, sel.cursor);
                lemma_offset_round_trip(self@, lo);
            }
            let new_cursor = self.insert(cursor, "\n");
            proof {
                assert(self@ =~= splice(old(self)@, lo, max(pos_to_offset(old(self)@, sel.anchor), pos_to_offset(old(self)@, sel.cursor)), seq!['\n']));
            }
            return Selection::empty(new_cursor);
        }
        let cursor = self.clamp_pos(sel.cursor);
        let new_cursor = self.insert(cursor, "\n");
        proof {
            assert(self@ =~= splice(old(self)@, pos_to_offset(old(self)@, sel.cursor), pos_to_offset(old(self)@, sel.cursor), seq!['\n']));
        }
        Selection::empty(new_cursor)
    }

    /// Applies an edit given in character offsets. Both ends of the range are
    /// clamped into the buffer and put in order; the range is removed and the
    /// edit's text placed at its start. Returns the position just after the
    /// inserted text (the start of the range when there is none).
    pub fn apply_edit(&mut self, edit: Edit) -> (r: Pos)
        requires
            old(self).wf(),
        ensures
            final(self).wf(),
            final(self)@ == edited_text(
                old(self)@,
                edit.range.start as int,
                edit.range.end as int,
                edit.insert@,
            ),
            r == edited_cursor(old(self)@, edit.range.start as int, edit.range.end as int, edit.insert@),
    {
        let maxc = self.len_chars();
        let start = if edit.range.start < maxc {
            edit.range.start
        } else {
            maxc
        };
        let end = if edit.range.end < maxc {
            edit.range.end
        } else {
            maxc
        };
        let (start, end) = if start <= end {
            (start, end)
        } else {
            (end, start)
        };
        proof {
            self.lemma_view();
        }
        if start < end {
            rope_remove(&mut self.rope, start, end);
        }
        proof {
            self.lemma_view();
            assert(self@ =~= splice(old(self)@, start as int, end as int, Seq::empty()));
        }
        if !edit.insert.as_str().is_empty() {
            rope_insert(&mut self.rope, start, edit.insert.as_str());
            let len_after = self.len_chars();
            let inserted_chars = rope_len_chars(&rope_from_str(edit.insert.as_str()));
            proof {
                self.lemma_view();
                assert(start + inserted_chars <= len_after);
                assert(self@ =~= splice(old(self)@, start as int, end as int, edit.insert@));
            }
            self.char_to_pos(start + inserted_chars)
        } else {
            proof {
                assert(self@ =~= splice(old(self)@, start as int, end as int, edit.insert@));
            }
            self.char_to_pos(start)
        }
    }

    /// Replaces the selection (or inserts at the cursor, when it is empty) with
    /// `text`. Returns an empty selection just after the inserted text.
    pub fn replace_selection(&mut self, sel: Selection, text: &str) -> (r: Selection)
        requires
            old(self).wf(),
        ensures
            final(self).wf(),
            r.anchor == r.cursor,
            ({
                let oa = pos_to_offset(old(self)@, sel.anchor);
                let ob = pos_to_offset(old(self)@, sel.cursor);
                &&& final(self)@ == splice(old(self)@, min(oa, ob), max(oa, ob), text@)
                &&& r.cursor == offset_to_pos(final(self)@, min(oa, ob) + text@.len())
            }),
    {
        if !sel.is_empty() {
            let (start, end) = sel.ordered();
            let cursor = self.delete_range(start, end);
            let ghost lo = min(
                pos_to_offset(old(self)@, sel.anchor),
                pos_to_offset(old(self)@, sel.cursor),
            );
            proof {
                lemma_pos_to_offset_bound(old(self)@, sel.anchor);
                lemma_pos_to_offset_bound(old(self)@, sel.cursor);
                lemma_offset_round_trip(self@, lo);
            }
            let cursor = self.insert(cursor, text);
            proof {
                assert(self@ =~= splice(
                    old(self)@,
                    lo,
                    max(pos_to_offset(old(self)@, sel.anchor), pos_to_offset(old(self)@, sel.cursor)),
                    text@,
                ));
            }
            Selection::empty(cursor)
        } else {
            let cursor = self.insert(sel.cursor, text);
            Selection::empty(cursor)
        }
    }
}

} // verus!
