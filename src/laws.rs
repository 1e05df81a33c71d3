//! Laws that relate the buffer's operations, proved over their contracts.

use vstd::prelude::*;

use crate::buffer::TextBuffer;
use crate::editing::{edited_cursor, edited_text};
use crate::model::{
    clamp_pos_in, lemma_clamp_idempotent, lemma_offset_round_trip,
    lemma_pos_round_trip, lemma_pos_to_offset_bound, lemma_prefix_pos, line_count, line_len,
    offset_to_pos, pos_to_offset, splice,
};
use crate::pos::{Pos, Selection};
use vstd::math::{max, min};

verus! {

/// Clamping is idempotent: `clamp_pos(clamp_pos(p)) == clamp_pos(p)`.
pub proof fn law_clamp_idempotent(buf: &TextBuffer, p: Pos)
    ensures
        clamp_pos_in(buf@, clamp_pos_in(buf@, p)) == clamp_pos_in(buf@, p),
{
    lemma_clamp_idempotent(buf@, p);
}

/// Every offset in `[0, len_chars]` survives the trip through a position:
/// `pos_to_char(char_to_pos(c)) == c`.
pub proof fn law_offset_round_trip(buf: &TextBuffer, c: usize)
    requires
        c <= buf@.len(),
    ensures
        pos_to_offset(buf@, offset_to_pos(buf@, c as int)) == c,
{
    lemma_offset_round_trip(buf@, c as int);
}

/// Every position on an existing line whose column is at most that line's length
/// survives the trip through an offset: `char_to_pos(pos_to_char(p)) == p`.
pub proof fn law_position_round_trip(buf: &TextBuffer, p: Pos)
    requires
        p.line < line_count(buf@),
        p.col <= line_len(buf@, p.line as nat),
    ensures
        offset_to_pos(buf@, pos_to_offset(buf@, p)) == p,
{
    lemma_pos_round_trip(buf@, p);
}

/// Inserting `t` at a position, then deleting from that position to where the
/// insertion ended, restores the text, and the cursor lands back on the position.
pub proof fn law_insert_then_delete_restores(buf: &TextBuffer, p: Pos, t: Seq<char>)
    requires
        p == clamp_pos_in(buf@, p),
        buf@.len() + t.len() <= usize::MAX,
    ensures
        ({
            let s = buf@;
            let o = pos_to_offset(s, p);
            // what `insert(p, t)` leaves, and the position it returns
            let s1 = splice(s, o, o, t);
            let e = offset_to_pos(s1, o + t.len());
            // what `delete_range(p, e)` then leaves, and the position it returns
            let oa = pos_to_offset(s1, p);
            let ob = pos_to_offset(s1, e);
            let s2 = splice(s1, min(oa, ob), max(oa, ob), Seq::empty());
            &&& s2 == s
            &&& offset_to_pos(s2, min(oa, ob)) == p
        }),
{
    let s = buf@;
    let o = pos_to_offset(s, p);
    let s1 = splice(s, o, o, t);
    lemma_pos_to_offset_bound(s, p);
    lemma_pos_round_trip(s, p);
    assert(s1.take(o) =~= s.take(o));
    lemma_prefix_pos(s1, s, o, o);
    lemma_offset_round_trip(s1, o);
    lemma_offset_round_trip(s1, o + t.len());
    let e = offset_to_pos(s1, o + t.len());
    let s2 = splice(s1, o, o + t.len(), Seq::empty());
    assert(s2 =~= s);
}

/// Deleting a non-empty selection returns the position, in the text before the
/// deletion, of the start of the removed range.
pub proof fn law_delete_selection_returns_start(buf: &TextBuffer, sel: Selection)
    ensures
        ({
            let s = buf@;
            let oa = pos_to_offset(s, sel.anchor);
            let ob = pos_to_offset(s, sel.cursor);
            offset_to_pos(splice(s, min(oa, ob), max(oa, ob), Seq::empty()), min(oa, ob))
                == offset_to_pos(s, min(oa, ob))
        }),
{
    let s = buf@;
    let oa = pos_to_offset(s, sel.anchor);
    let ob = pos_to_offset(s, sel.cursor);
    lemma_pos_to_offset_bound(s, sel.anchor);
    lemma_pos_to_offset_bound(s, sel.cursor);
    let lo = min(oa, ob);
    let s2 = splice(s, lo, max(oa, ob), Seq::empty());
    assert(s2.take(lo) =~= s.take(lo));
    lemma_prefix_pos(s2, s, lo, lo);
}

/// An edit's range may be given in either order: `start..end` and `end..start`
/// leave the same text and the same cursor.
pub proof fn law_apply_edit_order_independent(buf: &TextBuffer, start: usize, end: usize, t: Seq<char>)
    ensures
        edited_text(buf@, start as int, end as int, t) == edited_text(buf@, end as int, start as int, t),
        edited_cursor(buf@, start as int, end as int, t) == edited_cursor(
            buf@,
            end as int,
            start as int,
            t,
        ),
{
}

} // verus!
