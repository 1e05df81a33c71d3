//! Small helpers shared by the buffer's operations.

use vstd::prelude::*;

use crate::buffer::TextBuffer;
use crate::model::{clamp_pos_in, lemma_offset_monotone, pos_to_offset};
use crate::pos::{pos_le, Pos};

verus! {

/// Word characters: ASCII letters and digits, and the underscore.
pub open spec fn is_word_char_spec(ch: char) -> bool {
    ('a' <= ch && ch <= 'z') || ('A' <= ch && ch <= 'Z') || ('0' <= ch && ch <= '9') || ch == '_'
}

/// Whether `ch` belongs to a word: an ASCII letter or digit, or the underscore.
pub fn is_word_char(ch: char) -> (r: bool)
    ensures
        r == is_word_char_spec(ch),
{
    ('a' <= ch && ch <= 'z') || ('A' <= ch && ch <= 'Z') || ('0' <= ch && ch <= '9') || ch == '_'
}

/// The earlier of two positions, both clamped into the buffer first.
pub(crate) fn min_pos(buf: &TextBuffer, a: Pos, b: Pos) -> (r: Pos)
    requires
        buf.wf(),
    ensures
        r == clamp_pos_in(buf@, a) || r == clamp_pos_in(buf@, b),
        pos_to_offset(buf@, r) == vstd::math::min(pos_to_offset(buf@, a), pos_to_offset(buf@, b)),
{
    let a = buf.clamp_pos(a);
    let b = buf.clamp_pos(b);
    proof {
        lemma_order_of_clamped(buf@, a, b);
    }
    if a.line < b.line || (a.line == b.line && a.col <= b.col) {
        a
    } else {
        b
    }
}

/// The later of two positions, both clamped into the buffer first.
pub(crate) fn max_pos(buf: &TextBuffer, a: Pos, b: Pos) -> (r: Pos)
    requires
        buf.wf(),
    ensures
        r == clamp_pos_in(buf@, a) || r == clamp_pos_in(buf@, b),
        pos_to_offset(buf@, r) == vstd::math::max(pos_to_offset(buf@, a), pos_to_offset(buf@, b)),
{
    let a = buf.clamp_pos(a);
    let b = buf.clamp_pos(b);
    proof {
        lemma_order_of_clamped(buf@, a, b);
    }
    if a.line > b.line || (a.line == b.line && a.col >= b.col) {
        a
    } else {
        b
    }
}

proof fn lemma_order_of_clamped(s: Seq<char>, a: Pos, b: Pos)
    requires
        a == clamp_pos_in(s, a),
        b == clamp_pos_in(s, b),
    ensures
        pos_le(a, b) ==> pos_to_offset(s, a) <= pos_to_offset(s, b),
        pos_le(b, a) ==> pos_to_offset(s, b) <= pos_to_offset(s, a),
{
    if pos_le(a, b) {
        lemma_offset_monotone(s, a, b);
    }
    if pos_le(b, a) {
        lemma_offset_monotone(s, b, a);
    }
}

} // verus!
