//! The text buffer: construction, line queries, position conversion and slicing.

use ropey::Rope;
use vstd::prelude::*;
use vstd::utf8::{decode_utf8, valid_utf8};

use crate::model::{
    clamp_line_in, clamp_offset, clamp_pos_in, last_line, lemma_line_start,
    lemma_offset_in_line, line_count, line_end, line_len, line_start, newlines_before,
    offset_to_pos, pos_to_offset, lemma_clamp_idempotent, text_between,
};
pub use crate::edit::Edit;
pub use crate::pos::{Pos, Selection};
use crate::rope_store::{
    rope_char, rope_char_to_line, rope_chars, rope_clone, rope_from_str, rope_len_chars, rope_len_lines,
    rope_line_len_chars, rope_line_to_char, rope_new, rope_slice_to_string, rope_to_string,
};

verus! {

/// File content that is not valid UTF-8.
#[derive(Debug, Clone, Copy, PartialEq, Eq, Structural)]
pub struct EncodingError;

/// A text buffer that owns the rope holding its characters.
///
/// Every query clamps its input into range, so no call fails or panics.
#[derive(Debug)]
pub struct TextBuffer {
    pub(crate) rope: Rope,
}

impl View for TextBuffer {
    type V = Seq<char>;

    /// The characters of the buffer, in order.
    closed spec fn view(&self) -> Seq<char> {
        rope_chars(self.rope)
    }
}

impl Default for TextBuffer {
    fn default() -> (r: TextBuffer)
        ensures
            r@ == Seq::<char>::empty(),
            r.wf(),
    {
        TextBuffer::new()
    }
}

impl Clone for TextBuffer {
    fn clone(&self) -> (r: TextBuffer)
        ensures
            r@ == self@,
    {
        TextBuffer { rope: rope_clone(&self.rope) }
    }
}

impl TextBuffer {
    /// A buffer's character count fits in `usize`; every buffer made here has it.
    pub open spec fn wf(&self) -> bool {
        self@.len() <= usize::MAX
    }

    /// What the view is, for the modules that work on the rope directly.
    pub(crate) proof fn lemma_view(&self)
        ensures
            self@ == rope_chars(self.rope),
    {
    }

    /// An empty buffer.
    pub fn new() -> (r: TextBuffer)
        ensures
            r@ == Seq::<char>::empty(),
            r.wf(),
    {
        TextBuffer { rope: rope_new() }
    }

    /// A buffer holding the characters of `s`.
    pub fn from_str(s: &str) -> (r: TextBuffer)
        ensures
            r@ == s@,
            r.wf(),
    {
        let rope = rope_from_str(s);
        // The rope counts its characters in a `usize`, which is what `wf` states.
        let _ = rope_len_chars(&rope);
        TextBuffer { rope }
    }

    /// A buffer holding the text that `bytes` encode, or `EncodingError` when they
    /// are not valid UTF-8. Nothing is decoded partially.
    pub fn from_utf8(bytes: Vec<u8>) -> (r: Result<TextBuffer, EncodingError>)
        ensures
            r is Ok <==> valid_utf8(bytes@),
            r matches Ok(b) ==> b@ == decode_utf8(bytes@) && b.wf(),
    {
        match String::from_utf8(bytes) {
            Ok(text) => Ok(TextBuffer::from_str(text.as_str())),
            Err(_) => Err(EncodingError),
        }
    }

    /// Read-only access to the underlying rope.
    pub fn rope(&self) -> (r: &Rope)
        ensures
            rope_chars(*r) == self@,
    {
        &self.rope
    }

    /// Total number of characters.
    pub fn len_chars(&self) -> (r: usize)
        ensures
            r == self@.len(),
    {
        rope_len_chars(&self.rope)
    }

    /// Whether the buffer holds no character.
    pub fn is_empty(&self) -> (r: bool)
        ensures
            r == (self@.len() == 0),
    {
        rope_len_chars(&self.rope) == 0
    }

    /// Number of lines: the number of line feeds plus one, so at least one.
    pub fn len_lines(&self) -> (r: usize)
        ensures
            r == line_count(self@),
            r >= 1,
    {
        rope_len_lines(&self.rope)
    }

    /// `line` clamped to `[0, len_lines - 1]`.
    pub fn clamp_line(&self, line: usize) -> (r: usize)
        ensures
            r == clamp_line_in(self@, line as int),
    {
        let last = self.len_lines().saturating_sub(1);
        if line < last {
            line
        } else {
            last
        }
    }

    /// Offset at which the (clamped) line starts.
    pub fn line_to_char(&self, line: usize) -> (r: usize)
        ensures
            r == line_start(self@, clamp_line_in(self@, line as int)),
    {
        let line = self.clamp_line(line);
        rope_line_to_char(&self.rope, line)
    }

    /// The line that holds the (clamped) offset `char_idx`.
    pub fn char_to_line(&self, char_idx: usize) -> (r: usize)
        ensures
            r == newlines_before(self@, clamp_offset(self@, char_idx as int)),
    {
        let len = self.len_chars();
        let c = if char_idx < len {
            char_idx
        } else {
            len
        };
        rope_char_to_line(&self.rope, c)
    }

    /// Number of characters of the (clamped) line, a trailing line feed excluded.
    pub fn line_len_chars(&self, line: usize) -> (r: usize)
        requires
            self.wf(),
        ensures
            r == line_len(self@, clamp_line_in(self@, line as int)),
    {
        let line = self.clamp_line(line);
        proof {
            lemma_line_start(self@, line as nat);
        }
        let start = rope_line_to_char(&self.rope, line);
        let len = rope_line_len_chars(&self.rope, line);
        if len > 0 && rope_char(&self.rope, start + len - 1) == '\n' {
            len - 1
        } else {
            len
        }
    }

    /// Offsets `[start, end)` of the (clamped) line's content, its line feed excluded.
    pub fn line_char_range(&self, line: usize) -> (r: core::ops::Range<usize>)
        requires
            self.wf(),
        ensures
            r.start == line_start(self@, clamp_line_in(self@, line as int)),
            r.end == line_end(self@, clamp_line_in(self@, line as int)),
    {
        let line = self.clamp_line(line);
        proof {
            lemma_line_start(self@, line as nat);
        }
        let start = rope_line_to_char(&self.rope, line);
        let end_including_newline = start + rope_line_len_chars(&self.rope, line);
        let end = if end_including_newline > start && rope_char(
            &self.rope,
            end_including_newline - 1,
        ) == '\n' {
            end_including_newline - 1
        } else {
            end_including_newline
        };
        start..end
    }

    /// The (clamped) line's content as a `String`, its line feed excluded.
    pub fn line_string(&self, line: usize) -> (r: String)
        requires
            self.wf(),
        ensures
            r@ == self@.subrange(
                line_start(self@, clamp_line_in(self@, line as int)),
                line_end(self@, clamp_line_in(self@, line as int)),
            ),
    {
        proof {
            lemma_line_start(self@, clamp_line_in(self@, line as int));
        }
        let range = self.line_char_range(line);
        rope_slice_to_string(&self.rope, range.start, range.end)
    }

    /// `pos` moved onto an existing line, then its column into `[0, line_len_chars]`.
    pub fn clamp_pos(&self, pos: Pos) -> (r: Pos)
        requires
            self.wf(),
        ensures
            r == clamp_pos_in(self@, pos),
    {
        let line = self.clamp_line(pos.line);
        let max_col = self.line_len_chars(line);
        let col = if pos.col < max_col {
            pos.col
        } else {
            max_col
        };
        Pos { line, col }
    }

    /// Absolute offset of the (clamped) position.
    pub fn pos_to_char(&self, pos: Pos) -> (r: usize)
        requires
            self.wf(),
        ensures
            r == pos_to_offset(self@, pos),
            r <= self@.len(),
    {
        let pos = self.clamp_pos(pos);
        proof {
            lemma_line_start(self@, pos.line as nat);
        }
        rope_line_to_char(&self.rope, pos.line) + pos.col
    }

    /// Position of the (clamped) offset. An offset on a line feed maps to the end
    /// of that line's content.
    pub fn char_to_pos(&self, char_idx: usize) -> (r: Pos)
        requires
            self.wf(),
        ensures
            r == offset_to_pos(self@, char_idx as int),
            r == clamp_pos_in(self@, r),
    {
        let len = self.len_chars();
        let c = if char_idx < len {
            char_idx
        } else {
            len
        };
        let line = rope_char_to_line(&self.rope, c);
        proof {
            lemma_offset_in_line(self@, c as int);
            lemma_line_start(self@, line as nat);
        }
        let line_start = rope_line_to_char(&self.rope, line);
        let col = c - line_start;
        let max_col = self.line_len_chars(line);
        Pos {
            line,
            col: if col < max_col {
                col
            } else {
                max_col
            },
        }
    }

    /// One character left of the (clamped) position, stopping at the buffer's start.
    pub fn move_left(&self, pos: Pos) -> (r: Pos)
        requires
            self.wf(),
        ensures
            r == offset_to_pos(self@, pos_to_offset(self@, pos) - 1),
    {
        let c = self.pos_to_char(pos);
        if c == 0 {
            return Pos::zero();
        }
        self.char_to_pos(c - 1)
    }

    /// One character right of the (clamped) position, stopping at the buffer's end.
    pub fn move_right(&self, pos: Pos) -> (r: Pos)
        requires
            self.wf(),
        ensures
            r == offset_to_pos(self@, pos_to_offset(self@, pos) + 1),
    {
        let c = self.pos_to_char(pos);
        let maxc = self.len_chars();
        if c >= maxc {
            return self.char_to_pos(maxc);
        }
        self.char_to_pos(c + 1)
    }

    /// One line up from the (clamped) position, keeping the column where the line
    /// is long enough; the first line stays where it is.
    pub fn move_up(&self, pos: Pos) -> (r: Pos)
        requires
            self.wf(),
        ensures
            ({
                let q = clamp_pos_in(self@, pos);
                r == if q.line == 0 {
                    q
                } else {
                    clamp_pos_in(self@, Pos { line: (q.line - 1) as usize, col: q.col })
                }
            }),
    {
        let pos = self.clamp_pos(pos);
        if pos.line == 0 {
            return pos;
        }
        let new_line = pos.line - 1;
        let max_col = self.line_len_chars(new_line);
        let new_col = if pos.col < max_col {
            pos.col
        } else {
            max_col
        };
        Pos::new(new_line, new_col)
    }

    /// One line down from the (clamped) position, keeping the column where the line
    /// is long enough; the last line stays where it is.
    pub fn move_down(&self, pos: Pos) -> (r: Pos)
        requires
            self.wf(),
        ensures
            ({
                let q = clamp_pos_in(self@, pos);
                r == if q.line >= last_line(self@) {
                    q
                } else {
                    clamp_pos_in(self@, Pos { line: (q.line + 1) as usize, col: q.col })
                }
            }),
    {
        let pos = self.clamp_pos(pos);
        let last = self.len_lines().saturating_sub(1);
        if pos.line >= last {
            return pos;
        }
        let new_line = pos.line + 1;
        let max_col = self.line_len_chars(new_line);
        let new_col = if pos.col < max_col {
            pos.col
        } else {
            max_col
        };
        Pos::new(new_line, new_col)
    }

    /// The character at the (clamped) position, unless it stands at the end of its
    /// line's content.
    pub fn char_at(&self, pos: Pos) -> (r: Option<char>)
        requires
            self.wf(),
        ensures
            ({
                let q = clamp_pos_in(self@, pos);
                r == if q.col < line_len(self@, q.line as nat) {
                    Some(self@[pos_to_offset(self@, pos)])
                } else {
                    None
                }
            }),
    {
        let pos = self.clamp_pos(pos);
        let line_len = self.line_len_chars(pos.line);
        if pos.col >= line_len {
            return None;
        }
        let idx = self.pos_to_char(pos);
        proof {
            lemma_clamp_idempotent(self@, pos);
            lemma_line_start(self@, pos.line as nat);
        }
        Some(rope_char(&self.rope, idx))
    }

    /// The character just before the (clamped) position, if any.
    pub fn char_before(&self, pos: Pos) -> (r: Option<char>)
        requires
            self.wf(),
        ensures
            r == if pos_to_offset(self@, pos) == 0 {
                None
            } else {
                Some(self@[pos_to_offset(self@, pos) - 1])
            },
    {
        let c = self.pos_to_char(pos);
        if c == 0 {
            None
        } else {
            Some(rope_char(&self.rope, c - 1))
        }
    }

    /// The whole text as a `String`.
    pub fn to_string(&self) -> (r: String)
        ensures
            r@ == self@,
    {
        rope_to_string(&self.rope)
    }

    /// The characters between two offsets, each clamped into the buffer, in either order.
    pub fn slice_chars(&self, start: usize, end: usize) -> (r: String)
        ensures
            r@ == text_between(self@, clamp_offset(self@, start as int), clamp_offset(self@, end as int)),
    {
        let maxc = self.len_chars();
        let mut start = if start < maxc {
            start
        } else {
            maxc
        };
        let mut end = if end < maxc {
            end
        } else {
            maxc
        };
        if start > end {
            let t = start;
            start = end;
            end = t;
        }
        rope_slice_to_string(&self.rope, start, end)
    }

    /// The text that a selection covers.
    pub fn slice_selection(&self, sel: Selection) -> (r: String)
        requires
            self.wf(),
        ensures
            r@ == text_between(
                self@,
                pos_to_offset(self@, sel.anchor),
                pos_to_offset(self@, sel.cursor),
            ),
    {
        let (a, b) = sel.ordered();
        let start = self.pos_to_char(a);
        let end = self.pos_to_char(b);
        self.slice_chars(start, end)
    }

    /// The text between two positions, in either order.
    pub fn slice_pos_range(&self, a: Pos, b: Pos) -> (r: String)
        requires
            self.wf(),
        ensures
            r@ == text_between(self@, pos_to_offset(self@, a), pos_to_offset(self@, b)),
    {
        let start = self.pos_to_char(a);
        let end = self.pos_to_char(b);
        self.slice_chars(start, end)
    }
}

} // verus!
