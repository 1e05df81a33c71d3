//! The part of the text that a viewport shows: which lines, and which of their
//! characters, before anything is drawn.

use vstd::prelude::*;

use crate::buffer::TextBuffer;
use crate::model::{lemma_line_start, line_count, line_end, line_start};
use vstd::math::min;

verus! {

/// A window onto the text: the first line and column shown, and the size in
/// characters and lines.
#[derive(Debug, Clone, Copy, PartialEq, Eq, Structural)]
pub struct TextViewport {
    pub scroll_x: usize,
    pub scroll_y: usize,
    pub width: u16,
    pub height: u16,
}

/// The characters of `line` that a viewport scrolled right by `scroll_x` and
/// `width` characters wide shows: at most `width` of them, from column `scroll_x`.
pub open spec fn visible_part(s: Seq<char>, line: nat, scroll_x: int, width: int) -> Seq<char> {
    let content = s.subrange(line_start(s, line), line_end(s, line));
    let skip = min(scroll_x, content.len() as int);
    content.subrange(skip, min(content.len() as int, skip + width))
}

/// Number of lines a viewport shows: up to its height, from its first line to the
/// last line of the text.
pub open spec fn visible_line_count(s: Seq<char>, v: TextViewport) -> int {
    if v.scroll_y < line_count(s) {
        min(v.height as int, line_count(s) - v.scroll_y)
    } else {
        0
    }
}

/// The lines of `buffer` that `viewport` shows, each cut to the columns it shows.
pub fn snapshot_lines(buffer: &TextBuffer, viewport: &TextViewport) -> (r: Vec<String>)
    requires
        buffer.wf(),
    ensures
        r.len() == visible_line_count(buffer@, *viewport),
        forall|i: int|
            0 <= i < r.len() ==> #[trigger] r[i]@ == visible_part(
                buffer@,
                (viewport.scroll_y + i) as nat,
                viewport.scroll_x as int,
                viewport.width as int,
            ),
{
    let mut lines: Vec<String> = Vec::with_capacity(viewport.height as usize);
    let first_line = viewport.scroll_y;
    let last_line = first_line.saturating_add(viewport.height as usize);
    let len_lines = buffer.len_lines();
    let mut line_idx = first_line;
    while line_idx < last_line && line_idx < len_lines
        invariant
            buffer.wf(),
            len_lines == line_count(buffer@),
            first_line == viewport.scroll_y,
            last_line == if first_line + viewport.height <= usize::MAX {
                first_line + viewport.height
            } else {
                usize::MAX as int
            },
            first_line <= line_idx,
            line_idx <= first_line || (line_idx <= last_line && line_idx <= len_lines),
            lines.len() == line_idx - first_line,
            forall|i: int|
                0 <= i < lines.len() ==> #[trigger] lines[i]@ == visible_part(
                    buffer@,
                    (viewport.scroll_y + i) as nat,
                    viewport.scroll_x as int,
                    viewport.width as int,
                ),
        decreases len_lines - line_idx,
    {
        let range = buffer.line_char_range(line_idx);
        proof {
            lemma_line_start(buffer@, line_idx as nat);
        }
        let len = range.end - range.start;
        let skip = if viewport.scroll_x < len {
            viewport.scroll_x
        } else {
            len
        };
        let take = if len - skip < viewport.width as usize {
            len - skip
        } else {
            viewport.width as usize
        };
        let line = buffer.slice_chars(range.start + skip, range.start + skip + take);
        proof {
            let s = buffer@;
            let content = s.subrange(range.start as int, range.end as int);
            assert(line@ =~= content.subrange(skip as int, skip + take));
        }
        lines.push(line);
        line_idx += 1;
    }
    lines
}

} // verus!
