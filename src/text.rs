//! Index types and clamping helpers that need no particular text storage: they
//! work from line-start information that the caller supplies.

use vstd::prelude::*;

verus! {

/// A zero-based character index (in Unicode scalar values).
#[derive(Debug, Clone, Copy, PartialEq, Eq, PartialOrd, Ord, Hash, Default, Structural)]
pub struct CharIdx(pub usize);

impl CharIdx {
    pub fn new(v: usize) -> (r: CharIdx)
        ensures
            r.0 == v,
    {
        CharIdx(v)
    }

    pub fn get(self) -> (r: usize)
        ensures
            r == self.0,
    {
        self.0
    }

    /// The index moved `delta` forward, stopping at `usize::MAX`.
    pub fn saturating_add(self, delta: usize) -> (r: CharIdx)
        ensures
            r.0 == if self.0 + delta <= usize::MAX {
                (self.0 + delta) as usize
            } else {
                usize::MAX
            },
    {
        CharIdx(self.0.saturating_add(delta))
    }

    /// The index moved `delta` back, stopping at zero.
    pub fn saturating_sub(self, delta: usize) -> (r: CharIdx)
        ensures
            r.0 == if self.0 >= delta {
                (self.0 - delta) as usize
            } else {
                0
            },
    {
        CharIdx(self.0.saturating_sub(delta))
    }
}

/// A zero-based line index.
#[derive(Debug, Clone, Copy, PartialEq, Eq, PartialOrd, Ord, Hash, Default, Structural)]
pub struct LineIdx(pub usize);

impl LineIdx {
    pub fn new(v: usize) -> (r: LineIdx)
        ensures
            r.0 == v,
    {
        LineIdx(v)
    }

    pub fn get(self) -> (r: usize)
        ensures
            r == self.0,
    {
        self.0
    }
}

/// A zero-based column index, in characters within a line.
#[derive(Debug, Clone, Copy, PartialEq, Eq, PartialOrd, Ord, Hash, Default, Structural)]
pub struct ColIdx(pub usize);

impl ColIdx {
    pub fn new(v: usize) -> (r: ColIdx)
        ensures
            r.0 == v,
    {
        ColIdx(v)
    }

    pub fn get(self) -> (r: usize)
        ensures
            r == self.0,
    {
        self.0
    }
}

/// A (line, column) location.
#[derive(Debug, Clone, Copy, PartialEq, Eq, Hash, Default, Structural)]
pub struct LineCol {
    pub line: LineIdx,
    pub col: ColIdx,
}

impl LineCol {
    pub fn new(line: usize, col: usize) -> (r: LineCol)
        ensures
            r.line.0 == line,
            r.col.0 == col,
    {
        LineCol { line: LineIdx(line), col: ColIdx(col) }
    }
}

/// A half-open character range `[start, end)`; meaningful when `start <= end`.
#[derive(Debug, Clone, Copy, PartialEq, Eq, Hash, Default, Structural)]
pub struct CharRange {
    pub start: CharIdx,
    pub end: CharIdx,
}

impl CharRange {
    pub fn new(start: CharIdx, end: CharIdx) -> (r: CharRange)
        ensures
            r.start == start,
            r.end == end,
    {
        CharRange { start, end }
    }

    /// Whether the range holds no index: `start >= end`.
    pub fn is_empty(self) -> (r: bool)
        ensures
            r == (self.start.0 >= self.end.0),
    {
        self.start.0 >= self.end.0
    }

    /// Number of indices held: `end - start`, or zero when `start >= end`.
    pub fn len(self) -> (r: usize)
        ensures
            r == if self.end.0 >= self.start.0 {
                (self.end.0 - self.start.0) as usize
            } else {
                0
            },
    {
        self.end.0.saturating_sub(self.start.0)
    }

    /// The same range with its ends in order.
    pub fn normalized(self) -> (r: CharRange)
        ensures
            self.start.0 <= self.end.0 ==> r == self,
            self.start.0 > self.end.0 ==> r == (CharRange { start: self.end, end: self.start }),
    {
        if self.start.0 <= self.end.0 {
            self
        } else {
            CharRange { start: self.end, end: self.start }
        }
    }

    /// Both ends clamped to `max_len`, then put in order.
    pub fn clamp_to_len(self, max_len: usize) -> (r: CharRange)
        ensures
            r.start.0 == min_usize(min_usize(self.start.0, max_len), min_usize(self.end.0, max_len)),
            r.end.0 == max_usize(min_usize(self.start.0, max_len), min_usize(self.end.0, max_len)),
    {
        let s = if self.start.0 < max_len {
            self.start.0
        } else {
            max_len
        };
        let e = if self.end.0 < max_len {
            self.end.0
        } else {
            max_len
        };
        CharRange { start: CharIdx(s), end: CharIdx(e) }.normalized()
    }
}

/// A remembered "preferred column" for vertical motion.
#[derive(Debug, Clone, Copy, PartialEq, Eq, Hash, Default, Structural)]
pub struct GoalCol {
    pub goal_col: ColIdx,
}

impl GoalCol {
    pub fn new(goal_col: usize) -> (r: GoalCol)
        ensures
            r.goal_col.0 == goal_col,
    {
        GoalCol { goal_col: ColIdx(goal_col) }
    }
}

pub open spec fn min_usize(a: usize, b: usize) -> usize {
    if a <= b {
        a
    } else {
        b
    }
}

pub open spec fn max_usize(a: usize, b: usize) -> usize {
    if a >= b {
        a
    } else {
        b
    }
}

/// `a + b`, or `usize::MAX` when that does not fit.
pub open spec fn sat_add(a: usize, b: usize) -> usize {
    if a + b <= usize::MAX {
        (a + b) as usize
    } else {
        usize::MAX
    }
}

/// `a - b`, or zero when `b > a`.
pub open spec fn sat_sub(a: usize, b: usize) -> usize {
    if a >= b {
        (a - b) as usize
    } else {
        0
    }
}

/// The `(line, col)` of `char_idx`, given the number of lines and each line's
/// start offset: the line is the last one (by binary search) whose start is at
/// most `char_idx`, the column the distance from that start. With no lines, `(0, 0)`.
///
/// `line_to_char` must be callable on every line below `line_count` and answer
/// the same for the same line.
pub fn char_to_line_col(
    char_idx: CharIdx,
    line_count: usize,
    line_to_char: impl Fn(usize) -> usize,
) -> (r: LineCol)
    requires
        forall|i: usize| i < line_count ==> call_requires(line_to_char, (i,)),
        forall|i: usize, a: usize, b: usize|
            call_ensures(line_to_char, (i,), a) && call_ensures(line_to_char, (i,), b) ==> a == b,
    ensures
        line_count == 0 ==> r.line.0 == 0 && r.col.0 == 0,
        line_count > 0 ==> {
            &&& r.line.0 < line_count
            &&& forall|st: usize|
                call_ensures(line_to_char, (r.line.0,), st) ==> (r.line.0 == 0 || st <= char_idx.0)
                    && r.col.0 == sat_sub(char_idx.0, st)
            &&& r.line.0 + 1 < line_count ==> forall|nx: usize|
                #[trigger] call_ensures(line_to_char, ((r.line.0 + 1) as usize,), nx) ==> char_idx.0
                    < nx
        },
{
    if line_count == 0 {
        return LineCol::new(0, 0);
    }
    // Binary search the greatest line whose start is at most `char_idx`.
    let target = char_idx.0;
    let mut lo: usize = 0;
    let mut hi: usize = line_count - 1;
    while lo < hi
        invariant
            lo <= hi < line_count,
            forall|i: usize| i < line_count ==> call_requires(line_to_char, (i,)),
            forall|i: usize, a: usize, b: usize|
                call_ensures(line_to_char, (i,), a) && call_ensures(line_to_char, (i,), b) ==> a
                    == b,
            lo == 0 || forall|st: usize| call_ensures(line_to_char, (lo,), st) ==> st <= target,
            hi + 1 == line_count || forall|nx: usize|
                #[trigger] call_ensures(line_to_char, ((hi + 1) as usize,), nx) ==> target < nx,
        decreases hi - lo,
    {
        // Round up, so that `lo` always moves.
        let mid = lo + (hi - lo + 1) / 2;
        let mid_start = line_to_char(mid);
        if mid_start <= target {
            lo = mid;
        } else {
            hi = mid - 1;
        }
    }
    let line = lo;
    let line_start = line_to_char(line);
    let col = target.saturating_sub(line_start);
    LineCol { line: LineIdx(line), col: ColIdx(col) }
}

/// The offset of `pos`, given the number of lines, each line's start offset and
/// each line's length: the line is clamped to the last one, the column to the
/// line's length, and their sum saturates at `usize::MAX`. With no lines, 0.
///
/// Both functions must be callable on every line below `line_count` and answer
/// the same for the same line.
pub fn line_col_to_char(
    pos: LineCol,
    line_count: usize,
    line_to_char: impl Fn(usize) -> usize,
    line_len_chars: impl Fn(usize) -> usize,
) -> (r: CharIdx)
    requires
        forall|i: usize| i < line_count ==> call_requires(line_to_char, (i,)),
        forall|i: usize| i < line_count ==> call_requires(line_len_chars, (i,)),
        forall|i: usize, a: usize, b: usize|
            call_ensures(line_to_char, (i,), a) && call_ensures(line_to_char, (i,), b) ==> a == b,
        forall|i: usize, a: usize, b: usize|
            call_ensures(line_len_chars, (i,), a) && call_ensures(line_len_chars, (i,), b) ==> a
                == b,
    ensures
        line_count == 0 ==> r.0 == 0,
        line_count > 0 ==> {
            let line = min_usize(pos.line.0, (line_count - 1) as usize);
            forall|st: usize, len: usize|
                call_ensures(line_to_char, (line,), st) && call_ensures(line_len_chars, (line,), len)
                    ==> r.0 == sat_add(st, min_usize(pos.col.0, len))
        },
{
    if line_count == 0 {
        return CharIdx(0);
    }
    let line = if pos.line.0 <= line_count - 1 {
        pos.line.0
    } else {
        line_count - 1
    };
    let line_start = line_to_char(line);
    let line_len = line_len_chars(line);
    let col = if pos.col.0 <= line_len {
        pos.col.0
    } else {
        line_len
    };
    CharIdx(line_start.saturating_add(col))
}

/// `char_idx` clamped into `[0, len_chars]`.
pub fn clamp_char(char_idx: CharIdx, len_chars: usize) -> (r: CharIdx)
    ensures
        r.0 == min_usize(char_idx.0, len_chars),
{
    CharIdx(
        if char_idx.0 <= len_chars {
            char_idx.0
        } else {
            len_chars
        },
    )
}

/// `range` put in order, then clamped into `[0, len_chars]`.
pub fn clamp_range(range: CharRange, len_chars: usize) -> (r: CharRange)
    ensures
        r.start.0 == min_usize(min_usize(range.start.0, len_chars), min_usize(range.end.0, len_chars)),
        r.end.0 == max_usize(min_usize(range.start.0, len_chars), min_usize(range.end.0, len_chars)),
{
    range.normalized().clamp_to_len(len_chars)
}

/// A goal column clamped to a line of `line_len_chars` characters.
pub fn clamp_col_to_line(goal: ColIdx, line_len_chars: usize) -> (r: ColIdx)
    ensures
        r.0 == min_usize(goal.0, line_len_chars),
{
    ColIdx(
        if goal.0 <= line_len_chars {
            goal.0
        } else {
            line_len_chars
        },
    )
}

/// A line's length without its trailing line feed, when it has one.
pub fn line_len_without_newline(line_len_chars_including_newline: usize, ends_with_newline: bool) -> (r: usize)
    ensures
        r == if ends_with_newline {
            sat_sub(line_len_chars_including_newline, 1)
        } else {
            line_len_chars_including_newline
        },
{
    if ends_with_newline {
        line_len_chars_including_newline.saturating_sub(1)
    } else {
        line_len_chars_including_newline
    }
}

/// `current` moved by `delta` characters: forward moves stop at `len_chars`,
/// backward moves at zero; a zero move clamps `current` into `[0, len_chars]`.
pub fn move_char_clamped(current: CharIdx, delta: isize, len_chars: usize) -> (r: CharIdx)
    ensures
        delta == 0 ==> r.0 == min_usize(current.0, len_chars),
        delta > 0 ==> r.0 == vstd::math::min(current.0 + delta, len_chars as int),
        delta < 0 ==> r.0 == vstd::math::max(current.0 + delta, 0),
{
    if delta == 0 {
        return clamp_char(current, len_chars);
    }
    if delta > 0 {
        let d = delta as usize;
        let moved = current.0.saturating_add(d);
        CharIdx(
            if moved <= len_chars {
                moved
            } else {
                len_chars
            },
        )
    } else {
        // `-delta` written so that it does not overflow at `isize::MIN`.
        let d = (-(delta + 1)) as usize + 1;
        CharIdx(current.0.saturating_sub(d))
    }
}

/// `(min, max)` of two indices.
pub fn ordered_pair(a: CharIdx, b: CharIdx) -> (r: (CharIdx, CharIdx))
    ensures
        a.0 <= b.0 ==> r == (a, b),
        a.0 > b.0 ==> r == (b, a),
{
    if a.0 <= b.0 {
        (a, b)
    } else {
        (b, a)
    }
}

/// The column to place the cursor at on a target line of `target_line_len`
/// characters, for a remembered goal column; the goal itself is left to the caller.
pub fn apply_goal_col(goal_col: ColIdx, target_line_len: usize) -> (r: ColIdx)
    ensures
        r.0 == min_usize(goal_col.0, target_line_len),
{
    clamp_col_to_line(goal_col, target_line_len)
}

/// The editable bounds of a line starting at `line_start`: from its start to the
/// end of its content, the trailing line feed excluded (saturating at `usize::MAX`).
pub fn line_editable_bounds(
    line_start: CharIdx,
    line_len_chars_including_newline: usize,
    ends_with_newline: bool,
) -> (r: (CharIdx, CharIdx))
    ensures
        r.0 == line_start,
        r.1.0 == sat_add(
            line_start.0,
            if ends_with_newline {
                sat_sub(line_len_chars_including_newline, 1)
            } else {
                line_len_chars_including_newline
            },
        ),
{
    let editable_len = line_len_without_newline(line_len_chars_including_newline, ends_with_newline);
    let start = line_start;
    let end = CharIdx(line_start.0.saturating_add(editable_len));
    (start, end)
}

/// `cursor` clamped into `[line_start, editable_end]`; the lower bound wins when
/// the bounds cross.
pub fn clamp_cursor_to_line_editable(cursor: CharIdx, line_start: CharIdx, editable_end: CharIdx) -> (r: CharIdx)
    ensures
        r.0 == max_usize(line_start.0, min_usize(cursor.0, editable_end.0)),
{
    let upper = if cursor.0 <= editable_end.0 {
        cursor.0
    } else {
        editable_end.0
    };
    CharIdx(
        if line_start.0 >= upper {
            line_start.0
        } else {
            upper
        },
    )
}

} // verus!
