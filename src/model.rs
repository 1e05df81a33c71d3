//! Mathematical model of line structure over a sequence of characters.
//!
//! Only U+000A (line feed) breaks a line. A text with `k` line feeds has `k + 1`
//! lines; a trailing line feed is followed by an empty last line.

use vstd::prelude::*;

use crate::pos::{pos_le, Pos};

verus! {

/// Index of the first line feed at or after `from`, or the text length when none follows.
pub open spec fn next_newline(s: Seq<char>, from: int) -> int
    decreases s.len() - from,
{
    if from >= s.len() {
        s.len() as int
    } else if s[from] == '\n' {
        from
    } else {
        next_newline(s, from + 1)
    }
}

/// Number of line feeds among the first `n` characters.
pub open spec fn newlines_before(s: Seq<char>, n: int) -> nat
    decreases n,
{
    if n <= 0 {
        0
    } else {
        newlines_before(s, n - 1) + if s[n - 1] == '\n' { 1nat } else { 0nat }
    }
}

/// Index of the last line: the number of line feeds in the text.
pub open spec fn last_line(s: Seq<char>) -> nat {
    newlines_before(s, s.len() as int)
}

/// Number of lines: never less than one.
pub open spec fn line_count(s: Seq<char>) -> nat {
    last_line(s) + 1
}

/// Offset at which `line` starts: 0 for the first line, just past the preceding
/// line feed for the others.
pub open spec fn line_start(s: Seq<char>, line: nat) -> int
    decreases line,
{
    if line == 0 {
        0
    } else {
        next_newline(s, line_start(s, (line - 1) as nat)) + 1
    }
}

/// Offset at which the content of `line` ends: its line feed, or the end of the text.
pub open spec fn line_end(s: Seq<char>, line: nat) -> int {
    next_newline(s, line_start(s, line))
}

/// Number of characters of `line`, its line feed excluded.
pub open spec fn line_len(s: Seq<char>, line: nat) -> int {
    line_end(s, line) - line_start(s, line)
}

/// Number of characters of `line`, its line feed included when it has one.
pub open spec fn line_len_with_break(s: Seq<char>, line: nat) -> int {
    if line_end(s, line) < s.len() {
        line_len(s, line) + 1
    } else {
        line_len(s, line)
    }
}

/// `line` moved into `[0, last_line]`.
pub open spec fn clamp_line_in(s: Seq<char>, line: int) -> nat {
    if 0 <= line < last_line(s) {
        line as nat
    } else if line < 0 {
        0
    } else {
        last_line(s)
    }
}

/// `p` moved onto an existing line, then its column into `[0, line_len]`.
pub open spec fn clamp_pos_in(s: Seq<char>, p: Pos) -> Pos {
    let line = clamp_line_in(s, p.line as int);
    Pos {
        line: line as usize,
        col: if p.col < line_len(s, line) {
            p.col
        } else {
            line_len(s, line) as usize
        },
    }
}

/// Absolute offset of `p`, after clamping: its line's start plus its column.
pub open spec fn pos_to_offset(s: Seq<char>, p: Pos) -> int {
    let q = clamp_pos_in(s, p);
    line_start(s, q.line as nat) + q.col
}

/// `c` moved into `[0, s.len()]`.
pub open spec fn clamp_offset(s: Seq<char>, c: int) -> int {
    if c < 0 {
        0
    } else if c < s.len() {
        c
    } else {
        s.len() as int
    }
}

/// Position of offset `c`, after clamping: the line is the number of line feeds
/// before it, the column its distance from that line's start.
pub open spec fn offset_to_pos(s: Seq<char>, c: int) -> Pos {
    let c = clamp_offset(s, c);
    let line = newlines_before(s, c);
    Pos { line: line as usize, col: (c - line_start(s, line)) as usize }
}

/// The characters between offsets `a` and `b`, in either order.
pub open spec fn text_between(s: Seq<char>, a: int, b: int) -> Seq<char> {
    if a <= b {
        s.subrange(a, b)
    } else {
        s.subrange(b, a)
    }
}

/// `next_newline` lands on the first line feed at or after `from`.
pub proof fn lemma_next_newline(s: Seq<char>, from: int)
    requires
        0 <= from <= s.len(),
    ensures
        from <= next_newline(s, from) <= s.len(),
        next_newline(s, from) < s.len() ==> s[next_newline(s, from)] == '\n',
        forall|k: int| from <= k < next_newline(s, from) ==> s[k] != '\n',
    decreases s.len() - from,
{
    if from < s.len() && s[from] != '\n' {
        lemma_next_newline(s, from + 1);
    }
}

/// Counting line feeds is monotone, and grows by one across each line feed.
pub proof fn lemma_newlines_mono(s: Seq<char>, i: int, j: int)
    requires
        0 <= i <= j <= s.len(),
    ensures
        newlines_before(s, i) <= newlines_before(s, j) <= newlines_before(s, i) + (j - i),
        forall|k: int| i <= k < j && s[k] == '\n' ==> newlines_before(s, i) < newlines_before(s, j),
        (forall|k: int| i <= k < j ==> s[k] != '\n') ==> newlines_before(s, i) == newlines_before(s, j),
    decreases j - i,
{
    if i < j {
        lemma_newlines_mono(s, i, j - 1);
    }
}

/// Each line up to the last starts inside the text, just after a line feed,
/// with exactly `line` line feeds before it; every line but the last ends on a line feed.
pub proof fn lemma_line_start(s: Seq<char>, line: nat)
    requires
        line <= last_line(s),
    ensures
        0 <= line_start(s, line) <= line_end(s, line) <= s.len(),
        newlines_before(s, line_start(s, line)) == line,
        line > 0 ==> s[line_start(s, line) - 1] == '\n',
        line < last_line(s) ==> line_end(s, line) < s.len(),
        line_end(s, line) < s.len() ==> s[line_end(s, line)] == '\n',
        forall|k: int| line_start(s, line) <= k < line_end(s, line) ==> s[k] != '\n',
    decreases line,
{
    if line > 0 {
        let prev = (line - 1) as nat;
        lemma_line_start(s, prev);
        let p = line_start(s, prev);
        let e = next_newline(s, p);
        lemma_next_newline(s, p);
        lemma_newlines_mono(s, p, e);
        lemma_newlines_mono(s, e, e + 1);
        assert(line_start(s, line) == e + 1);
    }
    let ls = line_start(s, line);
    let le = line_end(s, line);
    assert(ls <= s.len()) by {
        if line > 0 {
            let prev = (line - 1) as nat;
            let p = line_start(s, prev);
            lemma_next_newline(s, p);
            if next_newline(s, p) == s.len() {
                lemma_newlines_mono(s, p, s.len() as int);
            }
        }
    }
    lemma_next_newline(s, ls);
    if line < last_line(s) && le == s.len() {
        lemma_newlines_mono(s, ls, s.len() as int);
    }
}

/// The line that holds offset `c` is the number of line feeds before it, and
/// `c` lies within that line's content or at its end.
pub proof fn lemma_offset_in_line(s: Seq<char>, c: int)
    requires
        0 <= c <= s.len(),
    ensures
        newlines_before(s, c) <= last_line(s),
        line_start(s, newlines_before(s, c)) <= c <= line_end(s, newlines_before(s, c)),
{
    let l = newlines_before(s, c);
    lemma_newlines_mono(s, c, s.len() as int);
    lemma_line_start(s, l);
    let ls = line_start(s, l);
    let le = line_end(s, l);
    if ls > c {
        lemma_newlines_mono(s, c, ls);
    }
    if le < c {
        lemma_newlines_mono(s, ls, le);
        lemma_newlines_mono(s, le, c);
    }
}

/// Every offset within the content of `line`, or at its end, belongs to `line`.
pub proof fn lemma_line_of_offset(s: Seq<char>, line: nat, c: int)
    requires
        line <= last_line(s),
        line_start(s, line) <= c <= line_end(s, line),
    ensures
        newlines_before(s, c) == line,
{
    lemma_line_start(s, line);
    lemma_newlines_mono(s, line_start(s, line), c);
}

/// `s` with `[lo, hi)` replaced by `t`.
pub open spec fn splice(s: Seq<char>, lo: int, hi: int, t: Seq<char>) -> Seq<char> {
    s.take(lo) + t + s.skip(hi)
}

/// Positions that clamping leaves alone keep their lexicographic order as offsets.
pub proof fn lemma_offset_monotone(s: Seq<char>, p: Pos, q: Pos)
    requires
        p == clamp_pos_in(s, p),
        q == clamp_pos_in(s, q),
        pos_le(p, q),
    ensures
        pos_to_offset(s, p) <= pos_to_offset(s, q),
{
    if p.line < q.line {
        let cp = pos_to_offset(s, p);
        let cq = pos_to_offset(s, q);
        lemma_line_start(s, p.line as nat);
        lemma_line_start(s, q.line as nat);
        lemma_line_of_offset(s, p.line as nat, cp);
        lemma_line_of_offset(s, q.line as nat, cq);
        if cp > cq {
            lemma_newlines_mono(s, cq, cp);
        }
    }
}

/// An offset in range survives the trip through a position: its position needs no
/// clamping, and maps back to it.
pub proof fn lemma_offset_round_trip(s: Seq<char>, c: int)
    requires
        0 <= c <= s.len(),
        c <= usize::MAX,
    ensures
        clamp_pos_in(s, offset_to_pos(s, c)) == offset_to_pos(s, c),
        pos_to_offset(s, offset_to_pos(s, c)) == c,
{
    lemma_offset_in_line(s, c);
    lemma_newlines_mono(s, 0, c);
    lemma_line_start(s, newlines_before(s, c));
}

/// A clamped position's offset lies within the text.
pub proof fn lemma_pos_to_offset_bound(s: Seq<char>, p: Pos)
    ensures
        0 <= pos_to_offset(s, p) <= s.len(),
        clamp_pos_in(s, p).line <= last_line(s),
        clamp_pos_in(s, p).col <= line_len(s, clamp_pos_in(s, p).line as nat),
{
    lemma_line_start(s, clamp_line_in(s, p.line as int));
}

/// A position on an existing line, with its column within the line, survives
/// the trip through an offset.
pub proof fn lemma_pos_round_trip(s: Seq<char>, p: Pos)
    requires
        p.line <= last_line(s),
        p.col <= line_len(s, p.line as nat),
    ensures
        clamp_pos_in(s, p) == p,
        offset_to_pos(s, pos_to_offset(s, p)) == p,
{
    lemma_line_start(s, p.line as nat);
    lemma_line_of_offset(s, p.line as nat, pos_to_offset(s, p));
}

/// Texts that agree on their first `k` characters count the same line feeds there.
pub proof fn lemma_newlines_prefix(s1: Seq<char>, s2: Seq<char>, k: int, c: int)
    requires
        0 <= c <= k <= s1.len(),
        k <= s2.len(),
        s1.take(k) == s2.take(k),
    ensures
        newlines_before(s1, c) == newlines_before(s2, c),
    decreases c,
{
    if c > 0 {
        assert(s1[c - 1] == s1.take(k)[c - 1]);
        assert(s2[c - 1] == s2.take(k)[c - 1]);
        lemma_newlines_prefix(s1, s2, k, c - 1);
    }
}

/// Only one offset up to a line's content can be the start of that line.
proof fn lemma_line_start_unique(s: Seq<char>, line: nat, x: int)
    requires
        line <= last_line(s),
        0 <= x <= s.len(),
        newlines_before(s, x) == line,
        x == 0 || s[x - 1] == '\n',
    ensures
        x == line_start(s, line),
{
    lemma_line_start(s, line);
    let ls = line_start(s, line);
    if x < ls {
        lemma_newlines_mono(s, x, ls);
    } else if ls < x {
        lemma_newlines_mono(s, ls, x);
    }
}

/// Texts that agree on their first `k` characters give every offset up to `k` the
/// same position.
pub proof fn lemma_prefix_pos(s1: Seq<char>, s2: Seq<char>, k: int, c: int)
    requires
        0 <= c <= k <= s1.len(),
        k <= s2.len(),
        s1.take(k) == s2.take(k),
    ensures
        offset_to_pos(s1, c) == offset_to_pos(s2, c),
{
    let l = newlines_before(s1, c);
    lemma_newlines_prefix(s1, s2, k, c);
    lemma_offset_in_line(s1, c);
    lemma_offset_in_line(s2, c);
    lemma_line_start(s1, l);
    lemma_line_start(s2, l);
    let x = line_start(s2, l);
    lemma_newlines_prefix(s1, s2, k, x);
    if x > 0 {
        assert(s1[x - 1] == s1.take(k)[x - 1]);
        assert(s2[x - 1] == s2.take(k)[x - 1]);
    }
    lemma_line_start_unique(s1, l, x);
}

/// Clamping a position twice is clamping it once.
pub proof fn lemma_clamp_idempotent(s: Seq<char>, p: Pos)
    ensures
        clamp_pos_in(s, clamp_pos_in(s, p)) == clamp_pos_in(s, p),
{
}

} // verus!
