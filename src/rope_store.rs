//! The rope that stores a buffer's characters, and the calls made into it.

use ropey::Rope;
use vstd::prelude::*;

use crate::model::{last_line, line_count, line_len_with_break, line_start, newlines_before};

verus! {

#[verifier::external_type_specification]
#[verifier::external_body]
pub struct ExRope(Rope);

/// The characters that a rope holds, in order.
pub uninterp spec fn rope_chars(r: Rope) -> Seq<char>;

/// Relies on `ropey::Rope::new`: a rope that holds no character.
#[verifier::external_body]
pub(crate) fn rope_new() -> (r: Rope)
    ensures
        rope_chars(r) == Seq::<char>::empty(),
{
    Rope::new()
}

/// Relies on `ropey::Rope::from_str`: a rope that holds exactly the characters of `text`.
#[verifier::external_body]
pub(crate) fn rope_from_str(text: &str) -> (r: Rope)
    ensures
        rope_chars(r) == text@,
{
    Rope::from_str(text)
}

/// Relies on ropey's `Clone` for `Rope`: a rope holding the same characters.
#[verifier::external_body]
pub(crate) fn rope_clone(r: &Rope) -> (c: Rope)
    ensures
        rope_chars(c) == rope_chars(*r),
{
    r.clone()
}

/// Relies on `ropey::Rope::len_chars`: the number of characters held.
#[verifier::external_body]
pub(crate) fn rope_len_chars(r: &Rope) -> (n: usize)
    ensures
        n == rope_chars(*r).len(),
{
    r.len_chars()
}

/// Relies on `ropey::Rope::len_lines`: the number of line breaks plus one. Built
/// without ropey's `cr_lines` and `unicode_lines` features, only U+000A breaks a line.
#[verifier::external_body]
pub(crate) fn rope_len_lines(r: &Rope) -> (n: usize)
    ensures
        n == line_count(rope_chars(*r)),
{
    r.len_lines()
}

/// Relies on `ropey::Rope::line_to_char`: the offset at which `line` starts.
#[verifier::external_body]
pub(crate) fn rope_line_to_char(r: &Rope, line: usize) -> (n: usize)
    requires
        line <= last_line(rope_chars(*r)),
    ensures
        n == line_start(rope_chars(*r), line as nat),
{
    r.line_to_char(line)
}

/// Relies on `ropey::Rope::char_to_line`: the number of line breaks before offset `c`.
#[verifier::external_body]
pub(crate) fn rope_char_to_line(r: &Rope, c: usize) -> (n: usize)
    requires
        c <= rope_chars(*r).len(),
    ensures
        n == newlines_before(rope_chars(*r), c as int),
{
    r.char_to_line(c)
}

/// Relies on `ropey::Rope::line` and `ropey::RopeSlice::len_chars`: the number of
/// characters of `line`, its line break included.
#[verifier::external_body]
pub(crate) fn rope_line_len_chars(r: &Rope, line: usize) -> (n: usize)
    requires
        line <= last_line(rope_chars(*r)),
    ensures
        n == line_len_with_break(rope_chars(*r), line as nat),
{
    r.line(line).len_chars()
}

/// Relies on `ropey::Rope::char`: the character at offset `i`.
#[verifier::external_body]
pub(crate) fn rope_char(r: &Rope, i: usize) -> (ch: char)
    requires
        i < rope_chars(*r).len(),
    ensures
        ch == rope_chars(*r)[i as int],
{
    r.char(i)
}

/// Relies on `ropey::Rope::insert`: `text` is spliced in at offset `at`.
#[verifier::external_body]
pub(crate) fn rope_insert(r: &mut Rope, at: usize, text: &str)
    requires
        at <= rope_chars(*old(r)).len(),
    ensures
        rope_chars(*final(r)) == rope_chars(*old(r)).take(at as int) + text@ + rope_chars(
            *old(r),
        ).skip(at as int),
{
    r.insert(at, text)
}

/// Relies on `ropey::Rope::remove`: the characters in `[start, end)` are taken out.
#[verifier::external_body]
pub(crate) fn rope_remove(r: &mut Rope, start: usize, end: usize)
    requires
        start <= end <= rope_chars(*old(r)).len(),
    ensures
        rope_chars(*final(r)) == rope_chars(*old(r)).take(start as int) + rope_chars(
            *old(r),
        ).skip(end as int),
{
    r.remove(start..end)
}

/// Relies on ropey's `Display` for `Rope`: the text held, as a `String`.
#[verifier::external_body]
pub(crate) fn rope_to_string(r: &Rope) -> (s: String)
    ensures
        s@ == rope_chars(*r),
{
    r.to_string()
}

/// Relies on `ropey::Rope::slice` and ropey's `Display` for `RopeSlice`: the
/// characters in `[start, end)`, as a `String`.
#[verifier::external_body]
pub(crate) fn rope_slice_to_string(r: &Rope, start: usize, end: usize) -> (s: String)
    requires
        start <= end <= rope_chars(*r).len(),
    ensures
        s@ == rope_chars(*r).subrange(start as int, end as int),
{
    r.slice(start..end).to_string()
}

} // verus!
