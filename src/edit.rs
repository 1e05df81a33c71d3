//! A single mutation of a buffer, in character offsets.

use vstd::prelude::*;

verus! {

/// A text edit in character offsets: remove the half-open `range`, then place
/// `insert` at its start. An empty range is a pure insertion, an empty `insert`
/// a pure deletion.
#[derive(Debug, PartialEq, Eq)]
pub struct Edit {
    pub range: core::ops::Range<usize>,
    pub insert: String,
}

impl Edit {
    /// An insertion of `text` at offset `at_char`.
    pub fn insert(at_char: usize, text: &str) -> (r: Edit)
        ensures
            r.range.start == at_char,
            r.range.end == at_char,
            r.insert@ == text@,
    {
        Edit { range: at_char..at_char, insert: text.to_owned() }
    }

    /// A deletion of `range`.
    pub fn delete(range: core::ops::Range<usize>) -> (r: Edit)
        ensures
            r.range == range,
            r.insert@ == Seq::<char>::empty(),
    {
        Edit { range, insert: String::new() }
    }

    /// A replacement of `range` by `text`.
    pub fn replace(range: core::ops::Range<usize>, text: &str) -> (r: Edit)
        ensures
            r.range == range,
            r.insert@ == text@,
    {
        Edit { range, insert: text.to_owned() }
    }
}

impl Clone for Edit {
    fn clone(&self) -> (r: Edit)
        ensures
            r.range == self.range,
            r.insert@ == self.insert@,
    {
        Edit { range: self.range.start..self.range.end, insert: self.insert.clone() }
    }
}

} // verus!
