//! Word motions: the start of the word before a position and the end of the word
//! after it. A word is a run of word characters (see `is_word_char`).

use vstd::prelude::*;

use crate::buffer::TextBuffer;
use crate::model::{offset_to_pos, pos_to_offset};
use crate::pos::Pos;
use crate::rope_store::{rope_char, rope_chars};
use crate::util::{is_word_char, is_word_char_spec};

verus! {

/// Start of the run of characters ending at offset `c` whose members are word
/// characters exactly when `word` holds.
pub open spec fn run_start(s: Seq<char>, c: int, word: bool) -> int
    decreases c,
{
    if c <= 0 {
        0
    } else if is_word_char_spec(s[c - 1]) != word {
        c
    } else {
        run_start(s, c - 1, word)
    }
}

/// End of the run of characters starting at offset `c` whose members are word
/// characters exactly when `word` holds.
pub open spec fn run_end(s: Seq<char>, c: int, word: bool) -> int
    decreases s.len() - c,
{
    if c >= s.len() {
        s.len() as int
    } else if is_word_char_spec(s[c]) != word {
        c
    } else {
        run_end(s, c + 1, word)
    }
}

/// Offset of the start of the word before offset `c`: skip the non-word characters
/// to its left, then the word characters.
pub open spec fn word_start_offset(s: Seq<char>, c: int) -> int {
    run_start(s, run_start(s, c, false), true)
}

/// Offset of the end of the word after offset `c`: skip the non-word characters to
/// its right, then the word characters.
pub open spec fn word_end_offset(s: Seq<char>, c: int) -> int {
    run_end(s, run_end(s, c, false), true)
}

impl TextBuffer {
    /// The start of the word before the (clamped) position.
    pub fn word_start_before(&self, pos: Pos) -> (r: Pos)
        requires
            self.wf(),
        ensures
            r == offset_to_pos(self@, word_start_offset(self@, pos_to_offset(self@, pos))),
    {
        let mut c = self.pos_to_char(pos);
        if c == 0 {
            return Pos::zero();
        }
        let ghost s = self@;
        let ghost c0 = c as int;
        proof {
            self.lemma_view();
        }
        // Skip the delimiters to the left...
        while c > 0 && !is_word_char(rope_char(&self.rope, c - 1))
            invariant
                s == self@,
                s == rope_chars(self.rope),
                c <= s.len(),
                run_start(s, c as int, false) == run_start(s, c0, false),
            decreases c,
        {
            c -= 1;
        }
        let ghost c1 = c as int;
        // ...then the word characters.
        while c > 0 && is_word_char(rope_char(&self.rope, c - 1))
            invariant
                s == self@,
                s == rope_chars(self.rope),
                c <= s.len(),
                run_start(s, c as int, true) == run_start(s, c1, true),
            decreases c,
        {
            c -= 1;
        }
        self.char_to_pos(c)
    }

    /// The end of the word after the (clamped) position.
    pub fn word_end_after(&self, pos: Pos) -> (r: Pos)
        requires
            self.wf(),
        ensures
            r == offset_to_pos(self@, word_end_offset(self@, pos_to_offset(self@, pos))),
    {
        let mut c = self.pos_to_char(pos);
        let maxc = self.len_chars();
        let ghost s = self@;
        let ghost c0 = c as int;
        proof {
            self.lemma_view();
        }
        // Skip the delimiters to the right...
        while c < maxc && !is_word_char(rope_char(&self.rope, c))
            invariant
                s == self@,
                s == rope_chars(self.rope),
                maxc == s.len(),
                c <= maxc,
                run_end(s, c as int, false) == run_end(s, c0, false),
            decreases maxc - c,
        {
            c += 1;
        }
        let ghost c1 = c as int;
        // ...then the word characters.
        while c < maxc && is_word_char(rope_char(&self.rope, c))
            invariant
                s == self@,
                s == rope_chars(self.rope),
                maxc == s.len(),
                c <= maxc,
                run_end(s, c as int, true) == run_end(s, c1, true),
            decreases maxc - c,
        {
            c += 1;
        }
        self.char_to_pos(c)
    }
}

} // verus!
