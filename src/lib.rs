//! Logical editing core of a modal text editor.
//!
//! A `TextBuffer` owns a rope of characters and translates between absolute
//! character offsets and logical `(line, column)` positions. Every operation is
//! total: out-of-range input is clamped, never rejected.
//!
//! - `model`: lines, offsets and positions as mathematics over `Seq<char>`
//! - `rope_store`: the rope that stores the characters, and the calls made into it
//! - `buffer`, `editing`, `words`: the buffer and its operations
//! - `laws`: properties that relate the operations, proved
//! - `text`: index types and clamping helpers that need no storage
//! - `viewport`: the part of the text that a viewport shows

pub mod buffer;
pub mod edit;
pub mod editing;
pub mod laws;
pub mod model;
pub mod pos;
pub mod prelude;
pub mod rope_store;
pub mod text;
pub mod utf8;
pub mod util;
pub mod viewport;
pub mod words;

pub use buffer::{EncodingError, TextBuffer};
pub use edit::Edit;
pub use pos::{Pos, Selection};
