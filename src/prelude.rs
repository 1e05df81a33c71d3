//! The buffer's common types in one import: `use editor_core::prelude::*;`.

pub use crate::buffer::TextBuffer;
pub use crate::edit::Edit;
pub use crate::pos::{Pos, Selection};
