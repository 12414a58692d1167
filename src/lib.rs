//! A modal editor for rectangular tables of text cells.
//!
//! The grid, the cursor, the scroll anchor, the key bindings and the
//! dispatcher that applies one action to the editor's state are verified
//! here; drawing and the terminal live outside the library.

pub mod grid;
pub mod csv_io;
pub mod cursor;
pub mod editor;
pub mod input;
pub mod mode;
pub mod table;
pub mod text;

pub use crate::cursor::{align_anchor, Cursor};
pub use crate::editor::Editor;
pub use crate::input::{Action, Dir, Key, PromptAction};
pub use crate::mode::{Mode, PromptType};
pub use crate::table::{LoadError, Table};
