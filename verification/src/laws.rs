//! What the operations are for: each law speaks of what an operation was given
//! and what came of it, for all inputs.
pub mod calls;
pub mod captions;
pub mod colors;
pub mod drawer;
pub mod grid;
pub mod lists;
pub mod room;
pub mod selection;
pub mod settings;
pub mod shell;
pub mod shown;
pub mod sidebar;
pub mod terminal;
pub mod words;
