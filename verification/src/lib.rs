//! Core of a small terminal text editor: an in-memory document of lines,
//! a cursor and selection anchor, a scrolling viewport, a modal overlay
//! state machine, and the editing and search operations that tie them
//! together. Terminal drawing and file handling live outside this crate.
pub mod config;
pub mod editor;
pub mod laws;
pub mod state;
pub mod text;

pub use crate::editor::Fox;
pub use crate::state::{
    Action, KeyInput, Overlay, Position, Prompt, PromptType, StatusMessage,
};
