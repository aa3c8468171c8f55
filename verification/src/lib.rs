//! Editing engine for a modal terminal text editor.
//!
//! The engine owns the document as an editable sequence of characters,
//! maps the logical cursor to viewport coordinates, and turns keyboard
//! events into buffer mutations through a modal dispatch table.  All of
//! its behaviour is stated in contracts and verified; the document is
//! stored in an `xi_rope::Rope` behind a small set of trusted wrappers.

pub mod args;
pub mod buffer;
pub mod input;
pub mod editor;
pub mod laws;
pub mod lines;
pub mod words;
