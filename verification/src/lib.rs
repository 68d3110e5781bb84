//! Editing and browsing of small grid patterns.
//!
//! A pattern is a sparse set of symbols on a fixed toroidal grid. The crate
//! holds the state machine that edits one pattern at a time, commits patterns
//! to a gallery and pages a window and a selection over that gallery.

pub mod grid;
pub mod symbol;
pub mod pattern;
pub mod viewport;
pub mod key;
pub mod app;
pub mod glyph;
