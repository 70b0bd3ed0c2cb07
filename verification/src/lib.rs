//! Decision core of an autosplitter for Sonic 3D Blast.
//!
//! The autosplitter watches the scene the game is in and tells a timer when
//! to start, split and reset. This crate holds its decisions and none of its
//! input or output: [`poll::update`] takes the outcome of one step of a poll
//! and answers with the step that is due next, so that whoever drives it is
//! left with attaching to the process, reading its memory and talking to the
//! timer.

pub mod acts;
pub mod memory;
pub mod poll;
pub mod process;
pub mod settings;
pub mod signature;
pub mod state;
pub mod timer;
pub mod watcher;

pub use poll::update;
