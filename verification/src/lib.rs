//! Decision core of a speedrun auto splitter for Thief: The Dark Project and
//! Thief Gold.
//!
//! A driver polls a handful of fields in the memory of the running game and
//! hands what it read to [`state::State::update`], one call per tick. The
//! library keeps the last two samples of every field, tracks which mission is
//! expected next, and answers with the timer actions the driver is to perform.
//! It touches neither the process nor the timer itself.

pub mod watcher;
pub mod error;
pub mod text;
pub mod memory;
pub mod sequence;
pub mod timer;
pub mod rules;
pub mod state;
