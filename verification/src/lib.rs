//! Inline ("unified") rendering of already-computed differences between two
//! versions of a text: deleted lines, added lines and bounded windows of
//! unchanged context, interleaved into one ordered stream of writes.

pub mod constants;
pub mod display;
pub mod lines;
pub mod options;
pub mod text;
