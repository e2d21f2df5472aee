//! The configuration record that every component reads and none changes.

use vstd::prelude::*;

verus! {

/// Whether the terminal background is dark or light. The renderer carries
/// this value for whoever chooses the colours; it never reads it.
#[derive(Clone, Copy, PartialEq, Eq, Structural, Debug)]
pub enum BackgroundColor {
    Dark,
    Light,
}

/// How a difference is displayed.
#[derive(Clone, Copy, Debug)]
pub struct DisplayOptions {
    /// Whether colour markup is applied to lines and line-number labels.
    pub use_color: bool,
    /// Whether the colouring of lines is syntax-aware.
    pub syntax_highlight: bool,
    /// The background that colours are chosen for.
    pub background_color: BackgroundColor,
    /// The distance between two tab stops, in columns.
    pub tab_width: usize,
    /// The largest number of unchanged rows shown after a hunk.
    pub num_context_lines: u32,
}

} // verus!
