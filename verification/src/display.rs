//! What is shown: hunks, context windows, styling and the inline layout.

pub mod context;
pub mod guarantees;
pub mod hunks;
pub mod inline;
pub mod style;
