//! Values shared by every component.

use vstd::prelude::*;

verus! {

/// Which version of the text a line belongs to.
#[derive(Clone, Copy, PartialEq, Eq, Structural, Debug)]
pub enum Side {
    /// The old version.
    Left,
    /// The new version.
    Right,
}

} // verus!
