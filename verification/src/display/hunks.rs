//! Difference regions, as aligned pairs of line indices.

use crate::constants::Side;
use vstd::prelude::*;

verus! {

/// One row of a difference: the zero-based index of a line on the left, on
/// the right, or on both sides. Both present is an unchanged row, only the
/// left a deletion, only the right an addition.
pub type LinePair = (Option<usize>, Option<usize>);

/// One contiguous difference region.
#[derive(Clone, Debug)]
pub struct Hunk {
    /// The rows of the region, in increasing line order.
    pub lines: Vec<LinePair>,
}

/// The index that `pair` names on `side`.
pub open spec fn index_on(pair: LinePair, side: Side) -> Option<usize> {
    if side == Side::Left {
        pair.0
    } else {
        pair.1
    }
}

/// Every index that `pairs` names on `side` lies below `total`.
pub open spec fn side_in_range(pairs: Seq<LinePair>, side: Side, total: nat) -> bool {
    forall|k: int|
        0 <= k < pairs.len() ==> (index_on(#[trigger] pairs[k], side) matches Some(i) ==> i < total)
}

/// Every index that `rows` names exists on its side: left indices lie below
/// `left_total` and right indices below `right_total`.
pub open spec fn rows_in_range(rows: Seq<LinePair>, left_total: nat, right_total: nat) -> bool {
    side_in_range(rows, Side::Left, left_total) && side_in_range(rows, Side::Right, right_total)
}

/// The index that `pair` names on `side`.
pub fn index_of(pair: LinePair, side: Side) -> (index: Option<usize>)
    ensures
        index == index_on(pair, side),
{
    match side {
        Side::Left => pair.0,
        Side::Right => pair.1,
    }
}

/// Whether every index that `pairs` names on `side` lies below `total`.
pub fn check_side_in_range(pairs: &[LinePair], side: Side, total: usize) -> (ok: bool)
    ensures
        ok == side_in_range(pairs@, side, total as nat),
{
    let mut k: usize = 0;
    while k < pairs.len()
        invariant
            k <= pairs.len(),
            forall|j: int|
                0 <= j < k ==> (index_on(#[trigger] pairs@[j], side) matches Some(i) ==> i < total),
        decreases pairs.len() - k,
    {
        if let Some(i) = index_of(pairs[k], side) {
            if i >= total {
                return false;
            }
        }
        k += 1;
    }
    true
}

} // verus!
