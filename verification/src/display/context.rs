//! The unchanged rows shown around a hunk.
//!
//! A context window is anchored to one side: to the left where the row next
//! to it names a left line, else to the right. It holds the lines of that
//! side that lie next to the hunk, each paired with the line that the
//! position map matches it to on the other side, as far as that line lies on
//! the same side of the hunk.

use crate::constants::Side;
use crate::display::hunks::{rows_in_range, LinePair};
use vstd::prelude::*;

verus! {

/// The line that `map` matches the line `i` to. A position map belongs to
/// one side and holds, at the index of each of its lines, the line of the
/// other side that the line is matched to; a line without an entry is
/// matched to none.
pub open spec fn opposite_of(map: Seq<Option<usize>>, i: int) -> Option<usize> {
    if 0 <= i < map.len() {
        map[i]
    } else {
        None
    }
}

/// Every line that `map` matches to exists: it lies below `total`.
pub open spec fn map_in_range(map: Seq<Option<usize>>, total: nat) -> bool {
    forall|i: int| 0 <= i < map.len() ==> ((#[trigger] map[i]) matches Some(o) ==> o < total)
}

/// The row that names the line `own` on `side` and `other` on the other
/// side.
pub open spec fn pair_on(side: Side, own: usize, other: Option<usize>) -> LinePair {
    if side == Side::Left {
        (Some(own), other)
    } else {
        (other, Some(own))
    }
}

/// The match of line `i` that a row before the hunk may name: the line that
/// `map` gives, unless the hunk's first row names a line on that side and
/// the match does not lie strictly before it.
pub open spec fn match_before(map: Seq<Option<usize>>, i: int, limit: Option<usize>) -> Option<
    usize,
> {
    match opposite_of(map, i) {
        Some(o) => if limit matches Some(b) && o >= b {
            None
        } else {
            Some(o)
        },
        None => None,
    }
}

/// The match of line `i` that a row after the hunk may name: the line that
/// `map` gives, if it exists on its side and, where the hunk's last row
/// names a line on that side, lies strictly behind it.
pub open spec fn match_after(
    map: Seq<Option<usize>>,
    i: int,
    floor: Option<usize>,
    total: nat,
) -> Option<usize> {
    match opposite_of(map, i) {
        Some(o) => if o >= total || (floor matches Some(b) && o <= b) {
            None
        } else {
            Some(o)
        },
        None => None,
    }
}

/// The number of rows in the window before the line `first`: `max`, or as
/// many lines as lie before `first` where those are fewer.
pub open spec fn count_before(first: nat, max: nat) -> nat {
    if first < max {
        first
    } else {
        max
    }
}

/// The number of rows in the window behind the line `last` of a side with
/// `total` lines: `max`, or as many lines as lie behind `last` where those
/// are fewer.
pub open spec fn count_after(last: nat, total: nat, max: nat) -> nat {
    if last + 1 >= total {
        0
    } else if total - (last + 1) < max {
        (total - (last + 1)) as nat
    } else {
        max
    }
}

/// The window before the line `first` of `side`: the lines just before it,
/// in increasing order, each with its match before `limit`.
pub open spec fn window_before(
    side: Side,
    first: usize,
    limit: Option<usize>,
    map: Seq<Option<usize>>,
    max: nat,
) -> Seq<LinePair> {
    let count = count_before(first as nat, max);
    Seq::new(
        count,
        |k: int|
            pair_on(
                side,
                (first - count + k) as usize,
                match_before(map, first - count + k, limit),
            ),
    )
}

/// The window behind the line `last` of `side`: the lines just behind it, in
/// increasing order, each with its match behind `floor`.
pub open spec fn window_after(
    side: Side,
    last: usize,
    floor: Option<usize>,
    map: Seq<Option<usize>>,
    own_total: nat,
    other_total: nat,
    max: nat,
) -> Seq<LinePair> {
    Seq::new(
        count_after(last as nat, own_total, max),
        |k: int|
            pair_on(
                side,
                (last + 1 + k) as usize,
                match_after(map, last + 1 + k, floor, other_total),
            ),
    )
}

/// The rows shown before a hunk whose rows are `rows`: at most `max` rows,
/// anchored to the side of the hunk's first row.
pub open spec fn before_context(
    rows: Seq<LinePair>,
    opposite_to_lhs: Seq<Option<usize>>,
    opposite_to_rhs: Seq<Option<usize>>,
    max: nat,
) -> Seq<LinePair> {
    if rows.len() == 0 {
        Seq::empty()
    } else {
        match rows[0] {
            (Some(l), r) => window_before(Side::Left, l, r, opposite_to_lhs, max),
            (None, Some(r)) => window_before(Side::Right, r, None, opposite_to_rhs, max),
            (None, None) => Seq::empty(),
        }
    }
}

/// The rows shown behind the rows `rows`: at most `max` rows, anchored to
/// the side of the last row, none of them naming a line that does not exist.
pub open spec fn after_context(
    rows: Seq<LinePair>,
    opposite_to_lhs: Seq<Option<usize>>,
    opposite_to_rhs: Seq<Option<usize>>,
    left_total: nat,
    right_total: nat,
    max: nat,
) -> Seq<LinePair> {
    if rows.len() == 0 {
        Seq::empty()
    } else {
        match rows.last() {
            (Some(l), r) => window_after(
                Side::Left,
                l,
                r,
                opposite_to_lhs,
                left_total,
                right_total,
                max,
            ),
            (None, Some(r)) => window_after(
                Side::Right,
                r,
                None,
                opposite_to_rhs,
                right_total,
                left_total,
                max,
            ),
            (None, None) => Seq::empty(),
        }
    }
}

/// Every index that a row of `context` names lies strictly before the index
/// that `first` names on the same side.
pub open spec fn strictly_before(context: Seq<LinePair>, first: LinePair) -> bool {
    forall|k: int|
        0 <= k < context.len() ==> {
            &&& ((#[trigger] context[k]).0 matches Some(a) ==> (first.0 matches Some(b) ==> a < b))
            &&& (context[k].1 matches Some(a) ==> (first.1 matches Some(b) ==> a < b))
        }
}

/// Every index that a row of `context` names lies strictly behind the index
/// that `last` names on the same side.
pub open spec fn strictly_after(context: Seq<LinePair>, last: LinePair) -> bool {
    forall|k: int|
        0 <= k < context.len() ==> {
            &&& ((#[trigger] context[k]).0 matches Some(a) ==> (last.0 matches Some(b) ==> a > b))
            &&& (context[k].1 matches Some(a) ==> (last.1 matches Some(b) ==> a > b))
        }
}

fn make_pair(side: Side, own: usize, other: Option<usize>) -> (pair: LinePair)
    ensures
        pair == pair_on(side, own, other),
{
    match side {
        Side::Left => (Some(own), other),
        Side::Right => (other, Some(own)),
    }
}

fn lookup(map: &[Option<usize>], i: usize) -> (found: Option<usize>)
    ensures
        found == opposite_of(map@, i as int),
{
    if i < map.len() {
        map[i]
    } else {
        None
    }
}

fn before_window(side: Side, first: usize, limit: Option<usize>, map: &[Option<usize>], max: usize) -> (window:
    Vec<LinePair>)
    ensures
        window@ == window_before(side, first, limit, map@, max as nat),
{
    let count: usize = if first < max {
        first
    } else {
        max
    };
    let start: usize = first - count;
    let mut window: Vec<LinePair> = Vec::new();
    let mut k: usize = 0;
    while k < count
        invariant
            k <= count,
            count == count_before(first as nat, max as nat),
            start == first - count,
            window@ == window_before(side, first, limit, map@, max as nat).take(k as int),
        decreases count - k,
    {
        let own: usize = start + k;
        let other = match lookup(map, own) {
            Some(o) => match limit {
                Some(b) => if o >= b {
                    None
                } else {
                    Some(o)
                },
                None => Some(o),
            },
            None => None,
        };
        window.push(make_pair(side, own, other));
        k += 1;
        assert(window@ =~= window_before(side, first, limit, map@, max as nat).take(k as int));
    }
    assert(window@ =~= window_before(side, first, limit, map@, max as nat));
    window
}

fn after_window(
    side: Side,
    last: usize,
    floor: Option<usize>,
    map: &[Option<usize>],
    own_total: usize,
    other_total: usize,
    max: usize,
) -> (window: Vec<LinePair>)
    ensures
        window@ == window_after(
            side,
            last,
            floor,
            map@,
            own_total as nat,
            other_total as nat,
            max as nat,
        ),
{
    let ghost whole = window_after(
        side,
        last,
        floor,
        map@,
        own_total as nat,
        other_total as nat,
        max as nat,
    );
    let mut window: Vec<LinePair> = Vec::new();
    if own_total <= last || own_total - last <= 1 {
        assert(window@ =~= whole);
        return window;
    }
    let behind: usize = own_total - last - 1;
    let count: usize = if behind < max {
        behind
    } else {
        max
    };
    let mut k: usize = 0;
    while k < count
        invariant
            k <= count,
            count == count_after(last as nat, own_total as nat, max as nat),
            last + 1 + count <= own_total,
            whole == window_after(
                side,
                last,
                floor,
                map@,
                own_total as nat,
                other_total as nat,
                max as nat,
            ),
            window@ == whole.take(k as int),
        decreases count - k,
    {
        let own: usize = last + 1 + k;
        let other = match lookup(map, own) {
            Some(o) => {
                let behind_floor = match floor {
                    Some(b) => o > b,
                    None => true,
                };
                if o < other_total && behind_floor {
                    Some(o)
                } else {
                    None
                }
            },
            None => None,
        };
        window.push(make_pair(side, own, other));
        k += 1;
        assert(window@ =~= whole.take(k as int));
    }
    assert(window@ =~= whole);
    window
}

/// The unchanged rows shown before a hunk: at most `num_context_lines` rows,
/// each strictly before the hunk's first row.
pub fn calculate_before_context(
    lines: &[LinePair],
    opposite_to_lhs: &[Option<usize>],
    opposite_to_rhs: &[Option<usize>],
    num_context_lines: usize,
) -> (context: Vec<LinePair>)
    ensures
        context@ == before_context(
            lines@,
            opposite_to_lhs@,
            opposite_to_rhs@,
            num_context_lines as nat,
        ),
        context@.len() <= num_context_lines,
        lines@.len() > 0 ==> strictly_before(context@, lines@[0]),
{
    if lines.len() == 0 {
        return Vec::new();
    }
    let first = lines[0];
    match first {
        (Some(l), r) => before_window(Side::Left, l, r, opposite_to_lhs, num_context_lines),
        (None, Some(r)) => before_window(Side::Right, r, None, opposite_to_rhs, num_context_lines),
        (None, None) => Vec::new(),
    }
}

/// The unchanged rows shown behind `lines`: at most `num_context_lines`
/// rows, each strictly behind the last row, and none naming a line at or
/// beyond the number of lines of its side.
pub fn calculate_after_context(
    lines: &[LinePair],
    opposite_to_lhs: &[Option<usize>],
    opposite_to_rhs: &[Option<usize>],
    left_total: usize,
    right_total: usize,
    num_context_lines: usize,
) -> (context: Vec<LinePair>)
    ensures
        context@ == after_context(
            lines@,
            opposite_to_lhs@,
            opposite_to_rhs@,
            left_total as nat,
            right_total as nat,
            num_context_lines as nat,
        ),
        context@.len() <= num_context_lines,
        rows_in_range(context@, left_total as nat, right_total as nat),
        lines@.len() > 0 ==> strictly_after(context@, lines@.last()),
{
    if lines.len() == 0 {
        return Vec::new();
    }
    let last = lines[lines.len() - 1];
    match last {
        (Some(l), r) => after_window(
            Side::Left,
            l,
            r,
            opposite_to_lhs,
            left_total,
            right_total,
            num_context_lines,
        ),
        (None, Some(r)) => after_window(
            Side::Right,
            r,
            None,
            opposite_to_rhs,
            right_total,
            left_total,
            num_context_lines,
        ),
        (None, None) => Vec::new(),
    }
}

} // verus!
