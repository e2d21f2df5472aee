//! What holds of every inline display, proved from the definitions of its
//! rows and writes.

use crate::constants::Side;
use crate::display::context::{after_context, before_context};
use crate::display::hunks::{index_on, rows_in_range, Hunk, LinePair};
use crate::display::inline::{
    gutter_label, hunk_rows, padding, page_of, page_rows, rendered, rendered_lines,
    rendered_upto, row_for, row_text, rows_after, rows_before, side_rows, Page, RowView,
};
use crate::display::style::{expand_tabs, PaletteView};
use crate::lines::{line_count, line_number_text, split_lines};
use crate::options::DisplayOptions;
use vstd::prelude::*;

verus! {

/// Without hunks nothing is written.
pub proof fn lemma_no_hunks_no_writes(headers: Seq<Seq<char>>, page: Page)
    ensures
        rendered(Seq::<Hunk>::empty(), headers, page) == Seq::<Seq<char>>::empty(),
{
}

/// A hunk that is one deleted line, with no context around it, has exactly
/// one row. That row is a deletion of the left side, its label begins with
/// `-`, and its text is the left line at that index. The hunk has no row for
/// an added line. Without colour the row is written as the label, three
/// spaces and the line.
pub proof fn lemma_single_deletion(
    line: usize,
    lhs_lines: Seq<Seq<char>>,
    rhs_lines: Seq<Seq<char>>,
    use_color: bool,
    palette: PaletteView,
)
    requires
        line < lhs_lines.len(),
    ensures
        ({
            let hunk: Seq<LinePair> = seq![(Some(line), None)];
            let rows = hunk_rows(
                Seq::empty(),
                hunk,
                Seq::empty(),
                lhs_lines,
                rhs_lines,
                use_color,
                palette,
            );
            &&& rows == seq![row_for(Side::Left, true, line, lhs_lines, use_color, palette)]
            &&& rows[0].side == Side::Left
            &&& rows[0].is_novel
            &&& rows[0].body == lhs_lines[line as int]
            &&& gutter_label(true, Side::Left, line as nat)[0] == '-'
            &&& side_rows(hunk, Side::Right, true, rhs_lines, use_color, palette).len() == 0
            &&& !use_color ==> row_text(rows[0]) == seq!['-', '#'] + line_number_text(line as nat)
                + seq!['#'] + padding() + lhs_lines[line as int]
        }),
{
    let hunk: Seq<LinePair> = seq![(Some(line), None)];
    let none: Seq<LinePair> = Seq::empty();
    assert(hunk.drop_last() =~= none);
    assert(side_rows(none, Side::Left, true, lhs_lines, use_color, palette) =~= Seq::empty());
    assert(side_rows(none, Side::Right, true, rhs_lines, use_color, palette) =~= Seq::empty());
    assert(side_rows(none, Side::Left, false, lhs_lines, use_color, palette) =~= Seq::empty());
    assert(side_rows(none, Side::Right, false, rhs_lines, use_color, palette) =~= Seq::empty());
    let deleted = side_rows(hunk, Side::Left, true, lhs_lines, use_color, palette);
    let row = row_for(Side::Left, true, line, lhs_lines, use_color, palette);
    assert(deleted =~= seq![row]);
    assert(side_rows(hunk, Side::Right, true, rhs_lines, use_color, palette) =~= Seq::empty());
    assert(hunk_rows(none, hunk, none, lhs_lines, rhs_lines, use_color, palette) =~= seq![row]);
}

/// A hunk that is one added line, with no context around it, has exactly one
/// row. That row is an addition of the right side, its label begins with
/// `+`, and its text is the right line at that index. The hunk has no row
/// for a deleted line. Without colour the row is written as three spaces,
/// the label and, directly behind it, the line.
pub proof fn lemma_single_addition(
    line: usize,
    lhs_lines: Seq<Seq<char>>,
    rhs_lines: Seq<Seq<char>>,
    use_color: bool,
    palette: PaletteView,
)
    requires
        line < rhs_lines.len(),
    ensures
        ({
            let hunk: Seq<LinePair> = seq![(None, Some(line))];
            let rows = hunk_rows(
                Seq::empty(),
                hunk,
                Seq::empty(),
                lhs_lines,
                rhs_lines,
                use_color,
                palette,
            );
            &&& rows == seq![row_for(Side::Right, true, line, rhs_lines, use_color, palette)]
            &&& rows[0].side == Side::Right
            &&& rows[0].is_novel
            &&& rows[0].body == rhs_lines[line as int]
            &&& gutter_label(true, Side::Right, line as nat)[0] == '+'
            &&& side_rows(hunk, Side::Left, true, lhs_lines, use_color, palette).len() == 0
            &&& !use_color ==> row_text(rows[0]) == padding() + seq!['+', '#'] + line_number_text(
                line as nat,
            ) + seq!['#'] + rhs_lines[line as int]
        }),
{
    let hunk: Seq<LinePair> = seq![(None, Some(line))];
    let none: Seq<LinePair> = Seq::empty();
    assert(hunk.drop_last() =~= none);
    assert(side_rows(none, Side::Left, true, lhs_lines, use_color, palette) =~= Seq::empty());
    assert(side_rows(none, Side::Right, true, rhs_lines, use_color, palette) =~= Seq::empty());
    assert(side_rows(none, Side::Left, false, lhs_lines, use_color, palette) =~= Seq::empty());
    assert(side_rows(none, Side::Right, false, rhs_lines, use_color, palette) =~= Seq::empty());
    let added = side_rows(hunk, Side::Right, true, rhs_lines, use_color, palette);
    let row = row_for(Side::Right, true, line, rhs_lines, use_color, palette);
    assert(added =~= seq![row]);
    assert(side_rows(hunk, Side::Left, true, lhs_lines, use_color, palette) =~= Seq::empty());
    assert(hunk_rows(none, hunk, none, lhs_lines, rhs_lines, use_color, palette) =~= seq![row]);
}

/// The indices that `pairs` names on `side`, in order.
pub open spec fn named_on(pairs: Seq<LinePair>, side: Side) -> Seq<usize>
    decreases pairs.len(),
{
    if pairs.len() == 0 {
        Seq::empty()
    } else {
        match index_on(pairs.last(), side) {
            Some(line) => named_on(pairs.drop_last(), side).push(line),
            None => named_on(pairs.drop_last(), side),
        }
    }
}

/// The lines of `lines` at the indices `indices`, in that order.
pub open spec fn lines_at(lines: Seq<Seq<char>>, indices: Seq<usize>) -> Seq<Seq<char>> {
    Seq::new(indices.len(), |k: int| lines[indices[k] as int])
}

/// The texts of the lines that `rows` show, without label and padding.
pub open spec fn bodies(rows: Seq<RowView>) -> Seq<Seq<char>> {
    Seq::new(rows.len(), |k: int| rows[k].body)
}

/// The rows for one side show, in order, exactly the lines that the pairs
/// name on that side: one row for each named index, with that index, that
/// side and the line at that index as its text.
pub proof fn lemma_side_rows_follow_source(
    pairs: Seq<LinePair>,
    side: Side,
    is_novel: bool,
    lines: Seq<Seq<char>>,
    use_color: bool,
    palette: PaletteView,
)
    ensures
        ({
            let rows = side_rows(pairs, side, is_novel, lines, use_color, palette);
            let named = named_on(pairs, side);
            &&& rows.len() == named.len()
            &&& forall|k: int|
                0 <= k < rows.len() ==> {
                    &&& (#[trigger] rows[k]).line == named[k]
                    &&& rows[k].side == side
                    &&& rows[k].is_novel == is_novel
                    &&& rows[k].body == lines[named[k] as int]
                }
            &&& bodies(rows) == lines_at(lines, named)
        }),
    decreases pairs.len(),
{
    let rows = side_rows(pairs, side, is_novel, lines, use_color, palette);
    let named = named_on(pairs, side);
    if pairs.len() > 0 {
        lemma_side_rows_follow_source(pairs.drop_last(), side, is_novel, lines, use_color, palette);
    }
    assert(bodies(rows) =~= lines_at(lines, named));
}

/// The texts of the rows of a hunk, put one behind the other in the order
/// in which the rows are written, are the lines that the rows name: the left
/// lines of the rows before the hunk, the left lines that the hunk deletes,
/// the right lines that it adds, and the right lines of the rows behind it.
pub proof fn lemma_bodies_reproduce_source(
    before: Seq<LinePair>,
    hunk: Seq<LinePair>,
    after: Seq<LinePair>,
    lhs_lines: Seq<Seq<char>>,
    rhs_lines: Seq<Seq<char>>,
    use_color: bool,
    palette: PaletteView,
)
    ensures
        bodies(hunk_rows(before, hunk, after, lhs_lines, rhs_lines, use_color, palette))
            == lines_at(lhs_lines, named_on(before, Side::Left)) + lines_at(
            lhs_lines,
            named_on(hunk, Side::Left),
        ) + lines_at(rhs_lines, named_on(hunk, Side::Right)) + lines_at(
            rhs_lines,
            named_on(after, Side::Right),
        ),
{
    lemma_side_rows_follow_source(before, Side::Left, false, lhs_lines, use_color, palette);
    lemma_side_rows_follow_source(hunk, Side::Left, true, lhs_lines, use_color, palette);
    lemma_side_rows_follow_source(hunk, Side::Right, true, rhs_lines, use_color, palette);
    lemma_side_rows_follow_source(after, Side::Right, false, rhs_lines, use_color, palette);
    assert(bodies(hunk_rows(before, hunk, after, lhs_lines, rhs_lines, use_color, palette))
        =~= lines_at(lhs_lines, named_on(before, Side::Left)) + lines_at(
        lhs_lines,
        named_on(hunk, Side::Left),
    ) + lines_at(rhs_lines, named_on(hunk, Side::Right)) + lines_at(
        rhs_lines,
        named_on(after, Side::Right),
    ));
}

/// Without colour, the shown line at an index is the line of the source at
/// that index, with its newline and with its tabs expanded, whatever
/// coloured lines came with the source.
pub proof fn lemma_plain_line_is_source_line(
    src: Seq<char>,
    colored: Option<Seq<Seq<char>>>,
    tab_width: nat,
    i: int,
)
    requires
        0 <= i < line_count(src),
    ensures
        rendered_lines(src, colored, false, tab_width).len() == line_count(src),
        rendered_lines(src, colored, false, tab_width)[i] == expand_tabs(
            split_lines(src)[i].push('\n'),
            tab_width,
        ),
{
}

/// There is one shown line for each line of the source, with or without
/// colour and whatever coloured lines came with the source.
pub proof fn lemma_one_line_for_each(
    src: Seq<char>,
    colored: Option<Seq<Seq<char>>>,
    use_color: bool,
    tab_width: nat,
)
    ensures
        rendered_lines(src, colored, use_color, tab_width).len() == line_count(src),
{
}

/// The context of every hunk is bounded: at most three rows before it, at
/// most `num_context_lines` rows behind it, and no row behind it names a
/// line that its side does not have.
pub proof fn lemma_context_bounds(hunk: Seq<LinePair>, page: Page)
    ensures
        rows_before(hunk, page).len() <= 3,
        rows_after(hunk, page).len() <= page.num_context_lines,
        rows_in_range(rows_after(hunk, page), page.lhs_lines.len(), page.rhs_lines.len()),
{
    lemma_before_context_bound(hunk, page.opposite_to_lhs, page.opposite_to_rhs, 3);
    lemma_after_context_bounds(
        rows_before(hunk, page) + hunk,
        page.opposite_to_lhs,
        page.opposite_to_rhs,
        page.lhs_lines.len(),
        page.rhs_lines.len(),
        page.num_context_lines,
    );
}

/// The rows before a hunk are at most `max`.
pub proof fn lemma_before_context_bound(
    rows: Seq<LinePair>,
    opposite_to_lhs: Seq<Option<usize>>,
    opposite_to_rhs: Seq<Option<usize>>,
    max: nat,
)
    ensures
        before_context(rows, opposite_to_lhs, opposite_to_rhs, max).len() <= max,
{
}

/// The rows behind a hunk are at most `max`, and each index that they name
/// lies below the number of lines of its side.
pub proof fn lemma_after_context_bounds(
    rows: Seq<LinePair>,
    opposite_to_lhs: Seq<Option<usize>>,
    opposite_to_rhs: Seq<Option<usize>>,
    left_total: nat,
    right_total: nat,
    max: nat,
)
    ensures
        after_context(rows, opposite_to_lhs, opposite_to_rhs, left_total, right_total, max).len()
            <= max,
        rows_in_range(
            after_context(rows, opposite_to_lhs, opposite_to_rhs, left_total, right_total, max),
            left_total,
            right_total,
        ),
{
}

/// Without colour the rows for one side are the same under every palette.
pub proof fn lemma_plain_rows_ignore_palette(
    pairs: Seq<LinePair>,
    side: Side,
    is_novel: bool,
    lines: Seq<Seq<char>>,
    first: PaletteView,
    second: PaletteView,
)
    ensures
        side_rows(pairs, side, is_novel, lines, false, first) == side_rows(
            pairs,
            side,
            is_novel,
            lines,
            false,
            second,
        ),
    decreases pairs.len(),
{
    if pairs.len() > 0 {
        lemma_plain_rows_ignore_palette(pairs.drop_last(), side, is_novel, lines, first, second);
    }
}

/// Without colour, what is written depends on the sources, the options, the
/// position maps, the hunks and the headers alone: two displays that agree
/// in these write the same, whatever coloured lines and palette each was
/// given.
pub proof fn lemma_plain_display_is_determined(
    lhs_src: Seq<char>,
    rhs_src: Seq<char>,
    display_options: DisplayOptions,
    opposite_to_lhs: Seq<Option<usize>>,
    opposite_to_rhs: Seq<Option<usize>>,
    hunks: Seq<Hunk>,
    headers: Seq<Seq<char>>,
    first_palette: PaletteView,
    first_lhs_colored: Option<Seq<Seq<char>>>,
    first_rhs_colored: Option<Seq<Seq<char>>>,
    second_palette: PaletteView,
    second_lhs_colored: Option<Seq<Seq<char>>>,
    second_rhs_colored: Option<Seq<Seq<char>>>,
)
    requires
        !display_options.use_color,
    ensures
        rendered(
            hunks,
            headers,
            page_of(
                lhs_src,
                rhs_src,
                display_options,
                first_palette,
                first_lhs_colored,
                first_rhs_colored,
                opposite_to_lhs,
                opposite_to_rhs,
            ),
        ) == rendered(
            hunks,
            headers,
            page_of(
                lhs_src,
                rhs_src,
                display_options,
                second_palette,
                second_lhs_colored,
                second_rhs_colored,
                opposite_to_lhs,
                opposite_to_rhs,
            ),
        ),
{
    let first = page_of(
        lhs_src,
        rhs_src,
        display_options,
        first_palette,
        first_lhs_colored,
        first_rhs_colored,
        opposite_to_lhs,
        opposite_to_rhs,
    );
    let second = page_of(
        lhs_src,
        rhs_src,
        display_options,
        second_palette,
        second_lhs_colored,
        second_rhs_colored,
        opposite_to_lhs,
        opposite_to_rhs,
    );
    assert(first.lhs_lines =~= second.lhs_lines);
    assert(first.rhs_lines =~= second.rhs_lines);
    lemma_plain_writes_ignore_palette(hunks, headers, first, second, hunks.len());
}

proof fn lemma_plain_writes_ignore_palette(
    hunks: Seq<Hunk>,
    headers: Seq<Seq<char>>,
    first: Page,
    second: Page,
    n: nat,
)
    requires
        !first.use_color,
        second == (Page { palette: second.palette, ..first }),
    ensures
        rendered_upto(hunks, headers, first, n) == rendered_upto(hunks, headers, second, n),
    decreases n,
{
    if n > 0 {
        lemma_plain_writes_ignore_palette(hunks, headers, first, second, (n - 1) as nat);
        let hunk = hunks[n - 1].lines@;
        let before = rows_before(hunk, first);
        let after = rows_after(hunk, first);
        assert(before == rows_before(hunk, second));
        assert(after == rows_after(hunk, second));
        lemma_plain_rows_ignore_palette(
            before,
            Side::Left,
            false,
            first.lhs_lines,
            first.palette,
            second.palette,
        );
        lemma_plain_rows_ignore_palette(
            hunk,
            Side::Left,
            true,
            first.lhs_lines,
            first.palette,
            second.palette,
        );
        lemma_plain_rows_ignore_palette(
            hunk,
            Side::Right,
            true,
            first.rhs_lines,
            first.palette,
            second.palette,
        );
        lemma_plain_rows_ignore_palette(
            after,
            Side::Right,
            false,
            first.rhs_lines,
            first.palette,
            second.palette,
        );
        assert(page_rows(hunk, first) == page_rows(hunk, second));
    }
}

} // verus!
