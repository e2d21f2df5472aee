//! Inline, or "unified", display of a difference: for each hunk a header,
//! the unchanged rows before it, its deleted lines, its added lines, the
//! unchanged rows behind it and an empty line.

use crate::constants::Side;
use crate::display::context::{
    after_context, before_context, calculate_after_context, calculate_before_context,
    map_in_range,
};
use crate::display::hunks::{
    check_side_in_range, index_of, index_on, side_in_range, Hunk, LinePair,
};
use crate::display::style::{
    apply_line_number_color, expand_tabs, replace_tabs, styled_label, Palette, PaletteView,
};
use crate::lines::{
    count_lines, format_line_num, line_count, line_number_text, split_lines, split_on_newlines,
};
use crate::options::DisplayOptions;
use crate::text::texts;
use vstd::prelude::*;

verus! {

/// One line of a file as it is shown: its side, whether it is changed, its
/// zero-based index, its styled line-number label and its text.
#[derive(Debug)]
pub struct Row {
    /// The side whose line this is.
    pub side: Side,
    /// Whether the line is deleted or added, rather than unchanged.
    pub is_novel: bool,
    /// The zero-based index of the line on its side.
    pub line: usize,
    /// The line-number label, styled.
    pub label: String,
    /// The text of the line.
    pub body: String,
}

/// A `Row` over texts.
pub struct RowView {
    pub side: Side,
    pub is_novel: bool,
    pub line: nat,
    pub label: Seq<char>,
    pub body: Seq<char>,
}

impl View for Row {
    type V = RowView;

    open spec fn view(&self) -> RowView {
        RowView {
            side: self.side,
            is_novel: self.is_novel,
            line: self.line as nat,
            label: self.label@,
            body: self.body@,
        }
    }
}

/// The rows that a list holds, over texts.
pub open spec fn row_views(rows: Seq<Row>) -> Seq<RowView> {
    Seq::new(rows.len(), |i: int| rows[i]@)
}

/// The first character of a label: `0` for an unchanged line, `-` for a
/// deleted line, `+` for an added one.
pub open spec fn tag(is_novel: bool, side: Side) -> char {
    if !is_novel {
        '0'
    } else if side == Side::Left {
        '-'
    } else {
        '+'
    }
}

/// The label of a line before styling: its tag, then its one-based number
/// between two `#`.
pub open spec fn gutter_label(is_novel: bool, side: Side, line: nat) -> Seq<char> {
    seq![tag(is_novel, side), '#'] + line_number_text(line) + seq!['#']
}

/// The three spaces that part a label from its neighbour.
pub open spec fn padding() -> Seq<char> {
    seq![' ', ' ', ' ']
}

/// A row as it is written. On the left the label comes first, then the
/// padding, then the line; on the right the padding comes first and the
/// label stands directly before the line.
pub open spec fn row_text(row: RowView) -> Seq<char> {
    if row.side == Side::Left {
        row.label + padding() + row.body
    } else {
        padding() + row.label + row.body
    }
}

/// The row that shows the line `line` of `side`, whose lines are `lines`.
pub open spec fn row_for(
    side: Side,
    is_novel: bool,
    line: usize,
    lines: Seq<Seq<char>>,
    use_color: bool,
    palette: PaletteView,
) -> RowView {
    RowView {
        side,
        is_novel,
        line: line as nat,
        label: styled_label(
            gutter_label(is_novel, side, line as nat),
            is_novel,
            side,
            use_color,
            palette,
        ),
        body: lines[line as int],
    }
}

/// The rows for `pairs` on `side`: one row for each pair that names a line
/// on that side, in order, and nothing for a pair that names none.
pub open spec fn side_rows(
    pairs: Seq<LinePair>,
    side: Side,
    is_novel: bool,
    lines: Seq<Seq<char>>,
    use_color: bool,
    palette: PaletteView,
) -> Seq<RowView>
    decreases pairs.len(),
{
    if pairs.len() == 0 {
        Seq::empty()
    } else {
        let rest = side_rows(pairs.drop_last(), side, is_novel, lines, use_color, palette);
        match index_on(pairs.last(), side) {
            Some(line) => rest.push(row_for(side, is_novel, line, lines, use_color, palette)),
            None => rest,
        }
    }
}

/// The rows of one hunk, in the order in which they are written: the rows
/// before the hunk by their left lines, all deleted lines of the hunk, then
/// all its added lines, then the rows behind the hunk by their right lines.
pub open spec fn hunk_rows(
    before: Seq<LinePair>,
    hunk: Seq<LinePair>,
    after: Seq<LinePair>,
    lhs_lines: Seq<Seq<char>>,
    rhs_lines: Seq<Seq<char>>,
    use_color: bool,
    palette: PaletteView,
) -> Seq<RowView> {
    side_rows(before, Side::Left, false, lhs_lines, use_color, palette) + side_rows(
        hunk,
        Side::Left,
        true,
        lhs_lines,
        use_color,
        palette,
    ) + side_rows(hunk, Side::Right, true, rhs_lines, use_color, palette) + side_rows(
        after,
        Side::Right,
        false,
        rhs_lines,
        use_color,
        palette,
    )
}

/// The label of the line `line`: its tag and one-based number, styled for
/// its kind and side.
pub fn gutter(
    line: usize,
    is_novel: bool,
    side: Side,
    display_options: &DisplayOptions,
    palette: &Palette,
) -> (label: String)
    ensures
        label@ == styled_label(
            gutter_label(is_novel, side, line as nat),
            is_novel,
            side,
            display_options.use_color,
            palette@,
        ),
{
    let mut plain = String::new();
    if !is_novel {
        plain.push('0');
    } else {
        match side {
            Side::Left => plain.push('-'),
            Side::Right => plain.push('+'),
        }
    }
    plain.push('#');
    let number = format_line_num(line);
    plain.append(number.as_str());
    plain.push('#');
    assert(plain@ =~= gutter_label(is_novel, side, line as nat));
    apply_line_number_color(plain.as_str(), is_novel, side, display_options, palette)
}

impl Row {
    /// The row as it is written.
    pub fn text(&self) -> (text: String)
        ensures
            text@ == row_text(self@),
    {
        let mut text = String::new();
        match self.side {
            Side::Left => {
                text.append(self.label.as_str());
                text.push(' ');
                text.push(' ');
                text.push(' ');
                text.append(self.body.as_str());
                assert(text@ =~= row_text(self@));
            },
            Side::Right => {
                text.push(' ');
                text.push(' ');
                text.push(' ');
                text.append(self.label.as_str());
                text.append(self.body.as_str());
                assert(text@ =~= row_text(self@));
            },
        }
        text
    }
}

/// Appends to `rows` the rows for `pairs` on `side`.
pub fn push_side_rows(
    rows: &mut Vec<Row>,
    pairs: &[LinePair],
    side: Side,
    is_novel: bool,
    lines: &[String],
    display_options: &DisplayOptions,
    palette: &Palette,
)
    requires
        side_in_range(pairs@, side, lines@.len()),
    ensures
        row_views(final(rows)@) == row_views(old(rows)@) + side_rows(
            pairs@,
            side,
            is_novel,
            texts(lines@),
            display_options.use_color,
            palette@,
        ),
{
    let ghost shown = texts(lines@);
    let ghost use_color = display_options.use_color;
    let mut k: usize = 0;
    assert(pairs@.take(0) =~= Seq::<LinePair>::empty());
    assert(row_views(rows@) + Seq::<RowView>::empty() =~= row_views(rows@));
    while k < pairs.len()
        invariant
            k <= pairs.len(),
            side_in_range(pairs@, side, lines@.len()),
            shown == texts(lines@),
            use_color == display_options.use_color,
            row_views(rows@) == row_views(old(rows)@) + side_rows(
                pairs@.take(k as int),
                side,
                is_novel,
                shown,
                use_color,
                palette@,
            ),
        decreases pairs.len() - k,
    {
        proof {
            let next = pairs@.take(k + 1);
            assert(next.drop_last() =~= pairs@.take(k as int));
            assert(next.last() == pairs@[k as int]);
        }
        if let Some(line) = index_of(pairs[k], side) {
            let ghost before = rows@;
            let row = Row {
                side,
                is_novel,
                line,
                label: gutter(line, is_novel, side, display_options, palette),
                body: lines[line].clone(),
            };
            assert(row@ == row_for(side, is_novel, line, shown, use_color, palette@));
            rows.push(row);
            assert(row_views(rows@) =~= row_views(before).push(row@));
            assert(row_views(rows@) =~= row_views(old(rows)@) + side_rows(
                pairs@.take(k + 1),
                side,
                is_novel,
                shown,
                use_color,
                palette@,
            ));
        }
        k += 1;
    }
    assert(pairs@.take(k as int) =~= pairs@);
}

/// The rows of one hunk, given the unchanged rows around it.
pub fn render_hunk(
    before: &[LinePair],
    hunk_lines: &[LinePair],
    after: &[LinePair],
    lhs_lines: &[String],
    rhs_lines: &[String],
    display_options: &DisplayOptions,
    palette: &Palette,
) -> (rows: Vec<Row>)
    requires
        side_in_range(before@, Side::Left, lhs_lines@.len()),
        side_in_range(hunk_lines@, Side::Left, lhs_lines@.len()),
        side_in_range(hunk_lines@, Side::Right, rhs_lines@.len()),
        side_in_range(after@, Side::Right, rhs_lines@.len()),
    ensures
        row_views(rows@) == hunk_rows(
            before@,
            hunk_lines@,
            after@,
            texts(lhs_lines@),
            texts(rhs_lines@),
            display_options.use_color,
            palette@,
        ),
{
    let mut rows: Vec<Row> = Vec::new();
    assert(row_views(rows@) =~= Seq::<RowView>::empty());
    push_side_rows(&mut rows, before, Side::Left, false, lhs_lines, display_options, palette);
    push_side_rows(&mut rows, hunk_lines, Side::Left, true, lhs_lines, display_options, palette);
    push_side_rows(&mut rows, hunk_lines, Side::Right, true, rhs_lines, display_options, palette);
    push_side_rows(&mut rows, after, Side::Right, false, rhs_lines, display_options, palette);
    assert(row_views(rows@) =~= hunk_rows(
        before@,
        hunk_lines@,
        after@,
        texts(lhs_lines@),
        texts(rhs_lines@),
        display_options.use_color,
        palette@,
    ));
    rows
}

/// The number of unchanged rows shown before a hunk, at most.
pub const BEFORE_CONTEXT_LINES: usize = 3;

/// The texts of the coloured lines that a caller handed in, if it did.
pub open spec fn colored_texts(colored: Option<&[String]>) -> Option<Seq<Seq<char>>> {
    match colored {
        Some(lines) => Some(texts(lines@)),
        None => None,
    }
}

/// Whether the coloured lines are the ones that are shown: colour is in use
/// and there is one coloured line for each line of the source.
pub open spec fn uses_colored(
    src: Seq<char>,
    colored: Option<Seq<Seq<char>>>,
    use_color: bool,
) -> bool {
    use_color && (colored matches Some(lines) && lines.len() == line_count(src))
}

/// The lines of one side as they are shown, one for each line of `src`. With
/// colour in use they are the coloured lines, if there is one for each line
/// of `src`; else they are the lines of `src`, each with a newline behind
/// it. Either way the tabs of every line are expanded.
pub open spec fn rendered_lines(
    src: Seq<char>,
    colored: Option<Seq<Seq<char>>>,
    use_color: bool,
    tab_width: nat,
) -> Seq<Seq<char>> {
    if uses_colored(src, colored, use_color) {
        Seq::new(line_count(src), |i: int| expand_tabs(colored->0[i], tab_width))
    } else {
        Seq::new(line_count(src), |i: int| expand_tabs(split_lines(src)[i].push('\n'), tab_width))
    }
}

/// The shown lines of one side: see `rendered_lines`.
pub fn materialize_lines(
    src: &str,
    colored: Option<&[String]>,
    display_options: &DisplayOptions,
) -> (lines: Vec<String>)
    ensures
        texts(lines@) == rendered_lines(
            src@,
            colored_texts(colored),
            display_options.use_color,
            display_options.tab_width as nat,
        ),
        lines@.len() == line_count(src@),
{
    let plain = split_on_newlines(src);
    let ghost want = rendered_lines(
        src@,
        colored_texts(colored),
        display_options.use_color,
        display_options.tab_width as nat,
    );
    assert(plain@.len() == texts(plain@).len());
    let mut lines: Vec<String> = Vec::new();
    if display_options.use_color {
        if let Some(given) = colored {
            if given.len() == plain.len() {
                assert(given@.len() == texts(given@).len());
                let mut i: usize = 0;
                while i < given.len()
                    invariant
                        i <= given.len(),
                        want.len() == given.len(),
                        forall|j: int|
                            0 <= j < given.len() ==> #[trigger] want[j] == expand_tabs(
                                given@[j]@,
                                display_options.tab_width as nat,
                            ),
                        texts(lines@) == want.take(i as int),
                    decreases given.len() - i,
                {
                    let ghost shown = lines@;
                    let line = replace_tabs(given[i].as_str(), display_options.tab_width);
                    let ghost text = line@;
                    assert(text == want[i as int]);
                    lines.push(line);
                    assert(texts(lines@) =~= texts(shown).push(text));
                    i += 1;
                    assert(want.take(i as int) =~= want.take(i - 1).push(text));
                }
                assert(want.take(i as int) =~= want);
                assert(lines@.len() == texts(lines@).len());
                return lines;
            }
        }
    }
    let mut i: usize = 0;
    while i < plain.len()
        invariant
            i <= plain.len(),
            want.len() == plain.len(),
            texts(plain@) == split_lines(src@),
            forall|j: int|
                0 <= j < plain.len() ==> #[trigger] want[j] == expand_tabs(
                    split_lines(src@)[j].push('\n'),
                    display_options.tab_width as nat,
                ),
            texts(lines@) == want.take(i as int),
        decreases plain.len() - i,
    {
        let ghost shown = lines@;
        let mut line = plain[i].clone();
        assert(line@ == texts(plain@)[i as int]);
        line.push('\n');
        let line = replace_tabs(line.as_str(), display_options.tab_width);
        let ghost text = line@;
        assert(text == want[i as int]);
        lines.push(line);
        assert(texts(lines@) =~= texts(shown).push(text));
        i += 1;
        assert(want.take(i as int) =~= want.take(i - 1).push(text));
    }
    assert(want.take(i as int) =~= want);
    assert(lines@.len() == texts(lines@).len());
    lines
}

/// What the rows of every hunk are made from: the shown lines of both
/// sides, the position maps, and how labels are styled.
pub struct Page {
    /// The shown lines of the left side.
    pub lhs_lines: Seq<Seq<char>>,
    /// The shown lines of the right side.
    pub rhs_lines: Seq<Seq<char>>,
    /// For each left line, the right line that it is matched to.
    pub opposite_to_lhs: Seq<Option<usize>>,
    /// For each right line, the left line that it is matched to.
    pub opposite_to_rhs: Seq<Option<usize>>,
    /// Whether labels are styled.
    pub use_color: bool,
    /// The largest number of rows behind a hunk.
    pub num_context_lines: nat,
    /// The markup of labels.
    pub palette: PaletteView,
}

/// The unchanged rows before the hunk `hunk`: at most three.
pub open spec fn rows_before(hunk: Seq<LinePair>, page: Page) -> Seq<LinePair> {
    before_context(hunk, page.opposite_to_lhs, page.opposite_to_rhs, BEFORE_CONTEXT_LINES as nat)
}

/// The unchanged rows behind the hunk `hunk`: those that follow the rows
/// before the hunk and the hunk itself, at most `num_context_lines`.
pub open spec fn rows_after(hunk: Seq<LinePair>, page: Page) -> Seq<LinePair> {
    after_context(
        rows_before(hunk, page) + hunk,
        page.opposite_to_lhs,
        page.opposite_to_rhs,
        page.lhs_lines.len(),
        page.rhs_lines.len(),
        page.num_context_lines,
    )
}

/// The rows of the hunk `hunk` with its context, in the order in which they
/// are written.
pub open spec fn page_rows(hunk: Seq<LinePair>, page: Page) -> Seq<RowView> {
    hunk_rows(
        rows_before(hunk, page),
        hunk,
        rows_after(hunk, page),
        page.lhs_lines,
        page.rhs_lines,
        page.use_color,
        page.palette,
    )
}

/// The rows `rows` as they are written, one text for each.
pub open spec fn row_texts(rows: Seq<RowView>) -> Seq<Seq<char>> {
    Seq::new(rows.len(), |i: int| row_text(rows[i]))
}

/// What is written for one hunk: its header and a newline, then one write
/// for each row, then a single newline.
pub open spec fn hunk_writes(header: Seq<char>, rows: Seq<RowView>) -> Seq<Seq<char>> {
    seq![header.push('\n')] + row_texts(rows) + seq![seq!['\n']]
}

/// What is written for the first `n` hunks, in order.
pub open spec fn rendered_upto(
    hunks: Seq<Hunk>,
    headers: Seq<Seq<char>>,
    page: Page,
    n: nat,
) -> Seq<Seq<char>>
    decreases n,
{
    if n == 0 {
        Seq::empty()
    } else {
        rendered_upto(hunks, headers, page, (n - 1) as nat) + hunk_writes(
            headers[n - 1],
            page_rows(hunks[n - 1].lines@, page),
        )
    }
}

/// Everything that is written for `hunks`: the writes of each hunk, in the
/// order of the hunks.
pub open spec fn rendered(hunks: Seq<Hunk>, headers: Seq<Seq<char>>, page: Page) -> Seq<Seq<char>> {
    rendered_upto(hunks, headers, page, hunks.len())
}

/// The page for two source texts and what came with them.
pub open spec fn page_of(
    lhs_src: Seq<char>,
    rhs_src: Seq<char>,
    display_options: DisplayOptions,
    palette: PaletteView,
    lhs_colored: Option<Seq<Seq<char>>>,
    rhs_colored: Option<Seq<Seq<char>>>,
    opposite_to_lhs: Seq<Option<usize>>,
    opposite_to_rhs: Seq<Option<usize>>,
) -> Page {
    Page {
        lhs_lines: rendered_lines(
            lhs_src,
            lhs_colored,
            display_options.use_color,
            display_options.tab_width as nat,
        ),
        rhs_lines: rendered_lines(
            rhs_src,
            rhs_colored,
            display_options.use_color,
            display_options.tab_width as nat,
        ),
        opposite_to_lhs,
        opposite_to_rhs,
        use_color: display_options.use_color,
        num_context_lines: display_options.num_context_lines as nat,
        palette,
    }
}

/// Every line that a hunk names on `side` exists: its index lies below
/// `total`.
pub open spec fn hunks_in_range(hunks: Seq<Hunk>, side: Side, total: nat) -> bool {
    forall|i: int| 0 <= i < hunks.len() ==> side_in_range((#[trigger] hunks[i]).lines@, side, total)
}

/// What a caller owes: one header for each hunk, and no index, in a hunk or
/// in a position map, that names a line which its side does not have.
pub open spec fn valid_inputs(
    left_total: nat,
    right_total: nat,
    opposite_to_lhs: Seq<Option<usize>>,
    opposite_to_rhs: Seq<Option<usize>>,
    hunks: Seq<Hunk>,
    headers: Seq<String>,
) -> bool {
    &&& headers.len() == hunks.len()
    &&& hunks_in_range(hunks, Side::Left, left_total)
    &&& hunks_in_range(hunks, Side::Right, right_total)
    &&& map_in_range(opposite_to_lhs, right_total)
    &&& map_in_range(opposite_to_rhs, left_total)
}

fn concat_rows(first: &[LinePair], second: &[LinePair]) -> (both: Vec<LinePair>)
    ensures
        both@ == first@ + second@,
{
    let mut both: Vec<LinePair> = Vec::new();
    let mut i: usize = 0;
    while i < first.len()
        invariant
            i <= first.len(),
            both@ == first@.take(i as int),
        decreases first.len() - i,
    {
        both.push(first[i]);
        i += 1;
        assert(both@ =~= first@.take(i as int));
    }
    assert(first@.take(i as int) =~= first@);
    let mut j: usize = 0;
    while j < second.len()
        invariant
            j <= second.len(),
            both@ == first@ + second@.take(j as int),
        decreases second.len() - j,
    {
        both.push(second[j]);
        j += 1;
        assert(both@ =~= first@ + second@.take(j as int));
    }
    assert(second@.take(j as int) =~= second@);
    both
}

/// Writes one hunk to `out`: the header line, the rows of the hunk with its
/// context, and an empty line.
pub fn print_hunk(
    hunk: &Hunk,
    header: &str,
    lhs_lines: &[String],
    rhs_lines: &[String],
    display_options: &DisplayOptions,
    palette: &Palette,
    opposite_to_lhs: &[Option<usize>],
    opposite_to_rhs: &[Option<usize>],
    out: &mut Vec<String>,
)
    requires
        side_in_range(hunk.lines@, Side::Left, lhs_lines@.len()),
        side_in_range(hunk.lines@, Side::Right, rhs_lines@.len()),
        map_in_range(opposite_to_lhs@, rhs_lines@.len()),
        map_in_range(opposite_to_rhs@, lhs_lines@.len()),
    ensures
        texts(final(out)@) == texts(old(out)@) + hunk_writes(
            header@,
            page_rows(
                hunk.lines@,
                Page {
                    lhs_lines: texts(lhs_lines@),
                    rhs_lines: texts(rhs_lines@),
                    opposite_to_lhs: opposite_to_lhs@,
                    opposite_to_rhs: opposite_to_rhs@,
                    use_color: display_options.use_color,
                    num_context_lines: display_options.num_context_lines as nat,
                    palette: palette@,
                },
            ),
        ),
{
    let ghost page = Page {
        lhs_lines: texts(lhs_lines@),
        rhs_lines: texts(rhs_lines@),
        opposite_to_lhs: opposite_to_lhs@,
        opposite_to_rhs: opposite_to_rhs@,
        use_color: display_options.use_color,
        num_context_lines: display_options.num_context_lines as nat,
        palette: palette@,
    };
    let mut header_line = String::from_str(header);
    header_line.push('\n');
    out.push(header_line);
    assert(texts(out@) =~= texts(old(out)@) + seq![header@.push('\n')]);

    let before = calculate_before_context(
        &hunk.lines,
        opposite_to_lhs,
        opposite_to_rhs,
        BEFORE_CONTEXT_LINES,
    );
    let so_far = concat_rows(&before, &hunk.lines);
    let after = calculate_after_context(
        &so_far,
        opposite_to_lhs,
        opposite_to_rhs,
        lhs_lines.len(),
        rhs_lines.len(),
        display_options.num_context_lines as usize,
    );
    assert(before@ == rows_before(hunk.lines@, page));
    assert(after@ == rows_after(hunk.lines@, page));
    assert(side_in_range(before@, Side::Left, lhs_lines@.len())) by {
        assert forall|k: int| 0 <= k < before@.len() implies (index_on(
            #[trigger] before@[k],
            Side::Left,
        ) matches Some(i) ==> i < lhs_lines@.len()) by {
            let first = hunk.lines@[0];
            if first.0 is None {
                let r = first.1->0;
                let at = r - before@.len() + k;
                if 0 <= at < opposite_to_rhs@.len() {
                    assert(opposite_to_rhs@[at] matches Some(o) ==> o < lhs_lines@.len());
                }
            }
        }
    }
    assert(side_in_range(after@, Side::Right, rhs_lines@.len()));
    let rows = render_hunk(
        &before,
        &hunk.lines,
        &after,
        lhs_lines,
        rhs_lines,
        display_options,
        palette,
    );
    assert(row_views(rows@) == page_rows(hunk.lines@, page));
    let ghost start = out@;
    let mut j: usize = 0;
    while j < rows.len()
        invariant
            j <= rows.len(),
            texts(out@) == texts(start) + row_texts(row_views(rows@)).take(j as int),
        decreases rows.len() - j,
    {
        let ghost written = out@;
        let ghost all = row_texts(row_views(rows@));
        let text = rows[j].text();
        let ghost line = text@;
        assert(line == all[j as int]);
        out.push(text);
        assert(texts(out@) =~= texts(written).push(line));
        j += 1;
        assert(all.take(j as int) =~= all.take(j - 1).push(line));
    }
    assert(row_texts(row_views(rows@)).take(j as int) =~= row_texts(row_views(rows@)));
    let ghost filled = out@;
    let mut blank = String::new();
    blank.push('\n');
    out.push(blank);
    assert(texts(out@) =~= texts(filled) + seq![seq!['\n']]);
    assert(texts(out@) =~= texts(old(out)@) + hunk_writes(
        header@,
        page_rows(hunk.lines@, page),
    ));
}

/// Writes the inline display of `hunks` to `out`, one hunk after the other
/// in the order given: for each hunk its header line, at most three
/// unchanged rows before it by their left line numbers, every deleted line,
/// then every added line, at most `num_context_lines` unchanged rows behind
/// it by their right line numbers, and an empty line.
///
/// `lhs_colored` and `rhs_colored` are the lines as a colouring of the two
/// sources gave them, and `headers` holds the header of each hunk. With
/// colour not in use, neither the coloured lines nor `palette` are read.
pub fn print(
    lhs_src: &str,
    rhs_src: &str,
    display_options: &DisplayOptions,
    palette: &Palette,
    lhs_colored: Option<&[String]>,
    rhs_colored: Option<&[String]>,
    opposite_to_lhs: &[Option<usize>],
    opposite_to_rhs: &[Option<usize>],
    hunks: &[Hunk],
    headers: &[String],
    out: &mut Vec<String>,
)
    requires
        valid_inputs(
            line_count(lhs_src@),
            line_count(rhs_src@),
            opposite_to_lhs@,
            opposite_to_rhs@,
            hunks@,
            headers@,
        ),
    ensures
        texts(final(out)@) == texts(old(out)@) + rendered(
            hunks@,
            texts(headers@),
            page_of(
                lhs_src@,
                rhs_src@,
                *display_options,
                palette@,
                colored_texts(lhs_colored),
                colored_texts(rhs_colored),
                opposite_to_lhs@,
                opposite_to_rhs@,
            ),
        ),
        hunks@.len() == 0 ==> final(out)@ == old(out)@,
{
    let lhs_lines = materialize_lines(lhs_src, lhs_colored, display_options);
    let rhs_lines = materialize_lines(rhs_src, rhs_colored, display_options);
    let ghost page = page_of(
        lhs_src@,
        rhs_src@,
        *display_options,
        palette@,
        colored_texts(lhs_colored),
        colored_texts(rhs_colored),
        opposite_to_lhs@,
        opposite_to_rhs@,
    );
    let ghost heads = texts(headers@);
    assert(texts(out@) + rendered_upto(hunks@, heads, page, 0) =~= texts(out@));
    let mut i: usize = 0;
    while i < hunks.len()
        invariant
            i <= hunks.len(),
            headers@.len() == hunks@.len(),
            heads == texts(headers@),
            hunks_in_range(hunks@, Side::Left, lhs_lines@.len()),
            hunks_in_range(hunks@, Side::Right, rhs_lines@.len()),
            map_in_range(opposite_to_lhs@, rhs_lines@.len()),
            map_in_range(opposite_to_rhs@, lhs_lines@.len()),
            page == (Page {
                lhs_lines: texts(lhs_lines@),
                rhs_lines: texts(rhs_lines@),
                opposite_to_lhs: opposite_to_lhs@,
                opposite_to_rhs: opposite_to_rhs@,
                use_color: display_options.use_color,
                num_context_lines: display_options.num_context_lines as nat,
                palette: palette@,
            }),
            texts(out@) == texts(old(out)@) + rendered_upto(hunks@, heads, page, i as nat),
            i == 0 ==> out@ == old(out)@,
        decreases hunks.len() - i,
    {
        let ghost written = texts(out@);
        print_hunk(
            &hunks[i],
            headers[i].as_str(),
            &lhs_lines,
            &rhs_lines,
            display_options,
            palette,
            opposite_to_lhs,
            opposite_to_rhs,
            out,
        );
        i += 1;
        assert(texts(out@) =~= texts(old(out)@) + rendered_upto(hunks@, heads, page, i as nat));
    }
}

/// What is wrong with the inputs of a display.
#[derive(Clone, Copy, PartialEq, Eq, Structural, Debug)]
pub enum Violation {
    /// There is not one header for each hunk.
    HeaderCount,
    /// A hunk names a line that the given side does not have.
    IndexOutOfBounds(Side),
    /// The position map of the given side names a line that the other side
    /// does not have.
    MatchOutOfBounds(Side),
}

/// The first thing that is wrong with the inputs of a display, if anything
/// is: the headers are looked at first, then the hunks' left indices, their
/// right indices, the map of the left side and the map of the right side.
pub open spec fn first_violation(
    left_total: nat,
    right_total: nat,
    opposite_to_lhs: Seq<Option<usize>>,
    opposite_to_rhs: Seq<Option<usize>>,
    hunks: Seq<Hunk>,
    headers: Seq<String>,
) -> Option<Violation> {
    if headers.len() != hunks.len() {
        Some(Violation::HeaderCount)
    } else if !hunks_in_range(hunks, Side::Left, left_total) {
        Some(Violation::IndexOutOfBounds(Side::Left))
    } else if !hunks_in_range(hunks, Side::Right, right_total) {
        Some(Violation::IndexOutOfBounds(Side::Right))
    } else if !map_in_range(opposite_to_lhs, right_total) {
        Some(Violation::MatchOutOfBounds(Side::Left))
    } else if !map_in_range(opposite_to_rhs, left_total) {
        Some(Violation::MatchOutOfBounds(Side::Right))
    } else {
        None
    }
}

/// Whether every line that a hunk names on `side` lies below `total`.
pub fn check_hunks_in_range(hunks: &[Hunk], side: Side, total: usize) -> (ok: bool)
    ensures
        ok == hunks_in_range(hunks@, side, total as nat),
{
    let mut i: usize = 0;
    while i < hunks.len()
        invariant
            i <= hunks.len(),
            hunks_in_range(hunks@.take(i as int), side, total as nat),
        decreases hunks.len() - i,
    {
        if !check_side_in_range(&hunks[i].lines, side, total) {
            return false;
        }
        i += 1;
        assert forall|j: int| 0 <= j < i implies side_in_range(
            (#[trigger] hunks@.take(i as int)[j]).lines@,
            side,
            total as nat,
        ) by {
            if j < i - 1 {
                assert(hunks@.take(i as int)[j] == hunks@.take(i - 1)[j]);
            }
        }
    }
    assert(hunks@.take(i as int) =~= hunks@);
    true
}

/// Whether every line that `map` matches to lies below `total`.
pub fn check_map_in_range(map: &[Option<usize>], total: usize) -> (ok: bool)
    ensures
        ok == map_in_range(map@, total as nat),
{
    let mut i: usize = 0;
    while i < map.len()
        invariant
            i <= map.len(),
            map_in_range(map@.take(i as int), total as nat),
        decreases map.len() - i,
    {
        if let Some(o) = map[i] {
            if o >= total {
                return false;
            }
        }
        i += 1;
        assert forall|j: int| 0 <= j < i implies ((#[trigger] map@.take(i as int)[j]) matches Some(
            o,
        ) ==> o < total) by {
            if j < i - 1 {
                assert(map@.take(i as int)[j] == map@.take(i - 1)[j]);
            }
        }
    }
    assert(map@.take(i as int) =~= map@);
    true
}

/// Looks for what is wrong with the inputs of a display of two sources with
/// `left_total` and `right_total` lines.
pub fn validate(
    left_total: usize,
    right_total: usize,
    opposite_to_lhs: &[Option<usize>],
    opposite_to_rhs: &[Option<usize>],
    hunks: &[Hunk],
    headers: &[String],
) -> (result: Result<(), Violation>)
    ensures
        result is Ok <==> valid_inputs(
            left_total as nat,
            right_total as nat,
            opposite_to_lhs@,
            opposite_to_rhs@,
            hunks@,
            headers@,
        ),
        result matches Err(v) ==> Some(v) == first_violation(
            left_total as nat,
            right_total as nat,
            opposite_to_lhs@,
            opposite_to_rhs@,
            hunks@,
            headers@,
        ),
{
    if headers.len() != hunks.len() {
        Err(Violation::HeaderCount)
    } else if !check_hunks_in_range(hunks, Side::Left, left_total) {
        Err(Violation::IndexOutOfBounds(Side::Left))
    } else if !check_hunks_in_range(hunks, Side::Right, right_total) {
        Err(Violation::IndexOutOfBounds(Side::Right))
    } else if !check_map_in_range(opposite_to_lhs, right_total) {
        Err(Violation::MatchOutOfBounds(Side::Left))
    } else if !check_map_in_range(opposite_to_rhs, left_total) {
        Err(Violation::MatchOutOfBounds(Side::Right))
    } else {
        Ok(())
    }
}

/// As `print`, for inputs that nobody has looked at yet: where something is
/// wrong with them, nothing is written and the violation comes back.
pub fn print_checked(
    lhs_src: &str,
    rhs_src: &str,
    display_options: &DisplayOptions,
    palette: &Palette,
    lhs_colored: Option<&[String]>,
    rhs_colored: Option<&[String]>,
    opposite_to_lhs: &[Option<usize>],
    opposite_to_rhs: &[Option<usize>],
    hunks: &[Hunk],
    headers: &[String],
    out: &mut Vec<String>,
) -> (result: Result<(), Violation>)
    ensures
        result is Ok <==> valid_inputs(
            line_count(lhs_src@),
            line_count(rhs_src@),
            opposite_to_lhs@,
            opposite_to_rhs@,
            hunks@,
            headers@,
        ),
        result is Ok ==> texts(final(out)@) == texts(old(out)@) + rendered(
            hunks@,
            texts(headers@),
            page_of(
                lhs_src@,
                rhs_src@,
                *display_options,
                palette@,
                colored_texts(lhs_colored),
                colored_texts(rhs_colored),
                opposite_to_lhs@,
                opposite_to_rhs@,
            ),
        ),
        result matches Err(v) ==> final(out)@ == old(out)@ && Some(v) == first_violation(
            line_count(lhs_src@),
            line_count(rhs_src@),
            opposite_to_lhs@,
            opposite_to_rhs@,
            hunks@,
            headers@,
        ),
{
    let left_total = count_lines(lhs_src);
    let right_total = count_lines(rhs_src);
    match validate(left_total, right_total, opposite_to_lhs, opposite_to_rhs, hunks, headers) {
        Ok(()) => {
            print(
                lhs_src,
                rhs_src,
                display_options,
                palette,
                lhs_colored,
                rhs_colored,
                opposite_to_lhs,
                opposite_to_rhs,
                hunks,
                headers,
                out,
            );
            Ok(())
        },
        Err(violation) => Err(violation),
    }
}

} // verus!
