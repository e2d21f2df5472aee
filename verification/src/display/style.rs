//! Tab normalisation and the styling of line-number labels.

use crate::constants::Side;
use crate::options::DisplayOptions;
use crate::text::{push_repeated, repeated};
use vstd::prelude::*;

verus! {

/// Where a scan of a line stands with respect to colour markup. Markup is an
/// escape character, an opening square bracket, and everything up to and
/// including the next character from `@` to `~`.
#[derive(Clone, Copy, PartialEq, Eq, Structural, Debug)]
pub enum Scan {
    /// In visible text.
    Text,
    /// Just behind an escape character.
    Escape,
    /// Inside markup, behind its opening bracket.
    Sequence,
}

/// The state of a scan: how many visible columns lie behind it, and where it
/// stands with respect to markup.
pub struct Cursor {
    pub column: nat,
    pub scan: Scan,
}

/// The character that opens markup.
pub open spec fn is_escape(c: char) -> bool {
    c == '\u{1b}'
}

/// Whether `c` is the last character of markup.
pub open spec fn ends_markup(c: char) -> bool {
    '@' as u32 <= c as u32 <= '~' as u32
}

/// The number of spaces that stand for a tab at `column`: as many as lead to
/// the next multiple of `width`, and none where `width` is zero.
pub open spec fn tab_fill(column: nat, width: nat) -> nat {
    if width == 0 {
        0
    } else {
        (width - column % width) as nat
    }
}

/// Whether the character `c`, met in the state `scan`, is a tab in visible
/// text.
pub open spec fn is_visible_tab(scan: Scan, c: char) -> bool {
    c == '\t' && scan != Scan::Sequence
}

/// The state behind the character `c`, met in the state `cur`. Markup takes
/// no column, a tab leads to the next tab stop, and every other character
/// takes one column.
pub open spec fn advance(cur: Cursor, c: char, width: nat) -> Cursor {
    if cur.scan == Scan::Sequence {
        Cursor { column: cur.column, scan: if ends_markup(c) { Scan::Text } else { Scan::Sequence } }
    } else if cur.scan == Scan::Escape && c == '[' {
        Cursor { column: cur.column, scan: Scan::Sequence }
    } else if is_escape(c) {
        Cursor { column: cur.column, scan: Scan::Escape }
    } else if c == '\t' {
        Cursor { column: cur.column + tab_fill(cur.column, width), scan: Scan::Text }
    } else {
        Cursor { column: cur.column + 1, scan: Scan::Text }
    }
}

/// What is written for the character `c`, met in the state `cur`: spaces up
/// to the next tab stop for a tab in visible text, and `c` itself otherwise.
pub open spec fn emitted(cur: Cursor, c: char, width: nat) -> Seq<char> {
    if is_visible_tab(cur.scan, c) {
        repeated(' ', tab_fill(cur.column, width))
    } else {
        seq![c]
    }
}

/// The state behind all of `s`, scanned from column zero in visible text.
pub open spec fn cursor_after(s: Seq<char>, width: nat) -> Cursor
    decreases s.len(),
{
    if s.len() == 0 {
        Cursor { column: 0, scan: Scan::Text }
    } else {
        advance(cursor_after(s.drop_last(), width), s.last(), width)
    }
}

/// `s` with every tab in visible text replaced by the spaces that lead to
/// the next multiple of `width` columns. Colour markup takes no column, so a
/// tab lands on the same stop whether or not the line is coloured.
pub open spec fn expand_tabs(s: Seq<char>, width: nat) -> Seq<char>
    decreases s.len(),
{
    if s.len() == 0 {
        Seq::empty()
    } else {
        expand_tabs(s.drop_last(), width) + emitted(
            cursor_after(s.drop_last(), width),
            s.last(),
            width,
        )
    }
}

/// How far a column lies behind the last tab stop.
pub open spec fn stop_offset(column: nat, width: nat) -> nat {
    if width == 0 {
        0
    } else {
        column % width
    }
}

/// How the offset behind the last tab stop changes with one more column,
/// and that a tab's fill ends on a stop.
proof fn lemma_offset_step(column: nat, width: nat)
    requires
        width > 0,
    ensures
        column % width < width,
        column % width + 1 == width ==> (column + 1) % width == 0,
        column % width + 1 != width ==> (column + 1) % width == column % width + 1,
        (column + tab_fill(column, width)) % width == 0,
{
    let d = width as int;
    let q = column as int / d;
    let r = column as int % d;
    vstd::arithmetic::div_mod::lemma_fundamental_div_mod(column as int, d);
    vstd::arithmetic::div_mod::lemma_mod_bound(column as int, d);
    assert(column + (d - r) == (q + 1) * d) by (nonlinear_arith)
        requires
            column == d * q + r,
    ;
    vstd::arithmetic::div_mod::lemma_fundamental_div_mod_converse(
        column as int + (d - r),
        d,
        q + 1,
        0,
    );
    if r + 1 != d {
        assert(column + 1 == q * d + (r + 1)) by (nonlinear_arith)
            requires
                column == d * q + r,
        ;
        vstd::arithmetic::div_mod::lemma_fundamental_div_mod_converse(
            column as int + 1,
            d,
            q,
            r + 1,
        );
    }
}

/// Replaces every tab of `src` that stands in visible text by spaces up to
/// the next multiple of `tab_width` columns.
pub fn replace_tabs(src: &str, tab_width: usize) -> (out: String)
    ensures
        out@ == expand_tabs(src@, tab_width as nat),
{
    let mut out = String::new();
    let mut offset: usize = 0;
    let mut scan = Scan::Text;
    for c in it: src.chars()
        invariant
            it.seq() == src@,
            out@ == expand_tabs(src@.take(it.index() as int), tab_width as nat),
            scan == cursor_after(src@.take(it.index() as int), tab_width as nat).scan,
            offset == stop_offset(
                cursor_after(src@.take(it.index() as int), tab_width as nat).column,
                tab_width as nat,
            ),
            tab_width > 0 ==> offset < tab_width,
    {
        let ghost before = src@.take(it.index() as int);
        let ghost cur = cursor_after(before, tab_width as nat);
        proof {
            let next = src@.take(it.index() + 1);
            assert(next.drop_last() =~= before);
            assert(next.last() == c);
            if tab_width > 0 {
                lemma_offset_step(cur.column, tab_width as nat);
            }
        }
        if scan == Scan::Sequence {
            out.push(c);
            if c as u32 >= '@' as u32 && c as u32 <= '~' as u32 {
                scan = Scan::Text;
            }
        } else if scan == Scan::Escape && c == '[' {
            out.push(c);
            scan = Scan::Sequence;
        } else if c == '\u{1b}' {
            out.push(c);
            scan = Scan::Escape;
        } else if c == '\t' {
            let fill: usize = if tab_width == 0 {
                0
            } else {
                tab_width - offset
            };
            push_repeated(&mut out, ' ', fill);
            offset = 0;
            scan = Scan::Text;
        } else {
            out.push(c);
            if tab_width > 0 {
                offset = if offset + 1 == tab_width {
                    0
                } else {
                    offset + 1
                };
            }
            scan = Scan::Text;
        }
        assert(out@ =~= expand_tabs(before, tab_width as nat) + emitted(cur, c, tab_width as nat));
    }
    assert(src@.take(src@.len() as int) =~= src@);
    out
}

/// The markup that is written before and behind a styled text.
#[derive(Debug)]
pub struct Markup {
    /// Written before the text.
    pub open: String,
    /// Written behind the text.
    pub close: String,
}

/// A `Markup` as two texts.
pub struct MarkupView {
    pub open: Seq<char>,
    pub close: Seq<char>,
}

impl View for Markup {
    type V = MarkupView;

    open spec fn view(&self) -> MarkupView {
        MarkupView { open: self.open@, close: self.close@ }
    }
}

/// The colours of line-number labels: one markup for the label of an
/// unchanged line, one for a changed line of the left side and one for a
/// changed line of the right side. Which colours these are is the caller's
/// choice.
#[derive(Debug)]
pub struct Palette {
    /// For the label of an unchanged line, on either side.
    pub unchanged: Markup,
    /// For the label of a deleted line.
    pub novel_left: Markup,
    /// For the label of an added line.
    pub novel_right: Markup,
}

/// A `Palette` as texts.
pub struct PaletteView {
    pub unchanged: MarkupView,
    pub novel_left: MarkupView,
    pub novel_right: MarkupView,
}

impl View for Palette {
    type V = PaletteView;

    open spec fn view(&self) -> PaletteView {
        PaletteView {
            unchanged: self.unchanged@,
            novel_left: self.novel_left@,
            novel_right: self.novel_right@,
        }
    }
}

impl Markup {
    /// Markup that writes nothing.
    pub fn none() -> (m: Markup)
        ensures
            m@ == no_markup(),
    {
        Markup { open: String::new(), close: String::new() }
    }
}

impl Palette {
    /// The palette that leaves every label as it is.
    pub fn plain() -> (p: Palette)
        ensures
            p@ == plain_palette(),
    {
        Palette { unchanged: Markup::none(), novel_left: Markup::none(), novel_right: Markup::none() }
    }
}

/// Markup that writes nothing.
pub open spec fn no_markup() -> MarkupView {
    MarkupView { open: Seq::empty(), close: Seq::empty() }
}

/// The palette whose markup writes nothing.
pub open spec fn plain_palette() -> PaletteView {
    PaletteView { unchanged: no_markup(), novel_left: no_markup(), novel_right: no_markup() }
}

/// The markup that `palette` has for the label of a line: by the side for a
/// changed line, and the same on both sides for an unchanged one.
pub open spec fn label_markup(palette: PaletteView, is_novel: bool, side: Side) -> MarkupView {
    if !is_novel {
        palette.unchanged
    } else if side == Side::Left {
        palette.novel_left
    } else {
        palette.novel_right
    }
}

/// A label as it is shown: between the markup that the palette has for it
/// where colour is in use, and unchanged where it is not.
pub open spec fn styled_label(
    label: Seq<char>,
    is_novel: bool,
    side: Side,
    use_color: bool,
    palette: PaletteView,
) -> Seq<char> {
    if use_color {
        label_markup(palette, is_novel, side).open + label + label_markup(
            palette,
            is_novel,
            side,
        ).close
    } else {
        label
    }
}

/// Styles the line-number label `s`: with colour in use the label stands
/// between the markup of `palette` for its kind, without it the label comes
/// back unchanged.
pub fn apply_line_number_color(
    s: &str,
    is_novel: bool,
    side: Side,
    display_options: &DisplayOptions,
    palette: &Palette,
) -> (styled: String)
    ensures
        styled@ == styled_label(s@, is_novel, side, display_options.use_color, palette@),
{
    if display_options.use_color {
        let markup = if !is_novel {
            &palette.unchanged
        } else {
            match side {
                Side::Left => &palette.novel_left,
                Side::Right => &palette.novel_right,
            }
        };
        let mut styled = markup.open.clone();
        styled.append(s);
        styled.append(markup.close.as_str());
        styled
    } else {
        String::from_str(s)
    }
}

} // verus!
