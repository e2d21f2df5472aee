use inline_diff::constants::Side;
use inline_diff::display::style::{apply_line_number_color, replace_tabs, Markup, Palette};
use inline_diff::options::{BackgroundColor, DisplayOptions};

fn options(use_color: bool) -> DisplayOptions {
    DisplayOptions {
        use_color,
        syntax_highlight: false,
        background_color: BackgroundColor::Light,
        tab_width: 8,
        num_context_lines: 3,
    }
}

fn markup(open: &str, close: &str) -> Markup {
    Markup { open: open.to_string(), close: close.to_string() }
}

fn palette() -> Palette {
    Palette {
        unchanged: markup("\u{1b}[2m", "\u{1b}[0m"),
        novel_left: markup("\u{1b}[1;31m", "\u{1b}[0m"),
        novel_right: markup("\u{1b}[1;32m", "\u{1b}[0m"),
    }
}

#[test]
fn tab_pads_to_next_stop() {
    assert_eq!(replace_tabs("a\tb", 4), "a   b");
}

#[test]
fn tab_at_a_stop_takes_a_whole_width() {
    assert_eq!(replace_tabs("\tb", 4), "    b");
    assert_eq!(replace_tabs("abcd\te", 4), "abcd    e");
}

#[test]
fn tab_before_a_stop_takes_one_space() {
    assert_eq!(replace_tabs("abc\td", 4), "abc d");
}

#[test]
fn consecutive_tabs_each_reach_a_stop() {
    assert_eq!(replace_tabs("a\t\tb", 4), "a       b");
    assert_eq!(replace_tabs("ab\tc\td\n", 4), "ab  c   d\n");
}

#[test]
fn text_without_tabs_is_unchanged() {
    assert_eq!(replace_tabs("", 4), "");
    assert_eq!(replace_tabs("no tabs here\n", 4), "no tabs here\n");
}

#[test]
fn zero_width_removes_tabs() {
    assert_eq!(replace_tabs("a\tb\t", 0), "ab");
}

#[test]
fn width_one_gives_one_space() {
    assert_eq!(replace_tabs("a\tb\t\tc", 1), "a b  c");
}

#[test]
fn wide_characters_take_one_column_each() {
    assert_eq!(replace_tabs("üñ\tx", 4), "üñ  x");
}

#[test]
fn markup_takes_no_column() {
    assert_eq!(replace_tabs("\u{1b}[31ma\u{1b}[0m\tb", 4), "\u{1b}[31ma\u{1b}[0m   b");
    assert_eq!(
        replace_tabs("\u{1b}[1;38;5;9mab\u{1b}[0m\u{1b}[2m\tc\u{1b}[0m\n", 4),
        "\u{1b}[1;38;5;9mab\u{1b}[0m\u{1b}[2m  c\u{1b}[0m\n"
    );
}

#[test]
fn coloured_and_plain_lines_have_the_same_layout() {
    let plain = replace_tabs("if x {\treturn\t1; }", 4);
    let coloured = replace_tabs("\u{1b}[35mif\u{1b}[0m x {\t\u{1b}[35mreturn\u{1b}[0m\t1; }", 4);
    let mut stripped = String::new();
    let mut rest = coloured.as_str();
    while let Some(at) = rest.find('\u{1b}') {
        stripped.push_str(&rest[..at]);
        let end = rest[at..].find('m').unwrap();
        rest = &rest[at + end + 1..];
    }
    stripped.push_str(rest);
    assert_eq!(stripped, plain);
    assert_eq!(plain, "if x {  return  1; }");
}

#[test]
fn lone_escape_takes_no_column() {
    assert_eq!(replace_tabs("\u{1b}a\tb", 4), "\u{1b}a   b");
    assert_eq!(replace_tabs("\u{1b}\tb", 4), "\u{1b}    b");
}

#[test]
fn tab_inside_markup_is_kept() {
    assert_eq!(replace_tabs("\u{1b}[3\t1mab\tc", 4), "\u{1b}[3\t1mab  c");
}

#[test]
fn label_is_unchanged_without_colour() {
    let palette = palette();
    assert_eq!(apply_line_number_color("-#7#", true, Side::Left, &options(false), &palette), "-#7#");
    assert_eq!(apply_line_number_color("+#7#", true, Side::Right, &options(false), &palette), "+#7#");
    assert_eq!(apply_line_number_color("0#7#", false, Side::Left, &options(false), &palette), "0#7#");
}

#[test]
fn label_stands_between_markup_with_colour() {
    let palette = palette();
    assert_eq!(
        apply_line_number_color("-#7#", true, Side::Left, &options(true), &palette),
        "\u{1b}[1;31m-#7#\u{1b}[0m"
    );
    assert_eq!(
        apply_line_number_color("+#7#", true, Side::Right, &options(true), &palette),
        "\u{1b}[1;32m+#7#\u{1b}[0m"
    );
}

#[test]
fn unchanged_label_is_styled_alike_on_both_sides() {
    let palette = palette();
    let left = apply_line_number_color("0#1#", false, Side::Left, &options(true), &palette);
    let right = apply_line_number_color("0#1#", false, Side::Right, &options(true), &palette);
    assert_eq!(left, "\u{1b}[2m0#1#\u{1b}[0m");
    assert_eq!(left, right);
}

#[test]
fn plain_palette_leaves_labels_as_they_are() {
    let palette = Palette::plain();
    assert_eq!(apply_line_number_color("-#7#", true, Side::Left, &options(true), &palette), "-#7#");
    assert_eq!(apply_line_number_color("0#7#", false, Side::Right, &options(true), &palette), "0#7#");
    let none = Markup::none();
    assert_eq!(none.open, "");
    assert_eq!(none.close, "");
}
