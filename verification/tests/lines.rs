use inline_diff::lines::{count_lines, format_line_num, split_on_newlines};

fn owned(lines: &[&str]) -> Vec<String> {
    lines.iter().map(|l| l.to_string()).collect()
}

#[test]
fn empty_text_has_no_lines() {
    assert_eq!(split_on_newlines(""), Vec::<String>::new());
    assert_eq!(count_lines(""), 0);
}

#[test]
fn text_without_newline_is_one_line() {
    assert_eq!(split_on_newlines("abc"), owned(&["abc"]));
    assert_eq!(count_lines("abc"), 1);
}

#[test]
fn trailing_newline_starts_no_line() {
    assert_eq!(split_on_newlines("a\nb\nc\n"), owned(&["a", "b", "c"]));
    assert_eq!(count_lines("a\nb\nc\n"), 3);
}

#[test]
fn text_behind_last_newline_is_a_line() {
    assert_eq!(split_on_newlines("a\nb"), owned(&["a", "b"]));
    assert_eq!(count_lines("a\nb"), 2);
}

#[test]
fn lone_newline_is_one_empty_line() {
    assert_eq!(split_on_newlines("\n"), owned(&[""]));
    assert_eq!(count_lines("\n"), 1);
}

#[test]
fn empty_lines_are_kept() {
    assert_eq!(split_on_newlines("a\n\nb\n\n"), owned(&["a", "", "b", ""]));
    assert_eq!(count_lines("a\n\nb\n\n"), 4);
}

#[test]
fn lines_keep_other_characters() {
    assert_eq!(split_on_newlines("\tx y\r\nüñï\n"), owned(&["\tx y\r", "üñï"]));
}

#[test]
fn no_line_holds_a_newline() {
    for line in split_on_newlines("one\ntwo\n\nthree") {
        assert!(!line.contains('\n'));
    }
}

#[test]
fn line_numbers_start_at_one() {
    assert_eq!(format_line_num(0), "1");
    assert_eq!(format_line_num(1), "2");
    assert_eq!(format_line_num(8), "9");
}

#[test]
fn line_numbers_carry_into_new_digits() {
    assert_eq!(format_line_num(9), "10");
    assert_eq!(format_line_num(99), "100");
    assert_eq!(format_line_num(122), "123");
    assert_eq!(format_line_num(1_000_000), "1000001");
}

#[test]
fn line_number_of_largest_index() {
    let expected = (usize::MAX as u128 + 1).to_string();
    assert_eq!(format_line_num(usize::MAX), expected);
}

#[test]
fn line_numbers_agree_with_std_formatting() {
    for index in 0..2500usize {
        assert_eq!(format_line_num(index), format!("{}", index + 1));
    }
}
