use inline_diff::constants::Side;
use inline_diff::display::context::{calculate_after_context, calculate_before_context};
use inline_diff::display::hunks::{check_side_in_range, index_of};

type Pair = (Option<usize>, Option<usize>);

fn identity(n: usize) -> Vec<Option<usize>> {
    (0..n).map(Some).collect()
}

#[test]
fn no_rows_no_context() {
    let rows: Vec<Pair> = vec![];
    assert_eq!(calculate_before_context(&rows, &identity(5), &identity(5), 3), vec![]);
    assert_eq!(calculate_after_context(&rows, &identity(5), &identity(5), 5, 5, 3), vec![]);
}

#[test]
fn row_without_indices_has_no_context() {
    let rows: Vec<Pair> = vec![(None, None)];
    assert_eq!(calculate_before_context(&rows, &identity(5), &identity(5), 3), vec![]);
    assert_eq!(calculate_after_context(&rows, &identity(5), &identity(5), 5, 5, 3), vec![]);
}

#[test]
fn before_context_is_the_lines_just_before() {
    let rows: Vec<Pair> = vec![(Some(5), Some(5))];
    assert_eq!(
        calculate_before_context(&rows, &identity(10), &identity(10), 3),
        vec![(Some(2), Some(2)), (Some(3), Some(3)), (Some(4), Some(4))]
    );
}

#[test]
fn before_context_stops_at_the_first_line() {
    let rows: Vec<Pair> = vec![(Some(2), Some(2))];
    assert_eq!(
        calculate_before_context(&rows, &identity(10), &identity(10), 3),
        vec![(Some(0), Some(0)), (Some(1), Some(1))]
    );
    let rows: Vec<Pair> = vec![(Some(0), None)];
    assert_eq!(calculate_before_context(&rows, &identity(10), &identity(10), 3), vec![]);
}

#[test]
fn before_context_of_no_lines_is_empty() {
    let rows: Vec<Pair> = vec![(Some(5), Some(5))];
    assert_eq!(calculate_before_context(&rows, &identity(10), &identity(10), 0), vec![]);
}

#[test]
fn before_context_follows_shifted_lines() {
    // Two lines were added at the top of the new text.
    let left_map = vec![Some(2), Some(3), Some(4), None];
    let right_map = vec![None, None, Some(0), Some(1), Some(2)];
    let rows: Vec<Pair> = vec![(Some(3), Some(5))];
    assert_eq!(
        calculate_before_context(&rows, &left_map, &right_map, 3),
        vec![(Some(0), Some(2)), (Some(1), Some(3)), (Some(2), Some(4))]
    );
}

#[test]
fn before_context_drops_matches_at_or_behind_the_hunk() {
    let left_map = vec![Some(0), Some(7), Some(4)];
    let rows: Vec<Pair> = vec![(Some(3), Some(4))];
    assert_eq!(
        calculate_before_context(&rows, &left_map, &identity(10), 3),
        vec![(Some(0), Some(0)), (Some(1), None), (Some(2), None)]
    );
}

#[test]
fn before_context_of_an_addition_is_anchored_right() {
    let right_map = vec![Some(0), None, Some(1)];
    let rows: Vec<Pair> = vec![(None, Some(3))];
    assert_eq!(
        calculate_before_context(&rows, &identity(10), &right_map, 3),
        vec![(Some(0), Some(0)), (None, Some(1)), (Some(1), Some(2))]
    );
}

#[test]
fn before_context_reads_unmapped_lines_as_unmatched() {
    let rows: Vec<Pair> = vec![(Some(4), None)];
    assert_eq!(
        calculate_before_context(&rows, &vec![Some(0), Some(1)], &vec![], 3),
        vec![(Some(1), Some(1)), (Some(2), None), (Some(3), None)]
    );
}

#[test]
fn after_context_is_the_lines_just_behind() {
    let rows: Vec<Pair> = vec![(Some(1), Some(1)), (Some(2), Some(2))];
    assert_eq!(
        calculate_after_context(&rows, &identity(10), &identity(10), 10, 10, 2),
        vec![(Some(3), Some(3)), (Some(4), Some(4))]
    );
}

#[test]
fn after_context_stops_at_the_last_line() {
    let rows: Vec<Pair> = vec![(Some(7), Some(7))];
    assert_eq!(
        calculate_after_context(&rows, &identity(10), &identity(10), 10, 10, 5),
        vec![(Some(8), Some(8)), (Some(9), Some(9))]
    );
    let rows: Vec<Pair> = vec![(Some(9), Some(9))];
    assert_eq!(calculate_after_context(&rows, &identity(10), &identity(10), 10, 10, 5), vec![]);
}

#[test]
fn after_context_of_no_lines_is_empty() {
    let rows: Vec<Pair> = vec![(Some(1), Some(1))];
    assert_eq!(calculate_after_context(&rows, &identity(10), &identity(10), 10, 10, 0), vec![]);
}

#[test]
fn after_context_never_names_a_missing_line() {
    // The map points behind the end of the right side, which has four lines.
    let left_map = vec![Some(0), Some(1), Some(3), Some(4), Some(9)];
    let rows: Vec<Pair> = vec![(Some(1), Some(1))];
    let context = calculate_after_context(&rows, &left_map, &identity(4), 5, 4, 10);
    assert_eq!(context, vec![(Some(2), Some(3)), (Some(3), None), (Some(4), None)]);
    assert!(context.len() <= 10);
    assert!(check_side_in_range(&context, Side::Left, 5));
    assert!(check_side_in_range(&context, Side::Right, 4));
}

#[test]
fn after_context_behind_a_row_past_the_end_is_empty() {
    let rows: Vec<Pair> = vec![(Some(12), None)];
    assert_eq!(calculate_after_context(&rows, &identity(10), &identity(10), 10, 10, 3), vec![]);
    let rows: Vec<Pair> = vec![(Some(usize::MAX), None)];
    assert_eq!(
        calculate_after_context(&rows, &identity(10), &identity(10), usize::MAX, 10, 3),
        vec![]
    );
}

#[test]
fn after_context_drops_matches_at_or_before_the_hunk() {
    let left_map = vec![Some(0), Some(1), Some(1), Some(0), Some(5)];
    let rows: Vec<Pair> = vec![(Some(1), Some(1))];
    assert_eq!(
        calculate_after_context(&rows, &left_map, &identity(10), 5, 10, 3),
        vec![(Some(2), None), (Some(3), None), (Some(4), Some(5))]
    );
}

#[test]
fn after_context_of_an_addition_is_anchored_right() {
    let right_map = vec![Some(0), Some(1), None, Some(2), Some(3)];
    let rows: Vec<Pair> = vec![(Some(1), Some(1)), (None, Some(2))];
    assert_eq!(
        calculate_after_context(&rows, &identity(10), &right_map, 4, 5, 3),
        vec![(Some(2), Some(3)), (Some(3), Some(4))]
    );
}

#[test]
fn after_context_is_anchored_to_the_last_row_only() {
    let rows: Vec<Pair> = vec![(Some(8), Some(8)), (Some(2), None)];
    assert_eq!(
        calculate_after_context(&rows, &identity(10), &identity(10), 10, 10, 1),
        vec![(Some(3), Some(3))]
    );
}

#[test]
fn context_sizes_are_bounded() {
    for first in 0..12usize {
        for max in 0..6usize {
            let rows: Vec<Pair> = vec![(Some(first), Some(first))];
            let before = calculate_before_context(&rows, &identity(12), &identity(12), max);
            assert!(before.len() <= max);
            assert!(before.iter().all(|(l, r)| l.unwrap() < first && r.unwrap() < first));
            let after = calculate_after_context(&rows, &identity(12), &identity(12), 12, 12, max);
            assert!(after.len() <= max);
            assert!(after.iter().all(|(l, r)| l.unwrap() > first && r.unwrap() > first));
            assert!(after.iter().all(|(l, r)| l.unwrap() < 12 && r.unwrap() < 12));
        }
    }
}

#[test]
fn index_of_picks_the_side() {
    assert_eq!(index_of((Some(1), Some(2)), Side::Left), Some(1));
    assert_eq!(index_of((Some(1), Some(2)), Side::Right), Some(2));
    assert_eq!(index_of((None, Some(2)), Side::Left), None);
    assert_eq!(index_of((Some(1), None), Side::Right), None);
}

#[test]
fn side_in_range_looks_at_one_side() {
    let rows: Vec<Pair> = vec![(Some(1), Some(9)), (None, Some(3)), (Some(4), None)];
    assert!(check_side_in_range(&rows, Side::Left, 5));
    assert!(!check_side_in_range(&rows, Side::Left, 4));
    assert!(check_side_in_range(&rows, Side::Right, 10));
    assert!(!check_side_in_range(&rows, Side::Right, 9));
    assert!(check_side_in_range(&vec![], Side::Left, 0));
}
