use tab_picker::viewport::{deficit_for_rows, window};

#[test]
fn window_is_centred_on_the_anchor() {
    let (start, anchor, end, unresolved) = window(10, 3, Some(5));
    assert_eq!(end - start, 7);
    assert!(start <= 5 && 5 < end);
    assert_eq!((start, anchor, end, unresolved), (2, 5, 9, 0));
}

#[test]
fn window_collapses_to_one_line_when_the_deficit_exceeds_the_list() {
    let (start, anchor, end, unresolved) = window(5, 7, None);
    assert_eq!(end - start, 1);
    assert_eq!(unresolved, 3);
    assert_eq!((start, anchor), (0, 0));
}

#[test]
fn collapsed_window_shows_the_anchor() {
    assert_eq!(window(5, 6, Some(3)), (3, 3, 4, 2));
}

#[test]
fn window_shifts_left_at_the_end_of_the_list() {
    assert_eq!(window(10, 3, Some(9)), (3, 9, 10, 0));
}

#[test]
fn window_saturates_at_the_start_of_the_list() {
    assert_eq!(window(10, 3, Some(1)), (0, 1, 7, 0));
}

#[test]
fn window_without_deficit_shows_everything() {
    assert_eq!(window(4, 0, Some(2)), (0, 2, 4, 0));
    assert_eq!(window(4, 0, None), (0, 0, 4, 0));
}

#[test]
fn window_with_full_deficit_shows_nothing() {
    let (start, _, end, unresolved) = window(4, 4, Some(2));
    assert_eq!(start, end);
    assert_eq!(unresolved, 0);
}

#[test]
fn window_of_an_empty_list() {
    assert_eq!(window(0, 0, None), (0, 0, 0, 0));
    assert_eq!(window(0, 2, None), (0, 0, 0, 3));
}

#[test]
fn window_around_a_selection_in_a_long_list() {
    let total = 20;
    let (start, anchor, end, unresolved) = window(total, 15, Some(10));
    assert_eq!(anchor, 10);
    assert!(start <= 10 && 10 < end);
    assert_eq!(end - start, 5);
    assert_eq!((start, end), (8, 13));
    assert_eq!(total - end, 7);
    assert_eq!(unresolved, 0);
}

#[test]
fn window_with_an_anchor_past_the_end() {
    assert_eq!(window(5, 2, Some(40)), (2, 40, 5, 0));
    assert_eq!(window(5, 9, Some(40)), (4, 40, 5, 5));
}

#[test]
fn deficit_counts_the_title_row() {
    assert_eq!(deficit_for_rows(6, 20), 15);
    assert_eq!(deficit_for_rows(21, 20), 0);
    assert_eq!(deficit_for_rows(20, 20), 1);
    assert_eq!(deficit_for_rows(0, 3), 3);
    assert_eq!(deficit_for_rows(1, 3), 3);
    assert_eq!(deficit_for_rows(5, 0), 0);
}
