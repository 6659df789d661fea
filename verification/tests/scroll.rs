use todo_rs::scroll::{compute_window, ScrollDirection, SummaryScrollState, RESERVED_ROWS};

#[test]
fn down_three_times_stops_at_the_end() {
    let mut state = SummaryScrollState::new();
    let mut offsets = Vec::new();
    for _ in 0..3 {
        state.queue(ScrollDirection::Down);
        let count = state.scroll(5, 1, 5);
        assert_eq!(count, 2);
        assert!(state.queued_scroll.is_none());
        offsets.push(state.offset);
    }
    assert_eq!(offsets, vec![1, 2, 3]);
    state.queue(ScrollDirection::Down);
    state.scroll(5, 1, 5);
    assert_eq!(state.offset, 3);
}

#[test]
fn empty_list_has_empty_window() {
    assert_eq!(compute_window(0, 1, 40, 7, Some(ScrollDirection::Down)), (0, 0));
    assert_eq!(compute_window(0, 3, 0, 0, None), (0, 0));
    assert_eq!(compute_window(0, 1, 40, 0, Some(ScrollDirection::Up)), (0, 0));
}

#[test]
fn three_rows_are_reserved() {
    assert_eq!(RESERVED_ROWS, 3);
    assert_eq!(compute_window(10, 1, 3, 0, None), (0, 0));
    assert_eq!(compute_window(10, 1, 4, 0, None), (0, 1));
    assert_eq!(compute_window(10, 1, 2, 0, None), (0, 0));
    assert_eq!(compute_window(10, 1, 0, 0, None), (0, 0));
}

#[test]
fn item_height_divides_the_rows() {
    assert_eq!(compute_window(10, 3, 12, 0, None), (0, 3));
    assert_eq!(compute_window(10, 3, 11, 0, None), (0, 2));
    assert_eq!(compute_window(10, 3, 14, 0, None), (0, 3));
    assert_eq!(compute_window(2, 3, 40, 0, None), (0, 2));
}

#[test]
fn exact_fit_never_scrolls() {
    assert_eq!(compute_window(4, 1, 7, 0, Some(ScrollDirection::Down)), (0, 4));
    assert_eq!(compute_window(4, 1, 7, 0, Some(ScrollDirection::Up)), (0, 4));
    assert_eq!(compute_window(4, 1, 7, 2, None), (0, 4));
}

#[test]
fn up_stops_at_the_top() {
    assert_eq!(compute_window(5, 1, 5, 2, Some(ScrollDirection::Up)), (1, 2));
    assert_eq!(compute_window(5, 1, 5, 1, Some(ScrollDirection::Up)), (0, 2));
    assert_eq!(compute_window(5, 1, 5, 0, Some(ScrollDirection::Up)), (0, 2));
}

#[test]
fn window_follows_a_list_that_shrank() {
    // The list had five entities and the window showed the last two; two were deleted.
    assert_eq!(compute_window(3, 1, 5, 3, None), (1, 2));
    assert_eq!(compute_window(1, 1, 5, 3, None), (0, 1));
    assert_eq!(compute_window(3, 1, 5, usize::MAX, Some(ScrollDirection::Down)), (1, 2));
    assert_eq!(compute_window(3, 1, 5, usize::MAX, Some(ScrollDirection::Up)), (1, 2));
}

#[test]
fn window_stays_inside_the_list() {
    for len in 0..7usize {
        for height in 0..12u16 {
            for offset in 0..9usize {
                for direction in [None, Some(ScrollDirection::Up), Some(ScrollDirection::Down)] {
                    let (new_offset, count) = compute_window(len, 1, height, offset, direction);
                    assert!(new_offset + count <= len);
                    let (again, same) = compute_window(len, 1, height, new_offset, None);
                    assert_eq!((again, same), (new_offset, count));
                }
            }
        }
    }
}

#[test]
fn queued_step_is_taken_once() {
    let mut state = SummaryScrollState::default();
    assert_eq!(state.offset, 0);
    state.queue(ScrollDirection::Down);
    assert_eq!(state.queued_scroll, Some(ScrollDirection::Down));
    state.scroll(10, 1, 6);
    assert_eq!(state.offset, 1);
    state.scroll(10, 1, 6);
    assert_eq!(state.offset, 1);
    state.queue(ScrollDirection::Up);
    state.queue(ScrollDirection::Down);
    state.scroll(10, 1, 6);
    assert_eq!(state.offset, 2);
}
