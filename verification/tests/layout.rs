use todo_rs::layout::{
    add_padding, can_pad, fits_help, HelpItemWidget, HelpWidget, HelpWorkspaceWidget, PaddingDirection,
    Rect, HELP_HEIGHT, HELP_WIDTH,
};

fn rect(x: u16, y: u16, width: u16, height: u16) -> Rect {
    Rect { x, y, width, height }
}

#[test]
fn padding_on_each_side() {
    let area = rect(2, 3, 20, 10);
    assert_eq!(add_padding(area, 1, PaddingDirection::Top), rect(2, 4, 20, 9));
    assert_eq!(add_padding(area, 1, PaddingDirection::Bottom), rect(2, 3, 20, 9));
    assert_eq!(add_padding(area, 4, PaddingDirection::Left), rect(6, 3, 16, 10));
    assert_eq!(add_padding(area, 4, PaddingDirection::Right), rect(2, 3, 16, 10));
    assert_eq!(add_padding(area, 2, PaddingDirection::All), rect(4, 5, 16, 6));
    assert_eq!(add_padding(area, 0, PaddingDirection::All), area);
}

#[test]
fn padding_never_shrinks_below_zero() {
    let area = rect(0, 0, 3, 2);
    assert_eq!(add_padding(area, 5, PaddingDirection::Top), rect(0, 5, 3, 0));
    assert_eq!(add_padding(area, 5, PaddingDirection::Bottom), rect(0, 0, 3, 0));
    assert_eq!(add_padding(area, 5, PaddingDirection::Left), rect(5, 0, 0, 2));
    assert_eq!(add_padding(area, 5, PaddingDirection::Right), rect(0, 0, 0, 2));
    assert_eq!(add_padding(area, 1, PaddingDirection::All), rect(1, 1, 1, 0));
    assert_eq!(add_padding(area, 2, PaddingDirection::All), rect(2, 2, 0, 0));
}

#[test]
fn help_pane_is_centred() {
    assert_eq!(HELP_WIDTH, 63);
    assert_eq!(HELP_HEIGHT, 23);
    let area = rect(0, 0, 83, 43);
    let want = rect(10, 10, 63, 23);
    assert!(fits_help(area));
    assert_eq!(HelpWidget {}.get_rect(area), want);
    assert_eq!(HelpItemWidget {}.get_rect(area), want);
    assert_eq!(HelpWorkspaceWidget {}.get_rect(area), want);
    assert_eq!(HelpWidget {}.get_rect(rect(0, 0, 63, 23)), rect(0, 0, 63, 23));
    assert_eq!(HelpWidget {}.get_rect(rect(0, 0, 64, 26)), rect(0, 1, 63, 23));
}

#[test]
fn help_pane_needs_room() {
    assert!(!fits_help(rect(0, 0, 62, 23)));
    assert!(!fits_help(rect(0, 0, 63, 22)));
    assert!(fits_help(rect(5, 5, 63, 23)));
}

#[test]
fn padding_must_leave_the_corner_in_range() {
    let corner = rect(65_535, 65_530, 4, 4);
    assert!(can_pad(corner, 0, PaddingDirection::All));
    assert!(!can_pad(corner, 1, PaddingDirection::Left));
    assert!(!can_pad(corner, 1, PaddingDirection::All));
    assert!(can_pad(corner, 5, PaddingDirection::Top));
    assert!(!can_pad(corner, 6, PaddingDirection::Top));
    assert!(can_pad(corner, 65_535, PaddingDirection::Right));
    assert!(can_pad(corner, 65_535, PaddingDirection::Bottom));
    let origin = rect(0, 0, 4, 4);
    assert!(can_pad(origin, 32_767, PaddingDirection::All));
    assert!(!can_pad(origin, 32_768, PaddingDirection::All));
    assert_eq!(add_padding(origin, 32_767, PaddingDirection::All), rect(32_767, 32_767, 0, 0));
}
