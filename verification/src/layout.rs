//! Rectangles of terminal cells, and the arithmetic that carves panes out of them.

use vstd::prelude::*;

verus! {

/// Width of the help pane, in cells.
pub const HELP_WIDTH: u16 = 63;

/// Height of the help pane, in rows.
pub const HELP_HEIGHT: u16 = 23;

/// A rectangle of terminal cells: its top-left cell and its size.
#[derive(Debug, Clone, Copy, PartialEq, Eq, Structural)]
pub struct Rect {
    pub x: u16,
    pub y: u16,
    pub width: u16,
    pub height: u16,
}

/// The side of a rectangle that padding is taken from.
#[derive(Debug, Clone, Copy, PartialEq, Eq, Structural)]
pub enum PaddingDirection {
    Top,
    Bottom,
    Left,
    Right,
    All,
}

/// `a - b`, or zero where `b` is the larger.
pub open spec fn minus_or_zero(a: int, b: int) -> int {
    if a >= b {
        a - b
    } else {
        0
    }
}

/// The rectangle that is left of `rect` once `n` cells of padding are taken
/// from the side `direction`. Padding at the top or the left moves the corner
/// by `n`; the size shrinks by `n`, on every side by `2 * n`, and never below zero.
pub open spec fn padded(rect: Rect, n: u16, direction: PaddingDirection) -> Rect {
    match direction {
        PaddingDirection::Top => Rect {
            x: rect.x,
            y: (rect.y + n) as u16,
            width: rect.width,
            height: minus_or_zero(rect.height as int, n as int) as u16,
        },
        PaddingDirection::Bottom => Rect {
            x: rect.x,
            y: rect.y,
            width: rect.width,
            height: minus_or_zero(rect.height as int, n as int) as u16,
        },
        PaddingDirection::Left => Rect {
            x: (rect.x + n) as u16,
            y: rect.y,
            width: minus_or_zero(rect.width as int, n as int) as u16,
            height: rect.height,
        },
        PaddingDirection::Right => Rect {
            x: rect.x,
            y: rect.y,
            width: minus_or_zero(rect.width as int, n as int) as u16,
            height: rect.height,
        },
        PaddingDirection::All => Rect {
            x: (rect.x + n) as u16,
            y: (rect.y + n) as u16,
            width: minus_or_zero(rect.width as int, 2 * n) as u16,
            height: minus_or_zero(rect.height as int, 2 * n) as u16,
        },
    }
}

/// Whether the corner of `rect` can move by `n` in `direction` without leaving
/// the range of a coordinate.
pub open spec fn padding_fits(rect: Rect, n: u16, direction: PaddingDirection) -> bool {
    match direction {
        PaddingDirection::Top => rect.y + n <= u16::MAX,
        PaddingDirection::Bottom => true,
        PaddingDirection::Left => rect.x + n <= u16::MAX,
        PaddingDirection::Right => true,
        PaddingDirection::All => rect.x + n <= u16::MAX && rect.y + n <= u16::MAX && 2 * n
            <= u16::MAX,
    }
}

/// Whether `n` cells of padding can be taken from `rect` in `direction`
/// without its corner leaving the range of a coordinate.
pub fn can_pad(rect: Rect, n: u16, direction: PaddingDirection) -> (fits: bool)
    ensures
        fits == padding_fits(rect, n, direction),
{
    let room_x = n <= u16::MAX - rect.x;
    let room_y = n <= u16::MAX - rect.y;
    match direction {
        PaddingDirection::Top => room_y,
        PaddingDirection::Bottom => true,
        PaddingDirection::Left => room_x,
        PaddingDirection::Right => true,
        PaddingDirection::All => room_x && room_y && n <= u16::MAX / 2,
    }
}

/// Takes `n` cells of padding from one side of `rect`, or from all four.
pub fn add_padding(rect: Rect, n: u16, direction: PaddingDirection) -> (inner: Rect)
    requires
        padding_fits(rect, n, direction),
    ensures
        inner == padded(rect, n, direction),
{
    let mut rect = rect;
    match direction {
        PaddingDirection::Top => {
            rect.y = rect.y + n;
            rect.height = rect.height.saturating_sub(n);
            rect
        },
        PaddingDirection::Bottom => {
            rect.height = rect.height.saturating_sub(n);
            rect
        },
        PaddingDirection::Left => {
            rect.x = rect.x + n;
            rect.width = rect.width.saturating_sub(n);
            rect
        },
        PaddingDirection::Right => {
            rect.width = rect.width.saturating_sub(n);
            rect
        },
        PaddingDirection::All => {
            rect.y = rect.y + n;
            rect.height = rect.height.saturating_sub(n * 2);
            rect.x = rect.x + n;
            rect.width = rect.width.saturating_sub(n * 2);
            rect
        },
    }
}

/// Padding never makes a rectangle larger, and never moves its far edges
/// outward.
pub proof fn lemma_padding_shrinks(rect: Rect, n: u16, direction: PaddingDirection)
    requires
        padding_fits(rect, n, direction),
    ensures
        padded(rect, n, direction).width <= rect.width,
        padded(rect, n, direction).height <= rect.height,
        padded(rect, n, direction).x >= rect.x,
        padded(rect, n, direction).y >= rect.y,
{
}

/// The help pane of fixed size, centred by the size of `area`.
pub open spec fn help_rect(area: Rect) -> Rect {
    Rect {
        x: ((area.width - HELP_WIDTH) / 2) as u16,
        y: ((area.height - HELP_HEIGHT) / 2) as u16,
        width: HELP_WIDTH,
        height: HELP_HEIGHT,
    }
}

/// Whether the help pane fits into `area`.
pub open spec fn help_fits(area: Rect) -> bool {
    area.width >= HELP_WIDTH && area.height >= HELP_HEIGHT
}

/// Whether the help pane fits into `area`; where it does not, a notice is
/// shown in its place.
pub fn fits_help(area: Rect) -> (fits: bool)
    ensures
        fits == help_fits(area),
{
    area.width >= HELP_WIDTH && area.height >= HELP_HEIGHT
}

fn centred(area: Rect) -> (pane: Rect)
    requires
        help_fits(area),
    ensures
        pane == help_rect(area),
{
    Rect {
        x: (area.width - HELP_WIDTH) / 2,
        y: (area.height - HELP_HEIGHT) / 2,
        width: HELP_WIDTH,
        height: HELP_HEIGHT,
    }
}

/// The help screen as a whole.
#[derive(Debug, Clone, Copy, PartialEq, Eq, Structural)]
pub struct HelpWidget {}

/// The page of the help screen on the keys of the item list.
#[derive(Debug, Clone, Copy, PartialEq, Eq, Structural)]
pub struct HelpItemWidget {}

/// The page of the help screen on the keys of the workspace list.
#[derive(Debug, Clone, Copy, PartialEq, Eq, Structural)]
pub struct HelpWorkspaceWidget {}

impl HelpWidget {
    /// The rectangle that the help screen takes within `area`.
    pub fn get_rect(self, area: Rect) -> (pane: Rect)
        requires
            help_fits(area),
        ensures
            pane == help_rect(area),
    {
        centred(area)
    }
}

impl HelpItemWidget {
    /// The rectangle that the page takes within `area`.
    pub fn get_rect(self, area: Rect) -> (pane: Rect)
        requires
            help_fits(area),
        ensures
            pane == help_rect(area),
    {
        centred(area)
    }
}

impl HelpWorkspaceWidget {
    /// The rectangle that the page takes within `area`.
    pub fn get_rect(self, area: Rect) -> (pane: Rect)
        requires
            help_fits(area),
        ensures
            pane == help_rect(area),
    {
        centred(area)
    }
}

/// The help pane lies within an area that starts at the origin and that it
/// fits into.
pub proof fn lemma_help_rect_inside(area: Rect)
    requires
        help_fits(area),
    ensures
        help_rect(area).x + help_rect(area).width <= area.width,
        help_rect(area).y + help_rect(area).height <= area.height,
{
}

} // verus!
