//! The viewport engine: which part of a list is shown when the list is taller
//! than the space the terminal leaves for it.

use vstd::prelude::*;

verus! {

/// Rows of a list pane that never show an entity: the status line and the border.
pub const RESERVED_ROWS: u16 = 3;

/// Direction of a queued one-step scroll of a list viewport.
#[derive(Debug, Clone, Copy, PartialEq, Eq, Structural)]
pub enum ScrollDirection {
    Up,
    Down,
}

/// Scroll position of the visible list, with the step that the next redraw has to take.
#[derive(Debug, Clone, Copy)]
pub struct SummaryScrollState {
    pub offset: usize,
    pub queued_scroll: Option<ScrollDirection>,
}

/// Number of entities that a pane of `viewport_height` rows shows of a list of
/// `len` entities, each `item_height` rows tall.
pub open spec fn window_count(len: nat, item_height: nat, viewport_height: nat) -> nat
    recommends
        item_height > 0,
{
    let rows: nat = if viewport_height >= RESERVED_ROWS {
        (viewport_height - RESERVED_ROWS) as nat
    } else {
        0
    };
    let fit = rows / item_height;
    if fit < len {
        fit
    } else {
        len
    }
}

/// The offset after the queued step alone, before the window is fitted to the list.
pub open spec fn stepped_offset(offset: nat, direction: Option<ScrollDirection>) -> nat {
    match direction {
        Some(ScrollDirection::Up) => if offset == 0 {
            0
        } else {
            (offset - 1) as nat
        },
        Some(ScrollDirection::Down) => offset + 1,
        None => offset,
    }
}

/// The offset of a window of `count` entities over a list of `len`, after the
/// queued step: the stepped offset, lowered until the window ends within the list.
pub open spec fn window_offset(
    len: nat,
    count: nat,
    offset: nat,
    direction: Option<ScrollDirection>,
) -> nat
    recommends
        count <= len,
{
    let stepped = stepped_offset(offset, direction);
    let last = (len - count) as nat;
    if stepped > last {
        last
    } else {
        stepped
    }
}

/// Computes the window over a list: the new scroll offset and the number of
/// entities to render. The window never starts before the list and never ends
/// after it; an empty list gives `(0, 0)`.
pub fn compute_window(
    collection_len: usize,
    item_height: u16,
    viewport_height: u16,
    current_offset: usize,
    pending_direction: Option<ScrollDirection>,
) -> (window: (usize, usize))
    requires
        item_height > 0,
    ensures
        window.1 == window_count(collection_len as nat, item_height as nat, viewport_height as nat),
        window.0 == window_offset(
            collection_len as nat,
            window.1 as nat,
            current_offset as nat,
            pending_direction,
        ),
        window.0 + window.1 <= collection_len,
        collection_len == 0 ==> window.0 == 0 && window.1 == 0,
{
    let rows: u16 = if viewport_height >= RESERVED_ROWS {
        viewport_height - RESERVED_ROWS
    } else {
        0
    };
    let fit: usize = (rows / item_height) as usize;
    let render_count: usize = if fit < collection_len {
        fit
    } else {
        collection_len
    };
    let last: usize = collection_len - render_count;
    let new_offset: usize = match pending_direction {
        Some(ScrollDirection::Up) => {
            if current_offset == 0 {
                0
            } else if current_offset - 1 > last {
                last
            } else {
                current_offset - 1
            }
        },
        Some(ScrollDirection::Down) => {
            if current_offset >= last {
                last
            } else {
                current_offset + 1
            }
        },
        None => {
            if current_offset > last {
                last
            } else {
                current_offset
            }
        },
    };
    (new_offset, render_count)
}

impl SummaryScrollState {
    /// A viewport at the top of its list with no step queued.
    pub fn new() -> (state: SummaryScrollState)
        ensures
            state.offset == 0,
            state.queued_scroll is None,
    {
        SummaryScrollState { offset: 0, queued_scroll: None }
    }

    /// Queues one step for the next redraw; a step queued before and not yet
    /// taken is replaced.
    pub fn queue(&mut self, direction: ScrollDirection)
        ensures
            final(self).offset == old(self).offset,
            final(self).queued_scroll == Some(direction),
    {
        self.queued_scroll = Some(direction);
    }

    /// Takes the queued step for one redraw of a list and returns the number of
    /// entities to render. The step is consumed whether or not it moved the
    /// window, and the stored offset is the one to render from.
    pub fn scroll(&mut self, collection_len: usize, item_height: u16, viewport_height: u16) -> (count:
        usize)
        requires
            item_height > 0,
        ensures
            count == window_count(collection_len as nat, item_height as nat, viewport_height as nat),
            final(self).offset == window_offset(
                collection_len as nat,
                count as nat,
                old(self).offset as nat,
                old(self).queued_scroll,
            ),
            final(self).queued_scroll is None,
            final(self).offset + count <= collection_len,
    {
        let window = compute_window(
            collection_len,
            item_height,
            viewport_height,
            self.offset,
            self.queued_scroll,
        );
        self.offset = window.0;
        self.queued_scroll = None;
        window.1
    }
}

impl Default for SummaryScrollState {
    fn default() -> (state: SummaryScrollState)
        ensures
            state.offset == 0,
            state.queued_scroll is None,
    {
        SummaryScrollState::new()
    }
}

/// However often a step down is taken, the window stays within the list: a
/// window that ends within the list still does so after one more step, and a
/// step down from the last position leaves the offset where it is.
pub proof fn lemma_scroll_down_stays(len: nat, count: nat, offset: nat)
    requires
        count <= len,
        offset + count <= len,
    ensures
        window_offset(len, count, offset, Some(ScrollDirection::Down)) + count <= len,
        offset + count == len ==> window_offset(len, count, offset, Some(ScrollDirection::Down))
            == offset,
        offset + count < len ==> window_offset(len, count, offset, Some(ScrollDirection::Down))
            == offset + 1,
{
}

/// A step up moves the window by one unless it is at the top already.
pub proof fn lemma_scroll_up_stays(len: nat, count: nat, offset: nat)
    requires
        count <= len,
        offset + count <= len,
    ensures
        window_offset(len, count, offset, Some(ScrollDirection::Up)) + count <= len,
        offset == 0 ==> window_offset(len, count, offset, Some(ScrollDirection::Up)) == 0,
        offset > 0 ==> window_offset(len, count, offset, Some(ScrollDirection::Up)) == offset - 1,
{
}

/// Fitting a window is idempotent: with no step queued, a window that was
/// computed once is returned unchanged.
pub proof fn lemma_window_settles(len: nat, count: nat, offset: nat, direction: Option<ScrollDirection>)
    requires
        count <= len,
    ensures
        window_offset(len, count, window_offset(len, count, offset, direction), None)
            == window_offset(len, count, offset, direction),
{
}

} // verus!
