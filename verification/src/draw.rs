//! What the renderer is told: which panes a mode shows, which entities of a
//! list are visible, where the cursor is among them, and the figures of the
//! footer. Nothing here paints a cell.

use vstd::prelude::*;
use crate::app::{App, AppView, Mode};
use crate::item::{ItemState, ItemView};
use crate::scroll::{window_count, window_offset};

verus! {

/// Rows that a workspace takes in its list.
pub const WORKSPACE_HEIGHT: u16 = 1;

/// Rows that an item takes in its list.
pub const ITEM_HEIGHT: u16 = 3;

/// Rows that a prompt takes below a list.
pub const PROMPT_HEIGHT: u16 = 3;

/// The smallest width and height at which anything is drawn is one more
/// than this.
pub const SMALLEST_SIDE: u16 = 10;

/// The list that a screen shows.
#[derive(Debug, Clone, Copy, PartialEq, Eq, Structural)]
pub enum Pane {
    Workspaces,
    Items,
    Help,
}

/// What a redraw shows: one pane, and below it the prompt of the mode if
/// the mode is a prompt.
#[derive(Debug, Clone, Copy, PartialEq, Eq, Structural)]
pub struct Screen {
    pub pane: Pane,
    pub prompt: Option<Mode>,
}

/// What a mode shows on a terminal of the given size: nothing where the
/// terminal is too small, else the list that the mode belongs to, with the
/// mode's prompt under it, or the help screen.
pub open spec fn screen_of(mode: Mode, width: u16, height: u16) -> Option<Screen> {
    if width <= SMALLEST_SIDE || height <= SMALLEST_SIDE {
        None
    } else {
        Some(
            match mode {
                Mode::AddItem => Screen { pane: Pane::Items, prompt: Some(mode) },
                Mode::EditItem => Screen { pane: Pane::Items, prompt: Some(mode) },
                Mode::AddWorkspace => Screen { pane: Pane::Workspaces, prompt: Some(mode) },
                Mode::EditWorkspace => Screen { pane: Pane::Workspaces, prompt: Some(mode) },
                Mode::DisplayHelp => Screen { pane: Pane::Help, prompt: None },
                Mode::DisplayWorkspace => Screen { pane: Pane::Workspaces, prompt: None },
                Mode::DisplayItem => Screen { pane: Pane::Items, prompt: None },
            },
        )
    }
}

/// What to show in `mode` on a terminal of the given size.
pub fn draw(mode: Mode, width: u16, height: u16) -> (screen: Option<Screen>)
    ensures
        screen == screen_of(mode, width, height),
{
    if width <= SMALLEST_SIDE || height <= SMALLEST_SIDE {
        return None;
    }
    let screen = match mode {
        Mode::AddItem => Screen { pane: Pane::Items, prompt: Some(mode) },
        Mode::EditItem => Screen { pane: Pane::Items, prompt: Some(mode) },
        Mode::AddWorkspace => Screen { pane: Pane::Workspaces, prompt: Some(mode) },
        Mode::EditWorkspace => Screen { pane: Pane::Workspaces, prompt: Some(mode) },
        Mode::DisplayHelp => Screen { pane: Pane::Help, prompt: None },
        Mode::DisplayWorkspace => Screen { pane: Pane::Workspaces, prompt: None },
        Mode::DisplayItem => Screen { pane: Pane::Items, prompt: None },
    };
    Some(screen)
}

/// The visible part of a list: `count` entities from `offset` on, and the
/// place of the cursor among them if it is among them.
#[derive(Debug, Clone, Copy, PartialEq, Eq, Structural)]
pub struct Window {
    pub offset: usize,
    pub count: usize,
    pub selected: Option<usize>,
}

/// The place of a cursor within a window, if the window shows it.
pub open spec fn place_in(offset: nat, count: nat, cursor: nat, len: nat) -> Option<usize> {
    if offset <= cursor < offset + count && cursor < len {
        Some((cursor - offset) as usize)
    } else {
        None
    }
}

/// The window over a list of `len` entities of `item_height` rows each in a
/// pane of `viewport_height` rows, after the step that is queued in `state`.
pub open spec fn window_of(
    state: AppView,
    len: nat,
    cursor: nat,
    item_height: u16,
    viewport_height: u16,
) -> Window {
    let count = window_count(len, item_height as nat, viewport_height as nat);
    let offset = window_offset(
        len,
        count,
        state.summary_scroll_state.offset as nat,
        state.summary_scroll_state.queued_scroll,
    );
    Window {
        offset: offset as usize,
        count: count as usize,
        selected: place_in(offset, count, cursor, len),
    }
}

/// The state after a redraw that showed `window`: the viewport is where the
/// window is, and the queued step is taken.
pub open spec fn drawn(state: AppView, window: Window) -> AppView {
    AppView {
        summary_scroll_state: crate::scroll::SummaryScrollState {
            offset: window.offset,
            queued_scroll: None,
        },
        ..state
    }
}

fn place(offset: usize, count: usize, cursor: usize, len: usize) -> (at: Option<usize>)
    requires
        offset + count <= len,
    ensures
        at == place_in(offset as nat, count as nat, cursor as nat, len as nat),
{
    if offset <= cursor && cursor - offset < count {
        Some(cursor - offset)
    } else {
        None
    }
}

/// The figures of the footer of the item list.
#[derive(Debug, Clone, Copy, PartialEq, Eq, Structural)]
pub struct ItemSummary {
    /// Items that are neither done nor late.
    pub pending: usize,
    /// Items that are done.
    pub finished: usize,
    /// Items that are late and not done.
    pub late: usize,
    /// The place of the cursor, counted from one; zero where the cursor is
    /// at no item.
    pub position: usize,
    /// The number of items in the list.
    pub total: usize,
}

/// The state in which an item is shown.
#[derive(Debug, Clone, Copy, PartialEq, Eq, Structural)]
pub enum Tone {
    Pending,
    Finished,
    Late,
}

/// The state in which an item is shown: done comes before late.
pub open spec fn tone_of(item: ItemView) -> Tone {
    if item.is_finished {
        Tone::Finished
    } else if item.is_late {
        Tone::Late
    } else {
        Tone::Pending
    }
}

/// The number of items of a list that are shown in `tone`.
pub open spec fn count_tone(list: Seq<ItemView>, tone: Tone) -> nat
    decreases list.len(),
{
    if list.len() == 0 {
        0
    } else {
        count_tone(list.drop_last(), tone) + if tone_of(list.last()) == tone {
            1nat
        } else {
            0nat
        }
    }
}

/// The figures of the footer for a list and a cursor.
pub open spec fn summary_of(list: Seq<ItemView>, cursor: nat) -> ItemSummary {
    ItemSummary {
        pending: count_tone(list, Tone::Pending) as usize,
        finished: count_tone(list, Tone::Finished) as usize,
        late: count_tone(list, Tone::Late) as usize,
        position: if cursor < list.len() {
            (cursor + 1) as usize
        } else {
            0
        },
        total: list.len() as usize,
    }
}

/// Every item is counted once: the three counts add up to the length of the
/// list.
pub proof fn lemma_tones_add_up(list: Seq<ItemView>)
    ensures
        count_tone(list, Tone::Pending) + count_tone(list, Tone::Finished) + count_tone(
            list,
            Tone::Late,
        ) == list.len(),
    decreases list.len(),
{
    if list.len() > 0 {
        lemma_tones_add_up(list.drop_last());
    }
}

impl ItemState {
    /// The state in which the item is shown.
    pub fn tone(&self) -> (tone: Tone)
        ensures
            tone == tone_of(self@),
    {
        if self.is_finished {
            Tone::Finished
        } else if self.is_late {
            Tone::Late
        } else {
            Tone::Pending
        }
    }
}

fn summarize(list: &Vec<ItemState>, cursor: usize) -> (summary: ItemSummary)
    ensures
        summary == summary_of(list.deep_view(), cursor as nat),
{
    let ghost items = list.deep_view();
    let mut pending: usize = 0;
    let mut finished: usize = 0;
    let mut late: usize = 0;
    let mut i: usize = 0;
    while i < list.len()
        invariant
            i <= list@.len(),
            items == list.deep_view(),
            pending == count_tone(items.take(i as int), Tone::Pending),
            finished == count_tone(items.take(i as int), Tone::Finished),
            late == count_tone(items.take(i as int), Tone::Late),
            pending + finished + late == i,
        decreases list@.len() - i,
    {
        proof {
            assert(items.take(i + 1).drop_last() =~= items.take(i as int));
            assert(items.take(i + 1).last() == list@[i as int]@);
        }
        match list[i].tone() {
            Tone::Pending => {
                pending += 1;
            },
            Tone::Finished => {
                finished += 1;
            },
            Tone::Late => {
                late += 1;
            },
        }
        i += 1;
    }
    proof {
        assert(items.take(list@.len() as int) =~= items);
    }
    ItemSummary {
        pending,
        finished,
        late,
        position: if cursor < list.len() {
            cursor + 1
        } else {
            0
        },
        total: list.len(),
    }
}

impl App {
    /// The visible part of the list of workspaces in a pane of
    /// `viewport_height` rows. The queued step is taken, once, whether or not
    /// it moved the viewport.
    pub fn workspace_window(&mut self, viewport_height: u16) -> (window: Window)
        ensures
            window == window_of(
                old(self)@,
                old(self)@.workspaces.len(),
                old(self)@.current_workspace,
                WORKSPACE_HEIGHT,
                viewport_height,
            ),
            final(self)@ == drawn(old(self)@, window),
            window.offset + window.count <= old(self)@.workspaces.len(),
            old(self)@.well_formed() ==> final(self)@.well_formed(),
    {
        let len = self.workspaces.len();
        let count = self.summary_scroll_state.scroll(len, WORKSPACE_HEIGHT, viewport_height);
        let offset = self.summary_scroll_state.offset;
        Window { offset, count, selected: place(offset, count, self.current_workspace, len) }
    }

    /// The visible part of the items of the current workspace in a pane of
    /// `viewport_height` rows. The queued step is taken, once, whether or not
    /// it moved the viewport.
    pub fn item_window(&mut self, viewport_height: u16) -> (window: Window)
        ensures
            window == window_of(
                old(self)@,
                old(self)@.current_items().len(),
                old(self)@.current_item,
                ITEM_HEIGHT,
                viewport_height,
            ),
            final(self)@ == drawn(old(self)@, window),
            window.offset + window.count <= old(self)@.current_items().len(),
            old(self)@.well_formed() ==> final(self)@.well_formed(),
    {
        let len = self.current_len();
        let count = self.summary_scroll_state.scroll(len, ITEM_HEIGHT, viewport_height);
        let offset = self.summary_scroll_state.offset;
        Window { offset, count, selected: place(offset, count, self.current_item, len) }
    }

    /// The figures of the footer of the item list: how many items of the
    /// current workspace are pending, done and late, and where the cursor is.
    pub fn item_summary(&self) -> (summary: ItemSummary)
        ensures
            summary == summary_of(self@.current_items(), self@.current_item),
    {
        if self.current_workspace < self.items.len() {
            summarize(&self.items[self.current_workspace], self.current_item)
        } else {
            let list: Vec<ItemState> = Vec::new();
            assert(list.deep_view() =~= self@.current_items());
            summarize(&list, self.current_item)
        }
    }
}

} // verus!
