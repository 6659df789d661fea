//! The command dispatcher: what each key does in each mode.
//!
//! The effect of a key is written down once as a function from state to
//! state, [`next_state`], and the handlers below are proved to compute it.
//! Prompts and the help screen take every key for themselves; in the two
//! lists the keys that end the session come first.

use vstd::prelude::*;
use crate::app::{
    clamped, lemma_settled_well_formed, lemma_total_by_lengths, lemma_total_without, total_items,
    App, AppView, Mode,
};
use crate::item::{item_at, ItemInput, ItemRecord, ItemState, ItemView};
use crate::model::{
    insert_item, insert_workspace, item_slots_dense, items_without, remove_item, remove_workspace,
    rename_workspace, replace_item, workspaces_with, workspaces_without,
};
use crate::scroll::{ScrollDirection, SummaryScrollState};
use crate::timestamp::{expiry_of, now_timestamp, shape_of};
use crate::workspace::{TitleInput, WorkspaceState, WorkspaceView, DEFAULT_TITLE};

verus! {

/// The key that was pressed.
#[derive(Debug, Clone, Copy, PartialEq, Eq, Structural)]
pub enum KeyCode {
    Backspace,
    Enter,
    Esc,
    Char(char),
    /// Any key that no mode gives a meaning to.
    Other,
}

/// The modifier keys that were held down with it.
#[derive(Debug, Clone, Copy, PartialEq, Eq, Structural)]
pub enum KeyModifiers {
    Unmodified,
    Shift,
    Control,
    /// Any other modifier, or more than one.
    Other,
}

/// One key press.
#[derive(Debug, Clone, Copy, PartialEq, Eq, Structural)]
pub struct KeyEvent {
    pub code: KeyCode,
    pub modifiers: KeyModifiers,
}

/// What is left to do outside the state once a key was handled.
#[derive(Debug, Clone, Copy, PartialEq, Eq, Structural)]
pub enum Action {
    /// Draw the state anew.
    Redraw,
    /// Store the state, then draw it anew.
    Save,
    /// Store the state and end the session.
    SaveAndQuit,
    /// End the session at once; nothing is stored.
    Quit,
}

impl KeyEvent {
    /// Whether the key is `code` with no modifier held.
    pub open spec fn plain(self, code: KeyCode) -> bool {
        self.modifiers == KeyModifiers::Unmodified && self.code == code
    }

    /// The character that the key types into a prompt, if it types one: a
    /// character key with no modifier but, at most, shift.
    pub open spec fn typed(self) -> Option<char> {
        match self.code {
            KeyCode::Char(c) => if self.modifiers == KeyModifiers::Unmodified || self.modifiers
                == KeyModifiers::Shift {
                Some(c)
            } else {
                None
            },
            _ => None,
        }
    }

    /// Whether the key switches a prompt for an item between the task and the
    /// deadline.
    pub open spec fn switches_field(self) -> bool {
        self.modifiers == KeyModifiers::Control && self.code == KeyCode::Char('d')
    }

    /// Whether the key ends the session without storing anything.
    pub open spec fn force_quits(self) -> bool {
        self.modifiers == KeyModifiers::Control && self.code == KeyCode::Char('c')
    }

    /// Whether the key stores the state and ends the session.
    pub open spec fn quits(self) -> bool {
        self.plain(KeyCode::Char('q'))
    }
}

/// A cursor moved one entity down a list of `len`, and not past its end.
pub open spec fn step_down(len: nat, cursor: nat) -> nat {
    if cursor + 1 >= len {
        cursor
    } else {
        cursor + 1
    }
}

/// A cursor moved one entity up, and not past the start.
pub open spec fn step_up(cursor: nat) -> nat {
    if cursor == 0 {
        0
    } else {
        (cursor - 1) as nat
    }
}

/// The workspace that is made where one is needed and none exists.
pub open spec fn default_workspace() -> WorkspaceView {
    WorkspaceView { slot: 0, title: DEFAULT_TITLE@, num_of_item: 0, is_selected: true }
}

impl AppView {
    /// The state with the interface in the mode it last came from.
    pub open spec fn left(self) -> AppView {
        AppView { mode: self.previous_mode, ..self }
    }

    /// The state with the interface gone from the list `from` to the mode `to`.
    pub open spec fn gone(self, from: Mode, to: Mode) -> AppView {
        AppView { previous_mode: from, mode: to, ..self }
    }

    /// The state with one step queued for the viewport.
    pub open spec fn queued(self, direction: ScrollDirection) -> AppView {
        AppView {
            summary_scroll_state: SummaryScrollState {
                offset: self.summary_scroll_state.offset,
                queued_scroll: Some(direction),
            },
            ..self
        }
    }

    /// The state with one more workspace at the end, empty and current.
    pub open spec fn with_workspace(self, workspace: WorkspaceView) -> AppView {
        AppView {
            workspaces: workspaces_with(self.workspaces, workspace),
            items: self.items.push(Seq::empty()),
            current_workspace: self.workspaces.len(),
            ..self
        }
    }

    /// The state with the workspace cursor moved one down, or one up.
    pub open spec fn workspace_stepped(self, direction: ScrollDirection) -> AppView {
        if self.workspaces.len() == 0 {
            self
        } else {
            AppView {
                current_workspace: match direction {
                    ScrollDirection::Down => step_down(
                        self.workspaces.len(),
                        self.current_workspace,
                    ),
                    ScrollDirection::Up => step_up(self.current_workspace),
                },
                ..self
            }.queued(direction)
        }
    }

    /// The state with the item cursor moved one down, or one up.
    pub open spec fn item_stepped(self, direction: ScrollDirection) -> AppView {
        if self.current_items().len() == 0 {
            self
        } else {
            AppView {
                current_item: match direction {
                    ScrollDirection::Down => step_down(
                        self.current_items().len(),
                        self.current_item,
                    ),
                    ScrollDirection::Up => step_up(self.current_item),
                },
                ..self
            }.queued(direction)
        }
    }

    /// The state with the current item changed to `item`; unchanged where
    /// there is no current item.
    pub open spec fn with_current_item(self, item: ItemView) -> AppView {
        if self.has_item() {
            AppView {
                items: self.items.update(
                    self.current_workspace as int,
                    self.current_items().update(self.current_item as int, item),
                ),
                ..self
            }
        } else {
            self
        }
    }

    /// The current item; meaningful only where there is one.
    pub open spec fn current(self) -> ItemView {
        self.current_items()[self.current_item as int]
    }

    /// The state without the current workspace and without its items: the
    /// workspaces after it move up by one slot, and the cursor moves up by one
    /// unless it is at the top.
    pub open spec fn without_current_workspace(self) -> AppView {
        if self.has_workspace() {
            AppView {
                workspaces: workspaces_without(self.workspaces, self.current_workspace as int),
                items: self.items.remove(self.current_workspace as int),
                current_workspace: step_up(self.current_workspace),
                ..self
            }
        } else {
            self
        }
    }

    /// The state without the current item: the items after it move up by one
    /// slot, and the cursor moves up by one unless it is at the top.
    pub open spec fn without_current_item(self) -> AppView {
        if self.has_item() {
            AppView {
                items: self.items.update(
                    self.current_workspace as int,
                    items_without(self.current_items(), self.current_item as int),
                ),
                current_item: step_up(self.current_item),
                ..self
            }
        } else {
            self
        }
    }
}

/// The state after a key in the prompt that adds a workspace. Enter makes
/// the workspace and makes it current, unless nothing was typed; escape
/// throws away what was typed; both go back to the list.
pub open spec fn after_add_workspace(s: AppView, key: KeyEvent) -> AppView {
    if key.plain(KeyCode::Enter) {
        if s.add_workspace.input_string.len() > 0 {
            AppView {
                is_modified: true,
                add_workspace: TitleInput::cleared(),
                ..s.with_workspace(
                    WorkspaceView {
                        slot: 0,
                        title: s.add_workspace.input_string,
                        num_of_item: 0,
                        is_selected: true,
                    },
                )
            }.left()
        } else {
            s.left()
        }
    } else if key.typed() is Some {
        AppView { add_workspace: s.add_workspace.typed(key.typed().unwrap()), ..s }
    } else if key.plain(KeyCode::Backspace) {
        AppView { add_workspace: s.add_workspace.erased(), ..s }
    } else if key.plain(KeyCode::Esc) {
        AppView { add_workspace: TitleInput::cleared(), ..s }.left()
    } else {
        s
    }
}

/// The state after a key in the prompt that renames the current workspace.
/// Enter gives the workspace the typed title, and leaves it its title if
/// nothing was typed or there is no workspace.
pub open spec fn after_edit_workspace(s: AppView, key: KeyEvent) -> AppView {
    if key.plain(KeyCode::Enter) {
        AppView {
            workspaces: if s.has_workspace() && s.edit_workspace.input_string.len() > 0 {
                s.workspaces.update(
                    s.current_workspace as int,
                    WorkspaceView {
                        title: s.edit_workspace.input_string,
                        ..s.workspaces[s.current_workspace as int]
                    },
                )
            } else {
                s.workspaces
            },
            edit_workspace: TitleInput::cleared(),
            ..s
        }.left()
    } else if key.typed() is Some {
        AppView { edit_workspace: s.edit_workspace.typed(key.typed().unwrap()), ..s }
    } else if key.plain(KeyCode::Backspace) {
        AppView { edit_workspace: s.edit_workspace.erased(), ..s }
    } else if key.plain(KeyCode::Esc) {
        AppView { edit_workspace: TitleInput::cleared(), ..s }.left()
    } else {
        s
    }
}

/// The state after a key in the list of workspaces, which is shown in the
/// mode `from`.
pub open spec fn after_display_workspace(s: AppView, from: Mode, code: KeyCode) -> AppView {
    match code {
        KeyCode::Enter => {
            let opened = if s.workspaces.len() == 0 {
                s.with_workspace(default_workspace())
            } else {
                s
            };
            AppView { current_item: 0, ..opened }.gone(from, Mode::DisplayItem)
        },
        KeyCode::Char(c) => if c == 'j' {
            s.workspace_stepped(ScrollDirection::Down)
        } else if c == 'k' {
            s.workspace_stepped(ScrollDirection::Up)
        } else if c == 'a' {
            s.gone(from, Mode::AddWorkspace)
        } else if c == 'e' {
            s.gone(from, Mode::EditWorkspace)
        } else if c == 'd' {
            s.without_current_workspace()
        } else if c == 's' {
            AppView { is_modified: false, ..s }
        } else if c == '?' {
            s.gone(from, Mode::DisplayHelp)
        } else {
            s
        },
        _ => s,
    }
}

/// The item that the prompt for a new item makes in a list of `len` items,
/// once the deadline that was typed is known.
pub open spec fn added_item(input: ItemInput, len: nat, expiry: Option<i64>, now: i64) -> ItemView {
    item_at(
        ItemRecord {
            slot: len,
            text: input.input_string,
            expire_datetime_string: input.input_datetime,
            is_finished: false,
            is_selected: true,
        },
        expiry,
        now,
    )
}

/// The state after a key in the prompt that adds an item, where `expiry` is
/// the deadline that the typed text sets and `now` the moment of the key.
/// Enter appends the item to the current workspace and makes it current,
/// unless no task was typed; where no workspace exists, one is made for it.
pub open spec fn after_add_item(s: AppView, key: KeyEvent, expiry: Option<i64>, now: i64)
    -> AppView {
    if key.plain(KeyCode::Enter) {
        let input = s.add_item.on_task();
        if input.input_string.len() > 0 {
            let housed = if s.workspaces.len() == 0 {
                s.with_workspace(default_workspace())
            } else {
                s
            };
            let list = housed.current_items();
            AppView {
                is_modified: true,
                items: housed.items.update(
                    housed.current_workspace as int,
                    list.push(added_item(input, list.len(), expiry, now)),
                ),
                current_item: list.len(),
                add_item: input.cleared(),
                ..housed
            }.left()
        } else {
            AppView { add_item: input, ..s }.left()
        }
    } else if key.switches_field() {
        AppView { add_item: s.add_item.toggled(), ..s }
    } else if key.typed() is Some {
        AppView { add_item: s.add_item.typed(key.typed().unwrap()), ..s }
    } else if key.plain(KeyCode::Backspace) {
        AppView { add_item: s.add_item.erased(), ..s }
    } else if key.plain(KeyCode::Esc) {
        AppView { add_item: s.add_item.cleared(), ..s }.left()
    } else {
        s
    }
}

/// What the prompt that changes an item makes of a field: what was typed,
/// or what the item had where nothing was typed.
pub open spec fn typed_or(typed: Seq<char>, had: Seq<char>) -> Seq<char> {
    if typed.len() == 0 {
        had
    } else {
        typed
    }
}

/// The item that the prompt for a change puts in the place of `had`, once the
/// deadline is known: not done, selected, at the same slot.
pub open spec fn edited_item(input: ItemInput, had: ItemView, expiry: Option<i64>, now: i64)
    -> ItemView {
    item_at(
        ItemRecord {
            slot: had.slot,
            text: typed_or(input.input_string, had.text),
            expire_datetime_string: typed_or(input.input_datetime, had.expire_datetime_string),
            is_finished: false,
            is_selected: true,
        },
        expiry,
        now,
    )
}

/// The state after a key in the prompt that changes the current item, where
/// `expiry` is the deadline that the item is to have and `now` the moment of
/// the key. Enter puts the changed item in the place of the current one;
/// where there is no current item it only closes the prompt.
pub open spec fn after_edit_item(s: AppView, key: KeyEvent, expiry: Option<i64>, now: i64)
    -> AppView {
    if key.plain(KeyCode::Enter) {
        let input = s.edit_item.on_task();
        if s.has_item() {
            AppView {
                is_modified: true,
                edit_item: input.cleared(),
                ..s.with_current_item(edited_item(input, s.current(), expiry, now))
            }.left()
        } else {
            AppView { edit_item: input.cleared(), ..s }.left()
        }
    } else if key.switches_field() {
        AppView { edit_item: s.edit_item.toggled(), ..s }
    } else if key.typed() is Some {
        AppView { edit_item: s.edit_item.typed(key.typed().unwrap()), ..s }
    } else if key.plain(KeyCode::Backspace) {
        AppView { edit_item: s.edit_item.erased(), ..s }
    } else if key.plain(KeyCode::Esc) {
        AppView { edit_item: s.edit_item.cleared(), ..s }.left()
    } else {
        s
    }
}

/// The state after a key in the list of items, which is shown in the mode `from`.
pub open spec fn after_display_item(s: AppView, from: Mode, code: KeyCode) -> AppView {
    match code {
        KeyCode::Char(c) => if c == 'J' {
            AppView { current_item: 0, ..s }.workspace_stepped(ScrollDirection::Down)
        } else if c == 'K' {
            AppView { current_item: 0, ..s }.workspace_stepped(ScrollDirection::Up)
        } else if c == 'j' {
            s.item_stepped(ScrollDirection::Down)
        } else if c == 'k' {
            s.item_stepped(ScrollDirection::Up)
        } else if c == 'a' {
            s.gone(from, Mode::AddItem)
        } else if c == 'r' {
            s.gone(from, Mode::EditWorkspace)
        } else if c == 'e' {
            s.gone(from, Mode::EditItem)
        } else if c == ' ' {
            s.with_current_item(ItemView { is_finished: !s.current().is_finished, ..s.current() })
        } else if c == 'x' {
            s.with_current_item(ItemView { is_late: !s.current().is_late, ..s.current() })
        } else if c == 'd' {
            s.without_current_item()
        } else if c == 'w' {
            s.gone(from, Mode::AddWorkspace)
        } else if c == '-' {
            s.gone(from, Mode::DisplayWorkspace)
        } else if c == 's' {
            AppView { is_modified: false, ..s }
        } else if c == '?' {
            s.gone(from, Mode::DisplayHelp)
        } else {
            s
        },
        _ => s,
    }
}

/// The state after a key on the help screen.
pub open spec fn after_display_help(s: AppView, code: KeyCode) -> AppView {
    match code {
        KeyCode::Char(c) => if c == 'j' || c == 'k' {
            AppView { help_mode: s.help_mode.other(), ..s }
        } else if c == 'q' || c == '?' {
            s.left()
        } else {
            s
        },
        KeyCode::Esc => s.left(),
        _ => s,
    }
}

/// Whether a key in a mode ends the session: only the two lists know the
/// keys that do.
pub open spec fn ends_session(mode: Mode, key: KeyEvent) -> bool {
    !mode.ephemeral() && (key.force_quits() || key.quits())
}

/// What is left to do outside the state after a key in a mode.
pub open spec fn action_of(mode: Mode, key: KeyEvent) -> Action {
    if mode.ephemeral() {
        Action::Redraw
    } else if key.force_quits() {
        Action::Quit
    } else if key.quits() {
        Action::SaveAndQuit
    } else if key.code == KeyCode::Char('s') {
        Action::Save
    } else {
        Action::Redraw
    }
}

/// The state that the handler of a mode leaves, before what is derived is
/// brought up to date.
pub open spec fn handled(s: AppView, mode: Mode, key: KeyEvent, expiry: Option<i64>, now: i64)
    -> AppView {
    match mode {
        Mode::DisplayHelp => after_display_help(s, key.code),
        Mode::AddItem => after_add_item(s, key, expiry, now),
        Mode::AddWorkspace => after_add_workspace(s, key),
        Mode::EditItem => after_edit_item(s, key, expiry, now),
        Mode::EditWorkspace => after_edit_workspace(s, key),
        Mode::DisplayItem => after_display_item(s, mode, key.code),
        Mode::DisplayWorkspace => after_display_workspace(s, mode, key.code),
    }
}

/// The state after a key in a mode. A key that ends the session leaves the
/// state as it is; after every other key the cursors, the current
/// workspace's count and the selection flags are brought up to date.
pub open spec fn next_state(s: AppView, mode: Mode, key: KeyEvent, expiry: Option<i64>, now: i64)
    -> AppView {
    if ends_session(mode, key) {
        s
    } else {
        handled(s, mode, key, expiry, now).settled()
    }
}

/// The text of the deadline that a key is about to set, where the key makes
/// or changes an item: what was typed into the prompt, or, in a change with
/// nothing typed, the deadline that the item had.
pub open spec fn pending_deadline(s: AppView, mode: Mode, key: KeyEvent) -> Option<Seq<char>> {
    if !key.plain(KeyCode::Enter) {
        None
    } else if mode is AddItem && s.add_item.input_string.len() > 0 {
        Some(s.add_item.input_datetime)
    } else if mode is EditItem && s.has_item() {
        Some(typed_or(s.edit_item.input_datetime, s.current().expire_datetime_string))
    } else {
        None
    }
}

impl KeyEvent {
    /// A key press.
    pub fn new(code: KeyCode, modifiers: KeyModifiers) -> (key: KeyEvent)
        ensures
            key == (KeyEvent { code, modifiers }),
    {
        KeyEvent { code, modifiers }
    }

    /// Whether the key is `code` with no modifier held.
    pub fn is_plain(&self, code: KeyCode) -> (yes: bool)
        ensures
            yes == self.plain(code),
    {
        self.modifiers == KeyModifiers::Unmodified && self.code == code
    }

    /// The character that the key types into a prompt, if it types one.
    pub fn typed_char(&self) -> (c: Option<char>)
        ensures
            c == self.typed(),
    {
        match self.code {
            KeyCode::Char(c) => {
                if self.modifiers == KeyModifiers::Unmodified || self.modifiers
                    == KeyModifiers::Shift {
                    Some(c)
                } else {
                    None
                }
            },
            _ => None,
        }
    }

    /// Whether the key switches a prompt for an item between the task and the
    /// deadline.
    pub fn is_field_switch(&self) -> (yes: bool)
        ensures
            yes == self.switches_field(),
    {
        self.modifiers == KeyModifiers::Control && self.code == KeyCode::Char('d')
    }

    /// Whether the key ends the session without storing anything.
    pub fn is_force_quit(&self) -> (yes: bool)
        ensures
            yes == self.force_quits(),
    {
        self.modifiers == KeyModifiers::Control && self.code == KeyCode::Char('c')
    }

    /// Whether the key stores the state and ends the session.
    pub fn is_quit(&self) -> (yes: bool)
        ensures
            yes == self.quits(),
    {
        self.is_plain(KeyCode::Char('q'))
    }
}

impl App {
    /// Whether there is a current workspace.
    pub fn has_workspace(&self) -> (yes: bool)
        ensures
            yes == self@.has_workspace(),
    {
        self.current_workspace < self.workspaces.len()
    }

    /// Whether there is a current item.
    pub fn has_item(&self) -> (yes: bool)
        ensures
            yes == self@.has_item(),
    {
        self.current_workspace < self.items.len() && self.current_item
            < self.items[self.current_workspace].len()
    }

    /// The number of items in the current workspace.
    pub fn current_len(&self) -> (len: usize)
        ensures
            len == self@.current_items().len(),
    {
        if self.current_workspace < self.items.len() {
            self.items[self.current_workspace].len()
        } else {
            0
        }
    }

    fn leave(&mut self)
        ensures
            final(self)@ == old(self)@.left(),
    {
        self.mode = self.previous_mode;
    }

    fn go(&mut self, from: Mode, to: Mode)
        ensures
            final(self)@ == old(self)@.gone(from, to),
    {
        self.previous_mode = from;
        self.mode = to;
    }

    fn append_workspace(&mut self, workspace: WorkspaceState)
        ensures
            final(self)@ == old(self)@.with_workspace(workspace@),
    {
        let list: Vec<ItemState> = Vec::new();
        assert(list.deep_view() =~= Seq::<ItemView>::empty());
        let at = self.workspaces.len();
        self.items.push(list);
        insert_workspace(&mut self.workspaces, workspace);
        self.current_workspace = at;
        assert(self.items.deep_view() =~= old(self)@.items.push(Seq::empty()));
    }

    fn append_default_workspace(&mut self)
        ensures
            final(self)@ == old(self)@.with_workspace(default_workspace()),
    {
        let workspace = WorkspaceState::new(0, DEFAULT_TITLE.to_owned(), 0, true);
        self.append_workspace(workspace);
    }

    fn step_workspace(&mut self, direction: ScrollDirection)
        ensures
            final(self)@ == old(self)@.workspace_stepped(direction),
    {
        let len = self.workspaces.len();
        if len > 0 {
            match direction {
                ScrollDirection::Down => {
                    if self.current_workspace < len - 1 {
                        self.current_workspace = self.current_workspace + 1;
                    }
                },
                ScrollDirection::Up => {
                    if self.current_workspace > 0 {
                        self.current_workspace = self.current_workspace - 1;
                    }
                },
            }
            self.summary_scroll_state.queue(direction);
        }
    }

    fn step_item(&mut self, direction: ScrollDirection)
        ensures
            final(self)@ == old(self)@.item_stepped(direction),
    {
        let len = self.current_len();
        if len > 0 {
            match direction {
                ScrollDirection::Down => {
                    if self.current_item < len - 1 {
                        self.current_item = self.current_item + 1;
                    }
                },
                ScrollDirection::Up => {
                    if self.current_item > 0 {
                        self.current_item = self.current_item - 1;
                    }
                },
            }
            self.summary_scroll_state.queue(direction);
        }
    }

    fn delete_workspace(&mut self)
        requires
            old(self)@.items.len() == old(self)@.workspaces.len(),
        ensures
            final(self)@ == old(self)@.without_current_workspace(),
    {
        if self.current_workspace < self.workspaces.len() {
            let w = self.current_workspace;
            let _ = self.items.remove(w);
            let _ = remove_workspace(&mut self.workspaces, w);
            if self.current_workspace != 0 {
                self.current_workspace = self.current_workspace - 1;
            }
            assert(self.items.deep_view() =~= old(self)@.items.remove(w as int));
        }
    }

    fn delete_item(&mut self)
        ensures
            final(self)@ == old(self)@.without_current_item(),
    {
        if self.has_item() {
            let w = self.current_workspace;
            let i = self.current_item;
            let _ = remove_item(&mut self.items[w], i);
            if self.current_item != 0 {
                self.current_item = self.current_item - 1;
            }
            assert(self.items.deep_view() =~= old(self)@.items.update(
                w as int,
                items_without(old(self)@.current_items(), i as int),
            ));
        }
    }

    fn toggle_finished(&mut self)
        ensures
            final(self)@ == old(self)@.with_current_item(
                ItemView { is_finished: !old(self)@.current().is_finished, ..old(self)@.current() },
            ),
    {
        if self.has_item() {
            let w = self.current_workspace;
            let i = self.current_item;
            self.items[w][i].toggle_finished();
            assert(self.items[w as int].deep_view() =~= old(self)@.current_items().update(
                i as int,
                ItemView { is_finished: !old(self)@.current().is_finished, ..old(self)@.current() },
            ));
            assert(self.items.deep_view() =~= old(self)@.items.update(
                w as int,
                self.items[w as int].deep_view(),
            ));
        }
    }

    fn toggle_late(&mut self)
        ensures
            final(self)@ == old(self)@.with_current_item(
                ItemView { is_late: !old(self)@.current().is_late, ..old(self)@.current() },
            ),
    {
        if self.has_item() {
            let w = self.current_workspace;
            let i = self.current_item;
            self.items[w][i].toggle_late();
            assert(self.items[w as int].deep_view() =~= old(self)@.current_items().update(
                i as int,
                ItemView { is_late: !old(self)@.current().is_late, ..old(self)@.current() },
            ));
            assert(self.items.deep_view() =~= old(self)@.items.update(
                w as int,
                self.items[w as int].deep_view(),
            ));
        }
    }
}

fn handle_keys_add_workspace(key: KeyEvent, app: &mut App)
    ensures
        final(app)@ == after_add_workspace(old(app)@, key),
{
    if key.is_plain(KeyCode::Enter) {
        if !app.add_workspace.input_string.as_str().is_empty() {
            app.is_modified = true;
            let workspace = app.add_workspace.enter(app.workspaces.len(), 0);
            app.append_workspace(workspace);
            app.add_workspace.reset();
            app.leave();
        } else {
            app.leave();
        }
    } else if let Some(c) = key.typed_char() {
        app.add_workspace.add_char(c);
    } else if key.is_plain(KeyCode::Backspace) {
        app.add_workspace.del_char();
    } else if key.is_plain(KeyCode::Esc) {
        app.add_workspace.reset();
        app.leave();
    }
}

fn handle_keys_edit_workspace(key: KeyEvent, app: &mut App)
    requires
        old(app)@.items.len() == old(app)@.workspaces.len(),
    ensures
        final(app)@ == after_edit_workspace(old(app)@, key),
{
    if key.is_plain(KeyCode::Enter) {
        if app.has_workspace() && !app.edit_workspace.input_string.as_str().is_empty() {
            let title = app.edit_workspace.input_string.clone();
            let _ = rename_workspace(&mut app.workspaces, app.current_workspace, title);
        }
        app.edit_workspace.reset();
        app.leave();
    } else if let Some(c) = key.typed_char() {
        app.edit_workspace.add_char(c);
    } else if key.is_plain(KeyCode::Backspace) {
        app.edit_workspace.del_char();
    } else if key.is_plain(KeyCode::Esc) {
        app.edit_workspace.reset();
        app.leave();
    }
}

fn handle_keys_display_workspace(from: Mode, code: KeyCode, app: &mut App)
    requires
        old(app)@.items.len() == old(app)@.workspaces.len(),
    ensures
        final(app)@ == after_display_workspace(old(app)@, from, code),
{
    match code {
        KeyCode::Enter => {
            if app.workspaces.len() == 0 {
                app.append_default_workspace();
            }
            app.current_item = 0;
            app.go(from, Mode::DisplayItem);
        },
        KeyCode::Char(c) => {
            if c == 'j' {
                app.step_workspace(ScrollDirection::Down);
            } else if c == 'k' {
                app.step_workspace(ScrollDirection::Up);
            } else if c == 'a' {
                app.go(from, Mode::AddWorkspace);
            } else if c == 'e' {
                app.go(from, Mode::EditWorkspace);
            } else if c == 'd' {
                app.delete_workspace();
            } else if c == 's' {
                app.is_modified = false;
            } else if c == '?' {
                app.go(from, Mode::DisplayHelp);
            }
        },
        _ => {},
    }
}

fn handle_keys_add_item(key: KeyEvent, app: &mut App, expiry: Option<i64>, now: i64)
    requires
        old(app)@.items.len() == old(app)@.workspaces.len(),
        old(app)@.has_workspace() || old(app)@.workspaces.len() == 0,
    ensures
        final(app)@ == after_add_item(old(app)@, key, expiry, now),
{
    if key.is_plain(KeyCode::Enter) {
        app.add_item.has_expire_datetime = false;
        if !app.add_item.input_string.as_str().is_empty() {
            app.is_modified = true;
            if app.workspaces.len() == 0 {
                app.append_default_workspace();
            }
            let w = app.current_workspace;
            let ghost housed = app@;
            let item = ItemState::with_expiry(
                0,
                app.add_item.input_string.clone(),
                app.add_item.input_datetime.clone(),
                false,
                true,
                expiry,
                now,
            );
            let len = app.items[w].len();
            insert_item(&mut app.items[w], item);
            app.current_item = len;
            assert(app.items.deep_view() =~= housed.items.update(
                w as int,
                housed.current_items().push(
                    added_item(old(app)@.add_item.on_task(), len as nat, expiry, now),
                ),
            ));
            app.add_item.reset();
            app.leave();
        } else {
            app.leave();
        }
    } else if key.is_field_switch() {
        app.add_item.has_expire_datetime = !app.add_item.has_expire_datetime;
    } else if let Some(c) = key.typed_char() {
        app.add_item.add_char(c);
    } else if key.is_plain(KeyCode::Backspace) {
        app.add_item.del_char();
    } else if key.is_plain(KeyCode::Esc) {
        app.add_item.reset();
        app.leave();
    }
}

fn handle_keys_edit_item(key: KeyEvent, app: &mut App, expiry: Option<i64>, now: i64)
    ensures
        final(app)@ == after_edit_item(old(app)@, key, expiry, now),
{
    if key.is_plain(KeyCode::Enter) {
        app.edit_item.has_expire_datetime = false;
        if app.has_item() {
            app.is_modified = true;
            let w = app.current_workspace;
            let i = app.current_item;
            let text = if app.edit_item.input_string.as_str().is_empty() {
                app.items[w][i].text.clone()
            } else {
                app.edit_item.input_string.clone()
            };
            let deadline = if app.edit_item.input_datetime.as_str().is_empty() {
                app.items[w][i].expire_datetime_string.clone()
            } else {
                app.edit_item.input_datetime.clone()
            };
            let item = ItemState::with_expiry(0, text, deadline, false, true, expiry, now);
            let _ = replace_item(&mut app.items[w], i, item);
            assert(app.items.deep_view() =~= old(app)@.items.update(
                w as int,
                old(app)@.current_items().update(
                    i as int,
                    edited_item(old(app)@.edit_item.on_task(), old(app)@.current(), expiry, now),
                ),
            ));
        }
        app.edit_item.reset();
        app.leave();
    } else if key.is_field_switch() {
        app.edit_item.has_expire_datetime = !app.edit_item.has_expire_datetime;
    } else if let Some(c) = key.typed_char() {
        app.edit_item.add_char(c);
    } else if key.is_plain(KeyCode::Backspace) {
        app.edit_item.del_char();
    } else if key.is_plain(KeyCode::Esc) {
        app.edit_item.reset();
        app.leave();
    }
}

fn handle_keys_display_item(from: Mode, code: KeyCode, app: &mut App)
    ensures
        final(app)@ == after_display_item(old(app)@, from, code),
{
    match code {
        KeyCode::Char(c) => {
            if c == 'J' {
                app.current_item = 0;
                app.step_workspace(ScrollDirection::Down);
            } else if c == 'K' {
                app.current_item = 0;
                app.step_workspace(ScrollDirection::Up);
            } else if c == 'j' {
                app.step_item(ScrollDirection::Down);
            } else if c == 'k' {
                app.step_item(ScrollDirection::Up);
            } else if c == 'a' {
                app.go(from, Mode::AddItem);
            } else if c == 'r' {
                app.go(from, Mode::EditWorkspace);
            } else if c == 'e' {
                app.go(from, Mode::EditItem);
            } else if c == ' ' {
                app.toggle_finished();
            } else if c == 'x' {
                app.toggle_late();
            } else if c == 'd' {
                app.delete_item();
            } else if c == 'w' {
                app.go(from, Mode::AddWorkspace);
            } else if c == '-' {
                app.go(from, Mode::DisplayWorkspace);
            } else if c == 's' {
                app.is_modified = false;
            } else if c == '?' {
                app.go(from, Mode::DisplayHelp);
            }
        },
        _ => {},
    }
}

fn handle_keys_display_help(code: KeyCode, app: &mut App)
    ensures
        final(app)@ == after_display_help(old(app)@, code),
{
    match code {
        KeyCode::Char(c) => {
            if c == 'j' || c == 'k' {
                app.help_mode = app.help_mode.cycle();
            } else if c == 'q' || c == '?' {
                app.leave();
            }
        },
        KeyCode::Esc => {
            app.leave();
        },
        _ => {},
    }
}

/// What the rules ask of a state before what is derived is brought up to
/// date: everything but the cursors' range and the flags, with only the
/// current workspace's count left open.
pub open spec fn settles(s: AppView) -> bool {
    &&& s.coherent_but(clamped(s.workspaces.len(), s.current_workspace) as int)
    &&& !s.previous_mode.ephemeral()
}

proof fn lemma_with_workspace_settles(s: AppView, workspace: WorkspaceView)
    requires
        s.coherent_but(-1),
        workspace.num_of_item == 0,
    ensures
        s.with_workspace(workspace).coherent_but(-1),
        s.with_workspace(workspace).has_workspace(),
        s.with_workspace(workspace).current_items() == Seq::<ItemView>::empty(),
{
    let after = s.with_workspace(workspace);
    assert forall|w: int| 0 <= w < after.items.len() implies item_slots_dense(
        #[trigger] after.items[w],
    ) by {
        if w < s.items.len() {
            assert(after.items[w] == s.items[w]);
        }
    }
    assert forall|w: int| 0 <= w < after.workspaces.len() implies (
    #[trigger] after.workspaces[w]).num_of_item == after.items[w].len() by {
        if w < s.workspaces.len() {
            assert(after.workspaces[w] == s.workspaces[w]);
        }
    }
}

proof fn lemma_items_changed_settles(s: AppView, list: Seq<ItemView>)
    requires
        s.well_formed(),
        s.has_workspace(),
        item_slots_dense(list),
    ensures
        (AppView {
            items: s.items.update(s.current_workspace as int, list),
            ..s
        }).coherent_but(s.current_workspace as int),
{
    let after = AppView { items: s.items.update(s.current_workspace as int, list), ..s };
    assert forall|w: int| 0 <= w < after.items.len() implies item_slots_dense(
        #[trigger] after.items[w],
    ) by {
        if w != s.current_workspace {
            assert(after.items[w] == s.items[w]);
        }
    }
}

proof fn lemma_without_workspace_settles(s: AppView)
    requires
        s.well_formed(),
    ensures
        s.without_current_workspace().coherent_but(-1),
{
    if s.has_workspace() {
        let after = s.without_current_workspace();
        let at = s.current_workspace as int;
        assert forall|w: int| 0 <= w < after.items.len() implies item_slots_dense(
            #[trigger] after.items[w],
        ) by {
            if w < at {
                assert(after.items[w] == s.items[w]);
            } else {
                assert(after.items[w] == s.items[w + 1]);
            }
        }
        assert forall|w: int| 0 <= w < after.workspaces.len() implies (
        #[trigger] after.workspaces[w]).num_of_item == after.items[w].len() by {
            if w < at {
                assert(after.workspaces[w] == s.workspaces[w]);
            } else {
                assert(after.workspaces[w].num_of_item == s.workspaces[w + 1].num_of_item);
            }
        }
    }
}

proof fn lemma_handled_settles(s: AppView, mode: Mode, key: KeyEvent, expiry: Option<i64>, now: i64)
    requires
        s.well_formed(),
    ensures
        settles(handled(s, mode, key, expiry, now)),
{
    let after = handled(s, mode, key, expiry, now);
    match mode {
        Mode::DisplayHelp => {},
        Mode::AddWorkspace => {
            lemma_with_workspace_settles(
                s,
                WorkspaceView {
                    slot: 0,
                    title: s.add_workspace.input_string,
                    num_of_item: 0,
                    is_selected: true,
                },
            );
        },
        Mode::EditWorkspace => {},
        Mode::DisplayWorkspace => {
            lemma_with_workspace_settles(s, default_workspace());
            lemma_without_workspace_settles(s);
        },
        Mode::AddItem => {
            if key.plain(KeyCode::Enter) && s.add_item.input_string.len() > 0 {
                lemma_with_workspace_settles(s, default_workspace());
                let housed = if s.workspaces.len() == 0 {
                    s.with_workspace(default_workspace())
                } else {
                    s
                };
                let at = housed.current_workspace as int;
                let list = housed.current_items();
                let longer = list.push(added_item(s.add_item.on_task(), list.len(), expiry, now));
                assert(list == housed.items[at]);
                assert(item_slots_dense(longer));
                assert forall|w: int| 0 <= w < after.items.len() implies item_slots_dense(
                    #[trigger] after.items[w],
                ) by {
                    if w != at {
                        assert(after.items[w] == housed.items[w]);
                    }
                }
                assert forall|w: int| 0 <= w < after.workspaces.len() && w != at implies (
                #[trigger] after.workspaces[w]).num_of_item == after.items[w].len() by {
                    assert(after.workspaces[w] == housed.workspaces[w]);
                }
            }
        },
        Mode::EditItem => {
            if key.plain(KeyCode::Enter) && s.has_item() {
                let list = s.current_items().update(
                    s.current_item as int,
                    edited_item(s.edit_item.on_task(), s.current(), expiry, now),
                );
                assert(item_slots_dense(s.current_items()));
                assert(item_slots_dense(list));
                lemma_items_changed_settles(s, list);
            }
        },
        Mode::DisplayItem => {
            if s.has_item() {
                let had = s.current();
                assert(item_slots_dense(s.current_items()));
                let done = s.current_items().update(
                    s.current_item as int,
                    ItemView { is_finished: !had.is_finished, ..had },
                );
                let late = s.current_items().update(
                    s.current_item as int,
                    ItemView { is_late: !had.is_late, ..had },
                );
                let fewer = items_without(s.current_items(), s.current_item as int);
                assert(item_slots_dense(done));
                assert(item_slots_dense(late));
                assert(item_slots_dense(fewer));
                lemma_items_changed_settles(s, done);
                lemma_items_changed_settles(s, late);
                lemma_items_changed_settles(s, fewer);
            }
        },
    }
}

/// No key breaks the rules: after any key in any mode, in a state in which
/// they held, the slots are dense, the counts are right, the cursors point
/// at entities, and exactly the current workspace and the current item are
/// flagged as selected.
pub proof fn lemma_next_state_well_formed(
    s: AppView,
    mode: Mode,
    key: KeyEvent,
    expiry: Option<i64>,
    now: i64,
)
    requires
        s.well_formed(),
    ensures
        next_state(s, mode, key, expiry, now).well_formed(),
{
    if !ends_session(mode, key) {
        lemma_handled_settles(s, mode, key, expiry, now);
        lemma_settled_well_formed(handled(s, mode, key, expiry, now));
    }
}

/// Handles one key with the clock and the typed deadline already read:
/// `expiry` is the deadline that the key sets where it makes or changes an
/// item, and `now` is the moment of the key. Every pair of mode and key has
/// an effect, if only that of changing nothing.
pub fn apply_key(mode: Mode, key: KeyEvent, app: &mut App, expiry: Option<i64>, now: i64) -> (action:
    Action)
    requires
        old(app)@.well_formed(),
    ensures
        final(app)@ == next_state(old(app)@, mode, key, expiry, now),
        final(app)@.well_formed(),
        action == action_of(mode, key),
{
    proof {
        lemma_handled_settles(old(app)@, mode, key, expiry, now);
        lemma_next_state_well_formed(old(app)@, mode, key, expiry, now);
    }
    let mut action = Action::Redraw;
    match mode {
        Mode::DisplayHelp => {
            handle_keys_display_help(key.code, app);
        },
        Mode::AddItem => {
            handle_keys_add_item(key, app, expiry, now);
        },
        Mode::AddWorkspace => {
            handle_keys_add_workspace(key, app);
        },
        Mode::EditItem => {
            handle_keys_edit_item(key, app, expiry, now);
        },
        Mode::EditWorkspace => {
            handle_keys_edit_workspace(key, app);
        },
        Mode::DisplayItem => {
            if key.is_force_quit() {
                return Action::Quit;
            }
            if key.is_quit() {
                return Action::SaveAndQuit;
            }
            handle_keys_display_item(mode, key.code, app);
            if key.code == KeyCode::Char('s') {
                action = Action::Save;
            }
        },
        Mode::DisplayWorkspace => {
            if key.is_force_quit() {
                return Action::Quit;
            }
            if key.is_quit() {
                return Action::SaveAndQuit;
            }
            handle_keys_display_workspace(mode, key.code, app);
            if key.code == KeyCode::Char('s') {
                action = Action::Save;
            }
        },
    }
    app.settle();
    action
}

impl App {
    /// The text of the deadline that `key` is about to set in `mode`, where
    /// the key makes or changes an item.
    pub fn deadline_text(&self, mode: Mode, key: KeyEvent) -> (text: Option<String>)
        ensures
            match text {
                Some(t) => Some(t@) == pending_deadline(self@, mode, key),
                None => pending_deadline(self@, mode, key) is None,
            },
    {
        if !key.is_plain(KeyCode::Enter) {
            return None;
        }
        match mode {
            Mode::AddItem => {
                if !self.add_item.input_string.as_str().is_empty() {
                    Some(self.add_item.input_datetime.clone())
                } else {
                    None
                }
            },
            Mode::EditItem => {
                if self.has_item() {
                    if self.edit_item.input_datetime.as_str().is_empty() {
                        Some(
                            self.items[self.current_workspace][self.current_item].expire_datetime_string.clone(),
                        )
                    } else {
                        Some(self.edit_item.input_datetime.clone())
                    }
                } else {
                    None
                }
            },
            _ => None,
        }
    }
}

/// Whether `expiry` can be the deadline that a typed text sets: a key that
/// sets none has none, and neither has a text of none of the three shapes.
pub open spec fn expiry_fits(text: Option<Seq<char>>, expiry: Option<i64>) -> bool {
    match text {
        Some(t) => shape_of(t) is Unrecognized ==> expiry is None,
        None => expiry is None,
    }
}

/// What handling a key by the clock of this machine comes to: the state is
/// the one that [`next_state`] gives for the deadline `expiry` and the moment
/// `now`, and the deadline is one that the typed text can set.
pub open spec fn handled_at(
    before: AppView,
    mode: Mode,
    key: KeyEvent,
    expiry: Option<i64>,
    now: i64,
    after: AppView,
) -> bool {
    &&& after == next_state(before, mode, key, expiry, now)
    &&& expiry_fits(pending_deadline(before, mode, key), expiry)
}

/// Handles one key: finds the handler of the mode, lets it change the
/// state, brings what is derived up to date and says what is left to do.
/// Where the key makes or changes an item, the deadline is read from what
/// was typed, in the time zone of this machine, and held against its clock.
pub fn handle_key_bindings(mode: Mode, key_event: KeyEvent, app: &mut App) -> (action: Action)
    requires
        old(app)@.well_formed(),
    ensures
        exists|expiry: Option<i64>, now: i64| #[trigger]
            handled_at(old(app)@, mode, key_event, expiry, now, final(app)@),
        final(app)@.well_formed(),
        action == action_of(mode, key_event),
{
    let expiry = match app.deadline_text(mode, key_event) {
        Some(text) => expiry_of(text.as_str()),
        None => None,
    };
    let now = now_timestamp();
    let action = apply_key(mode, key_event, app, expiry, now);
    assert(handled_at(old(app)@, mode, key_event, expiry, now, app@));
    action
}

/// The key that deletes the current entity of a list.
pub open spec fn delete_key() -> KeyEvent {
    KeyEvent { code: KeyCode::Char('d'), modifiers: KeyModifiers::Unmodified }
}

/// An item as it is apart from its selection flag.
pub open spec fn unflagged(item: ItemView) -> ItemView {
    ItemView { is_selected: false, ..item }
}

/// Deleting a workspace deletes its items with it and closes the gap. One
/// workspace and as many items as it held are gone; the workspaces before it
/// stay as they are and those after it move up by one slot, each with its
/// title, its count and its items, which change in nothing but their
/// selection flags.
pub proof fn lemma_cascade_delete(s: AppView, expiry: Option<i64>, now: i64)
    requires
        s.well_formed(),
        s.has_workspace(),
    ensures
        ({
            let after = next_state(s, Mode::DisplayWorkspace, delete_key(), expiry, now);
            let at = s.current_workspace as int;
            &&& after.well_formed()
            &&& after.workspaces.len() == s.workspaces.len() - 1
            &&& after.items.len() == s.items.len() - 1
            &&& total_items(after.items) + s.items[at].len() == total_items(s.items)
            &&& after.current_workspace == step_up(s.current_workspace)
            &&& forall|w: int|
                0 <= w < after.workspaces.len() ==> {
                    let from = if w < at {
                        w
                    } else {
                        w + 1
                    };
                    &&& (#[trigger] after.workspaces[w]).slot == w
                    &&& after.workspaces[w].title == s.workspaces[from].title
                    &&& after.workspaces[w].num_of_item == s.workspaces[from].num_of_item
                    &&& after.items[w].len() == s.items[from].len()
                    &&& forall|i: int|
                        0 <= i < after.items[w].len() ==> unflagged(#[trigger] after.items[w][i])
                            == unflagged(s.items[from][i])
                }
        }),
{
    let key = delete_key();
    let cut = s.without_current_workspace();
    let after = next_state(s, Mode::DisplayWorkspace, key, expiry, now);
    let at = s.current_workspace as int;
    assert(handled(s, Mode::DisplayWorkspace, key, expiry, now) == cut);
    assert(after == cut.settled());
    lemma_next_state_well_formed(s, Mode::DisplayWorkspace, key, expiry, now);
    lemma_total_without(s.items, at);
    lemma_total_by_lengths(after.items, cut.items);
    assert forall|w: int| 0 <= w < after.workspaces.len() implies {
        let from = if w < at {
            w
        } else {
            w + 1
        };
        &&& (#[trigger] after.workspaces[w]).slot == w
        &&& after.workspaces[w].title == s.workspaces[from].title
        &&& after.workspaces[w].num_of_item == s.workspaces[from].num_of_item
        &&& after.items[w].len() == s.items[from].len()
        &&& forall|i: int|
            0 <= i < after.items[w].len() ==> unflagged(#[trigger] after.items[w][i]) == unflagged(
                s.items[from][i],
            )
    } by {
        let from = if w < at {
            w
        } else {
            w + 1
        };
        assert(cut.items[w] == s.items[from]);
        assert(cut.workspaces[w].title == s.workspaces[from].title);
        assert(s.workspaces[from].num_of_item == s.items[from].len());
    }
}

/// A prompt or the help screen is left only for the list it was opened
/// from, never for another prompt: after a key in a passing mode the
/// interface is in that mode still or back in the list, and the list to go
/// back to is the same as before.
pub proof fn lemma_passing_mode_returns(s: AppView, key: KeyEvent, expiry: Option<i64>, now: i64)
    requires
        s.well_formed(),
        s.mode.ephemeral(),
    ensures
        ({
            let after = next_state(s, s.mode, key, expiry, now);
            &&& after.mode == s.mode || after.mode == s.previous_mode
            &&& after.previous_mode == s.previous_mode
            &&& !after.previous_mode.ephemeral()
        }),
{
}

/// A list is left for a prompt or the help screen only with a note of the
/// list to return to: after a key in a list, a passing mode has that list
/// as the mode it came from.
pub proof fn lemma_list_is_remembered(s: AppView, key: KeyEvent, expiry: Option<i64>, now: i64)
    requires
        s.well_formed(),
        !s.mode.ephemeral(),
    ensures
        ({
            let after = next_state(s, s.mode, key, expiry, now);
            after.mode.ephemeral() ==> after.previous_mode == s.mode
        }),
{
}

/// Deleting the current item takes exactly that item away: the list is one
/// shorter, the items before it stay, those after it move up by one slot,
/// and the cursor moves up by one unless it was at the top.
pub proof fn lemma_delete_item(s: AppView, expiry: Option<i64>, now: i64)
    requires
        s.well_formed(),
        s.has_item(),
    ensures
        ({
            let after = next_state(s, Mode::DisplayItem, delete_key(), expiry, now);
            let at = s.current_item as int;
            &&& after.well_formed()
            &&& after.current_workspace == s.current_workspace
            &&& after.current_items().len() == s.current_items().len() - 1
            &&& after.current_item == step_up(s.current_item)
            &&& forall|i: int|
                0 <= i < after.current_items().len() ==> {
                    let from = if i < at {
                        i
                    } else {
                        i + 1
                    };
                    &&& (#[trigger] after.current_items()[i]).slot == i
                    &&& unflagged(after.current_items()[i]) == unflagged(
                        ItemView { slot: i as nat, ..s.current_items()[from] },
                    )
                }
        }),
{
    let key = delete_key();
    let cut = s.without_current_item();
    let after = next_state(s, Mode::DisplayItem, key, expiry, now);
    assert(handled(s, Mode::DisplayItem, key, expiry, now) == cut);
    assert(after == cut.settled());
    lemma_next_state_well_formed(s, Mode::DisplayItem, key, expiry, now);
    let w = s.current_workspace as int;
    assert(after.current_items() == after.items[w]);
    assert(cut.items[w] == items_without(s.current_items(), s.current_item as int));
}

} // verus!
