//! Workspaces: the named groups that items live in, and the input buffers in
//! which a workspace's title is typed.

use vstd::prelude::*;
use crate::text::{pop_char, push_char};

verus! {

/// The title of the workspace that is made when an item is added and no
/// workspace exists.
pub const DEFAULT_TITLE: &'static str = "default";

/// A workspace as the list shows it.
#[derive(Debug)]
pub struct WorkspaceState {
    /// Position among the workspaces, counted from zero.
    pub slot: usize,
    pub title: String,
    /// Number of items that the workspace holds.
    pub num_of_item: usize,
    /// Whether this is the current workspace.
    pub is_selected: bool,
}

/// What a workspace is, as plain values.
pub ghost struct WorkspaceView {
    pub slot: nat,
    pub title: Seq<char>,
    pub num_of_item: nat,
    pub is_selected: bool,
}

impl View for WorkspaceState {
    type V = WorkspaceView;

    open spec fn view(&self) -> WorkspaceView {
        WorkspaceView {
            slot: self.slot as nat,
            title: self.title@,
            num_of_item: self.num_of_item as nat,
            is_selected: self.is_selected,
        }
    }
}

impl DeepView for WorkspaceState {
    type V = WorkspaceView;

    open spec fn deep_view(&self) -> WorkspaceView {
        self@
    }
}

impl WorkspaceState {
    pub fn new(slot: usize, title: String, num_of_item: usize, is_selected: bool) -> (workspace:
        WorkspaceState)
        ensures
            workspace@ == (WorkspaceView {
                slot: slot as nat,
                title: title@,
                num_of_item: num_of_item as nat,
                is_selected,
            }),
    {
        WorkspaceState { slot, title, num_of_item, is_selected }
    }
}

/// What a notice says, if one is set.
pub open spec fn notice_view(notice: Option<String>) -> Option<Seq<char>> {
    match notice {
        Some(text) => Some(text@),
        None => None,
    }
}

/// A text with its last character taken off, if it has one.
pub open spec fn without_last(text: Seq<char>) -> Seq<char> {
    if text.len() > 0 {
        text.drop_last()
    } else {
        text
    }
}

/// What a prompt for a title holds, as plain values.
pub ghost struct TitleInput {
    pub input_string: Seq<char>,
    pub has_input: bool,
    pub error_msg: Option<Seq<char>>,
}

impl TitleInput {
    /// A prompt that was never used: nothing typed, and an empty notice.
    pub open spec fn fresh() -> TitleInput {
        TitleInput { input_string: Seq::empty(), has_input: false, error_msg: Some(Seq::empty()) }
    }

    /// A prompt after it was reset: nothing typed, and no notice.
    pub open spec fn cleared() -> TitleInput {
        TitleInput { input_string: Seq::empty(), has_input: false, error_msg: None }
    }

    /// The prompt after `c` was typed.
    pub open spec fn typed(self, c: char) -> TitleInput {
        TitleInput { input_string: self.input_string.push(c), has_input: true, ..self }
    }

    /// The prompt after the character typed last was deleted.
    pub open spec fn erased(self) -> TitleInput {
        TitleInput { input_string: without_last(self.input_string), ..self }
    }
}

/// The input buffer of the prompt that adds a workspace.
#[derive(Debug)]
pub struct AddWorkspaceState {
    pub input_string: String,
    /// Whether anything was typed since the prompt was opened or reset.
    pub has_input: bool,
    /// A notice shown in place of the input while nothing was typed.
    pub error_msg: Option<String>,
}

impl View for AddWorkspaceState {
    type V = TitleInput;

    open spec fn view(&self) -> TitleInput {
        TitleInput {
            input_string: self.input_string@,
            has_input: self.has_input,
            error_msg: notice_view(self.error_msg),
        }
    }
}

impl AddWorkspaceState {
    /// An empty buffer with an empty notice.
    pub fn new() -> (state: AddWorkspaceState)
        ensures
            state@ == TitleInput::fresh(),
    {
        AddWorkspaceState {
            input_string: String::new(),
            has_input: false,
            error_msg: Some(String::new()),
        }
    }

    /// Types one character.
    pub fn add_char(&mut self, c: char)
        ensures
            final(self)@ == old(self)@.typed(c),
    {
        push_char(&mut self.input_string, c);
        self.has_input = true;
    }

    /// Deletes the character typed last, if there is one.
    pub fn del_char(&mut self)
        ensures
            final(self)@ == old(self)@.erased(),
    {
        let _ = pop_char(&mut self.input_string);
    }

    /// Empties the buffer and takes the notice away.
    pub fn reset(&mut self)
        ensures
            final(self)@ == TitleInput::cleared(),
    {
        self.input_string = String::new();
        self.has_input = false;
        self.error_msg = None;
    }

    /// The workspace that the typed title makes: selected, at position `slot`,
    /// with `num_of_item` items. The buffer is left as it is.
    pub fn enter(&mut self, slot: usize, num_of_item: usize) -> (workspace: WorkspaceState)
        ensures
            *final(self) == *old(self),
            workspace@ == (WorkspaceView {
                slot: slot as nat,
                title: old(self)@.input_string,
                num_of_item: num_of_item as nat,
                is_selected: true,
            }),
    {
        WorkspaceState::new(slot, self.input_string.clone(), num_of_item, true)
    }
}

/// The input buffer of the prompt that renames a workspace.
#[derive(Debug)]
pub struct EditWorkspaceState {
    pub input_string: String,
    /// Whether anything was typed since the prompt was opened or reset.
    pub has_input: bool,
    /// A notice shown in place of the input while nothing was typed.
    pub error_msg: Option<String>,
}

impl View for EditWorkspaceState {
    type V = TitleInput;

    open spec fn view(&self) -> TitleInput {
        TitleInput {
            input_string: self.input_string@,
            has_input: self.has_input,
            error_msg: notice_view(self.error_msg),
        }
    }
}

impl EditWorkspaceState {
    /// An empty buffer with an empty notice.
    pub fn new() -> (state: EditWorkspaceState)
        ensures
            state@ == TitleInput::fresh(),
    {
        EditWorkspaceState {
            input_string: String::new(),
            has_input: false,
            error_msg: Some(String::new()),
        }
    }

    /// Types one character.
    pub fn add_char(&mut self, c: char)
        ensures
            final(self)@ == old(self)@.typed(c),
    {
        push_char(&mut self.input_string, c);
        self.has_input = true;
    }

    /// Deletes the character typed last, if there is one.
    pub fn del_char(&mut self)
        ensures
            final(self)@ == old(self)@.erased(),
    {
        let _ = pop_char(&mut self.input_string);
    }

    /// Empties the buffer and takes the notice away.
    pub fn reset(&mut self)
        ensures
            final(self)@ == TitleInput::cleared(),
    {
        self.input_string = String::new();
        self.has_input = false;
        self.error_msg = None;
    }

    /// The workspace under its typed title: selected, at position `slot`, with
    /// `num_of_item` items. The buffer is left as it is.
    pub fn enter(&mut self, slot: usize, num_of_item: usize) -> (workspace: WorkspaceState)
        ensures
            *final(self) == *old(self),
            workspace@ == (WorkspaceView {
                slot: slot as nat,
                title: old(self)@.input_string,
                num_of_item: num_of_item as nat,
                is_selected: true,
            }),
    {
        WorkspaceState::new(slot, self.input_string.clone(), num_of_item, true)
    }
}

} // verus!
