//! What each part of the screen says: the line and the title of a prompt,
//! the label of a workspace, the header and the body of an item. How it is
//! painted is not decided here.

use vstd::prelude::*;
use crate::draw::{tone_of, Tone};
use crate::item::{AddItemState, EditItemState, ItemInput, ItemState, ItemView};
use crate::text::{decimal, push_char, push_decimal, push_text};
use crate::timestamp::{now_timestamp, offset_text};
use crate::workspace::{
    AddWorkspaceState, EditWorkspaceState, TitleInput, WorkspaceState, WorkspaceView,
};

verus! {

/// The width to which the label of a workspace is filled with blanks, so
/// that its highlight spans the row.
pub const LABEL_WIDTH: usize = 1000;

/// What a prompt shows.
#[derive(Debug)]
pub struct Prompt {
    /// The title on the border of the prompt.
    pub title: String,
    /// The line after the mark of the prompt.
    pub text: String,
    /// Whether the line is a notice and not what was typed.
    pub is_notice: bool,
}

/// What a prompt shows, as plain values.
pub ghost struct PromptView {
    pub title: Seq<char>,
    pub text: Seq<char>,
    pub is_notice: bool,
}

impl View for Prompt {
    type V = PromptView;

    open spec fn view(&self) -> PromptView {
        PromptView { title: self.title@, text: self.text@, is_notice: self.is_notice }
    }
}

/// What a prompt for a title shows under the given title of its border: the
/// notice while nothing was typed and a notice is set, else what was typed.
pub open spec fn title_prompt(input: TitleInput, title: Seq<char>) -> PromptView {
    if !input.has_input && input.error_msg is Some {
        PromptView { title, text: input.error_msg.unwrap(), is_notice: true }
    } else {
        PromptView { title, text: input.input_string, is_notice: false }
    }
}

/// What a prompt for an item shows: the field that takes input, under the
/// title for that field, or the notice while nothing was typed.
pub open spec fn item_prompt(input: ItemInput, task_title: Seq<char>, deadline_title: Seq<char>)
    -> PromptView {
    let title = if input.has_expire_datetime {
        deadline_title
    } else {
        task_title
    };
    if !input.has_input && input.error_msg is Some {
        PromptView { title, text: input.error_msg.unwrap(), is_notice: true }
    } else if input.has_expire_datetime {
        PromptView { title, text: input.input_datetime, is_notice: false }
    } else {
        PromptView { title, text: input.input_string, is_notice: false }
    }
}

fn own(text: &str) -> (owned: String)
    ensures
        owned@ == text@,
{
    text.to_owned()
}

fn shown_title(input_string: &String, has_input: bool, error_msg: &Option<String>, title: &str) -> (prompt:
    Prompt)
    ensures
        prompt@ == title_prompt(
            TitleInput {
                input_string: input_string@,
                has_input,
                error_msg: crate::workspace::notice_view(*error_msg),
            },
            title@,
        ),
{
    match error_msg {
        Some(notice) => {
            if !has_input {
                return Prompt { title: own(title), text: notice.clone(), is_notice: true };
            }
        },
        None => {},
    }
    Prompt { title: own(title), text: input_string.clone(), is_notice: false }
}

fn shown_item(
    input_string: &String,
    input_datetime: &String,
    has_input: bool,
    has_expire_datetime: bool,
    error_msg: &Option<String>,
    task_title: &str,
    deadline_title: &str,
) -> (prompt: Prompt)
    ensures
        prompt@ == item_prompt(
            ItemInput {
                input_string: input_string@,
                input_datetime: input_datetime@,
                has_input,
                has_expire_datetime,
                error_msg: crate::workspace::notice_view(*error_msg),
            },
            task_title@,
            deadline_title@,
        ),
{
    let title = if has_expire_datetime {
        own(deadline_title)
    } else {
        own(task_title)
    };
    match error_msg {
        Some(notice) => {
            if !has_input {
                return Prompt { title, text: notice.clone(), is_notice: true };
            }
        },
        None => {},
    }
    if has_expire_datetime {
        Prompt { title, text: input_datetime.clone(), is_notice: false }
    } else {
        Prompt { title, text: input_string.clone(), is_notice: false }
    }
}

/// The prompt that adds a workspace.
#[derive(Debug, Clone, Copy, PartialEq, Eq, Structural)]
pub struct AddWorkspaceWidget {}

/// The prompt that renames a workspace.
#[derive(Debug, Clone, Copy, PartialEq, Eq, Structural)]
pub struct EditWorkspaceWidget {}

/// The prompt that adds an item.
#[derive(Debug, Clone, Copy, PartialEq, Eq, Structural)]
pub struct AddItemWidget {}

/// The prompt that changes an item.
#[derive(Debug, Clone, Copy, PartialEq, Eq, Structural)]
pub struct EditItemWidget {}

/// One row of the list of workspaces.
#[derive(Debug, Clone, Copy, PartialEq, Eq, Structural)]
pub struct WorkspaceWidget {}

/// One box of the list of items.
#[derive(Debug, Clone, Copy, PartialEq, Eq, Structural)]
pub struct ItemWidget {}

impl AddWorkspaceWidget {
    /// What the prompt shows.
    pub fn render(self, state: &AddWorkspaceState) -> (prompt: Prompt)
        ensures
            prompt@ == title_prompt(state@, " Add Workspace"@),
    {
        shown_title(&state.input_string, state.has_input, &state.error_msg, " Add Workspace")
    }
}

impl EditWorkspaceWidget {
    /// What the prompt shows.
    pub fn render(self, state: &EditWorkspaceState) -> (prompt: Prompt)
        ensures
            prompt@ == title_prompt(state@, " Modify Workspace "@),
    {
        shown_title(&state.input_string, state.has_input, &state.error_msg, " Modify Workspace ")
    }
}

impl AddItemWidget {
    /// What the prompt shows.
    pub fn render(self, state: &AddItemState) -> (prompt: Prompt)
        ensures
            prompt@ == item_prompt(state@, " Add Item "@, " Set Expiry Timestamp "@),
    {
        shown_item(
            &state.input_string,
            &state.input_datetime,
            state.has_input,
            state.has_expire_datetime,
            &state.error_msg,
            " Add Item ",
            " Set Expiry Timestamp ",
        )
    }
}

impl EditItemWidget {
    /// What the prompt shows.
    pub fn render(self, state: &EditItemState) -> (prompt: Prompt)
        ensures
            prompt@ == item_prompt(state@, " Modify Item "@, " Modify Expiry Timestamp "@),
    {
        shown_item(
            &state.input_string,
            &state.input_datetime,
            state.has_input,
            state.has_expire_datetime,
            &state.error_msg,
            " Modify Item ",
            " Modify Expiry Timestamp ",
        )
    }
}

/// As many blanks as it takes to fill a text of `len` characters up to `width`.
pub open spec fn filling(len: nat, width: nat) -> Seq<char> {
    Seq::new(
        if len < width {
            (width - len) as nat
        } else {
            0
        },
        |i: int| ' ',
    )
}

/// The label of a workspace: its slot between brackets, a plus sign, and its
/// title filled with blanks to the width of a label.
pub open spec fn workspace_label(workspace: WorkspaceView) -> Seq<char> {
    "("@ + decimal(workspace.slot) + ") + "@ + workspace.title + filling(
        workspace.title.len(),
        LABEL_WIDTH as nat,
    )
}

impl WorkspaceWidget {
    /// The label of the workspace. The current workspace is shown
    /// highlighted: that is its `is_selected`.
    pub fn render(self, state: &WorkspaceState) -> (label: String)
        ensures
            label@ == workspace_label(state@),
    {
        let mut label = String::new();
        push_text(&mut label, "(");
        push_decimal(&mut label, state.slot as u128);
        push_text(&mut label, ") + ");
        push_text(&mut label, state.title.as_str());
        let ghost stem = label@;
        let len = state.title.as_str().unicode_len();
        let mut filled: usize = len;
        assert(stem =~= stem + filling(len as nat, len as nat));
        while filled < LABEL_WIDTH
            invariant
                len <= filled,
                filled <= LABEL_WIDTH || filled == len,
                label@ == stem + filling(len as nat, filled as nat),
            decreases LABEL_WIDTH - filled,
        {
            push_char(&mut label, ' ');
            assert(label@ =~= stem + filling(len as nat, (filled + 1) as nat));
            filled += 1;
        }
        assert(filling(len as nat, filled as nat) =~= filling(len as nat, LABEL_WIDTH as nat));
        assert(label@ =~= workspace_label(state@));
        label
    }
}

/// The mark of an item that is done, and of one that is not.
pub open spec fn mark_of(is_finished: bool) -> Seq<char> {
    if is_finished {
        "✓"@
    } else {
        "x"@
    }
}

/// The header of an item's box at the moment `now`: an arrow where the item
/// is the current one, its mark, and the time that is left to its deadline
/// where it has one.
pub open spec fn item_header(item: ItemView, now: i64) -> Seq<char> {
    (if item.is_selected {
        " > Status: ["@
    } else {
        " Status: ["@
    }) + mark_of(item.is_finished) + (if item.has_expire_datetime {
        "] | Time Left: "@ + offset_text(item.expire_datetime - now) + " "@
    } else {
        "] "@
    })
}

/// The item after its header was read at the moment `now`: an item whose
/// deadline has passed is marked late.
pub open spec fn item_seen(item: ItemView, now: i64) -> ItemView {
    if item.has_expire_datetime {
        ItemView { is_late: item.is_late || item.expire_datetime < now, ..item }
    } else {
        item
    }
}

/// The body of an item's box.
pub open spec fn item_body(item: ItemView) -> Seq<char> {
    " Objective: "@ + item.text + " "@
}

/// What reading the header of an item comes to at the moment `now`.
pub open spec fn header_at(before: ItemView, now: i64, after: ItemView, header: Seq<char>) -> bool {
    header == item_header(before, now) && after == item_seen(before, now)
}

impl ItemWidget {
    /// The header of the item's box as it is at the moment `now`. An item
    /// whose deadline has passed is marked late.
    pub fn header_at(self, state: &mut ItemState, now: i64) -> (header: String)
        ensures
            header@ == item_header(old(state)@, now),
            final(state)@ == item_seen(old(state)@, now),
    {
        let mut header = String::new();
        if state.is_selected {
            push_text(&mut header, " > Status: [");
        } else {
            push_text(&mut header, " Status: [");
        }
        if state.is_finished {
            push_text(&mut header, "✓");
        } else {
            push_text(&mut header, "x");
        }
        if state.has_expire_datetime {
            push_text(&mut header, "] | Time Left: ");
            let words = state.time_offset_at(now);
            push_text(&mut header, words.as_str());
            push_text(&mut header, " ");
        } else {
            push_text(&mut header, "] ");
        }
        assert(header@ =~= item_header(old(state)@, now));
        header
    }

    /// The header of the item's box by the clock of this machine.
    pub fn render(self, state: &mut ItemState) -> (header: String)
        ensures
            exists|now: i64| #[trigger] header_at(old(state)@, now, final(state)@, header@),
    {
        let now = now_timestamp();
        let header = self.header_at(state, now);
        assert(header_at(old(state)@, now, state@, header@));
        header
    }

    /// The body of the item's box: the task.
    pub fn body(self, state: &ItemState) -> (body: String)
        ensures
            body@ == item_body(state@),
    {
        let mut body = String::new();
        push_text(&mut body, " Objective: ");
        push_text(&mut body, state.text.as_str());
        push_text(&mut body, " ");
        assert(body@ =~= item_body(state@));
        body
    }

    /// The state in which the item is shown.
    pub fn tone(self, state: &ItemState) -> (tone: Tone)
        ensures
            tone == tone_of(state@),
    {
        state.tone()
    }
}

} // verus!
