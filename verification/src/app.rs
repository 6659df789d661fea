//! The application state: the mode of the interface, the workspaces with
//! their items, the two cursors, and the rules that hold of them between any
//! two commands.

use vstd::prelude::*;
use crate::item::{AddItemState, EditItemState, ItemInput, ItemState, ItemView};
use crate::layout::HelpWidget;
use crate::model::{
    item_slots_dense, items_selected, lemma_count_items, lemma_count_workspaces, select_item,
    select_workspace, selected_items, selected_workspaces, workspace_slots_dense,
    workspaces_selected,
};
use crate::scroll::SummaryScrollState;
use crate::workspace::{
    AddWorkspaceState, EditWorkspaceState, TitleInput, WorkspaceState, WorkspaceView,
};

verus! {

/// What the interface is showing and what the keys mean.
#[derive(Debug, Clone, Copy, PartialEq, Eq, Structural)]
pub enum Mode {
    AddWorkspace,
    EditWorkspace,
    DisplayWorkspace,
    AddItem,
    EditItem,
    DisplayItem,
    DisplayHelp,
}

/// The page of the help screen that is open.
#[derive(Debug, Clone, Copy, PartialEq, Eq, Structural)]
pub enum HelpMode {
    ItemHelp,
    WorkspaceHelp,
}

impl Mode {
    /// Whether the mode is a passing one: a prompt or the help screen, which
    /// is entered from a list and left for the list it was entered from.
    pub open spec fn ephemeral(self) -> bool {
        !(self is DisplayWorkspace || self is DisplayItem)
    }

    /// Whether the mode is a passing one.
    pub fn is_ephemeral(self) -> (passing: bool)
        ensures
            passing == self.ephemeral(),
    {
        match self {
            Mode::DisplayWorkspace => false,
            Mode::DisplayItem => false,
            _ => true,
        }
    }
}

impl HelpMode {
    /// The other page.
    pub open spec fn other(self) -> HelpMode {
        match self {
            HelpMode::ItemHelp => HelpMode::WorkspaceHelp,
            HelpMode::WorkspaceHelp => HelpMode::ItemHelp,
        }
    }

    /// The other page.
    pub fn cycle(self) -> (page: HelpMode)
        ensures
            page == self.other(),
    {
        match self {
            HelpMode::ItemHelp => HelpMode::WorkspaceHelp,
            HelpMode::WorkspaceHelp => HelpMode::ItemHelp,
        }
    }
}

/// The whole state of the application.
#[derive(Debug)]
pub struct App {
    pub mode: Mode,
    /// The list that the current prompt or the help screen was opened from.
    pub previous_mode: Mode,
    pub help_mode: HelpMode,
    pub workspaces: Vec<WorkspaceState>,
    pub add_workspace: AddWorkspaceState,
    pub edit_workspace: EditWorkspaceState,
    /// Index of the current workspace; zero where there is none.
    pub current_workspace: usize,
    /// The items of each workspace, in the order of the workspaces.
    pub items: Vec<Vec<ItemState>>,
    pub add_item: AddItemState,
    pub edit_item: EditItemState,
    /// Index of the current item in the current workspace; zero where there is none.
    pub current_item: usize,
    pub summary_scroll_state: SummaryScrollState,
    pub help: HelpWidget,
    /// Whether something was added or changed since the state was last saved.
    pub is_modified: bool,
}

/// The state of the application as plain values.
pub ghost struct AppView {
    pub mode: Mode,
    pub previous_mode: Mode,
    pub help_mode: HelpMode,
    pub workspaces: Seq<WorkspaceView>,
    pub add_workspace: TitleInput,
    pub edit_workspace: TitleInput,
    pub current_workspace: nat,
    pub items: Seq<Seq<ItemView>>,
    pub add_item: ItemInput,
    pub edit_item: ItemInput,
    pub current_item: nat,
    pub summary_scroll_state: SummaryScrollState,
    pub is_modified: bool,
}

impl View for App {
    type V = AppView;

    open spec fn view(&self) -> AppView {
        AppView {
            mode: self.mode,
            previous_mode: self.previous_mode,
            help_mode: self.help_mode,
            workspaces: self.workspaces.deep_view(),
            add_workspace: self.add_workspace@,
            edit_workspace: self.edit_workspace@,
            current_workspace: self.current_workspace as nat,
            items: self.items.deep_view(),
            add_item: self.add_item@,
            edit_item: self.edit_item@,
            current_item: self.current_item as nat,
            summary_scroll_state: self.summary_scroll_state,
            is_modified: self.is_modified,
        }
    }
}

/// A cursor brought back into a list of `len` entities: the last entity
/// where it pointed past the end, and zero in an empty list.
pub open spec fn clamped(len: nat, cursor: nat) -> nat {
    if len == 0 {
        0
    } else if cursor >= len {
        (len - 1) as nat
    } else {
        cursor
    }
}

impl AppView {
    /// Whether there is a current workspace.
    pub open spec fn has_workspace(self) -> bool {
        self.current_workspace < self.workspaces.len()
    }

    /// The items of the current workspace; none where there is no workspace.
    pub open spec fn current_items(self) -> Seq<ItemView> {
        if self.current_workspace < self.items.len() {
            self.items[self.current_workspace as int]
        } else {
            Seq::empty()
        }
    }

    /// Whether there is a current item.
    pub open spec fn has_item(self) -> bool {
        self.current_item < self.current_items().len()
    }

    /// Whether every workspace has its list of items, every slot is the index
    /// of its entity, and every workspace but the one at `stale` counts its
    /// items rightly.
    pub open spec fn coherent_but(self, stale: int) -> bool {
        &&& self.items.len() == self.workspaces.len()
        &&& workspace_slots_dense(self.workspaces)
        &&& forall|w: int| 0 <= w < self.items.len() ==> item_slots_dense(#[trigger] self.items[w])
        &&& forall|w: int|
            0 <= w < self.workspaces.len() && w != stale ==> (#[trigger] self.workspaces[w]).num_of_item
                == self.items[w].len()
    }

    /// Whether the rules hold that hold between any two commands: slots are
    /// dense, every workspace counts its items rightly, both cursors point at
    /// an entity or are zero where there is none, exactly the current
    /// workspace and, among its items, exactly the current item are flagged as
    /// selected, and the mode to return to is one of the two lists.
    pub open spec fn well_formed(self) -> bool {
        &&& self.coherent_but(-1)
        &&& self.current_workspace == clamped(self.workspaces.len(), self.current_workspace)
        &&& self.current_item == clamped(self.current_items().len(), self.current_item)
        &&& forall|w: int|
            0 <= w < self.workspaces.len() ==> (#[trigger] self.workspaces[w]).is_selected == (w
                == self.current_workspace)
        &&& forall|i: int|
            0 <= i < self.current_items().len() ==> (#[trigger] self.current_items()[i]).is_selected
                == (i == self.current_item)
        &&& !self.previous_mode.ephemeral()
    }

    /// The state with what is derived brought up to date: both cursors are
    /// brought back into their lists, the current workspace counts its items,
    /// and the selection flags of the workspaces and of the current
    /// workspace's items follow the cursors.
    pub open spec fn settled(self) -> AppView {
        if self.workspaces.len() == 0 || self.items.len() != self.workspaces.len() {
            AppView { current_workspace: 0, current_item: 0, ..self }
        } else {
            let w = clamped(self.workspaces.len(), self.current_workspace) as int;
            let i = clamped(self.items[w].len(), self.current_item);
            AppView {
                current_workspace: w as nat,
                current_item: i,
                workspaces: workspaces_selected(
                    self.workspaces.update(
                        w,
                        WorkspaceView { num_of_item: self.items[w].len(), ..self.workspaces[w] },
                    ),
                    w as nat,
                ),
                items: self.items.update(w, items_selected(self.items[w], i)),
                ..self
            }
        }
    }

    /// The state at the start of a session with nothing stored: no workspace,
    /// the item list shown, every prompt unused.
    pub open spec fn initial() -> AppView {
        AppView {
            mode: Mode::DisplayItem,
            previous_mode: Mode::DisplayItem,
            help_mode: HelpMode::ItemHelp,
            workspaces: Seq::empty(),
            add_workspace: TitleInput::fresh(),
            edit_workspace: TitleInput::fresh(),
            current_workspace: 0,
            items: Seq::empty(),
            add_item: ItemInput::fresh(),
            edit_item: ItemInput::fresh(),
            current_item: 0,
            summary_scroll_state: SummaryScrollState { offset: 0, queued_scroll: None },
            is_modified: false,
        }
    }
}

impl App {
    /// The state at the start of a session with nothing stored.
    pub fn new() -> (app: App)
        ensures
            app@ == AppView::initial(),
            app@.well_formed(),
    {
        let app = App {
            mode: Mode::DisplayItem,
            previous_mode: Mode::DisplayItem,
            help_mode: HelpMode::ItemHelp,
            workspaces: Vec::new(),
            add_workspace: AddWorkspaceState::new(),
            edit_workspace: EditWorkspaceState::new(),
            current_workspace: 0,
            items: Vec::new(),
            add_item: AddItemState::new(),
            edit_item: EditItemState::new(),
            current_item: 0,
            summary_scroll_state: SummaryScrollState::new(),
            help: HelpWidget {  },
            is_modified: false,
        };
        assert(app.workspaces.deep_view() =~= Seq::<WorkspaceView>::empty());
        assert(app.items.deep_view() =~= Seq::<Seq<ItemView>>::empty());
        app
    }

    /// Brings what is derived up to date after a command: the cursors, the
    /// current workspace's count of its items, and the selection flags.
    pub fn settle(&mut self)
        ensures
            final(self)@ == old(self)@.settled(),
    {
        let len = self.workspaces.len();
        if len == 0 || self.items.len() != len {
            self.current_workspace = 0;
            self.current_item = 0;
            return ;
        }
        if self.current_workspace >= len {
            self.current_workspace = len - 1;
        }
        let w = self.current_workspace;
        let count = self.items[w].len();
        if count == 0 {
            self.current_item = 0;
        } else if self.current_item >= count {
            self.current_item = count - 1;
        }
        self.workspaces[w].num_of_item = count;
        assert(self.workspaces.deep_view() =~= old(self)@.workspaces.update(
            w as int,
            WorkspaceView { num_of_item: count as nat, ..old(self)@.workspaces[w as int] },
        ));
        select_workspace(&mut self.workspaces, w);
        select_item(&mut self.items[w], self.current_item);
        assert(self.items.deep_view() =~= old(self)@.items.update(
            w as int,
            items_selected(old(self)@.items[w as int], self.current_item as nat),
        ));
    }
}

/// Settling a state in which only the current workspace may count its items
/// wrongly gives a state in which every rule holds.
pub proof fn lemma_settled_well_formed(state: AppView)
    requires
        state.coherent_but(clamped(state.workspaces.len(), state.current_workspace) as int),
        !state.previous_mode.ephemeral(),
    ensures
        state.settled().well_formed(),
{
    let after = state.settled();
    if state.workspaces.len() > 0 {
        let w = clamped(state.workspaces.len(), state.current_workspace) as int;
        assert forall|v: int| 0 <= v < after.items.len() implies item_slots_dense(
            #[trigger] after.items[v],
        ) by {
            assert(item_slots_dense(state.items[v]));
        }
        assert(after.current_items() == after.items[w]);
    }
}

/// Settling changes nothing in a state in which every rule holds.
pub proof fn lemma_settled_fixed(state: AppView)
    requires
        state.well_formed(),
    ensures
        state.settled() == state,
{
    let after = state.settled();
    if state.workspaces.len() > 0 {
        let w = state.current_workspace as int;
        assert(state.current_items() == state.items[w]);
        assert(after.workspaces =~= state.workspaces);
        assert(items_selected(state.items[w], state.current_item) =~= state.items[w]);
        assert(after.items =~= state.items);
    }
}

/// The number of items in all workspaces together.
pub open spec fn total_items(items: Seq<Seq<ItemView>>) -> nat
    decreases items.len(),
{
    if items.len() == 0 {
        0
    } else {
        total_items(items.drop_last()) + items.last().len()
    }
}

/// Taking one workspace's list away lowers the number of items by the length
/// of that list.
pub proof fn lemma_total_without(items: Seq<Seq<ItemView>>, at: int)
    requires
        0 <= at < items.len(),
    ensures
        total_items(items.remove(at)) + items[at].len() == total_items(items),
    decreases items.len(),
{
    if at == items.len() - 1 {
        assert(items.remove(at) =~= items.drop_last());
    } else {
        assert(items.remove(at).drop_last() =~= items.drop_last().remove(at));
        assert(items.remove(at).last() == items.last());
        lemma_total_without(items.drop_last(), at);
    }
}

/// The number of items depends on the lengths of the lists alone.
pub proof fn lemma_total_by_lengths(a: Seq<Seq<ItemView>>, b: Seq<Seq<ItemView>>)
    requires
        a.len() == b.len(),
        forall|w: int| 0 <= w < a.len() ==> (#[trigger] a[w]).len() == b[w].len(),
    ensures
        total_items(a) == total_items(b),
    decreases a.len(),
{
    if a.len() > 0 {
        assert forall|w: int| 0 <= w < a.drop_last().len() implies (#[trigger] a.drop_last()[w]).len()
            == b.drop_last()[w].len() by {
            assert(a.drop_last()[w] == a[w]);
            assert(b.drop_last()[w] == b[w]);
        }
        assert(a.last().len() == b.last().len()) by {
            assert(a.last() == a[a.len() - 1]);
        }
        lemma_total_by_lengths(a.drop_last(), b.drop_last());
    }
}

/// In a state in which the rules hold, exactly one workspace is flagged as
/// selected unless there is none, and exactly one item of the current
/// workspace unless it has none.
pub proof fn lemma_single_selection(state: AppView)
    requires
        state.well_formed(),
    ensures
        state.workspaces.len() > 0 ==> selected_workspaces(state.workspaces) == 1,
        state.workspaces.len() == 0 ==> selected_workspaces(state.workspaces) == 0,
        state.current_items().len() > 0 ==> selected_items(state.current_items()) == 1,
        state.has_workspace() ==> state.workspaces[state.current_workspace as int].is_selected,
        state.has_item() ==> state.current_items()[state.current_item as int].is_selected,
{
    lemma_count_workspaces(state.workspaces, state.current_workspace as int);
    lemma_count_items(state.current_items(), state.current_item as int);
}

/// Whether exactly the item at `cursor` is flagged as selected.
pub open spec fn flags_follow(list: Seq<ItemView>, cursor: nat) -> bool {
    forall|i: int| 0 <= i < list.len() ==> (#[trigger] list[i]).is_selected == (i == cursor)
}

fn slots_in_order(list: &Vec<ItemState>) -> (ok: bool)
    ensures
        ok == item_slots_dense(list.deep_view()),
{
    let mut i: usize = 0;
    while i < list.len()
        invariant
            i <= list@.len(),
            forall|e: int| 0 <= e < i ==> (#[trigger] list.deep_view()[e]).slot == e,
        decreases list@.len() - i,
    {
        if list[i].slot != i {
            assert(list.deep_view()[i as int].slot != i);
            return false;
        }
        i += 1;
    }
    true
}

fn flags_in_order(list: &Vec<ItemState>, cursor: usize) -> (ok: bool)
    ensures
        ok == flags_follow(list.deep_view(), cursor as nat),
{
    let mut i: usize = 0;
    while i < list.len()
        invariant
            i <= list@.len(),
            forall|e: int|
                0 <= e < i ==> (#[trigger] list.deep_view()[e]).is_selected == (e == cursor),
        decreases list@.len() - i,
    {
        if list[i].is_selected != (i == cursor) {
            assert(list.deep_view()[i as int].is_selected != (i == cursor));
            return false;
        }
        i += 1;
    }
    true
}

impl App {
    /// Whether the rules hold of the state. Every command keeps them; this
    /// is for a state that was put together by hand.
    pub fn is_well_formed(&self) -> (ok: bool)
        ensures
            ok == self@.well_formed(),
    {
        let len = self.workspaces.len();
        if self.items.len() != len {
            return false;
        }
        if self.previous_mode.is_ephemeral() {
            return false;
        }
        if len == 0 {
            proof {
                assert(self@.current_items() =~= Seq::<ItemView>::empty());
            }
            return self.current_workspace == 0 && self.current_item == 0;
        }
        if self.current_workspace >= len {
            return false;
        }
        let mut w: usize = 0;
        while w < len
            invariant
                w <= len,
                len == self.workspaces@.len(),
                len == self.items@.len(),
                forall|v: int|
                    0 <= v < w ==> {
                        &&& (#[trigger] self@.workspaces[v]).slot == v
                        &&& self@.workspaces[v].num_of_item == self@.items[v].len()
                        &&& self@.workspaces[v].is_selected == (v == self.current_workspace)
                    },
                forall|v: int| 0 <= v < w ==> item_slots_dense(#[trigger] self@.items[v]),
            decreases len - w,
        {
            let workspace = &self.workspaces[w];
            proof {
                assert(self@.workspaces[w as int] == workspace@);
                assert(self@.items[w as int] == self.items@[w as int].deep_view());
            }
            if workspace.slot != w || workspace.num_of_item != self.items[w].len()
                || workspace.is_selected != (w == self.current_workspace) {
                return false;
            }
            if !slots_in_order(&self.items[w]) {
                return false;
            }
            proof {
                assert(self@.workspaces[w as int].slot == w);
                assert(self@.workspaces[w as int].num_of_item == self@.items[w as int].len());
                assert(item_slots_dense(self@.items[w as int]));
            }
            w += 1;
        }
        proof {
            assert(self@.coherent_but(-1));
            assert(self@.current_workspace == clamped(
                self@.workspaces.len(),
                self@.current_workspace,
            ));
        }
        let list = &self.items[self.current_workspace];
        proof {
            assert(self@.current_items() == list.deep_view());
        }
        if list.len() == 0 {
            if self.current_item != 0 {
                return false;
            }
        } else if self.current_item >= list.len() {
            return false;
        }
        flags_in_order(list, self.current_item)
    }
}

} // verus!
