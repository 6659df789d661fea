//! What is kept from one session to the next: a flat record of arrays, one
//! array for each field of the workspaces and one for each field of the
//! items, and the way from the state to the record and back.

use vstd::prelude::*;
use crate::app::App;
use crate::item::{ItemRecord, ItemView};
use crate::workspace::WorkspaceView;

verus! {

/// The stored record. An array that is absent says nothing about its field;
/// it does not say that there are no entities.
#[derive(Debug)]
pub struct Queries {
    pub workspace_slot: Option<Vec<usize>>,
    pub workspace_title: Option<Vec<String>>,
    pub workspace_num_of_item: Option<Vec<usize>>,
    pub workspace_is_selected: Option<Vec<bool>>,
    pub item_slot: Option<Vec<usize>>,
    /// For each item the index of the workspace that holds it.
    pub item_workspace: Option<Vec<usize>>,
    pub item_text: Option<Vec<String>>,
    pub item_expire_datetime_string: Option<Vec<String>>,
    pub item_is_finished: Option<Vec<bool>>,
    pub item_is_selected: Option<Vec<bool>>,
}

/// The stored record as plain values; an absent array is an empty one.
pub ghost struct QueriesView {
    pub workspace_slot: Seq<nat>,
    pub workspace_title: Seq<Seq<char>>,
    pub workspace_num_of_item: Seq<nat>,
    pub workspace_is_selected: Seq<bool>,
    pub item_slot: Seq<nat>,
    pub item_workspace: Seq<nat>,
    pub item_text: Seq<Seq<char>>,
    pub item_expire_datetime_string: Seq<Seq<char>>,
    pub item_is_finished: Seq<bool>,
    pub item_is_selected: Seq<bool>,
}

/// The numbers of an array that may be absent.
pub open spec fn numbers(array: Option<Vec<usize>>) -> Seq<nat> {
    match array {
        Some(v) => Seq::new(v@.len(), |i: int| v@[i] as nat),
        None => Seq::empty(),
    }
}

/// The texts of an array that may be absent.
pub open spec fn texts(array: Option<Vec<String>>) -> Seq<Seq<char>> {
    match array {
        Some(v) => v.deep_view(),
        None => Seq::empty(),
    }
}

/// The flags of an array that may be absent.
pub open spec fn flags(array: Option<Vec<bool>>) -> Seq<bool> {
    match array {
        Some(v) => v@,
        None => Seq::empty(),
    }
}

impl View for Queries {
    type V = QueriesView;

    open spec fn view(&self) -> QueriesView {
        QueriesView {
            workspace_slot: numbers(self.workspace_slot),
            workspace_title: texts(self.workspace_title),
            workspace_num_of_item: numbers(self.workspace_num_of_item),
            workspace_is_selected: flags(self.workspace_is_selected),
            item_slot: numbers(self.item_slot),
            item_workspace: numbers(self.item_workspace),
            item_text: texts(self.item_text),
            item_expire_datetime_string: texts(self.item_expire_datetime_string),
            item_is_finished: flags(self.item_is_finished),
            item_is_selected: flags(self.item_is_selected),
        }
    }
}

/// An item as it is stored: what is kept of it, and the index of the
/// workspace that holds it.
pub ghost struct StoredItem {
    pub workspace: nat,
    pub record: ItemRecord,
}

/// What is kept of each item of a list.
pub open spec fn records(list: Seq<ItemView>) -> Seq<ItemRecord> {
    Seq::new(list.len(), |i: int| list[i].record())
}

/// What is kept of each item of each workspace.
pub open spec fn all_records(items: Seq<Seq<ItemView>>) -> Seq<Seq<ItemRecord>> {
    Seq::new(items.len(), |w: int| records(items[w]))
}

/// The items of one workspace as they are stored.
pub open spec fn tagged(list: Seq<ItemRecord>, workspace: nat) -> Seq<StoredItem> {
    Seq::new(list.len(), |i: int| StoredItem { workspace, record: list[i] })
}

/// The items of all workspaces in the order in which they are stored:
/// workspace by workspace, and within a workspace by slot.
pub open spec fn flat(items: Seq<Seq<ItemRecord>>) -> Seq<StoredItem>
    decreases items.len(),
{
    if items.len() == 0 {
        Seq::empty()
    } else {
        flat(items.drop_last()) + tagged(items.last(), (items.len() - 1) as nat)
    }
}

/// The record that stores the given workspaces and items: every array has
/// one entry for each entity, in storage order.
pub open spec fn stored(workspaces: Seq<WorkspaceView>, items: Seq<Seq<ItemRecord>>) -> QueriesView {
    let entries = flat(items);
    QueriesView {
        workspace_slot: Seq::new(workspaces.len(), |k: int| workspaces[k].slot),
        workspace_title: Seq::new(workspaces.len(), |k: int| workspaces[k].title),
        workspace_num_of_item: Seq::new(workspaces.len(), |k: int| workspaces[k].num_of_item),
        workspace_is_selected: Seq::new(workspaces.len(), |k: int| workspaces[k].is_selected),
        item_slot: Seq::new(entries.len(), |j: int| entries[j].record.slot),
        item_workspace: Seq::new(entries.len(), |j: int| entries[j].workspace),
        item_text: Seq::new(entries.len(), |j: int| entries[j].record.text),
        item_expire_datetime_string: Seq::new(
            entries.len(),
            |j: int| entries[j].record.expire_datetime_string,
        ),
        item_is_finished: Seq::new(entries.len(), |j: int| entries[j].record.is_finished),
        item_is_selected: Seq::new(entries.len(), |j: int| entries[j].record.is_selected),
    }
}

impl Queries {
    /// The record with every array absent.
    pub fn new() -> (queries: Queries)
        ensures
            queries@ == stored(Seq::empty(), Seq::empty()),
    {
        let queries = Queries {
            workspace_slot: None,
            workspace_title: None,
            workspace_num_of_item: None,
            workspace_is_selected: None,
            item_slot: None,
            item_workspace: None,
            item_text: None,
            item_expire_datetime_string: None,
            item_is_finished: None,
            item_is_selected: None,
        };
        assert(flat(Seq::<Seq<ItemRecord>>::empty()) =~= Seq::<StoredItem>::empty());
        assert(queries@.workspace_slot =~= stored(Seq::empty(), Seq::empty()).workspace_slot);
        assert(queries@.workspace_title =~= stored(Seq::empty(), Seq::empty()).workspace_title);
        assert(queries@.workspace_num_of_item =~= stored(
            Seq::empty(),
            Seq::empty(),
        ).workspace_num_of_item);
        assert(queries@.workspace_is_selected =~= stored(
            Seq::empty(),
            Seq::empty(),
        ).workspace_is_selected);
        assert(queries@.item_slot =~= stored(Seq::empty(), Seq::empty()).item_slot);
        assert(queries@.item_workspace =~= stored(Seq::empty(), Seq::empty()).item_workspace);
        assert(queries@.item_text =~= stored(Seq::empty(), Seq::empty()).item_text);
        assert(queries@.item_expire_datetime_string =~= stored(
            Seq::empty(),
            Seq::empty(),
        ).item_expire_datetime_string);
        assert(queries@.item_is_finished =~= stored(Seq::empty(), Seq::empty()).item_is_finished);
        assert(queries@.item_is_selected =~= stored(Seq::empty(), Seq::empty()).item_is_selected);
        queries
    }
}

impl Default for Queries {
    fn default() -> (queries: Queries)
        ensures
            queries@ == stored(Seq::empty(), Seq::empty()),
    {
        Queries::new()
    }
}

/// The record that a session starts from: the one that was read, or the
/// empty one where nothing was stored or it could not be read.
pub fn resolve_queries(loaded: Option<Queries>) -> (queries: Queries)
    ensures
        match loaded {
            Some(read) => queries == read,
            None => queries@ == stored(Seq::empty(), Seq::empty()),
        },
{
    match loaded {
        Some(read) => read,
        None => Queries::new(),
    }
}

/// Whether six arrays hold the fields of the stored items `entries`, entry
/// by entry.
pub open spec fn arrays_hold(
    slot: Seq<usize>,
    workspace: Seq<usize>,
    text: Seq<String>,
    deadline: Seq<String>,
    finished: Seq<bool>,
    selected: Seq<bool>,
    entries: Seq<StoredItem>,
) -> bool {
    &&& slot.len() == entries.len()
    &&& workspace.len() == entries.len()
    &&& text.len() == entries.len()
    &&& deadline.len() == entries.len()
    &&& finished.len() == entries.len()
    &&& selected.len() == entries.len()
    &&& forall|j: int|
        0 <= j < entries.len() ==> {
            &&& slot[j] == (#[trigger] entries[j]).record.slot
            &&& workspace[j] == entries[j].workspace
            &&& text[j]@ == entries[j].record.text
            &&& deadline[j]@ == entries[j].record.expire_datetime_string
            &&& finished[j] == entries[j].record.is_finished
            &&& selected[j] == entries[j].record.is_selected
        }
}

/// The stored items of the first `w + 1` workspaces are those of the first
/// `w`, followed by the items of the workspace at `w`.
pub proof fn lemma_flat_step(items: Seq<Seq<ItemRecord>>, w: int)
    requires
        0 <= w < items.len(),
    ensures
        flat(items.take(w + 1)) == flat(items.take(w)) + tagged(items[w], w as nat),
{
    assert(items.take(w + 1).drop_last() =~= items.take(w));
    assert(items.take(w + 1).last() == items[w]);
}

impl Queries {
    /// The record that stores the workspaces and items of `app`. Modes,
    /// prompts and the viewport are not stored, and of an item's deadline
    /// only the text that was typed.
    pub fn store(app: &App) -> (queries: Queries)
        ensures
            queries@ == stored(app@.workspaces, all_records(app@.items)),
    {
        let mut workspace_slot: Vec<usize> = Vec::new();
        let mut workspace_title: Vec<String> = Vec::new();
        let mut workspace_num_of_item: Vec<usize> = Vec::new();
        let mut workspace_is_selected: Vec<bool> = Vec::new();
        let mut k: usize = 0;
        while k < app.workspaces.len()
            invariant
                k <= app.workspaces@.len(),
                workspace_slot@.len() == k,
                workspace_title@.len() == k,
                workspace_num_of_item@.len() == k,
                workspace_is_selected@.len() == k,
                forall|i: int|
                    0 <= i < k ==> {
                        &&& workspace_slot@[i] == (#[trigger] app.workspaces@[i]).slot
                        &&& workspace_title@[i]@ == app.workspaces@[i].title@
                        &&& workspace_num_of_item@[i] == app.workspaces@[i].num_of_item
                        &&& workspace_is_selected@[i] == app.workspaces@[i].is_selected
                    },
            decreases app.workspaces@.len() - k,
        {
            workspace_slot.push(app.workspaces[k].slot);
            workspace_title.push(app.workspaces[k].title.clone());
            workspace_num_of_item.push(app.workspaces[k].num_of_item);
            workspace_is_selected.push(app.workspaces[k].is_selected);
            k += 1;
        }
        let mut item_slot: Vec<usize> = Vec::new();
        let mut item_workspace: Vec<usize> = Vec::new();
        let mut item_text: Vec<String> = Vec::new();
        let mut item_expire_datetime_string: Vec<String> = Vec::new();
        let mut item_is_finished: Vec<bool> = Vec::new();
        let mut item_is_selected: Vec<bool> = Vec::new();
        let ghost lists = all_records(app@.items);
        let ghost mut done: Seq<StoredItem> = Seq::empty();
        assert(flat(lists.take(0)) =~= done);
        let mut w: usize = 0;
        while w < app.items.len()
            invariant
                w <= app.items@.len(),
                lists == all_records(app@.items),
                done == flat(lists.take(w as int)),
                arrays_hold(
                    item_slot@,
                    item_workspace@,
                    item_text@,
                    item_expire_datetime_string@,
                    item_is_finished@,
                    item_is_selected@,
                    done,
                ),
            decreases app.items@.len() - w,
        {
            let ghost before = done;
            let list = &app.items[w];
            let mut i: usize = 0;
            assert(before + tagged(lists[w as int].take(0), w as nat) =~= done);
            while i < list.len()
                invariant
                    i <= list@.len(),
                    w < app.items@.len(),
                    list == app.items@[w as int],
                    lists == all_records(app@.items),
                    done == before + tagged(lists[w as int].take(i as int), w as nat),
                    arrays_hold(
                        item_slot@,
                        item_workspace@,
                        item_text@,
                        item_expire_datetime_string@,
                        item_is_finished@,
                        item_is_selected@,
                        done,
                    ),
                decreases list@.len() - i,
            {
                item_slot.push(list[i].slot);
                item_workspace.push(w);
                item_text.push(list[i].text.clone());
                item_expire_datetime_string.push(list[i].expire_datetime_string.clone());
                item_is_finished.push(list[i].is_finished);
                item_is_selected.push(list[i].is_selected);
                proof {
                    let entry = StoredItem { workspace: w as nat, record: lists[w as int][i as int] };
                    assert(lists[w as int][i as int] == list@[i as int]@.record());
                    assert(before + tagged(lists[w as int].take(i + 1), w as nat) =~= done.push(
                        entry,
                    ));
                    done = done.push(entry);
                }
                i += 1;
            }
            proof {
                assert(lists[w as int].take(list@.len() as int) =~= lists[w as int]);
                lemma_flat_step(lists, w as int);
            }
            w += 1;
        }
        proof {
            assert(lists.take(app.items@.len() as int) =~= lists);
        }
        let queries = Queries {
            workspace_slot: Some(workspace_slot),
            workspace_title: Some(workspace_title),
            workspace_num_of_item: Some(workspace_num_of_item),
            workspace_is_selected: Some(workspace_is_selected),
            item_slot: Some(item_slot),
            item_workspace: Some(item_workspace),
            item_text: Some(item_text),
            item_expire_datetime_string: Some(item_expire_datetime_string),
            item_is_finished: Some(item_is_finished),
            item_is_selected: Some(item_is_selected),
        };
        proof {
            let want = stored(app@.workspaces, lists);
            assert(queries@.workspace_slot =~= want.workspace_slot);
            assert(queries@.workspace_title =~= want.workspace_title);
            assert(queries@.workspace_num_of_item =~= want.workspace_num_of_item);
            assert(queries@.workspace_is_selected =~= want.workspace_is_selected);
            assert(queries@.item_slot =~= want.item_slot);
            assert(queries@.item_workspace =~= want.item_workspace);
            assert(queries@.item_text =~= want.item_text);
            assert(queries@.item_expire_datetime_string =~= want.item_expire_datetime_string);
            assert(queries@.item_is_finished =~= want.item_is_finished);
            assert(queries@.item_is_selected =~= want.item_is_selected);
        }
        queries
    }
}

} // verus!
