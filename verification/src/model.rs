//! The entity model: the operations that change a list of workspaces or a
//! list of items, and the rules that every such list obeys. Positions are
//! dense: the entity at index `i` has slot `i`. The lists do not know which
//! entity is current; whoever moves the cursor recomputes the selection flags.

use vstd::prelude::*;
use crate::item::{ItemState, ItemView};
use crate::workspace::{WorkspaceState, WorkspaceView};

verus! {

/// An index that a list has no entity at.
#[derive(Debug, Clone, Copy, PartialEq, Eq, Structural)]
pub struct IndexError {
    pub index: usize,
    pub len: usize,
}

/// A slot moved down by one, and never below zero.
pub open spec fn lowered(slot: nat) -> nat {
    if slot > 0 {
        (slot - 1) as nat
    } else {
        0
    }
}

/// Whether each workspace's slot is its index in the list.
pub open spec fn workspace_slots_dense(list: Seq<WorkspaceView>) -> bool {
    forall|i: int| 0 <= i < list.len() ==> (#[trigger] list[i]).slot == i
}

/// Whether each item's slot is its index in the list.
pub open spec fn item_slots_dense(list: Seq<ItemView>) -> bool {
    forall|i: int| 0 <= i < list.len() ==> (#[trigger] list[i]).slot == i
}

/// The slots of a list of workspaces, in storage order.
pub open spec fn workspace_slots(list: Seq<WorkspaceView>) -> Seq<nat> {
    Seq::new(list.len(), |i: int| list[i].slot)
}

/// The slots of a list of items, in storage order.
pub open spec fn item_slots(list: Seq<ItemView>) -> Seq<nat> {
    Seq::new(list.len(), |i: int| list[i].slot)
}

/// The numbers from zero up to, and without, `n`.
pub open spec fn range(n: nat) -> Seq<nat> {
    Seq::new(n, |i: int| i as nat)
}

/// The list with `workspace` appended at the slot that follows the last.
pub open spec fn workspaces_with(list: Seq<WorkspaceView>, workspace: WorkspaceView) -> Seq<
    WorkspaceView,
> {
    list.push(WorkspaceView { slot: list.len(), ..workspace })
}

/// The list with `item` appended at the slot that follows the last.
pub open spec fn items_with(list: Seq<ItemView>, item: ItemView) -> Seq<ItemView> {
    list.push(ItemView { slot: list.len(), ..item })
}

/// The list without the workspace at `index`: those before it are unchanged,
/// those after it move up by one place and have their slot lowered by one.
pub open spec fn workspaces_without(list: Seq<WorkspaceView>, index: int) -> Seq<WorkspaceView>
    recommends
        0 <= index < list.len(),
{
    Seq::new(
        (list.len() - 1) as nat,
        |i: int|
            if i < index {
                list[i]
            } else {
                WorkspaceView { slot: lowered(list[i + 1].slot), ..list[i + 1] }
            },
    )
}

/// The list without the item at `index`: those before it are unchanged, those
/// after it move up by one place and have their slot lowered by one.
pub open spec fn items_without(list: Seq<ItemView>, index: int) -> Seq<ItemView>
    recommends
        0 <= index < list.len(),
{
    Seq::new(
        (list.len() - 1) as nat,
        |i: int|
            if i < index {
                list[i]
            } else {
                ItemView { slot: lowered(list[i + 1].slot), ..list[i + 1] }
            },
    )
}

/// The list with each workspace flagged as selected exactly if its slot is `target`.
pub open spec fn workspaces_selected(list: Seq<WorkspaceView>, target: nat) -> Seq<WorkspaceView> {
    Seq::new(
        list.len(),
        |i: int| WorkspaceView { is_selected: list[i].slot == target, ..list[i] },
    )
}

/// The list with each item flagged as selected exactly if its slot is `target`.
pub open spec fn items_selected(list: Seq<ItemView>, target: nat) -> Seq<ItemView> {
    Seq::new(list.len(), |i: int| ItemView { is_selected: list[i].slot == target, ..list[i] })
}

/// The number of workspaces in the list that are flagged as selected.
pub open spec fn selected_workspaces(list: Seq<WorkspaceView>) -> nat
    decreases list.len(),
{
    if list.len() == 0 {
        0
    } else {
        selected_workspaces(list.drop_last()) + if list.last().is_selected {
            1nat
        } else {
            0nat
        }
    }
}

/// The number of items in the list that are flagged as selected.
pub open spec fn selected_items(list: Seq<ItemView>) -> nat
    decreases list.len(),
{
    if list.len() == 0 {
        0
    } else {
        selected_items(list.drop_last()) + if list.last().is_selected {
            1nat
        } else {
            0nat
        }
    }
}

/// Appends a workspace. Its slot becomes the index at which it is stored.
pub fn insert_workspace(list: &mut Vec<WorkspaceState>, workspace: WorkspaceState)
    ensures
        final(list).deep_view() == workspaces_with(old(list).deep_view(), workspace@),
        workspace_slots_dense(old(list).deep_view()) ==> workspace_slots_dense(
            final(list).deep_view(),
        ),
{
    let mut workspace = workspace;
    workspace.slot = list.len();
    list.push(workspace);
    assert(list.deep_view() =~= workspaces_with(old(list).deep_view(), workspace@));
}

/// Appends an item. Its slot becomes the index at which it is stored.
pub fn insert_item(list: &mut Vec<ItemState>, item: ItemState)
    ensures
        final(list).deep_view() == items_with(old(list).deep_view(), item@),
        item_slots_dense(old(list).deep_view()) ==> item_slots_dense(final(list).deep_view()),
{
    let mut item = item;
    item.slot = list.len();
    list.push(item);
    assert(list.deep_view() =~= items_with(old(list).deep_view(), item@));
}

/// Removes the workspace at `index` and closes the gap: every workspace after
/// it has its slot lowered by one. An index past the end changes nothing and
/// is reported.
pub fn remove_workspace(list: &mut Vec<WorkspaceState>, index: usize) -> (outcome: Result<
    (),
    IndexError,
>)
    ensures
        index < old(list)@.len() ==> outcome is Ok && final(list).deep_view()
            == workspaces_without(old(list).deep_view(), index as int),
        index >= old(list)@.len() ==> outcome == Err::<(), IndexError>(
            IndexError { index, len: old(list)@.len() as usize },
        ) && final(list)@ == old(list)@,
        workspace_slots_dense(old(list).deep_view()) ==> workspace_slots_dense(
            final(list).deep_view(),
        ),
{
    if index >= list.len() {
        return Err(IndexError { index, len: list.len() });
    }
    let _ = list.remove(index);
    let mut i: usize = index;
    while i < list.len()
        invariant
            index <= i <= list@.len(),
            index < old(list)@.len(),
            list@.len() == old(list)@.len() - 1,
            forall|j: int| 0 <= j < index ==> #[trigger] list@[j] == old(list)@[j],
            forall|j: int|
                index <= j < i ==> (#[trigger] list@[j])@ == (WorkspaceView {
                    slot: lowered(old(list)@[j + 1]@.slot),
                    ..old(list)@[j + 1]@
                }),
            forall|j: int| i <= j < list@.len() ==> #[trigger] list@[j] == old(list)@[j + 1],
        decreases list@.len() - i,
    {
        if list[i].slot > 0 {
            list[i].slot = list[i].slot - 1;
        }
        i += 1;
    }
    assert(list.deep_view() =~= workspaces_without(old(list).deep_view(), index as int));
    Ok(())
}

/// Removes the item at `index` and closes the gap: every item after it has
/// its slot lowered by one. An index past the end changes nothing and is
/// reported.
pub fn remove_item(list: &mut Vec<ItemState>, index: usize) -> (outcome: Result<(), IndexError>)
    ensures
        index < old(list)@.len() ==> outcome is Ok && final(list).deep_view() == items_without(
            old(list).deep_view(),
            index as int,
        ),
        index >= old(list)@.len() ==> outcome == Err::<(), IndexError>(
            IndexError { index, len: old(list)@.len() as usize },
        ) && final(list)@ == old(list)@,
        item_slots_dense(old(list).deep_view()) ==> item_slots_dense(final(list).deep_view()),
{
    if index >= list.len() {
        return Err(IndexError { index, len: list.len() });
    }
    let _ = list.remove(index);
    let mut i: usize = index;
    while i < list.len()
        invariant
            index <= i <= list@.len(),
            index < old(list)@.len(),
            list@.len() == old(list)@.len() - 1,
            forall|j: int| 0 <= j < index ==> #[trigger] list@[j] == old(list)@[j],
            forall|j: int|
                index <= j < i ==> (#[trigger] list@[j])@ == (ItemView {
                    slot: lowered(old(list)@[j + 1]@.slot),
                    ..old(list)@[j + 1]@
                }),
            forall|j: int| i <= j < list@.len() ==> #[trigger] list@[j] == old(list)@[j + 1],
        decreases list@.len() - i,
    {
        if list[i].slot > 0 {
            list[i].slot = list[i].slot - 1;
        }
        i += 1;
    }
    assert(list.deep_view() =~= items_without(old(list).deep_view(), index as int));
    Ok(())
}

/// Gives the workspace at `index` a new title. An index past the end changes
/// nothing and is reported.
pub fn rename_workspace(list: &mut Vec<WorkspaceState>, index: usize, title: String) -> (outcome:
    Result<(), IndexError>)
    ensures
        index < old(list)@.len() ==> outcome is Ok && final(list).deep_view() == old(
            list,
        ).deep_view().update(
            index as int,
            WorkspaceView { title: title@, ..old(list)@[index as int]@ },
        ),
        index >= old(list)@.len() ==> outcome == Err::<(), IndexError>(
            IndexError { index, len: old(list)@.len() as usize },
        ) && final(list)@ == old(list)@,
{
    if index >= list.len() {
        return Err(IndexError { index, len: list.len() });
    }
    list[index].title = title;
    assert(list.deep_view() =~= old(list).deep_view().update(
        index as int,
        WorkspaceView { title: title@, ..old(list)@[index as int]@ },
    ));
    Ok(())
}

/// Puts `item` in the place of the item at `index`, at that item's slot. An
/// index past the end changes nothing and is reported.
pub fn replace_item(list: &mut Vec<ItemState>, index: usize, item: ItemState) -> (outcome: Result<
    (),
    IndexError,
>)
    ensures
        index < old(list)@.len() ==> outcome is Ok && final(list).deep_view() == old(
            list,
        ).deep_view().update(index as int, ItemView { slot: old(list)@[index as int]@.slot, ..item@ }),
        index >= old(list)@.len() ==> outcome == Err::<(), IndexError>(
            IndexError { index, len: old(list)@.len() as usize },
        ) && final(list)@ == old(list)@,
        item_slots_dense(old(list).deep_view()) ==> item_slots_dense(final(list).deep_view()),
{
    if index >= list.len() {
        return Err(IndexError { index, len: list.len() });
    }
    let mut item = item;
    item.slot = list[index].slot;
    list[index] = item;
    assert(list.deep_view() =~= old(list).deep_view().update(
        index as int,
        ItemView { slot: old(list)@[index as int]@.slot, ..item@ },
    ));
    proof {
        if item_slots_dense(old(list).deep_view()) {
            assert forall|i: int| 0 <= i < list.deep_view().len() implies (
            #[trigger] list.deep_view()[i]).slot == i by {
                assert(old(list).deep_view()[i].slot == i);
            }
        }
    }
    Ok(())
}

/// Recomputes the selection flags of a list of workspaces: a workspace is
/// selected exactly if its slot is `target`.
pub fn select_workspace(list: &mut Vec<WorkspaceState>, target: usize)
    ensures
        final(list).deep_view() == workspaces_selected(old(list).deep_view(), target as nat),
{
    let mut i: usize = 0;
    while i < list.len()
        invariant
            i <= list@.len(),
            list@.len() == old(list)@.len(),
            forall|j: int|
                0 <= j < i ==> (#[trigger] list@[j])@ == (WorkspaceView {
                    is_selected: old(list)@[j]@.slot == target,
                    ..old(list)@[j]@
                }),
            forall|j: int| i <= j < list@.len() ==> #[trigger] list@[j] == old(list)@[j],
        decreases list@.len() - i,
    {
        list[i].is_selected = list[i].slot == target;
        i += 1;
    }
    assert(list.deep_view() =~= workspaces_selected(old(list).deep_view(), target as nat));
}

/// Recomputes the selection flags of a list of items: an item is selected
/// exactly if its slot is `target`.
pub fn select_item(list: &mut Vec<ItemState>, target: usize)
    ensures
        final(list).deep_view() == items_selected(old(list).deep_view(), target as nat),
{
    let mut i: usize = 0;
    while i < list.len()
        invariant
            i <= list@.len(),
            list@.len() == old(list)@.len(),
            forall|j: int|
                0 <= j < i ==> (#[trigger] list@[j])@ == (ItemView {
                    is_selected: old(list)@[j]@.slot == target,
                    ..old(list)@[j]@
                }),
            forall|j: int| i <= j < list@.len() ==> #[trigger] list@[j] == old(list)@[j],
        decreases list@.len() - i,
    {
        list[i].is_selected = list[i].slot == target;
        i += 1;
    }
    assert(list.deep_view() =~= items_selected(old(list).deep_view(), target as nat));
}

/// Appending keeps the slots dense.
pub proof fn lemma_insert_keeps_slots(workspaces: Seq<WorkspaceView>, workspace: WorkspaceView, items: Seq<ItemView>, item: ItemView)
    requires
        workspace_slots_dense(workspaces),
        item_slots_dense(items),
    ensures
        workspace_slots_dense(workspaces_with(workspaces, workspace)),
        item_slots_dense(items_with(items, item)),
{
}

/// Removing keeps the slots dense: no gap is left and no slot occurs twice.
pub proof fn lemma_remove_keeps_slots(workspaces: Seq<WorkspaceView>, w: int, items: Seq<ItemView>, i: int)
    requires
        workspace_slots_dense(workspaces),
        item_slots_dense(items),
        0 <= w < workspaces.len(),
        0 <= i < items.len(),
    ensures
        workspace_slots_dense(workspaces_without(workspaces, w)),
        item_slots_dense(items_without(items, i)),
{
}

/// The slots of a dense list, in storage order, are the numbers from zero up
/// to the length, each once.
pub proof fn lemma_dense_slots_are_range(workspaces: Seq<WorkspaceView>, items: Seq<ItemView>)
    requires
        workspace_slots_dense(workspaces),
        item_slots_dense(items),
    ensures
        workspace_slots(workspaces) == range(workspaces.len()),
        item_slots(items) == range(items.len()),
{
    assert(workspace_slots(workspaces) =~= range(workspaces.len()));
    assert(item_slots(items) =~= range(items.len()));
}

/// Recomputing the selection flags changes nothing but the flags, and doing
/// it twice for one target is the same as doing it once.
pub proof fn lemma_select_idempotent(workspaces: Seq<WorkspaceView>, items: Seq<ItemView>, target: nat)
    ensures
        workspaces_selected(workspaces_selected(workspaces, target), target) == workspaces_selected(
            workspaces,
            target,
        ),
        items_selected(items_selected(items, target), target) == items_selected(items, target),
        workspace_slots(workspaces_selected(workspaces, target)) == workspace_slots(workspaces),
        item_slots(items_selected(items, target)) == item_slots(items),
{
    assert(workspaces_selected(workspaces_selected(workspaces, target), target)
        =~= workspaces_selected(workspaces, target));
    assert(items_selected(items_selected(items, target), target) =~= items_selected(items, target));
    assert(workspace_slots(workspaces_selected(workspaces, target)) =~= workspace_slots(workspaces));
    assert(item_slots(items_selected(items, target)) =~= item_slots(items));
}

/// In a list in which exactly the workspace at `target` is flagged, one
/// workspace is selected if the list has that position, and none otherwise.
pub proof fn lemma_count_workspaces(list: Seq<WorkspaceView>, target: int)
    requires
        forall|i: int| 0 <= i < list.len() ==> (#[trigger] list[i]).is_selected == (i == target),
    ensures
        selected_workspaces(list) == if 0 <= target < list.len() {
            1nat
        } else {
            0nat
        },
    decreases list.len(),
{
    if list.len() > 0 {
        let front = list.drop_last();
        assert forall|i: int| 0 <= i < front.len() implies (#[trigger] front[i]).is_selected == (i
            == target) by {
            assert(front[i] == list[i]);
        }
        lemma_count_workspaces(front, target);
    }
}

/// In a list in which exactly the item at `target` is flagged, one item is
/// selected if the list has that position, and none otherwise.
pub proof fn lemma_count_items(list: Seq<ItemView>, target: int)
    requires
        forall|i: int| 0 <= i < list.len() ==> (#[trigger] list[i]).is_selected == (i == target),
    ensures
        selected_items(list) == if 0 <= target < list.len() {
            1nat
        } else {
            0nat
        },
    decreases list.len(),
{
    if list.len() > 0 {
        let front = list.drop_last();
        assert forall|i: int| 0 <= i < front.len() implies (#[trigger] front[i]).is_selected == (i
            == target) by {
            assert(front[i] == list[i]);
        }
        lemma_count_items(front, target);
    }
}

/// In a dense list whose flags were recomputed for a position that the list
/// has, exactly one workspace is selected: the one at that position.
pub proof fn lemma_one_workspace_selected(list: Seq<WorkspaceView>, target: nat)
    requires
        workspace_slots_dense(list),
        target < list.len(),
    ensures
        selected_workspaces(workspaces_selected(list, target)) == 1,
        forall|i: int|
            0 <= i < list.len() ==> (#[trigger] workspaces_selected(list, target)[i]).is_selected
                == (i == target),
{
    lemma_count_workspaces(workspaces_selected(list, target), target as int);
}

/// In a dense list whose flags were recomputed for a position that the list
/// has, exactly one item is selected: the one at that position.
pub proof fn lemma_one_item_selected(list: Seq<ItemView>, target: nat)
    requires
        item_slots_dense(list),
        target < list.len(),
    ensures
        selected_items(items_selected(list, target)) == 1,
        forall|i: int|
            0 <= i < list.len() ==> (#[trigger] items_selected(list, target)[i]).is_selected == (i
                == target),
{
    lemma_count_items(items_selected(list, target), target as int);
}

} // verus!
