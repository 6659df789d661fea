//! Reading a stored record back into a state.
//!
//! The arrays of one kind of entity must agree in length; an array that is
//! empty is unknown and gives every entity the default for its field. Slots,
//! counts and selection flags are derived again, so that the state that comes
//! out obeys every rule whatever the record held.

use vstd::prelude::*;
use crate::app::{lemma_settled_well_formed, App, AppView, HelpMode, Mode};
use crate::item::{AddItemState, EditItemState, ItemRecord, ItemState, ItemView};
use crate::layout::HelpWidget;
use crate::model::{insert_item, item_slots_dense, items_selected};
use crate::query::{
    all_records, flags, flat, lemma_flat_step, numbers, records, stored, tagged, texts, Queries,
    QueriesView, StoredItem,
};
use crate::scroll::SummaryScrollState;
use crate::workspace::{
    AddWorkspaceState, EditWorkspaceState, WorkspaceState, WorkspaceView, DEFAULT_TITLE,
};

verus! {

/// Why a stored record cannot be read.
#[derive(Debug, Clone, Copy, PartialEq, Eq, Structural)]
pub enum LoadError {
    /// The arrays of the workspaces differ in length.
    WorkspaceLengths,
    /// The arrays of the items differ in length.
    ItemLengths,
    /// An item names a workspace that the record does not hold.
    ItemWorkspace,
}

/// The larger of two numbers.
pub open spec fn larger(a: nat, b: nat) -> nat {
    if a >= b {
        a
    } else {
        b
    }
}

/// Whether an array of length `len` can belong to `count` entities: it holds
/// one entry for each, or it is unknown.
pub open spec fn agrees(len: nat, count: nat) -> bool {
    len == 0 || len == count
}

/// The entry of an array for the entity at `j`, or `otherwise` where the
/// array has none.
pub open spec fn entry_or<A>(array: Seq<A>, j: int, otherwise: A) -> A {
    if 0 <= j < array.len() {
        array[j]
    } else {
        otherwise
    }
}

/// The index of the first flag that is set, if one is.
pub open spec fn first_set(flags: Seq<bool>) -> Option<nat>
    decreases flags.len(),
{
    if flags.len() == 0 {
        None
    } else {
        match first_set(flags.drop_last()) {
            Some(at) => Some(at),
            None => if flags.last() {
                Some((flags.len() - 1) as nat)
            } else {
                None
            },
        }
    }
}

/// The selection flags of a list of stored items.
pub open spec fn selection(list: Seq<ItemRecord>) -> Seq<bool> {
    Seq::new(list.len(), |i: int| list[i].is_selected)
}

/// A list of stored items with exactly the item at `target` flagged as selected.
pub open spec fn flagged(list: Seq<ItemRecord>, target: nat) -> Seq<ItemRecord> {
    Seq::new(list.len(), |i: int| ItemRecord { is_selected: i == target, ..list[i] })
}

/// The stored items sorted into `count` lists, one for each workspace, each
/// list in storage order and with slots that are dense. An item that names
/// none of the workspaces is left out.
pub open spec fn grouped(entries: Seq<StoredItem>, count: nat) -> Seq<Seq<ItemRecord>>
    decreases entries.len(),
{
    if entries.len() == 0 {
        Seq::new(count, |w: int| Seq::empty())
    } else {
        let before = grouped(entries.drop_last(), count);
        let entry = entries.last();
        if entry.workspace < count {
            let list = before[entry.workspace as int];
            before.update(
                entry.workspace as int,
                list.push(ItemRecord { slot: list.len(), ..entry.record }),
            )
        } else {
            before
        }
    }
}

impl QueriesView {
    /// The number of workspaces that the record speaks of: the length of its
    /// longest array of workspaces.
    pub open spec fn workspace_count(self) -> nat {
        larger(
            larger(self.workspace_slot.len(), self.workspace_title.len()),
            larger(self.workspace_num_of_item.len(), self.workspace_is_selected.len()),
        )
    }

    /// The number of items that the record speaks of: the length of its
    /// longest array of items.
    pub open spec fn item_count(self) -> nat {
        larger(
            larger(
                larger(self.item_slot.len(), self.item_workspace.len()),
                larger(self.item_text.len(), self.item_expire_datetime_string.len()),
            ),
            larger(self.item_is_finished.len(), self.item_is_selected.len()),
        )
    }

    /// Whether the arrays of the workspaces agree in length.
    pub open spec fn workspaces_agree(self) -> bool {
        &&& agrees(self.workspace_slot.len(), self.workspace_count())
        &&& agrees(self.workspace_title.len(), self.workspace_count())
        &&& agrees(self.workspace_num_of_item.len(), self.workspace_count())
        &&& agrees(self.workspace_is_selected.len(), self.workspace_count())
    }

    /// Whether the arrays of the items agree in length.
    pub open spec fn items_agree(self) -> bool {
        &&& agrees(self.item_slot.len(), self.item_count())
        &&& agrees(self.item_workspace.len(), self.item_count())
        &&& agrees(self.item_text.len(), self.item_count())
        &&& agrees(self.item_expire_datetime_string.len(), self.item_count())
        &&& agrees(self.item_is_finished.len(), self.item_count())
        &&& agrees(self.item_is_selected.len(), self.item_count())
    }

    /// The number of workspaces of the state that is read: those of the
    /// record, or one made for the items of a record that holds items and no
    /// workspace.
    pub open spec fn house_count(self) -> nat {
        if self.workspace_count() > 0 {
            self.workspace_count()
        } else if self.item_count() > 0 {
            1
        } else {
            0
        }
    }

    /// The stored item at `j`; a field that is unknown is empty or unset, and
    /// an item whose workspace is unknown belongs to the first.
    pub open spec fn entry(self, j: int) -> StoredItem {
        StoredItem {
            workspace: entry_or(self.item_workspace, j, 0),
            record: ItemRecord {
                slot: entry_or(self.item_slot, j, 0),
                text: entry_or(self.item_text, j, Seq::empty()),
                expire_datetime_string: entry_or(self.item_expire_datetime_string, j, Seq::empty()),
                is_finished: entry_or(self.item_is_finished, j, false),
                is_selected: entry_or(self.item_is_selected, j, false),
            },
        }
    }

    /// The stored items, in storage order.
    pub open spec fn entries(self) -> Seq<StoredItem> {
        Seq::new(self.item_count(), |j: int| self.entry(j))
    }

    /// Whether every item names a workspace of the state that is read.
    pub open spec fn housed(self) -> bool {
        forall|j: int| 0 <= j < self.item_count() ==> (#[trigger] self.entry(j)).workspace
            < self.house_count()
    }
}

/// What is read from a stored record.
pub ghost struct Restored {
    pub workspaces: Seq<WorkspaceView>,
    pub items: Seq<Seq<ItemRecord>>,
    pub current_workspace: nat,
    pub current_item: nat,
}

/// The cursor that a list of selection flags stands for: the first entity
/// that is flagged, or the first of all.
pub open spec fn cursor_of(flags: Seq<bool>) -> nat {
    match first_set(flags) {
        Some(at) => at,
        None => 0,
    }
}

/// What a stored record holds, or why it cannot be read. The workspaces
/// come in storage order with dense slots, each with its title and with the
/// number of items that it holds; the items are sorted into their
/// workspaces. The current workspace is the first that is flagged, the
/// current item the first of its items that is flagged, and the flags follow
/// the two cursors.
pub open spec fn restored(q: QueriesView) -> Result<Restored, LoadError> {
    if !q.workspaces_agree() {
        Err(LoadError::WorkspaceLengths)
    } else if !q.items_agree() {
        Err(LoadError::ItemLengths)
    } else if !q.housed() {
        Err(LoadError::ItemWorkspace)
    } else {
        let count = q.house_count();
        let lists = grouped(q.entries(), count);
        let w = cursor_of(q.workspace_is_selected);
        let i = if w < count {
            cursor_of(selection(lists[w as int]))
        } else {
            0
        };
        Ok(
            Restored {
                workspaces: Seq::new(
                    count,
                    |k: int|
                        WorkspaceView {
                            slot: k as nat,
                            title: entry_or(q.workspace_title, k, DEFAULT_TITLE@),
                            num_of_item: lists[k].len(),
                            is_selected: k == w,
                        },
                ),
                items: if w < count {
                    lists.update(w as int, flagged(lists[w as int], i))
                } else {
                    lists
                },
                current_workspace: w,
                current_item: i,
            },
        )
    }
}

/// Whether each stored item's slot is its index in the list.
pub open spec fn record_slots_dense(list: Seq<ItemRecord>) -> bool {
    forall|i: int| 0 <= i < list.len() ==> (#[trigger] list[i]).slot == i
}

/// Sorting gives one list for each workspace.
pub proof fn lemma_grouped_len(entries: Seq<StoredItem>, count: nat)
    ensures
        grouped(entries, count).len() == count,
    decreases entries.len(),
{
    if entries.len() > 0 {
        lemma_grouped_len(entries.drop_last(), count);
    }
}

/// Every list that sorting gives has dense slots.
pub proof fn lemma_grouped_dense(entries: Seq<StoredItem>, count: nat)
    ensures
        forall|w: int| 0 <= w < count ==> record_slots_dense(#[trigger] grouped(entries, count)[w]),
    decreases entries.len(),
{
    lemma_grouped_len(entries, count);
    if entries.len() > 0 {
        lemma_grouped_dense(entries.drop_last(), count);
        lemma_grouped_len(entries.drop_last(), count);
        let before = grouped(entries.drop_last(), count);
        assert forall|w: int| 0 <= w < count implies record_slots_dense(
            #[trigger] grouped(entries, count)[w],
        ) by {
            assert(record_slots_dense(before[w]));
        }
    }
}

proof fn lemma_grouped_tagged(
    head: Seq<StoredItem>,
    list: Seq<ItemRecord>,
    w: nat,
    count: nat,
    m: int,
)
    requires
        w < count,
        grouped(head, count).len() == count,
        grouped(head, count)[w as int].len() == 0,
        record_slots_dense(list),
        0 <= m <= list.len(),
    ensures
        grouped(head + tagged(list.take(m), w), count) == grouped(head, count).update(
            w as int,
            list.take(m),
        ),
    decreases m,
{
    lemma_grouped_len(head, count);
    let base = grouped(head, count);
    if m == 0 {
        assert(head + tagged(list.take(0), w) =~= head);
        assert(base[w as int] =~= list.take(0));
        assert(base.update(w as int, list.take(0)) =~= base);
    } else {
        lemma_grouped_tagged(head, list, w, count, m - 1);
        let whole = head + tagged(list.take(m), w);
        assert(whole.drop_last() =~= head + tagged(list.take(m - 1), w));
        assert(whole.last() == StoredItem { workspace: w, record: list[m - 1] });
        let before = grouped(whole.drop_last(), count);
        assert(before[w as int] == list.take(m - 1));
        assert(list.take(m - 1).push(list[m - 1]) =~= list.take(m));
        assert(before.update(w as int, list.take(m)) =~= base.update(w as int, list.take(m)));
    }
}

/// The lists that the first `k` workspaces of `lists` come to when they are
/// stored and sorted again among `lists.len()` workspaces.
pub open spec fn first_lists(lists: Seq<Seq<ItemRecord>>, k: int) -> Seq<Seq<ItemRecord>> {
    Seq::new(
        lists.len(),
        |w: int|
            if w < k {
                lists[w]
            } else {
                Seq::empty()
            },
    )
}

proof fn lemma_grouped_flat_upto(lists: Seq<Seq<ItemRecord>>, k: int)
    requires
        0 <= k <= lists.len(),
        forall|w: int| 0 <= w < lists.len() ==> record_slots_dense(#[trigger] lists[w]),
    ensures
        grouped(flat(lists.take(k)), lists.len()) == first_lists(lists, k),
    decreases k,
{
    if k == 0 {
        assert(lists.take(0) =~= Seq::<Seq<ItemRecord>>::empty());
        assert(grouped(flat(lists.take(0)), lists.len()) =~= first_lists(lists, 0));
    } else {
        lemma_grouped_flat_upto(lists, k - 1);
        lemma_flat_step(lists, k - 1);
        let head = flat(lists.take(k - 1));
        let list = lists[k - 1];
        assert(list.take(list.len() as int) =~= list);
        lemma_grouped_len(head, lists.len());
        lemma_grouped_tagged(head, list, (k - 1) as nat, lists.len(), list.len() as int);
        assert(first_lists(lists, k - 1).update(k - 1, list) =~= first_lists(lists, k));
    }
}

/// Items that are stored workspace by workspace and sorted again come back
/// as the lists they were, provided their slots were dense.
pub proof fn lemma_grouped_flat(lists: Seq<Seq<ItemRecord>>)
    requires
        forall|w: int| 0 <= w < lists.len() ==> record_slots_dense(#[trigger] lists[w]),
    ensures
        grouped(flat(lists), lists.len()) == lists,
{
    lemma_grouped_flat_upto(lists, lists.len() as int);
    assert(lists.take(lists.len() as int) =~= lists);
    assert(first_lists(lists, lists.len() as int) =~= lists);
}

/// Every stored item names the workspace that held it, and there are as
/// many stored items as the workspaces hold together.
pub proof fn lemma_flat_owner(lists: Seq<Seq<ItemRecord>>)
    ensures
        forall|j: int| 0 <= j < flat(lists).len() ==> (#[trigger] flat(lists)[j]).workspace
            < lists.len(),
        lists.len() == 0 ==> flat(lists).len() == 0,
    decreases lists.len(),
{
    if lists.len() > 0 {
        lemma_flat_owner(lists.drop_last());
        let head = flat(lists.drop_last());
        let rest = tagged(lists.last(), (lists.len() - 1) as nat);
        assert forall|j: int| 0 <= j < flat(lists).len() implies (#[trigger] flat(lists)[j]).workspace
            < lists.len() by {
            if j < head.len() {
                assert(flat(lists)[j] == head[j]);
            } else {
                assert(flat(lists)[j] == rest[j - head.len()]);
            }
        }
    }
}

/// Where exactly the flag at `target` is set, the first flag that is set is
/// the one at `target`.
pub proof fn lemma_first_set_single(flags: Seq<bool>, target: int)
    requires
        forall|i: int| 0 <= i < flags.len() ==> #[trigger] flags[i] == (i == target),
    ensures
        first_set(flags) == if 0 <= target < flags.len() {
            Some(target as nat)
        } else {
            None
        },
    decreases flags.len(),
{
    if flags.len() > 0 {
        assert forall|i: int| 0 <= i < flags.drop_last().len() implies #[trigger] flags.drop_last()[i]
            == (i == target) by {
            assert(flags.drop_last()[i] == flags[i]);
        }
        lemma_first_set_single(flags.drop_last(), target);
    }
}

/// Storing a state and reading it back gives the state again: the same
/// workspaces, field for field, the same items in the same workspaces, in
/// all that is kept of an item, and the same two cursors. This holds of
/// every state in which the rules hold, the empty one included.
pub proof fn lemma_round_trip(s: AppView)
    requires
        s.well_formed(),
    ensures
        restored(stored(s.workspaces, all_records(s.items))) == Ok::<Restored, LoadError>(
            Restored {
                workspaces: s.workspaces,
                items: all_records(s.items),
                current_workspace: s.current_workspace,
                current_item: s.current_item,
            },
        ),
{
    let lists = all_records(s.items);
    let q = stored(s.workspaces, lists);
    let entries = flat(lists);
    let count = s.workspaces.len();
    lemma_flat_owner(lists);
    assert(q.workspace_count() == count);
    assert(q.item_count() == entries.len());
    assert(q.house_count() == count);
    assert(q.entries() =~= entries);
    assert(q.housed());
    assert forall|w: int| 0 <= w < lists.len() implies record_slots_dense(#[trigger] lists[w]) by {
        assert(item_slots_dense(s.items[w]));
        assert forall|i: int| 0 <= i < lists[w].len() implies (#[trigger] lists[w][i]).slot == i by {
            assert(s.items[w][i].slot == i);
        }
    }
    lemma_grouped_flat(lists);
    lemma_first_set_single(q.workspace_is_selected, s.current_workspace as int);
    let w = s.current_workspace;
    if count > 0 {
        assert(s.current_items() == s.items[w as int]);
        assert forall|i: int| 0 <= i < selection(lists[w as int]).len() implies #[trigger] selection(
            lists[w as int],
        )[i] == (i == s.current_item) by {
            assert(s.current_items()[i].is_selected == (i == s.current_item));
        }
        lemma_first_set_single(selection(lists[w as int]), s.current_item as int);
        assert(flagged(lists[w as int], s.current_item) =~= lists[w as int]) by {
            assert forall|i: int| 0 <= i < lists[w as int].len() implies flagged(
                lists[w as int],
                s.current_item,
            )[i] == lists[w as int][i] by {
                assert(s.current_items()[i].is_selected == (i == s.current_item));
            }
        }
        assert(lists.update(w as int, lists[w as int]) =~= lists);
    }
    let got = restored(q).unwrap();
    assert(got.workspaces =~= s.workspaces) by {
        assert forall|k: int| 0 <= k < count implies got.workspaces[k] == s.workspaces[k] by {
            assert(s.workspaces[k].slot == k);
            assert(s.workspaces[k].num_of_item == s.items[k].len());
        }
    }
}

/// A flag that is set within the first `m` flags is the first that is set
/// among all of them too.
pub proof fn lemma_first_set_prefix(flags: Seq<bool>, m: int)
    requires
        0 <= m <= flags.len(),
        first_set(flags.take(m)) is Some,
    ensures
        first_set(flags) == first_set(flags.take(m)),
    decreases flags.len() - m,
{
    if m == flags.len() {
        assert(flags.take(m) =~= flags);
    } else {
        assert(flags.drop_last().take(m) =~= flags.take(m));
        lemma_first_set_prefix(flags.drop_last(), m);
    }
}

/// The first flag that is set lies within the flags.
pub proof fn lemma_first_set_within(flags: Seq<bool>)
    ensures
        match first_set(flags) {
            Some(at) => at < flags.len() && flags[at as int],
            None => forall|i: int| 0 <= i < flags.len() ==> !#[trigger] flags[i],
        },
    decreases flags.len(),
{
    if flags.len() > 0 {
        lemma_first_set_within(flags.drop_last());
        if first_set(flags.drop_last()) is None {
            assert forall|i: int| 0 <= i < flags.len() - 1 implies !#[trigger] flags[i] by {
                assert(flags.drop_last()[i] == flags[i]);
            }
        } else {
            let at = first_set(flags.drop_last()).unwrap() as int;
            assert(flags.drop_last()[at] == flags[at]);
        }
    }
}

fn numbers_len(array: &Option<Vec<usize>>) -> (len: usize)
    ensures
        len == numbers(*array).len(),
{
    match array {
        Some(v) => v.len(),
        None => 0,
    }
}

fn texts_len(array: &Option<Vec<String>>) -> (len: usize)
    ensures
        len == texts(*array).len(),
{
    match array {
        Some(v) => v.len(),
        None => 0,
    }
}

fn flags_len(array: &Option<Vec<bool>>) -> (len: usize)
    ensures
        len == flags(*array).len(),
{
    match array {
        Some(v) => v.len(),
        None => 0,
    }
}

fn number_at(array: &Option<Vec<usize>>, j: usize, otherwise: usize) -> (n: usize)
    ensures
        n as nat == entry_or(numbers(*array), j as int, otherwise as nat),
{
    match array {
        Some(v) => {
            if j < v.len() {
                v[j]
            } else {
                otherwise
            }
        },
        None => otherwise,
    }
}

fn text_at(array: &Option<Vec<String>>, j: usize, otherwise: &str) -> (text: String)
    ensures
        text@ == entry_or(texts(*array), j as int, otherwise@),
{
    match array {
        Some(v) => {
            if j < v.len() {
                v[j].clone()
            } else {
                otherwise.to_owned()
            }
        },
        None => otherwise.to_owned(),
    }
}

fn flag_at(array: &Option<Vec<bool>>, j: usize, otherwise: bool) -> (flag: bool)
    ensures
        flag == entry_or(flags(*array), j as int, otherwise),
{
    match array {
        Some(v) => {
            if j < v.len() {
                v[j]
            } else {
                otherwise
            }
        },
        None => otherwise,
    }
}

fn larger_of(a: usize, b: usize) -> (m: usize)
    ensures
        m as nat == larger(a as nat, b as nat),
{
    if a >= b {
        a
    } else {
        b
    }
}

fn fits(len: usize, count: usize) -> (yes: bool)
    ensures
        yes == agrees(len as nat, count as nat),
{
    len == 0 || len == count
}

fn first_flag(array: &Option<Vec<bool>>) -> (at: usize)
    ensures
        at == cursor_of(flags(*array)),
        flags(*array).len() > 0 ==> at < flags(*array).len(),
{
    match array {
        Some(v) => {
            let mut i: usize = 0;
            while i < v.len()
                invariant
                    i <= v@.len(),
                    flags(*array) == v@,
                    first_set(v@.take(i as int)) is None,
                decreases v@.len() - i,
            {
                if v[i] {
                    proof {
                        assert(v@.take(i + 1).drop_last() =~= v@.take(i as int));
                        assert(v@.take(i + 1).last());
                        assert(first_set(v@.take(i + 1)) == Some(i as nat));
                        lemma_first_set_prefix(v@, i + 1);
                    }
                    return i;
                }
                proof {
                    assert(v@.take(i + 1).drop_last() =~= v@.take(i as int));
                }
                i += 1;
            }
            proof {
                assert(v@.take(v@.len() as int) =~= v@);
            }
            0
        },
        None => 0,
    }
}

fn first_selected(list: &Vec<ItemState>) -> (at: usize)
    ensures
        at == cursor_of(selection(records(list.deep_view()))),
        list@.len() > 0 ==> at < list@.len(),
{
    let ghost marks = selection(records(list.deep_view()));
    let mut i: usize = 0;
    while i < list.len()
        invariant
            i <= list@.len(),
            marks == selection(records(list.deep_view())),
            first_set(marks.take(i as int)) is None,
        decreases list@.len() - i,
    {
        if list[i].is_selected {
            proof {
                assert(marks.take(i + 1).drop_last() =~= marks.take(i as int));
                assert(marks.take(i + 1).last());
                assert(first_set(marks.take(i + 1)) == Some(i as nat));
                lemma_first_set_prefix(marks, i + 1);
            }
            return i;
        }
        proof {
            assert(marks.take(i + 1).drop_last() =~= marks.take(i as int));
        }
        i += 1;
    }
    proof {
        assert(marks.take(list@.len() as int) =~= marks);
    }
    0
}

/// The mode in which a session starts: the list of workspaces where there
/// are any, and the list of items otherwise.
pub open spec fn start_mode(workspaces: nat) -> Mode {
    if workspaces > 0 {
        Mode::DisplayWorkspace
    } else {
        Mode::DisplayItem
    }
}

/// The state at the start of a session that read `read` from its record:
/// what was read, with every prompt unused and nothing queued.
pub open spec fn started(read: Restored, items: Seq<Seq<ItemView>>) -> AppView {
    AppView {
        mode: start_mode(read.workspaces.len()),
        previous_mode: start_mode(read.workspaces.len()),
        workspaces: read.workspaces,
        items,
        current_workspace: read.current_workspace,
        current_item: read.current_item,
        ..AppView::initial()
    }
}

/// The two counts of a record whose arrays agree in length.
fn counts(q: &Queries) -> (outcome: Result<(usize, usize), LoadError>)
    ensures
        match outcome {
            Ok(found) => {
                &&& q@.workspaces_agree()
                &&& q@.items_agree()
                &&& found.0 == q@.workspace_count()
                &&& found.1 == q@.item_count()
            },
            Err(error) => if q@.workspaces_agree() {
                !q@.items_agree() && error == LoadError::ItemLengths
            } else {
                error == LoadError::WorkspaceLengths
            },
        },
{
    let workspace_count = larger_of(
        larger_of(numbers_len(&q.workspace_slot), texts_len(&q.workspace_title)),
        larger_of(numbers_len(&q.workspace_num_of_item), flags_len(&q.workspace_is_selected)),
    );
    if !(fits(numbers_len(&q.workspace_slot), workspace_count) && fits(
        texts_len(&q.workspace_title),
        workspace_count,
    ) && fits(numbers_len(&q.workspace_num_of_item), workspace_count) && fits(
        flags_len(&q.workspace_is_selected),
        workspace_count,
    )) {
        return Err(LoadError::WorkspaceLengths);
    }
    let item_count = larger_of(
        larger_of(
            larger_of(numbers_len(&q.item_slot), numbers_len(&q.item_workspace)),
            larger_of(texts_len(&q.item_text), texts_len(&q.item_expire_datetime_string)),
        ),
        larger_of(flags_len(&q.item_is_finished), flags_len(&q.item_is_selected)),
    );
    if !(fits(numbers_len(&q.item_slot), item_count) && fits(
        numbers_len(&q.item_workspace),
        item_count,
    ) && fits(texts_len(&q.item_text), item_count) && fits(
        texts_len(&q.item_expire_datetime_string),
        item_count,
    ) && fits(flags_len(&q.item_is_finished), item_count) && fits(
        flags_len(&q.item_is_selected),
        item_count,
    )) {
        return Err(LoadError::ItemLengths);
    }
    Ok((workspace_count, item_count))
}

/// Whether every item names one of `count` workspaces.
fn all_housed(q: &Queries, item_count: usize, count: usize) -> (yes: bool)
    requires
        item_count == q@.item_count(),
        count == q@.house_count(),
    ensures
        yes == q@.housed(),
{
    let mut j: usize = 0;
    while j < item_count
        invariant
            j <= item_count,
            item_count == q@.item_count(),
            count == q@.house_count(),
            forall|e: int| 0 <= e < j ==> (#[trigger] q@.entry(e)).workspace < count,
        decreases item_count - j,
    {
        let owner = number_at(&q.item_workspace, j, 0);
        if owner >= count {
            assert(q@.entry(j as int).workspace >= q@.house_count());
            return false;
        }
        j += 1;
    }
    true
}

/// The workspace that the record holds at `k`, as it is before its items
/// are counted and the cursor is known.
pub open spec fn blank_workspace(q: QueriesView, k: int) -> WorkspaceView {
    WorkspaceView {
        slot: k as nat,
        title: entry_or(q.workspace_title, k, DEFAULT_TITLE@),
        num_of_item: 0,
        is_selected: false,
    }
}

/// Makes `count` workspaces with their titles, and as many empty lists.
fn blank_state(q: &Queries, count: usize) -> (made: (Vec<WorkspaceState>, Vec<Vec<ItemState>>))
    ensures
        made.0@.len() == count,
        made.1@.len() == count,
        forall|i: int| 0 <= i < count ==> (#[trigger] made.0@[i])@ == blank_workspace(q@, i),
        all_records(made.1.deep_view()) == grouped(Seq::empty(), count as nat),
{
    let mut workspaces: Vec<WorkspaceState> = Vec::new();
    let mut items: Vec<Vec<ItemState>> = Vec::new();
    let mut k: usize = 0;
    while k < count
        invariant
            k <= count,
            workspaces@.len() == k,
            items@.len() == k,
            forall|i: int| 0 <= i < k ==> (#[trigger] workspaces@[i])@ == blank_workspace(q@, i),
            forall|i: int| 0 <= i < k ==> (#[trigger] items@[i])@.len() == 0,
        decreases count - k,
    {
        let title = text_at(&q.workspace_title, k, DEFAULT_TITLE);
        workspaces.push(WorkspaceState::new(k, title, 0, false));
        items.push(Vec::new());
        k += 1;
    }
    proof {
        assert forall|w: int| 0 <= w < count implies #[trigger] all_records(items.deep_view())[w]
            == Seq::<ItemRecord>::empty() by {
            assert(items@[w]@.len() == 0);
            assert(records(items@[w].deep_view()) =~= Seq::<ItemRecord>::empty());
        }
        assert(all_records(items.deep_view()) =~= grouped(Seq::empty(), count as nat));
    }
    (workspaces, items)
}

/// Makes the items of the record and sorts them into their workspaces.
fn sort_items(q: &Queries, items: &mut Vec<Vec<ItemState>>, item_count: usize)
    requires
        item_count == q@.item_count(),
        old(items)@.len() == q@.house_count(),
        q@.housed(),
        all_records(old(items).deep_view()) == grouped(Seq::empty(), q@.house_count()),
    ensures
        final(items)@.len() == q@.house_count(),
        all_records(final(items).deep_view()) == grouped(q@.entries(), q@.house_count()),
{
    let ghost entries = q@.entries();
    let ghost count = q@.house_count();
    assert(entries.take(0) =~= Seq::<StoredItem>::empty());
    let mut j: usize = 0;
    while j < item_count
        invariant
            j <= item_count,
            item_count == q@.item_count(),
            count == q@.house_count(),
            q@.housed(),
            entries == q@.entries(),
            items@.len() == count,
            all_records(items.deep_view()) == grouped(entries.take(j as int), count),
        decreases item_count - j,
    {
        let owner = number_at(&q.item_workspace, j, 0);
        let item = ItemState::new(
            number_at(&q.item_slot, j, 0),
            text_at(&q.item_text, j, ""),
            text_at(&q.item_expire_datetime_string, j, ""),
            flag_at(&q.item_is_finished, j, false),
            flag_at(&q.item_is_selected, j, false),
        );
        proof {
            reveal_strlit("");
            assert(""@ =~= Seq::<char>::empty());
            assert(q@.entry(j as int).workspace < count);
            assert(item@.record() == entries[j as int].record);
            assert(entries.take(j + 1).drop_last() =~= entries.take(j as int));
            assert(entries.take(j + 1).last() == entries[j as int]);
        }
        let ghost before = items.deep_view();
        insert_item(&mut items[owner], item);
        proof {
            let had = all_records(before);
            let list = had[owner as int];
            assert(records(items@[owner as int].deep_view()) =~= list.push(
                ItemRecord { slot: list.len(), ..entries[j as int].record },
            ));
            assert(all_records(items.deep_view()) =~= had.update(
                owner as int,
                list.push(ItemRecord { slot: list.len(), ..entries[j as int].record }),
            ));
        }
        j += 1;
    }
    proof {
        assert(entries.take(item_count as int) =~= entries);
    }
}

/// Lets every workspace count the items of its list.
fn count_items(workspaces: &mut Vec<WorkspaceState>, items: &Vec<Vec<ItemState>>)
    requires
        old(workspaces)@.len() == items@.len(),
    ensures
        final(workspaces)@.len() == items@.len(),
        forall|i: int|
            0 <= i < items@.len() ==> (#[trigger] final(workspaces)@[i])@ == (WorkspaceView {
                num_of_item: items@[i]@.len() as nat,
                ..old(workspaces)@[i]@
            }),
{
    let mut k: usize = 0;
    while k < workspaces.len()
        invariant
            k <= workspaces@.len(),
            workspaces@.len() == items@.len(),
            workspaces@.len() == old(workspaces)@.len(),
            forall|i: int|
                0 <= i < k ==> (#[trigger] workspaces@[i])@ == (WorkspaceView {
                    num_of_item: items@[i]@.len() as nat,
                    ..old(workspaces)@[i]@
                }),
            forall|i: int| k <= i < workspaces@.len() ==> #[trigger] workspaces@[i] == old(
                workspaces,
            )@[i],
        decreases workspaces@.len() - k,
    {
        workspaces[k].num_of_item = items[k].len();
        k += 1;
    }
}

/// Reads a stored record into the state that a session starts from. The
/// record is refused where the arrays of one kind of entity differ in
/// length, or where an item names a workspace that is not there; every other
/// record is read, and the state that comes out obeys every rule. Each
/// item's deadline is read anew from the text that was stored for it.
pub fn hydrate(queries: &Queries) -> (outcome: Result<App, LoadError>)
    ensures
        match outcome {
            Ok(app) => {
                &&& restored(queries@) is Ok
                &&& all_records(app@.items) == restored(queries@).unwrap().items
                &&& app@ == started(restored(queries@).unwrap(), app@.items)
                &&& app@.well_formed()
            },
            Err(error) => restored(queries@) == Err::<Restored, LoadError>(error),
        },
{
    let q = queries;
    let (workspace_count, item_count) = match counts(q) {
        Ok(found) => found,
        Err(error) => {
            return Err(error);
        },
    };
    let count: usize = if workspace_count > 0 {
        workspace_count
    } else if item_count > 0 {
        1
    } else {
        0
    };
    if !all_housed(q, item_count, count) {
        return Err(LoadError::ItemWorkspace);
    }
    let (mut workspaces, mut items) = blank_state(q, count);
    sort_items(q, &mut items, item_count);
    let ghost entries = q@.entries();
    let ghost lists = grouped(entries, count as nat);
    let current_workspace = first_flag(&q.workspace_is_selected);
    let current_item = if current_workspace < count {
        first_selected(&items[current_workspace])
    } else {
        0
    };
    count_items(&mut workspaces, &items);
    let mode = if count > 0 {
        Mode::DisplayWorkspace
    } else {
        Mode::DisplayItem
    };
    let mut app = App {
        mode,
        previous_mode: mode,
        help_mode: HelpMode::ItemHelp,
        workspaces,
        add_workspace: AddWorkspaceState::new(),
        edit_workspace: EditWorkspaceState::new(),
        current_workspace,
        items,
        add_item: AddItemState::new(),
        edit_item: EditItemState::new(),
        current_item,
        summary_scroll_state: SummaryScrollState::new(),
        help: HelpWidget {  },
        is_modified: false,
    };
    let ghost raw = app@;
    proof {
        lemma_grouped_dense(entries, count as nat);
        lemma_grouped_len(entries, count as nat);
        lemma_first_set_within(q@.workspace_is_selected);
        lemma_raw_settles(raw, lists);
    }
    app.settle();
    proof {
        lemma_settled_restored(q@, raw, app@);
    }
    Ok(app)
}

/// A state whose items are what sorting gave, and whose workspaces count
/// them, lacks nothing but its flags.
proof fn lemma_raw_settles(raw: AppView, lists: Seq<Seq<ItemRecord>>)
    requires
        all_records(raw.items) == lists,
        raw.workspaces.len() == raw.items.len(),
        forall|w: int| 0 <= w < lists.len() ==> record_slots_dense(#[trigger] lists[w]),
        forall|w: int|
            0 <= w < raw.workspaces.len() ==> (#[trigger] raw.workspaces[w]).slot == w
                && raw.workspaces[w].num_of_item == raw.items[w].len(),
        !raw.previous_mode.ephemeral(),
    ensures
        raw.settled().well_formed(),
{
    assert forall|w: int| 0 <= w < raw.items.len() implies item_slots_dense(
        #[trigger] raw.items[w],
    ) by {
        assert(record_slots_dense(lists[w]));
        assert forall|i: int| 0 <= i < raw.items[w].len() implies (#[trigger] raw.items[w][i]).slot
            == i by {
            assert(lists[w][i] == raw.items[w][i].record());
        }
    }
    lemma_settled_well_formed(raw);
}

/// Settling the state that was put together from a record gives what the
/// record is said to hold.
proof fn lemma_settled_restored(q: QueriesView, raw: AppView, after: AppView)
    requires
        restored(q) is Ok,
        after == raw.settled(),
        raw.workspaces.len() == q.house_count(),
        raw.items.len() == q.house_count(),
        all_records(raw.items) == grouped(q.entries(), q.house_count()),
        forall|w: int|
            0 <= w < raw.workspaces.len() ==> (#[trigger] raw.workspaces[w]) == (WorkspaceView {
                num_of_item: raw.items[w].len(),
                ..blank_workspace(q, w)
            }),
        raw.current_workspace == cursor_of(q.workspace_is_selected),
        raw.current_item == if raw.current_workspace < q.house_count() {
            cursor_of(selection(all_records(raw.items)[raw.current_workspace as int]))
        } else {
            0
        },
        raw.mode == start_mode(q.house_count()),
        raw.previous_mode == raw.mode,
        raw == (AppView {
            mode: raw.mode,
            previous_mode: raw.previous_mode,
            workspaces: raw.workspaces,
            items: raw.items,
            current_workspace: raw.current_workspace,
            current_item: raw.current_item,
            ..AppView::initial()
        }),
    ensures
        all_records(after.items) == restored(q).unwrap().items,
        after == started(restored(q).unwrap(), after.items),
{
    let count = q.house_count();
    let lists = grouped(q.entries(), count);
    let read = restored(q).unwrap();
    let w = raw.current_workspace as int;
    lemma_grouped_dense(q.entries(), count);
    lemma_grouped_len(q.entries(), count);
    lemma_first_set_within(q.workspace_is_selected);
    if count > 0 {
        let i = raw.current_item;
        lemma_first_set_within(selection(lists[w]));
        assert(record_slots_dense(lists[w]));
        assert(records(items_selected(raw.items[w], i)) =~= flagged(lists[w], i)) by {
            assert forall|e: int| 0 <= e < raw.items[w].len() implies records(
                items_selected(raw.items[w], i),
            )[e] == flagged(lists[w], i)[e] by {
                assert(lists[w][e] == raw.items[w][e].record());
                assert(lists[w][e].slot == e);
            }
        }
        assert(all_records(after.items) =~= read.items);
        assert(after.workspaces =~= read.workspaces) by {
            assert forall|k: int| 0 <= k < count implies after.workspaces[k] == read.workspaces[k] by {
                assert(lists[k] == records(raw.items[k]));
            }
        }
    } else {
        assert(all_records(after.items) =~= read.items);
        assert(after.workspaces =~= read.workspaces);
    }
}

} // verus!
