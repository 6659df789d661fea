//! Items: the tasks of a workspace, and the input buffers in which a task and
//! its deadline are typed.

use vstd::prelude::*;
use crate::text::{pop_char, push_char};
use crate::timestamp::{
    expiry_of, is_past, now_timestamp, offset_text, past, shape_of, time_offset_text,
};
use crate::workspace::{notice_view, without_last};

verus! {

/// A task as the list shows it.
#[derive(Debug)]
pub struct ItemState {
    /// Position among the items of its workspace, counted from zero.
    pub slot: usize,
    pub text: String,
    /// Whether the task has a deadline.
    pub has_expire_datetime: bool,
    /// The deadline as it was typed.
    pub expire_datetime_string: String,
    /// The deadline in seconds since the Unix epoch; where the task has none,
    /// the moment at which the item was made.
    pub expire_datetime: i64,
    pub is_finished: bool,
    /// Whether the deadline has passed.
    pub is_late: bool,
    /// Whether this is the current item of its workspace.
    pub is_selected: bool,
}

/// What an item is, as plain values.
pub ghost struct ItemView {
    pub slot: nat,
    pub text: Seq<char>,
    pub has_expire_datetime: bool,
    pub expire_datetime_string: Seq<char>,
    pub expire_datetime: int,
    pub is_finished: bool,
    pub is_late: bool,
    pub is_selected: bool,
}

/// What is kept of an item from one session to the next.
pub ghost struct ItemRecord {
    pub slot: nat,
    pub text: Seq<char>,
    pub expire_datetime_string: Seq<char>,
    pub is_finished: bool,
    pub is_selected: bool,
}

impl ItemView {
    /// The part of an item that is kept from one session to the next. The
    /// deadline is kept as it was typed; whether the item is late is found
    /// anew when it is read back.
    pub open spec fn record(self) -> ItemRecord {
        ItemRecord {
            slot: self.slot,
            text: self.text,
            expire_datetime_string: self.expire_datetime_string,
            is_finished: self.is_finished,
            is_selected: self.is_selected,
        }
    }
}

impl View for ItemState {
    type V = ItemView;

    open spec fn view(&self) -> ItemView {
        ItemView {
            slot: self.slot as nat,
            text: self.text@,
            has_expire_datetime: self.has_expire_datetime,
            expire_datetime_string: self.expire_datetime_string@,
            expire_datetime: self.expire_datetime as int,
            is_finished: self.is_finished,
            is_late: self.is_late,
            is_selected: self.is_selected,
        }
    }
}

impl DeepView for ItemState {
    type V = ItemView;

    open spec fn deep_view(&self) -> ItemView {
        self@
    }
}

/// The item that is made of what was stored or typed, once the deadline that
/// the typed text sets is known, at the moment `now`.
pub open spec fn item_at(record: ItemRecord, expiry: Option<i64>, now: i64) -> ItemView {
    ItemView {
        slot: record.slot,
        text: record.text,
        has_expire_datetime: expiry is Some,
        expire_datetime_string: record.expire_datetime_string,
        expire_datetime: match expiry {
            Some(moment) => moment as int,
            None => now as int,
        },
        is_finished: record.is_finished,
        is_late: is_past(expiry, now),
        is_selected: record.is_selected,
    }
}

/// What reading the countdown of an item does at the moment `now`: the words
/// are those of the time that is left, and an item whose deadline has passed
/// is marked late; nothing else changes.
pub open spec fn countdown_at(before: ItemView, now: i64, after: ItemView, words: Seq<char>) -> bool {
    &&& words == offset_text(before.expire_datetime - now)
    &&& after == ItemView { is_late: before.is_late || before.expire_datetime < now, ..before }
}

impl ItemState {
    /// Makes an item whose deadline is already known: `expiry` in seconds since
    /// the Unix epoch, or `None`. The item is late if the deadline lies before
    /// `now`.
    pub fn with_expiry(
        slot: usize,
        text: String,
        expire_datetime_string: String,
        is_finished: bool,
        is_selected: bool,
        expiry: Option<i64>,
        now: i64,
    ) -> (item: ItemState)
        ensures
            item@ == item_at(
                ItemRecord {
                    slot: slot as nat,
                    text: text@,
                    expire_datetime_string: expire_datetime_string@,
                    is_finished,
                    is_selected,
                },
                expiry,
                now,
            ),
    {
        let is_late = past(expiry, now);
        let has_expire_datetime = expiry.is_some();
        let expire_datetime = match expiry {
            Some(moment) => moment,
            None => now,
        };
        ItemState {
            slot,
            text,
            has_expire_datetime,
            expire_datetime_string,
            expire_datetime,
            is_finished,
            is_late,
            is_selected,
        }
    }

    /// Makes an item. The deadline is read from `expire_datetime_string` in the
    /// time zone of this machine and held against the clock: a text of none
    /// of the three shapes sets no deadline, and an item without a deadline is
    /// never late.
    pub fn new(
        slot: usize,
        text: String,
        expire_datetime_string: String,
        is_finished: bool,
        is_selected: bool,
    ) -> (item: ItemState)
        ensures
            item@.record() == (ItemRecord {
                slot: slot as nat,
                text: text@,
                expire_datetime_string: expire_datetime_string@,
                is_finished,
                is_selected,
            }),
            shape_of(expire_datetime_string@) is Unrecognized ==> !item.has_expire_datetime,
            item.is_late ==> item.has_expire_datetime,
            exists|expiry: Option<i64>, now: i64| item@ == #[trigger] item_at(item@.record(), expiry, now),
    {
        let expiry = expiry_of(expire_datetime_string.as_str());
        let now = now_timestamp();
        let item = ItemState::with_expiry(
            slot,
            text,
            expire_datetime_string,
            is_finished,
            is_selected,
            expiry,
            now,
        );
        assert(item@ == item_at(item@.record(), expiry, now));
        item
    }

    /// Words the time that is left until the deadline, seen from the moment
    /// `now`, and marks the item late if the deadline has passed.
    pub fn time_offset_at(&mut self, now: i64) -> (words: String)
        ensures
            countdown_at(old(self)@, now, final(self)@, words@),
    {
        if self.expire_datetime < now {
            self.is_late = true;
        }
        time_offset_text(self.expire_datetime, now)
    }

    /// Words the time that is left until the deadline by the clock of this
    /// machine, and marks the item late if the deadline has passed.
    pub fn get_time_offset(&mut self) -> (words: String)
        ensures
            exists|now: i64| #[trigger] countdown_at(old(self)@, now, final(self)@, words@),
    {
        let now = now_timestamp();
        let words = self.time_offset_at(now);
        assert(countdown_at(old(self)@, now, self@, words@));
        words
    }

    /// Marks the item done, or not done if it was.
    pub fn toggle_finished(&mut self)
        ensures
            final(self)@ == (ItemView { is_finished: !old(self).is_finished, ..old(self)@ }),
    {
        self.is_finished = !self.is_finished;
    }

    /// Marks the item late, or not late if it was.
    pub fn toggle_late(&mut self)
        ensures
            final(self)@ == (ItemView { is_late: !old(self).is_late, ..old(self)@ }),
    {
        self.is_late = !self.is_late;
    }
}

/// What a prompt for an item holds, as plain values.
pub ghost struct ItemInput {
    pub input_string: Seq<char>,
    pub input_datetime: Seq<char>,
    pub has_input: bool,
    pub has_expire_datetime: bool,
    pub error_msg: Option<Seq<char>>,
}

impl ItemInput {
    /// A prompt that was never used: nothing typed, an empty notice, and the
    /// task takes the input.
    pub open spec fn fresh() -> ItemInput {
        ItemInput {
            input_string: Seq::empty(),
            input_datetime: Seq::empty(),
            has_input: false,
            has_expire_datetime: false,
            error_msg: Some(Seq::empty()),
        }
    }

    /// The prompt after it was reset: nothing typed and no notice; the field
    /// that takes input stays the same.
    pub open spec fn cleared(self) -> ItemInput {
        ItemInput {
            input_string: Seq::empty(),
            input_datetime: Seq::empty(),
            has_input: false,
            has_expire_datetime: self.has_expire_datetime,
            error_msg: None,
        }
    }

    /// The prompt after `c` was typed into the field that takes input.
    pub open spec fn typed(self, c: char) -> ItemInput {
        if self.has_expire_datetime {
            ItemInput { input_datetime: self.input_datetime.push(c), has_input: true, ..self }
        } else {
            ItemInput { input_string: self.input_string.push(c), has_input: true, ..self }
        }
    }

    /// The prompt after the character typed last in the field that takes input
    /// was deleted.
    pub open spec fn erased(self) -> ItemInput {
        if self.has_expire_datetime {
            ItemInput { input_datetime: without_last(self.input_datetime), ..self }
        } else {
            ItemInput { input_string: without_last(self.input_string), ..self }
        }
    }

    /// The prompt with the input handed to the other field.
    pub open spec fn toggled(self) -> ItemInput {
        ItemInput { has_expire_datetime: !self.has_expire_datetime, ..self }
    }

    /// The prompt with the input handed to the task.
    pub open spec fn on_task(self) -> ItemInput {
        ItemInput { has_expire_datetime: false, ..self }
    }
}

/// The input buffer of the prompt that adds an item: the task and its deadline.
#[derive(Debug)]
pub struct AddItemState {
    pub input_string: String,
    pub input_datetime: String,
    /// Whether anything was typed since the prompt was opened or reset.
    pub has_input: bool,
    /// Whether the deadline, and not the task, takes what is typed.
    pub has_expire_datetime: bool,
    /// A notice shown in place of the input while nothing was typed.
    pub error_msg: Option<String>,
}

impl View for AddItemState {
    type V = ItemInput;

    open spec fn view(&self) -> ItemInput {
        ItemInput {
            input_string: self.input_string@,
            input_datetime: self.input_datetime@,
            has_input: self.has_input,
            has_expire_datetime: self.has_expire_datetime,
            error_msg: notice_view(self.error_msg),
        }
    }
}

impl AddItemState {
    /// Empty fields with an empty notice; what is typed goes to the task.
    pub fn new() -> (state: AddItemState)
        ensures
            state@ == ItemInput::fresh(),
    {
        AddItemState {
            input_string: String::new(),
            input_datetime: String::new(),
            has_input: false,
            has_expire_datetime: false,
            error_msg: Some(String::new()),
        }
    }

    /// Types one character into the field that takes input.
    pub fn add_char(&mut self, c: char)
        ensures
            final(self)@ == old(self)@.typed(c),
    {
        if self.has_expire_datetime {
            push_char(&mut self.input_datetime, c);
        } else {
            push_char(&mut self.input_string, c);
        }
        self.has_input = true;
    }

    /// Deletes the character typed last in the field that takes input.
    pub fn del_char(&mut self)
        ensures
            final(self)@ == old(self)@.erased(),
    {
        if self.has_expire_datetime {
            let _ = pop_char(&mut self.input_datetime);
        } else {
            let _ = pop_char(&mut self.input_string);
        }
    }

    /// Empties both fields and takes the notice away; the field that takes
    /// input stays the same.
    pub fn reset(&mut self)
        ensures
            final(self)@ == old(self)@.cleared(),
    {
        self.input_datetime = String::new();
        self.input_string = String::new();
        self.has_input = false;
        self.error_msg = None;
    }

    /// The item that the typed task and deadline make at position `slot`: not
    /// done, and selected. The buffer is left as it is.
    pub fn enter(&mut self, slot: usize) -> (item: ItemState)
        ensures
            *final(self) == *old(self),
            item@.record() == (ItemRecord {
                slot: slot as nat,
                text: old(self)@.input_string,
                expire_datetime_string: old(self)@.input_datetime,
                is_finished: false,
                is_selected: true,
            }),
            shape_of(old(self)@.input_datetime) is Unrecognized ==> !item.has_expire_datetime,
            item.is_late ==> item.has_expire_datetime,
            exists|expiry: Option<i64>, now: i64|
                item@ == #[trigger] item_at(item@.record(), expiry, now),
    {
        ItemState::new(slot, self.input_string.clone(), self.input_datetime.clone(), false, true)
    }
}

/// The input buffer of the prompt that changes an item.
#[derive(Debug)]
pub struct EditItemState {
    pub input_string: String,
    pub input_datetime: String,
    /// Whether anything was typed since the prompt was opened or reset.
    pub has_input: bool,
    /// Whether the deadline, and not the task, takes what is typed.
    pub has_expire_datetime: bool,
    /// A notice shown in place of the input while nothing was typed.
    pub error_msg: Option<String>,
}

impl View for EditItemState {
    type V = ItemInput;

    open spec fn view(&self) -> ItemInput {
        ItemInput {
            input_string: self.input_string@,
            input_datetime: self.input_datetime@,
            has_input: self.has_input,
            has_expire_datetime: self.has_expire_datetime,
            error_msg: notice_view(self.error_msg),
        }
    }
}

impl EditItemState {
    /// Empty fields with an empty notice; what is typed goes to the task.
    pub fn new() -> (state: EditItemState)
        ensures
            state@ == ItemInput::fresh(),
    {
        EditItemState {
            input_string: String::new(),
            input_datetime: String::new(),
            has_input: false,
            has_expire_datetime: false,
            error_msg: Some(String::new()),
        }
    }

    /// Types one character into the field that takes input.
    pub fn add_char(&mut self, c: char)
        ensures
            final(self)@ == old(self)@.typed(c),
    {
        if self.has_expire_datetime {
            push_char(&mut self.input_datetime, c);
        } else {
            push_char(&mut self.input_string, c);
        }
        self.has_input = true;
    }

    /// Deletes the character typed last in the field that takes input.
    pub fn del_char(&mut self)
        ensures
            final(self)@ == old(self)@.erased(),
    {
        if self.has_expire_datetime {
            let _ = pop_char(&mut self.input_datetime);
        } else {
            let _ = pop_char(&mut self.input_string);
        }
    }

    /// Empties both fields and takes the notice away; the field that takes
    /// input stays the same.
    pub fn reset(&mut self)
        ensures
            final(self)@ == old(self)@.cleared(),
    {
        self.input_datetime = String::new();
        self.input_string = String::new();
        self.has_input = false;
        self.error_msg = None;
    }

    /// The item that takes the place of the one at position `slot`: the typed
    /// task and deadline, not done, and selected. The buffer is left as it is.
    pub fn enter(&mut self, slot: usize) -> (item: ItemState)
        ensures
            *final(self) == *old(self),
            item@.record() == (ItemRecord {
                slot: slot as nat,
                text: old(self)@.input_string,
                expire_datetime_string: old(self)@.input_datetime,
                is_finished: false,
                is_selected: true,
            }),
            shape_of(old(self)@.input_datetime) is Unrecognized ==> !item.has_expire_datetime,
            item.is_late ==> item.has_expire_datetime,
            exists|expiry: Option<i64>, now: i64|
                item@ == #[trigger] item_at(item@.record(), expiry, now),
    {
        ItemState::new(slot, self.input_string.clone(), self.input_datetime.clone(), false, true)
    }
}

/// An item without a deadline is never late, whenever it is made.
pub proof fn lemma_no_deadline_never_late(record: ItemRecord, now: i64)
    ensures
        !item_at(record, None, now).is_late,
        !item_at(record, None, now).has_expire_datetime,
{
}

/// An item with a deadline is late exactly if the deadline lies before the
/// moment at which it is made.
pub proof fn lemma_late_iff_past(record: ItemRecord, moment: i64, now: i64)
    ensures
        item_at(record, Some(moment), now).is_late <==> moment < now,
        item_at(record, Some(moment), now).has_expire_datetime,
        item_at(record, Some(moment), now).record() == record,
{
}

} // verus!
