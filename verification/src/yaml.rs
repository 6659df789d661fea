//! The text in which a record is stored: one key for each array, and under
//! it one line for each entry. Numbers and flags are written plainly, texts
//! between double quotes so that whatever was typed reads back as it was.

use vstd::prelude::*;
use vstd::string::*;
use crate::app::App;
use crate::query::{all_records, flags, numbers, stored, texts, Queries, QueriesView};
use crate::text::{decimal, push_char, push_decimal, push_text};

verus! {

/// How one character is written between double quotes.
pub open spec fn escape(c: char) -> Seq<char> {
    if c == '"' {
        seq!['\\', '"']
    } else if c == '\\' {
        seq!['\\', '\\']
    } else if c == '\n' {
        seq!['\\', 'n']
    } else if c == '\r' {
        seq!['\\', 'r']
    } else if c == '\t' {
        seq!['\\', 't']
    } else {
        seq![c]
    }
}

/// A text with each of its characters written as it stands between double quotes.
pub open spec fn escaped(text: Seq<char>) -> Seq<char>
    decreases text.len(),
{
    if text.len() == 0 {
        Seq::empty()
    } else {
        escaped(text.drop_last()) + escape(text.last())
    }
}

/// A text between double quotes.
pub open spec fn quoted(text: Seq<char>) -> Seq<char> {
    seq!['"'] + escaped(text) + seq!['"']
}

/// The line of one entry.
pub open spec fn line(value: Seq<char>) -> Seq<char> {
    "    - "@ + value + "\n"@
}

/// The lines of an array of numbers.
pub open spec fn number_lines(values: Seq<nat>) -> Seq<char>
    decreases values.len(),
{
    if values.len() == 0 {
        Seq::empty()
    } else {
        number_lines(values.drop_last()) + line(decimal(values.last()))
    }
}

/// The lines of an array of texts.
pub open spec fn text_lines(values: Seq<Seq<char>>) -> Seq<char>
    decreases values.len(),
{
    if values.len() == 0 {
        Seq::empty()
    } else {
        text_lines(values.drop_last()) + line(quoted(values.last()))
    }
}

/// How a flag is written.
pub open spec fn flag_word(flag: bool) -> Seq<char> {
    if flag {
        "true"@
    } else {
        "false"@
    }
}

/// The lines of an array of flags.
pub open spec fn flag_lines(values: Seq<bool>) -> Seq<char>
    decreases values.len(),
{
    if values.len() == 0 {
        Seq::empty()
    } else {
        flag_lines(values.drop_last()) + line(flag_word(values.last()))
    }
}

/// A key with the lines of its array.
pub open spec fn section(key: Seq<char>, lines: Seq<char>) -> Seq<char> {
    key + ":\n"@ + lines
}

/// The text that stores a record: the arrays of the workspaces, then those
/// of the items, each under its key.
pub open spec fn yaml_text(q: QueriesView) -> Seq<char> {
    section("workspace_slot"@, number_lines(q.workspace_slot)) + section(
        "workspace_title"@,
        text_lines(q.workspace_title),
    ) + section("workspace_num_of_item"@, number_lines(q.workspace_num_of_item)) + section(
        "workspace_is_selected"@,
        flag_lines(q.workspace_is_selected),
    ) + section("item_slot"@, number_lines(q.item_slot)) + section(
        "item_workspace"@,
        number_lines(q.item_workspace),
    ) + section("item_text"@, text_lines(q.item_text)) + section(
        "item_expire_datetime_string"@,
        text_lines(q.item_expire_datetime_string),
    ) + section("item_is_finished"@, flag_lines(q.item_is_finished)) + section(
        "item_is_selected"@,
        flag_lines(q.item_is_selected),
    )
}

fn push_escape(out: &mut String, c: char)
    ensures
        final(out)@ == old(out)@ + escape(c),
{
    if c == '"' {
        push_char(out, '\\');
        push_char(out, '"');
    } else if c == '\\' {
        push_char(out, '\\');
        push_char(out, '\\');
    } else if c == '\n' {
        push_char(out, '\\');
        push_char(out, 'n');
    } else if c == '\r' {
        push_char(out, '\\');
        push_char(out, 'r');
    } else if c == '\t' {
        push_char(out, '\\');
        push_char(out, 't');
    } else {
        push_char(out, c);
    }
    assert(out@ =~= old(out)@ + escape(c));
}

/// Appends `text` between double quotes.
pub fn push_quoted(out: &mut String, text: &str)
    ensures
        final(out)@ == old(out)@ + quoted(text@),
{
    push_char(out, '"');
    let len = text.unicode_len();
    let mut i: usize = 0;
    assert(text@.take(0) =~= Seq::<char>::empty());
    assert(out@ =~= old(out)@ + seq!['"'] + escaped(text@.take(0)));
    while i < len
        invariant
            i <= len,
            len == text@.len(),
            out@ == old(out)@ + seq!['"'] + escaped(text@.take(i as int)),
        decreases len - i,
    {
        let c = text.get_char(i);
        push_escape(out, c);
        proof {
            assert(text@.take(i + 1).drop_last() =~= text@.take(i as int));
            assert(text@.take(i + 1).last() == c);
            assert(out@ =~= old(out)@ + seq!['"'] + escaped(text@.take(i + 1)));
        }
        i += 1;
    }
    push_char(out, '"');
    proof {
        assert(text@.take(len as int) =~= text@);
        assert(out@ =~= old(out)@ + quoted(text@));
    }
}

fn push_number_section(out: &mut String, key: &str, array: &Option<Vec<usize>>)
    ensures
        final(out)@ == old(out)@ + section(key@, number_lines(numbers(*array))),
{
    push_text(out, key);
    push_text(out, ":\n");
    let ghost values = numbers(*array);
    proof {
        assert(values.take(0) =~= Seq::<nat>::empty());
        assert(out@ =~= old(out)@ + section(key@, number_lines(values.take(0))));
    }
    match array {
        Some(v) => {
            let mut i: usize = 0;
            while i < v.len()
                invariant
                    i <= v@.len(),
                    values == numbers(*array),
                    *array == Some(*v),
                    out@ == old(out)@ + section(key@, number_lines(values.take(i as int))),
                decreases v@.len() - i,
            {
                push_text(out, "    - ");
                push_decimal(out, v[i] as u128);
                push_text(out, "\n");
                proof {
                    assert(values.take(i + 1).drop_last() =~= values.take(i as int));
                    assert(values.take(i + 1).last() == v@[i as int] as nat);
                    assert(out@ =~= old(out)@ + section(key@, number_lines(values.take(i + 1))));
                }
                i += 1;
            }
            proof {
                assert(values.take(v@.len() as int) =~= values);
            }
        },
        None => {},
    }
}

fn push_text_section(out: &mut String, key: &str, array: &Option<Vec<String>>)
    ensures
        final(out)@ == old(out)@ + section(key@, text_lines(texts(*array))),
{
    push_text(out, key);
    push_text(out, ":\n");
    let ghost values = texts(*array);
    proof {
        assert(values.take(0) =~= Seq::<Seq<char>>::empty());
        assert(out@ =~= old(out)@ + section(key@, text_lines(values.take(0))));
    }
    match array {
        Some(v) => {
            let mut i: usize = 0;
            while i < v.len()
                invariant
                    i <= v@.len(),
                    values == texts(*array),
                    *array == Some(*v),
                    out@ == old(out)@ + section(key@, text_lines(values.take(i as int))),
                decreases v@.len() - i,
            {
                push_text(out, "    - ");
                push_quoted(out, v[i].as_str());
                push_text(out, "\n");
                proof {
                    assert(values.take(i + 1).drop_last() =~= values.take(i as int));
                    assert(values.take(i + 1).last() == v@[i as int]@);
                    assert(out@ =~= old(out)@ + section(key@, text_lines(values.take(i + 1))));
                }
                i += 1;
            }
            proof {
                assert(values.take(v@.len() as int) =~= values);
            }
        },
        None => {},
    }
}

fn push_flag_section(out: &mut String, key: &str, array: &Option<Vec<bool>>)
    ensures
        final(out)@ == old(out)@ + section(key@, flag_lines(flags(*array))),
{
    push_text(out, key);
    push_text(out, ":\n");
    let ghost values = flags(*array);
    proof {
        assert(values.take(0) =~= Seq::<bool>::empty());
        assert(out@ =~= old(out)@ + section(key@, flag_lines(values.take(0))));
    }
    match array {
        Some(v) => {
            let mut i: usize = 0;
            while i < v.len()
                invariant
                    i <= v@.len(),
                    values == flags(*array),
                    *array == Some(*v),
                    out@ == old(out)@ + section(key@, flag_lines(values.take(i as int))),
                decreases v@.len() - i,
            {
                push_text(out, "    - ");
                if v[i] {
                    push_text(out, "true");
                } else {
                    push_text(out, "false");
                }
                push_text(out, "\n");
                proof {
                    assert(values.take(i + 1).drop_last() =~= values.take(i as int));
                    assert(values.take(i + 1).last() == v@[i as int]);
                    assert(out@ =~= old(out)@ + section(key@, flag_lines(values.take(i + 1))));
                }
                i += 1;
            }
            proof {
                assert(values.take(v@.len() as int) =~= values);
            }
        },
        None => {},
    }
}

impl Queries {
    /// The text that stores the record.
    pub fn to_yaml(&self) -> (text: String)
        ensures
            text@ == yaml_text(self@),
    {
        let mut out = String::new();
        push_number_section(&mut out, "workspace_slot", &self.workspace_slot);
        push_text_section(&mut out, "workspace_title", &self.workspace_title);
        push_number_section(&mut out, "workspace_num_of_item", &self.workspace_num_of_item);
        push_flag_section(&mut out, "workspace_is_selected", &self.workspace_is_selected);
        push_number_section(&mut out, "item_slot", &self.item_slot);
        push_number_section(&mut out, "item_workspace", &self.item_workspace);
        push_text_section(&mut out, "item_text", &self.item_text);
        push_text_section(
            &mut out,
            "item_expire_datetime_string",
            &self.item_expire_datetime_string,
        );
        push_flag_section(&mut out, "item_is_finished", &self.item_is_finished);
        push_flag_section(&mut out, "item_is_selected", &self.item_is_selected);
        assert(out@ =~= yaml_text(self@));
        out
    }
}

/// The text that stores the workspaces and items of `app`.
pub fn write_items(app: &App) -> (text: String)
    ensures
        text@ == yaml_text(stored(app@.workspaces, all_records(app@.items))),
{
    Queries::store(app).to_yaml()
}

} // verus!
