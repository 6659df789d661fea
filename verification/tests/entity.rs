use todo_rs::item::{AddItemState, EditItemState, ItemState};
use todo_rs::model::{
    insert_item, insert_workspace, remove_item, remove_workspace, rename_workspace, replace_item,
    select_item, select_workspace, IndexError,
};
use todo_rs::workspace::{AddWorkspaceState, EditWorkspaceState, WorkspaceState};

fn workspace(title: &str) -> WorkspaceState {
    WorkspaceState::new(99, String::from(title), 0, false)
}

fn item(text: &str) -> ItemState {
    ItemState::with_expiry(99, String::from(text), String::new(), false, false, None, 0)
}

fn workspace_slots(list: &Vec<WorkspaceState>) -> Vec<usize> {
    list.iter().map(|w| w.slot).collect()
}

fn item_slots(list: &Vec<ItemState>) -> Vec<usize> {
    list.iter().map(|i| i.slot).collect()
}

fn titles(list: &Vec<WorkspaceState>) -> Vec<String> {
    list.iter().map(|w| w.title.clone()).collect()
}

fn texts(list: &Vec<ItemState>) -> Vec<String> {
    list.iter().map(|i| i.text.clone()).collect()
}

#[test]
fn workspace_is_what_it_was_made_of() {
    let w = WorkspaceState::new(3, String::from("home"), 7, true);
    assert_eq!(w.slot, 3);
    assert_eq!(w.title, "home");
    assert_eq!(w.num_of_item, 7);
    assert!(w.is_selected);
}

#[test]
fn insert_appends_at_the_next_slot() {
    let mut list = Vec::new();
    for title in ["a", "b", "c"] {
        insert_workspace(&mut list, workspace(title));
    }
    assert_eq!(workspace_slots(&list), vec![0, 1, 2]);
    assert_eq!(titles(&list), vec!["a", "b", "c"]);
    let mut items = Vec::new();
    for text in ["x", "y"] {
        insert_item(&mut items, item(text));
    }
    assert_eq!(item_slots(&items), vec![0, 1]);
    assert_eq!(texts(&items), vec!["x", "y"]);
}

#[test]
fn remove_closes_the_gap() {
    let mut list = Vec::new();
    for title in ["a", "b", "c", "d"] {
        insert_workspace(&mut list, workspace(title));
    }
    assert_eq!(remove_workspace(&mut list, 1), Ok(()));
    assert_eq!(workspace_slots(&list), vec![0, 1, 2]);
    assert_eq!(titles(&list), vec!["a", "c", "d"]);
    assert_eq!(remove_workspace(&mut list, 2), Ok(()));
    assert_eq!(titles(&list), vec!["a", "c"]);
    assert_eq!(remove_workspace(&mut list, 0), Ok(()));
    assert_eq!(workspace_slots(&list), vec![0]);
    assert_eq!(titles(&list), vec!["c"]);

    let mut items = Vec::new();
    for text in ["x", "y", "z"] {
        insert_item(&mut items, item(text));
    }
    assert_eq!(remove_item(&mut items, 0), Ok(()));
    assert_eq!(item_slots(&items), vec![0, 1]);
    assert_eq!(texts(&items), vec!["y", "z"]);
}

#[test]
fn remove_past_the_end_is_an_index_error() {
    let mut list = Vec::new();
    assert_eq!(remove_workspace(&mut list, 0), Err(IndexError { index: 0, len: 0 }));
    insert_workspace(&mut list, workspace("a"));
    assert_eq!(remove_workspace(&mut list, 1), Err(IndexError { index: 1, len: 1 }));
    assert_eq!(titles(&list), vec!["a"]);
    let mut items = Vec::new();
    assert_eq!(remove_item(&mut items, 5), Err(IndexError { index: 5, len: 0 }));
    insert_item(&mut items, item("x"));
    assert_eq!(remove_item(&mut items, 1), Err(IndexError { index: 1, len: 1 }));
    assert_eq!(
        replace_item(&mut items, 1, item("y")),
        Err(IndexError { index: 1, len: 1 })
    );
    assert_eq!(
        rename_workspace(&mut list, 4, String::from("b")),
        Err(IndexError { index: 4, len: 1 })
    );
    assert_eq!(texts(&items), vec!["x"]);
    assert_eq!(titles(&list), vec!["a"]);
}

#[test]
fn slots_stay_dense_through_any_sequence() {
    let mut list = Vec::new();
    let mut items = Vec::new();
    let steps = [3usize, 0, 7, 1, 1, 4, 0, 2, 9, 5, 0, 0, 1];
    for (round, step) in steps.iter().enumerate() {
        if round % 3 == 2 {
            let _ = remove_workspace(&mut list, *step);
            let _ = remove_item(&mut items, *step);
        } else {
            insert_workspace(&mut list, workspace("w"));
            insert_item(&mut items, item("i"));
            insert_item(&mut items, item("j"));
        }
        let mut sorted = workspace_slots(&list);
        sorted.sort();
        assert_eq!(sorted, (0..list.len()).collect::<Vec<usize>>());
        let mut sorted = item_slots(&items);
        sorted.sort();
        assert_eq!(sorted, (0..items.len()).collect::<Vec<usize>>());
    }
}

#[test]
fn selecting_flags_exactly_one() {
    let mut list = Vec::new();
    let mut items = Vec::new();
    for title in ["a", "b", "c"] {
        insert_workspace(&mut list, workspace(title));
        insert_item(&mut items, item(title));
    }
    for target in 0..3 {
        select_workspace(&mut list, target);
        select_item(&mut items, target);
        let flags: Vec<bool> = list.iter().map(|w| w.is_selected).collect();
        assert_eq!(flags, (0..3).map(|i| i == target).collect::<Vec<bool>>());
        assert_eq!(items.iter().filter(|i| i.is_selected).count(), 1);
        assert!(items[target].is_selected);
        select_workspace(&mut list, target);
        assert_eq!(list.iter().filter(|w| w.is_selected).count(), 1);
    }
    select_workspace(&mut list, 3);
    assert_eq!(list.iter().filter(|w| w.is_selected).count(), 0);
    assert_eq!(titles(&list), vec!["a", "b", "c"]);
}

#[test]
fn rename_and_replace_keep_the_slot() {
    let mut list = Vec::new();
    let mut items = Vec::new();
    for title in ["a", "b"] {
        insert_workspace(&mut list, workspace(title));
        insert_item(&mut items, item(title));
    }
    assert_eq!(rename_workspace(&mut list, 1, String::from("z")), Ok(()));
    assert_eq!(titles(&list), vec!["a", "z"]);
    assert_eq!(workspace_slots(&list), vec![0, 1]);
    assert_eq!(replace_item(&mut items, 1, item("q")), Ok(()));
    assert_eq!(texts(&items), vec!["a", "q"]);
    assert_eq!(item_slots(&items), vec![0, 1]);
}

#[test]
fn item_with_a_deadline() {
    let ahead = ItemState::with_expiry(
        2,
        String::from("pay rent"),
        String::from("2030-01-01"),
        false,
        true,
        Some(2_000),
        1_000,
    );
    assert_eq!(ahead.slot, 2);
    assert_eq!(ahead.text, "pay rent");
    assert_eq!(ahead.expire_datetime_string, "2030-01-01");
    assert!(ahead.has_expire_datetime);
    assert_eq!(ahead.expire_datetime, 2_000);
    assert!(!ahead.is_late);
    assert!(!ahead.is_finished);
    assert!(ahead.is_selected);
    let behind = ItemState::with_expiry(0, String::new(), String::new(), true, false, Some(999), 1_000);
    assert!(behind.is_late);
    assert!(behind.is_finished);
    let due = ItemState::with_expiry(0, String::new(), String::new(), false, false, Some(1_000), 1_000);
    assert!(!due.is_late);
}

#[test]
fn item_without_a_deadline_is_never_late() {
    let plain = ItemState::with_expiry(0, String::from("x"), String::from("soon"), false, false, None, 77);
    assert!(!plain.has_expire_datetime);
    assert!(!plain.is_late);
    assert_eq!(plain.expire_datetime, 77);
    let read = ItemState::new(4, String::from("x"), String::from("soon"), true, true);
    assert!(!read.has_expire_datetime);
    assert!(!read.is_late);
    assert_eq!(read.slot, 4);
    assert!(read.is_finished);
    assert!(read.is_selected);
    assert_eq!(read.expire_datetime_string, "soon");
}

#[test]
fn item_reads_its_deadline() {
    let old = ItemState::new(0, String::from("x"), String::from("2001-09-09 12:00:00"), false, false);
    assert!(old.has_expire_datetime);
    assert!(old.is_late);
    let far = ItemState::new(0, String::from("x"), String::from("9000-01-01"), false, false);
    assert!(far.has_expire_datetime);
    assert!(!far.is_late);
    let wrong = ItemState::new(0, String::from("x"), String::from("2001-99-99"), false, false);
    assert!(!wrong.has_expire_datetime);
    assert!(!wrong.is_late);
}

#[test]
fn countdown_marks_a_late_item() {
    let mut item = ItemState::with_expiry(0, String::new(), String::new(), false, false, Some(1_000), 0);
    assert_eq!(item.time_offset_at(940), "1 minute, 0 second ");
    assert!(!item.is_late);
    assert_eq!(item.time_offset_at(1_000), "0 second ");
    assert!(!item.is_late);
    assert_eq!(item.time_offset_at(1_061), "-1 minute, -1 second ");
    assert!(item.is_late);
    assert_eq!(item.time_offset_at(0), "16 minute, 40 second ");
    assert!(item.is_late);
    let mut far = ItemState::new(0, String::new(), String::from("9000-01-01"), false, false);
    let words = far.get_time_offset();
    assert!(words.ends_with(" second "));
    assert!(words.contains(" week, "));
    assert!(!far.is_late);
}

#[test]
fn toggles_flip_one_flag() {
    let mut it = item("x");
    it.toggle_finished();
    assert!(it.is_finished && !it.is_late);
    it.toggle_late();
    assert!(it.is_finished && it.is_late);
    it.toggle_finished();
    it.toggle_late();
    assert!(!it.is_finished && !it.is_late);
    assert_eq!(it.text, "x");
}

#[test]
fn workspace_prompt_takes_a_title() {
    let mut add = AddWorkspaceState::new();
    assert_eq!(add.input_string, "");
    assert!(!add.has_input);
    assert_eq!(add.error_msg, Some(String::new()));
    for c in "inbox!".chars() {
        add.add_char(c);
    }
    assert!(add.has_input);
    assert_eq!(add.input_string, "inbox!");
    add.del_char();
    assert_eq!(add.input_string, "inbox");
    let made = add.enter(5, 2);
    assert_eq!((made.slot, made.title.as_str(), made.num_of_item, made.is_selected), (5, "inbox", 2, true));
    assert_eq!(add.input_string, "inbox");
    add.reset();
    assert_eq!(add.input_string, "");
    assert!(!add.has_input);
    assert_eq!(add.error_msg, None);
    add.del_char();
    assert_eq!(add.input_string, "");

    let mut edit = EditWorkspaceState::new();
    assert_eq!(edit.error_msg, Some(String::new()));
    edit.add_char('w');
    edit.add_char('é');
    edit.add_char('k');
    edit.del_char();
    assert_eq!(edit.input_string, "wé");
    let made = edit.enter(0, 9);
    assert_eq!((made.slot, made.title.as_str(), made.num_of_item, made.is_selected), (0, "wé", 9, true));
    edit.reset();
    assert_eq!((edit.input_string.as_str(), edit.has_input, edit.error_msg), ("", false, None));
}

#[test]
fn item_prompt_has_two_fields() {
    let mut add = AddItemState::new();
    assert!(!add.has_expire_datetime && !add.has_input);
    assert_eq!(add.error_msg, Some(String::new()));
    add.add_char('a');
    add.add_char('b');
    add.has_expire_datetime = true;
    add.add_char('1');
    add.add_char('2');
    add.del_char();
    assert_eq!((add.input_string.as_str(), add.input_datetime.as_str()), ("ab", "1"));
    add.has_expire_datetime = false;
    add.del_char();
    assert_eq!((add.input_string.as_str(), add.input_datetime.as_str()), ("a", "1"));
    let made = add.enter(3);
    assert_eq!(made.slot, 3);
    assert_eq!(made.text, "a");
    assert_eq!(made.expire_datetime_string, "1");
    assert!(!made.has_expire_datetime && !made.is_finished && made.is_selected);
    add.has_expire_datetime = true;
    add.reset();
    assert_eq!((add.input_string.as_str(), add.input_datetime.as_str()), ("", ""));
    assert!(!add.has_input && add.has_expire_datetime);
    assert_eq!(add.error_msg, None);

    let mut edit = EditItemState::new();
    edit.has_expire_datetime = true;
    for c in "9000-01-01".chars() {
        edit.add_char(c);
    }
    edit.has_expire_datetime = false;
    edit.add_char('t');
    let made = edit.enter(0);
    assert_eq!(made.text, "t");
    assert!(made.has_expire_datetime && !made.is_late && made.is_selected && !made.is_finished);
    edit.reset();
    assert_eq!((edit.input_string.as_str(), edit.input_datetime.as_str()), ("", ""));
}
