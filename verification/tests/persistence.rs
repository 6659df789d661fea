use todo_rs::app::{App, Mode};
use todo_rs::event::{handle_key_bindings, KeyCode, KeyEvent, KeyModifiers};
use todo_rs::query::{resolve_queries, Queries};
use todo_rs::restore::{hydrate, LoadError};
use todo_rs::yaml::write_items;

fn press(app: &mut App, code: KeyCode) {
    let key = KeyEvent::new(code, KeyModifiers::Unmodified);
    handle_key_bindings(app.mode, key, app);
}

fn type_text(app: &mut App, text: &str) {
    for c in text.chars() {
        press(app, KeyCode::Char(c));
    }
}

fn sample() -> App {
    let mut app = App::new();
    for (title, items) in [("home", vec!["dishes", "laundry"]), ("void", vec![]), ("work", vec!["mail"])] {
        press(&mut app, KeyCode::Char('w'));
        type_text(&mut app, title);
        press(&mut app, KeyCode::Enter);
        for item in items {
            press(&mut app, KeyCode::Char('a'));
            type_text(&mut app, item);
            press(&mut app, KeyCode::Enter);
        }
    }
    app
}

fn strings(values: &[&str]) -> Option<Vec<String>> {
    Some(values.iter().map(|v| String::from(*v)).collect())
}

/// What is kept of a state, as plain values.
fn kept(app: &App) -> (Vec<(usize, String, usize, bool)>, Vec<Vec<(usize, String, String, bool, bool)>>, usize, usize) {
    (
        app.workspaces
            .iter()
            .map(|w| (w.slot, w.title.clone(), w.num_of_item, w.is_selected))
            .collect(),
        app.items
            .iter()
            .map(|list| {
                list.iter()
                    .map(|i| (i.slot, i.text.clone(), i.expire_datetime_string.clone(), i.is_finished, i.is_selected))
                    .collect()
            })
            .collect(),
        app.current_workspace,
        app.current_item,
    )
}

#[test]
fn nothing_stored_is_an_empty_record() {
    let queries = resolve_queries(None);
    assert!(queries.workspace_slot.is_none() && queries.item_slot.is_none());
    assert!(queries.workspace_title.is_none() && queries.item_text.is_none());
    let app = hydrate(&queries).expect("an empty record can be read");
    assert!(app.workspaces.is_empty() && app.items.is_empty());
    assert_eq!(app.mode, Mode::DisplayItem);
    assert_eq!(app.previous_mode, Mode::DisplayItem);
    assert!(app.is_well_formed());
    let same = Queries::default();
    assert!(same.item_is_finished.is_none() && same.workspace_is_selected.is_none());
}

#[test]
fn what_was_read_is_kept() {
    let mut read = Queries::new();
    read.workspace_title = strings(&["a"]);
    let queries = resolve_queries(Some(read));
    assert_eq!(queries.workspace_title, strings(&["a"]));
    assert!(queries.workspace_slot.is_none());
}

#[test]
fn record_holds_one_entry_for_each_entity() {
    let mut app = sample();
    press(&mut app, KeyCode::Char(' '));
    let queries = Queries::store(&app);
    assert_eq!(queries.workspace_slot, Some(vec![0, 1, 2]));
    assert_eq!(queries.workspace_title, strings(&["home", "void", "work"]));
    assert_eq!(queries.workspace_num_of_item, Some(vec![2, 0, 1]));
    assert_eq!(queries.workspace_is_selected, Some(vec![false, false, true]));
    assert_eq!(queries.item_slot, Some(vec![0, 1, 0]));
    assert_eq!(queries.item_workspace, Some(vec![0, 0, 2]));
    assert_eq!(queries.item_text, strings(&["dishes", "laundry", "mail"]));
    assert_eq!(queries.item_expire_datetime_string, strings(&["", "", ""]));
    assert_eq!(queries.item_is_finished, Some(vec![false, false, true]));
    assert_eq!(queries.item_is_selected, Some(vec![false, true, true]));
}

#[test]
fn stored_state_reads_back_as_it_was() {
    let mut app = sample();
    let before = kept(&app);
    let back = hydrate(&Queries::store(&app)).expect("a stored state can be read");
    assert_eq!(kept(&back), before);
    assert_eq!(back.mode, Mode::DisplayWorkspace);
    assert!(back.is_well_formed());
    // Every cursor position reads back.
    for key in ['K', 'K', 'k', 'J', 'J', 'd'] {
        press(&mut app, KeyCode::Char(key));
        let back = hydrate(&Queries::store(&app)).expect("a stored state can be read");
        assert_eq!(kept(&back), kept(&app));
    }
    let empty = App::new();
    let back = hydrate(&Queries::store(&empty)).expect("the empty state can be read");
    assert_eq!(kept(&back), kept(&empty));
    assert_eq!(back.mode, Mode::DisplayItem);
}

#[test]
fn deadlines_are_read_anew() {
    let mut app = App::new();
    press(&mut app, KeyCode::Char('a'));
    type_text(&mut app, "old");
    handle_key_bindings(app.mode, KeyEvent::new(KeyCode::Char('d'), KeyModifiers::Control), &mut app);
    type_text(&mut app, "2001-09-09");
    press(&mut app, KeyCode::Enter);
    press(&mut app, KeyCode::Char('x'));
    assert!(!app.items[0][0].is_late);
    let back = hydrate(&Queries::store(&app)).expect("a stored state can be read");
    let item = &back.items[0][0];
    assert_eq!(item.expire_datetime_string, "2001-09-09");
    assert!(item.has_expire_datetime);
    assert!(item.is_late);
    assert_eq!(item.expire_datetime, app.items[0][0].expire_datetime);
}

#[test]
fn arrays_of_different_lengths_are_refused() {
    let mut queries = Queries::new();
    queries.workspace_slot = Some(vec![0, 1]);
    queries.workspace_title = strings(&["a"]);
    assert_eq!(hydrate(&queries).err(), Some(LoadError::WorkspaceLengths));
    let mut queries = Queries::new();
    queries.workspace_title = strings(&["a", "b"]);
    queries.workspace_is_selected = Some(vec![true, false, false]);
    assert_eq!(hydrate(&queries).err(), Some(LoadError::WorkspaceLengths));
    let mut queries = Queries::new();
    queries.item_slot = Some(vec![0, 1]);
    queries.item_text = strings(&["a", "b"]);
    queries.item_is_finished = Some(vec![true]);
    assert_eq!(hydrate(&queries).err(), Some(LoadError::ItemLengths));
    let mut queries = Queries::new();
    queries.workspace_slot = Some(vec![0]);
    queries.workspace_num_of_item = Some(vec![0, 0]);
    queries.item_text = strings(&["a"]);
    queries.item_slot = Some(vec![0, 1]);
    assert_eq!(hydrate(&queries).err(), Some(LoadError::WorkspaceLengths));
}

#[test]
fn item_of_a_missing_workspace_is_refused() {
    let mut queries = Queries::new();
    queries.workspace_title = strings(&["a", "b"]);
    queries.item_text = strings(&["x", "y"]);
    queries.item_workspace = Some(vec![1, 2]);
    assert_eq!(hydrate(&queries).err(), Some(LoadError::ItemWorkspace));
    queries.item_workspace = Some(vec![1, 1]);
    let app = hydrate(&queries).expect("both items are housed");
    assert!(app.items[0].is_empty());
    assert_eq!(app.items[1].len(), 2);
    let mut queries = Queries::new();
    queries.item_text = strings(&["x"]);
    queries.item_workspace = Some(vec![1]);
    assert_eq!(hydrate(&queries).err(), Some(LoadError::ItemWorkspace));
}

#[test]
fn absent_arrays_are_unknown_fields() {
    let mut queries = Queries::new();
    queries.workspace_title = strings(&["a", "b"]);
    queries.workspace_slot = Some(Vec::new());
    queries.item_text = strings(&["x", "y", "z"]);
    queries.item_workspace = Some(vec![1, 0, 1]);
    queries.item_is_finished = Some(vec![true, false, true]);
    let app = hydrate(&queries).expect("unknown fields take their defaults");
    assert!(app.is_well_formed());
    assert_eq!(
        kept(&app),
        (
            vec![(0, String::from("a"), 1, true), (1, String::from("b"), 2, false)],
            vec![
                vec![(0, String::from("y"), String::new(), false, true)],
                vec![
                    (0, String::from("x"), String::new(), true, false),
                    (1, String::from("z"), String::new(), true, false),
                ],
            ],
            0,
            0,
        )
    );
    assert_eq!(app.mode, Mode::DisplayWorkspace);
}

#[test]
fn items_without_a_workspace_get_one() {
    let mut queries = Queries::new();
    queries.item_slot = Some(vec![0, 1]);
    queries.item_text = strings(&["x", "y"]);
    queries.item_expire_datetime_string = strings(&["", "9000-01-01"]);
    queries.item_is_finished = Some(vec![false, true]);
    let app = hydrate(&queries).expect("a record of items alone can be read");
    assert_eq!(app.workspaces.len(), 1);
    assert_eq!(app.workspaces[0].title, "default");
    assert_eq!(app.workspaces[0].num_of_item, 2);
    assert!(app.workspaces[0].is_selected);
    assert_eq!(app.items[0].len(), 2);
    assert!(app.items[0][1].has_expire_datetime && app.items[0][1].is_finished);
    assert!(app.items[0][0].is_selected && !app.items[0][1].is_selected);
    assert!(app.is_well_formed());
}

#[test]
fn slots_and_flags_are_derived_again() {
    let mut queries = Queries::new();
    queries.workspace_slot = Some(vec![7, 7, 3]);
    queries.workspace_title = strings(&["a", "b", "c"]);
    queries.workspace_num_of_item = Some(vec![9, 9, 9]);
    queries.workspace_is_selected = Some(vec![false, true, true]);
    queries.item_slot = Some(vec![5, 5, 5, 5]);
    queries.item_workspace = Some(vec![1, 2, 1, 1]);
    queries.item_text = strings(&["p", "q", "r", "s"]);
    queries.item_is_selected = Some(vec![false, true, true, true]);
    let app = hydrate(&queries).expect("a record with loose slots can be read");
    assert!(app.is_well_formed());
    assert_eq!((app.current_workspace, app.current_item), (1, 1));
    assert_eq!(app.workspaces.iter().map(|w| w.slot).collect::<Vec<usize>>(), vec![0, 1, 2]);
    assert_eq!(app.workspaces.iter().map(|w| w.num_of_item).collect::<Vec<usize>>(), vec![0, 3, 1]);
    assert_eq!(app.workspaces.iter().map(|w| w.is_selected).collect::<Vec<bool>>(), vec![false, true, false]);
    assert_eq!(app.items[1].iter().map(|i| i.text.clone()).collect::<Vec<String>>(), vec!["p", "r", "s"]);
    assert_eq!(app.items[1].iter().map(|i| i.slot).collect::<Vec<usize>>(), vec![0, 1, 2]);
    assert_eq!(app.items[1].iter().map(|i| i.is_selected).collect::<Vec<bool>>(), vec![false, true, false]);
    assert!(app.items[2][0].is_selected);
}

#[test]
fn record_is_written_as_flat_arrays() {
    let mut app = App::new();
    press(&mut app, KeyCode::Char('w'));
    type_text(&mut app, "home");
    press(&mut app, KeyCode::Enter);
    press(&mut app, KeyCode::Char('a'));
    type_text(&mut app, "say \"hi\"");
    handle_key_bindings(app.mode, KeyEvent::new(KeyCode::Char('d'), KeyModifiers::Control), &mut app);
    type_text(&mut app, "12:00");
    press(&mut app, KeyCode::Enter);
    press(&mut app, KeyCode::Char('a'));
    type_text(&mut app, "a\\b: #c");
    press(&mut app, KeyCode::Enter);
    press(&mut app, KeyCode::Char(' '));
    let want = "workspace_slot:\n    - 0\n\
workspace_title:\n    - \"home\"\n\
workspace_num_of_item:\n    - 2\n\
workspace_is_selected:\n    - true\n\
item_slot:\n    - 0\n    - 1\n\
item_workspace:\n    - 0\n    - 0\n\
item_text:\n    - \"say \\\"hi\\\"\"\n    - \"a\\\\b: #c\"\n\
item_expire_datetime_string:\n    - \"12:00\"\n    - \"\"\n\
item_is_finished:\n    - false\n    - true\n\
item_is_selected:\n    - false\n    - true\n";
    assert_eq!(write_items(&app), want);
    assert_eq!(Queries::store(&app).to_yaml(), want);
}

#[test]
fn empty_record_is_written_as_bare_keys() {
    let want = "workspace_slot:\nworkspace_title:\nworkspace_num_of_item:\nworkspace_is_selected:\n\
item_slot:\nitem_workspace:\nitem_text:\nitem_expire_datetime_string:\nitem_is_finished:\nitem_is_selected:\n";
    assert_eq!(Queries::new().to_yaml(), want);
    assert_eq!(write_items(&App::new()), want);
}

#[test]
fn written_record_is_read_by_a_yaml_reader() {
    let mut app = sample();
    press(&mut app, KeyCode::Char('a'));
    type_text(&mut app, "tricky: \"q\" \\ # - true");
    press(&mut app, KeyCode::Enter);
    let text = write_items(&app);
    let value: serde_yaml::Value = serde_yaml::from_str(&text).expect("the text is YAML");
    let texts: Vec<String> = value["item_text"]
        .as_sequence()
        .expect("an array")
        .iter()
        .map(|v| String::from(v.as_str().expect("a text")))
        .collect();
    assert_eq!(texts, vec!["dishes", "laundry", "mail", "tricky: \"q\" \\ # - true"]);
    let owners: Vec<u64> = value["item_workspace"]
        .as_sequence()
        .expect("an array")
        .iter()
        .map(|v| v.as_u64().expect("a number"))
        .collect();
    assert_eq!(owners, vec![0, 0, 2, 2]);
    let flags: Vec<bool> = value["workspace_is_selected"]
        .as_sequence()
        .expect("an array")
        .iter()
        .map(|v| v.as_bool().expect("a flag"))
        .collect();
    assert_eq!(flags, vec![false, false, true]);
    let empty: serde_yaml::Value = serde_yaml::from_str(&write_items(&App::new())).expect("the text is YAML");
    assert!(empty["item_text"].is_null());
}
