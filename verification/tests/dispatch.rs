use todo_rs::app::{App, HelpMode, Mode};
use todo_rs::event::{apply_key, handle_key_bindings, Action, KeyCode, KeyEvent, KeyModifiers};
use todo_rs::scroll::ScrollDirection;

fn plain(c: char) -> KeyEvent {
    KeyEvent::new(KeyCode::Char(c), KeyModifiers::Unmodified)
}

fn shift(c: char) -> KeyEvent {
    KeyEvent::new(KeyCode::Char(c), KeyModifiers::Shift)
}

fn control(c: char) -> KeyEvent {
    KeyEvent::new(KeyCode::Char(c), KeyModifiers::Control)
}

fn enter() -> KeyEvent {
    KeyEvent::new(KeyCode::Enter, KeyModifiers::Unmodified)
}

fn escape() -> KeyEvent {
    KeyEvent::new(KeyCode::Esc, KeyModifiers::Unmodified)
}

fn backspace() -> KeyEvent {
    KeyEvent::new(KeyCode::Backspace, KeyModifiers::Unmodified)
}

fn press(app: &mut App, key: KeyEvent) -> Action {
    assert!(app.is_well_formed());
    let action = handle_key_bindings(app.mode, key, app);
    assert!(app.is_well_formed());
    action
}

fn type_text(app: &mut App, text: &str) {
    for c in text.chars() {
        let key = if c.is_uppercase() { shift(c) } else { plain(c) };
        assert_eq!(press(app, key), Action::Redraw);
    }
}

fn add_item(app: &mut App, text: &str) {
    press(app, plain('a'));
    type_text(app, text);
    press(app, enter());
}

fn add_workspace(app: &mut App, title: &str) {
    press(app, plain('w'));
    type_text(app, title);
    press(app, enter());
}

fn item_texts(app: &App, workspace: usize) -> Vec<String> {
    app.items[workspace].iter().map(|i| i.text.clone()).collect()
}

fn titles(app: &App) -> Vec<String> {
    app.workspaces.iter().map(|w| w.title.clone()).collect()
}

fn selected_workspaces(app: &App) -> Vec<usize> {
    app.workspaces.iter().filter(|w| w.is_selected).map(|w| w.slot).collect()
}

fn selected_items(app: &App) -> Vec<usize> {
    app.items[app.current_workspace].iter().filter(|i| i.is_selected).map(|i| i.slot).collect()
}

/// Three workspaces "one", "two", "three" holding 2, 0 and 3 items; the
/// cursor is on the last item of "three".
fn three_workspaces() -> App {
    let mut app = App::new();
    add_workspace(&mut app, "one");
    add_item(&mut app, "a");
    add_item(&mut app, "b");
    add_workspace(&mut app, "two");
    add_workspace(&mut app, "three");
    add_item(&mut app, "c");
    add_item(&mut app, "d");
    add_item(&mut app, "e");
    app
}

#[test]
fn new_app_is_empty() {
    let app = App::new();
    assert_eq!(app.mode, Mode::DisplayItem);
    assert_eq!(app.previous_mode, Mode::DisplayItem);
    assert_eq!(app.help_mode, HelpMode::ItemHelp);
    assert!(app.workspaces.is_empty() && app.items.is_empty());
    assert_eq!((app.current_workspace, app.current_item), (0, 0));
    assert!(!app.is_modified);
    assert!(app.is_well_formed());
}

#[test]
fn adding_the_first_item() {
    let mut app = App::new();
    assert_eq!(press(&mut app, plain('a')), Action::Redraw);
    assert_eq!(app.mode, Mode::AddItem);
    type_text(&mut app, "Buy milk");
    assert_eq!(app.add_item.input_string, "Buy milk");
    assert_eq!(press(&mut app, enter()), Action::Redraw);
    assert_eq!(app.mode, Mode::DisplayItem);
    assert_eq!(app.items.iter().map(|list| list.len()).sum::<usize>(), 1);
    let item = &app.items[0][0];
    assert_eq!(item.text, "Buy milk");
    assert!(!item.is_finished);
    assert!(item.is_selected);
    assert!(!item.has_expire_datetime && !item.is_late);
    assert_eq!(item.slot, 0);
    assert_eq!(titles(&app), vec!["default"]);
    assert_eq!(app.workspaces[0].num_of_item, 1);
    assert!(app.workspaces[0].is_selected);
    assert!(app.is_modified);
    assert_eq!(app.add_item.input_string, "");
}

#[test]
fn deleting_the_middle_item() {
    let mut app = App::new();
    for text in ["a", "b", "c"] {
        add_item(&mut app, text);
    }
    assert_eq!(app.current_item, 2);
    press(&mut app, plain('k'));
    assert_eq!(app.current_item, 1);
    assert_eq!(press(&mut app, plain('d')), Action::Redraw);
    assert_eq!(app.items[0].len(), 2);
    assert_eq!(app.current_item, 0);
    assert_eq!(app.items[0].iter().map(|i| i.slot).collect::<Vec<usize>>(), vec![0, 1]);
    assert_eq!(item_texts(&app, 0), vec!["a", "c"]);
    assert_eq!(selected_items(&app), vec![0]);
    assert_eq!(app.workspaces[0].num_of_item, 2);
}

#[test]
fn deleting_until_nothing_is_left() {
    let mut app = App::new();
    for text in ["a", "b"] {
        add_item(&mut app, text);
    }
    press(&mut app, plain('d'));
    assert_eq!(item_texts(&app, 0), vec!["a"]);
    assert_eq!(app.current_item, 0);
    press(&mut app, plain('d'));
    assert!(app.items[0].is_empty());
    press(&mut app, plain('d'));
    assert!(app.items[0].is_empty());
    assert_eq!(app.current_item, 0);
    assert_eq!(app.workspaces[0].num_of_item, 0);
    let mut empty = App::new();
    press(&mut empty, plain('d'));
    press(&mut empty, plain(' '));
    press(&mut empty, plain('x'));
    press(&mut empty, plain('j'));
    press(&mut empty, shift('J'));
    assert!(empty.workspaces.is_empty() && empty.items.is_empty());
    empty.mode = Mode::DisplayWorkspace;
    press(&mut empty, plain('d'));
    press(&mut empty, plain('j'));
    press(&mut empty, plain('k'));
    assert!(empty.workspaces.is_empty());
    assert!(empty.summary_scroll_state.queued_scroll.is_none());
}

#[test]
fn deleting_a_workspace_deletes_its_items() {
    let mut app = three_workspaces();
    assert_eq!(titles(&app), vec!["one", "two", "three"]);
    press(&mut app, plain('-'));
    assert_eq!(app.mode, Mode::DisplayWorkspace);
    press(&mut app, plain('k'));
    press(&mut app, plain('k'));
    assert_eq!(app.current_workspace, 0);
    assert_eq!(press(&mut app, plain('d')), Action::Redraw);
    assert_eq!(titles(&app), vec!["two", "three"]);
    assert_eq!(app.workspaces.iter().map(|w| w.slot).collect::<Vec<usize>>(), vec![0, 1]);
    assert_eq!(app.workspaces.iter().map(|w| w.num_of_item).collect::<Vec<usize>>(), vec![0, 3]);
    assert_eq!(app.items.len(), 2);
    assert!(app.items[0].is_empty());
    assert_eq!(item_texts(&app, 1), vec!["c", "d", "e"]);
    assert_eq!(app.current_workspace, 0);
    assert_eq!(selected_workspaces(&app), vec![0]);
    press(&mut app, plain('j'));
    press(&mut app, plain('d'));
    assert_eq!(titles(&app), vec!["two"]);
    assert_eq!(app.items.iter().map(|list| list.len()).sum::<usize>(), 0);
    assert_eq!(app.current_workspace, 0);
    press(&mut app, plain('d'));
    assert!(app.workspaces.is_empty() && app.items.is_empty());
    assert_eq!((app.current_workspace, app.current_item), (0, 0));
}

#[test]
fn exactly_one_is_selected_after_every_key() {
    let mut app = three_workspaces();
    let keys = [
        plain('k'), plain('j'), plain('j'), shift('K'), plain('j'), shift('J'), shift('J'),
        plain('d'), plain('-'), plain('k'), plain('j'), plain('d'), enter(), plain(' '),
        plain('x'), plain('e'), escape(), plain('?'), plain('j'), plain('q'), plain('a'),
        plain('z'), enter(), plain('r'), plain('n'), enter(), plain('s'), plain('w'), escape(),
    ];
    for key in keys {
        press(&mut app, key);
        if !app.workspaces.is_empty() {
            assert_eq!(selected_workspaces(&app), vec![app.current_workspace]);
            if !app.items[app.current_workspace].is_empty() {
                assert_eq!(selected_items(&app), vec![app.current_item]);
            }
            for (w, list) in app.items.iter().enumerate() {
                assert_eq!(app.workspaces[w].slot, w);
                assert_eq!(app.workspaces[w].num_of_item, list.len());
                assert_eq!(list.iter().map(|i| i.slot).collect::<Vec<usize>>(), (0..list.len()).collect::<Vec<usize>>());
            }
        }
    }
}

#[test]
fn item_cursor_moves_within_the_list() {
    let mut app = three_workspaces();
    assert_eq!((app.current_workspace, app.current_item), (2, 2));
    press(&mut app, plain('j'));
    assert_eq!(app.current_item, 2);
    assert_eq!(app.summary_scroll_state.queued_scroll, Some(ScrollDirection::Down));
    press(&mut app, plain('k'));
    press(&mut app, plain('k'));
    press(&mut app, plain('k'));
    assert_eq!(app.current_item, 0);
    assert_eq!(app.summary_scroll_state.queued_scroll, Some(ScrollDirection::Up));
    press(&mut app, plain('j'));
    assert_eq!(app.current_item, 1);
    assert_eq!(selected_items(&app), vec![1]);
}

#[test]
fn workspace_cursor_moves_from_the_item_list() {
    let mut app = three_workspaces();
    press(&mut app, shift('J'));
    assert_eq!((app.current_workspace, app.current_item), (2, 0));
    assert_eq!(app.summary_scroll_state.queued_scroll, Some(ScrollDirection::Down));
    press(&mut app, shift('K'));
    assert_eq!((app.current_workspace, app.current_item), (1, 0));
    assert_eq!(app.summary_scroll_state.queued_scroll, Some(ScrollDirection::Up));
    press(&mut app, shift('K'));
    press(&mut app, shift('K'));
    assert_eq!((app.current_workspace, app.current_item), (0, 0));
    assert_eq!(selected_workspaces(&app), vec![0]);
    assert_eq!(selected_items(&app), vec![0]);
    assert_eq!(app.mode, Mode::DisplayItem);
}

#[test]
fn workspace_list_keys() {
    let mut app = three_workspaces();
    press(&mut app, plain('-'));
    assert_eq!((app.mode, app.previous_mode), (Mode::DisplayWorkspace, Mode::DisplayItem));
    press(&mut app, plain('j'));
    assert_eq!(app.current_workspace, 2);
    press(&mut app, plain('k'));
    assert_eq!(app.current_workspace, 1);
    assert_eq!(app.current_item, 0);
    press(&mut app, plain('k'));
    press(&mut app, enter());
    assert_eq!((app.mode, app.previous_mode), (Mode::DisplayItem, Mode::DisplayWorkspace));
    assert_eq!((app.current_workspace, app.current_item), (0, 0));
}

#[test]
fn enter_in_an_empty_workspace_list_makes_a_workspace() {
    let mut app = App::new();
    press(&mut app, plain('-'));
    assert_eq!(app.mode, Mode::DisplayWorkspace);
    press(&mut app, enter());
    assert_eq!(app.mode, Mode::DisplayItem);
    assert_eq!(titles(&app), vec!["default"]);
    assert_eq!(app.items.len(), 1);
    assert!(app.items[0].is_empty());
    assert_eq!(selected_workspaces(&app), vec![0]);
}

#[test]
fn prompts_return_to_the_list_they_came_from() {
    let opens = [
        (Mode::DisplayItem, plain('a'), Mode::AddItem),
        (Mode::DisplayItem, plain('e'), Mode::EditItem),
        (Mode::DisplayItem, plain('r'), Mode::EditWorkspace),
        (Mode::DisplayItem, plain('w'), Mode::AddWorkspace),
        (Mode::DisplayItem, plain('?'), Mode::DisplayHelp),
        (Mode::DisplayWorkspace, plain('a'), Mode::AddWorkspace),
        (Mode::DisplayWorkspace, plain('e'), Mode::EditWorkspace),
        (Mode::DisplayWorkspace, plain('?'), Mode::DisplayHelp),
    ];
    for (list, key, prompt) in opens {
        for close in [escape(), enter(), plain('?')] {
            let mut app = three_workspaces();
            app.mode = list;
            app.previous_mode = list;
            press(&mut app, key);
            assert_eq!((app.mode, app.previous_mode), (prompt, list));
            if prompt != Mode::DisplayHelp && close == plain('?') {
                continue;
            }
            if prompt == Mode::DisplayHelp && close == enter() {
                continue;
            }
            press(&mut app, close);
            assert_eq!((app.mode, app.previous_mode), (list, list));
        }
    }
}

#[test]
fn help_screen_keys() {
    let mut app = App::new();
    press(&mut app, plain('?'));
    assert_eq!(app.mode, Mode::DisplayHelp);
    assert_eq!(app.help_mode, HelpMode::ItemHelp);
    press(&mut app, plain('j'));
    assert_eq!(app.help_mode, HelpMode::WorkspaceHelp);
    press(&mut app, plain('j'));
    assert_eq!(app.help_mode, HelpMode::ItemHelp);
    press(&mut app, plain('k'));
    assert_eq!(app.help_mode, HelpMode::WorkspaceHelp);
    assert_eq!(press(&mut app, control('c')), Action::Redraw);
    assert_eq!(app.mode, Mode::DisplayHelp);
    assert_eq!(press(&mut app, plain('q')), Action::Redraw);
    assert_eq!(app.mode, Mode::DisplayItem);
    assert_eq!(app.help_mode, HelpMode::WorkspaceHelp);
}

#[test]
fn quitting_and_saving() {
    for list in [Mode::DisplayItem, Mode::DisplayWorkspace] {
        let mut app = three_workspaces();
        app.mode = list;
        assert!(app.is_modified);
        assert_eq!(press(&mut app, plain('q')), Action::SaveAndQuit);
        assert_eq!(press(&mut app, control('c')), Action::Quit);
        assert!(app.is_modified);
        assert_eq!(app.mode, list);
        assert_eq!(press(&mut app, plain('s')), Action::Save);
        assert!(!app.is_modified);
        assert_eq!(press(&mut app, shift('Q')), Action::Redraw);
        assert_eq!(press(&mut app, control('q')), Action::Redraw);
    }
    for prompt in [Mode::AddItem, Mode::EditItem, Mode::AddWorkspace, Mode::EditWorkspace] {
        let mut app = three_workspaces();
        app.mode = prompt;
        assert_eq!(press(&mut app, plain('q')), Action::Redraw);
        assert_eq!(press(&mut app, plain('s')), Action::Redraw);
        assert_eq!(press(&mut app, control('c')), Action::Redraw);
        assert_eq!(app.mode, prompt);
        assert!(app.is_modified);
    }
}

#[test]
fn keys_without_a_meaning_change_nothing() {
    let modes = [
        Mode::AddWorkspace, Mode::EditWorkspace, Mode::DisplayWorkspace, Mode::AddItem,
        Mode::EditItem, Mode::DisplayItem, Mode::DisplayHelp,
    ];
    let keys = [
        KeyEvent::new(KeyCode::Other, KeyModifiers::Unmodified),
        KeyEvent::new(KeyCode::Other, KeyModifiers::Control),
        KeyEvent::new(KeyCode::Backspace, KeyModifiers::Shift),
        KeyEvent::new(KeyCode::Enter, KeyModifiers::Control),
        KeyEvent::new(KeyCode::Char('z'), KeyModifiers::Other),
        KeyEvent::new(KeyCode::Char('z'), KeyModifiers::Control),
    ];
    for mode in modes {
        for key in keys {
            let mut app = three_workspaces();
            app.mode = mode;
            if mode == Mode::DisplayItem || mode == Mode::DisplayWorkspace {
                if key.code == KeyCode::Enter {
                    continue;
                }
            }
            let before = format!("{:?}", app);
            assert_eq!(press(&mut app, key), Action::Redraw);
            assert_eq!(format!("{:?}", app), before);
        }
    }
}

#[test]
fn empty_title_cancels_a_new_workspace() {
    let mut app = three_workspaces();
    press(&mut app, plain('w'));
    press(&mut app, enter());
    assert_eq!(app.mode, Mode::DisplayItem);
    assert_eq!(titles(&app), vec!["one", "two", "three"]);
    press(&mut app, plain('w'));
    type_text(&mut app, "x");
    press(&mut app, backspace());
    press(&mut app, enter());
    assert_eq!(titles(&app), vec!["one", "two", "three"]);
    press(&mut app, plain('w'));
    type_text(&mut app, "four");
    press(&mut app, escape());
    assert_eq!(titles(&app), vec!["one", "two", "three"]);
    assert_eq!(app.add_workspace.input_string, "");
    press(&mut app, plain('a'));
    press(&mut app, enter());
    assert_eq!(item_texts(&app, 2), vec!["c", "d", "e"]);
}

#[test]
fn new_workspace_becomes_current() {
    let mut app = three_workspaces();
    add_workspace(&mut app, "Four");
    assert_eq!(titles(&app), vec!["one", "two", "three", "Four"]);
    assert_eq!(app.current_workspace, 3);
    assert_eq!(app.current_item, 0);
    assert_eq!(selected_workspaces(&app), vec![3]);
    assert_eq!(app.workspaces[3].slot, 3);
    assert_eq!(app.workspaces[3].num_of_item, 0);
    assert!(app.items[3].is_empty());
    assert_eq!(app.mode, Mode::DisplayItem);
}

#[test]
fn renaming_a_workspace() {
    let mut app = three_workspaces();
    press(&mut app, plain('r'));
    assert_eq!(app.mode, Mode::EditWorkspace);
    type_text(&mut app, "third");
    press(&mut app, enter());
    assert_eq!(titles(&app), vec!["one", "two", "third"]);
    assert_eq!(app.workspaces[2].num_of_item, 3);
    assert_eq!(app.mode, Mode::DisplayItem);
    press(&mut app, plain('r'));
    press(&mut app, enter());
    assert_eq!(titles(&app), vec!["one", "two", "third"]);
    let mut empty = App::new();
    press(&mut empty, plain('r'));
    type_text(&mut empty, "x");
    press(&mut empty, enter());
    assert!(empty.workspaces.is_empty());
    assert_eq!(empty.mode, Mode::DisplayItem);
    assert_eq!(empty.edit_workspace.input_string, "");
}

#[test]
fn changing_an_item() {
    let mut app = three_workspaces();
    press(&mut app, plain(' '));
    assert!(app.items[2][2].is_finished);
    press(&mut app, plain('e'));
    assert_eq!(app.mode, Mode::EditItem);
    type_text(&mut app, "E");
    press(&mut app, control('d'));
    assert!(app.edit_item.has_expire_datetime);
    type_text(&mut app, "9000-01-01");
    press(&mut app, enter());
    assert_eq!(app.mode, Mode::DisplayItem);
    assert_eq!(item_texts(&app, 2), vec!["c", "d", "E"]);
    let item = &app.items[2][2];
    assert_eq!(item.expire_datetime_string, "9000-01-01");
    assert!(item.has_expire_datetime && !item.is_late && !item.is_finished && item.is_selected);
    assert_eq!(item.slot, 2);
    assert!(!app.edit_item.has_expire_datetime);
    // Nothing typed: the item keeps its text and its deadline.
    press(&mut app, plain('e'));
    press(&mut app, enter());
    let item = &app.items[2][2];
    assert_eq!(item.text, "E");
    assert_eq!(item.expire_datetime_string, "9000-01-01");
    assert!(item.has_expire_datetime);
    let mut empty = App::new();
    press(&mut empty, plain('e'));
    type_text(&mut empty, "x");
    press(&mut empty, enter());
    assert!(empty.items.is_empty());
    assert_eq!(empty.mode, Mode::DisplayItem);
    assert!(!empty.is_modified);
}

#[test]
fn adding_an_item_with_a_deadline() {
    let mut app = App::new();
    press(&mut app, plain('a'));
    type_text(&mut app, "tax");
    press(&mut app, control('d'));
    type_text(&mut app, "2001-09-09 12:00:00");
    assert_eq!(app.add_item.input_datetime, "2001-09-09 12:00:00");
    press(&mut app, control('d'));
    type_text(&mut app, "es");
    press(&mut app, control('d'));
    press(&mut app, enter());
    let item = &app.items[0][0];
    assert_eq!(item.text, "taxes");
    assert!(item.has_expire_datetime && item.is_late);
    assert!(!app.add_item.has_expire_datetime);
    press(&mut app, plain('x'));
    assert!(!app.items[0][0].is_late);
    press(&mut app, plain('x'));
    assert!(app.items[0][0].is_late);
    press(&mut app, plain('a'));
    type_text(&mut app, "b");
    press(&mut app, control('d'));
    type_text(&mut app, "whenever");
    press(&mut app, enter());
    let item = &app.items[0][1];
    assert_eq!(item.expire_datetime_string, "whenever");
    assert!(!item.has_expire_datetime && !item.is_late);
    assert_eq!(app.current_item, 1);
}

#[test]
fn deadline_and_clock_can_be_given() {
    let mut app = App::new();
    let keys = [plain('a'), plain('x'), enter()];
    for key in keys {
        let mode = app.mode;
        assert_eq!(apply_key(mode, key, &mut app, Some(500), 400), Action::Redraw);
    }
    let item = &app.items[0][0];
    assert_eq!(item.text, "x");
    assert!(item.has_expire_datetime && !item.is_late);
    assert_eq!(item.expire_datetime, 500);
    for key in [plain('e'), enter()] {
        let mode = app.mode;
        apply_key(mode, key, &mut app, Some(500), 501);
    }
    assert!(app.items[0][0].is_late);
    assert_eq!(app.items[0][0].text, "x");
    for key in [plain('e'), plain('y'), enter()] {
        let mode = app.mode;
        apply_key(mode, key, &mut app, None, 501);
    }
    let item = &app.items[0][0];
    assert_eq!(item.text, "y");
    assert!(!item.has_expire_datetime && !item.is_late);
    assert_eq!(item.expire_datetime, 501);
    assert_eq!(app.deadline_text(Mode::EditItem, enter()), Some(String::new()));
    assert_eq!(app.deadline_text(Mode::EditItem, escape()), None);
    assert_eq!(app.deadline_text(Mode::AddItem, enter()), None);
    assert_eq!(app.deadline_text(Mode::DisplayItem, enter()), None);
}

#[test]
fn badly_formed_state_is_noticed() {
    let mut app = three_workspaces();
    assert!(app.is_well_formed());
    app.current_item = 3;
    assert!(!app.is_well_formed());
    app.current_item = 2;
    app.workspaces[1].slot = 5;
    assert!(!app.is_well_formed());
    app.workspaces[1].slot = 1;
    app.workspaces[0].num_of_item = 0;
    assert!(!app.is_well_formed());
    app.workspaces[0].num_of_item = 2;
    app.items[0][1].slot = 0;
    assert!(!app.is_well_formed());
    app.items[0][1].slot = 1;
    app.items[2][0].is_selected = true;
    assert!(!app.is_well_formed());
    app.items[2][0].is_selected = false;
    app.workspaces[0].is_selected = true;
    assert!(!app.is_well_formed());
    app.workspaces[0].is_selected = false;
    app.previous_mode = Mode::AddItem;
    assert!(!app.is_well_formed());
    app.previous_mode = Mode::DisplayWorkspace;
    app.current_workspace = 3;
    assert!(!app.is_well_formed());
    app.current_workspace = 2;
    assert!(app.is_well_formed());
    let list = app.items.pop();
    assert!(!app.is_well_formed());
    app.items.push(list.unwrap());
    app.settle();
    assert!(app.is_well_formed());
    assert!(Mode::AddItem.is_ephemeral() && Mode::DisplayHelp.is_ephemeral());
    assert!(!Mode::DisplayItem.is_ephemeral() && !Mode::DisplayWorkspace.is_ephemeral());
}
