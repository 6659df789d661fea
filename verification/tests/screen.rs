use todo_rs::app::{App, Mode};
use todo_rs::draw::{draw, ItemSummary, Pane, Screen, Tone, Window, ITEM_HEIGHT, WORKSPACE_HEIGHT};
use todo_rs::event::{handle_key_bindings, KeyCode, KeyEvent, KeyModifiers};
use todo_rs::item::{AddItemState, EditItemState, ItemState};
use todo_rs::widget::{
    AddItemWidget, AddWorkspaceWidget, EditItemWidget, EditWorkspaceWidget, ItemWidget,
    WorkspaceWidget,
};
use todo_rs::workspace::{AddWorkspaceState, EditWorkspaceState, WorkspaceState};

fn press(app: &mut App, c: char) {
    let key = KeyEvent::new(KeyCode::Char(c), KeyModifiers::Unmodified);
    handle_key_bindings(app.mode, key, app);
}

fn enter(app: &mut App) {
    handle_key_bindings(app.mode, KeyEvent::new(KeyCode::Enter, KeyModifiers::Unmodified), app);
}

fn with_items(count: usize) -> App {
    let mut app = App::new();
    for _ in 0..count {
        press(&mut app, 'a');
        press(&mut app, 'i');
        enter(&mut app);
    }
    app
}

#[test]
fn each_mode_has_its_screen() {
    let cases = [
        (Mode::AddItem, Pane::Items, Some(Mode::AddItem)),
        (Mode::EditItem, Pane::Items, Some(Mode::EditItem)),
        (Mode::AddWorkspace, Pane::Workspaces, Some(Mode::AddWorkspace)),
        (Mode::EditWorkspace, Pane::Workspaces, Some(Mode::EditWorkspace)),
        (Mode::DisplayHelp, Pane::Help, None),
        (Mode::DisplayWorkspace, Pane::Workspaces, None),
        (Mode::DisplayItem, Pane::Items, None),
    ];
    for (mode, pane, prompt) in cases {
        assert_eq!(draw(mode, 80, 24), Some(Screen { pane, prompt }));
        assert_eq!(draw(mode, 11, 11), Some(Screen { pane, prompt }));
        assert_eq!(draw(mode, 10, 24), None);
        assert_eq!(draw(mode, 80, 10), None);
        assert_eq!(draw(mode, 0, 0), None);
    }
}

#[test]
fn item_window_follows_the_queue() {
    assert_eq!(ITEM_HEIGHT, 3);
    let mut app = with_items(5);
    assert_eq!(app.current_item, 4);
    // Nine rows fit two items of three rows each under three reserved rows.
    let window = app.item_window(9);
    assert_eq!(window, Window { offset: 0, count: 2, selected: None });
    for want in [1, 2, 3, 3] {
        app.summary_scroll_state.queue(todo_rs::scroll::ScrollDirection::Down);
        let window = app.item_window(9);
        assert_eq!((window.offset, window.count), (want, 2));
        assert_eq!(app.summary_scroll_state.offset, want);
        assert!(app.summary_scroll_state.queued_scroll.is_none());
    }
    assert_eq!(app.item_window(9).selected, Some(1));
    press(&mut app, 'k');
    assert_eq!(app.item_window(9), Window { offset: 2, count: 2, selected: Some(1) });
    press(&mut app, 'd');
    press(&mut app, 'd');
    assert_eq!(app.items[0].len(), 3);
    assert_eq!(app.item_window(9), Window { offset: 1, count: 2, selected: Some(0) });
    assert_eq!(app.item_window(40), Window { offset: 0, count: 3, selected: Some(1) });
    assert_eq!(App::new().item_window(40), Window { offset: 0, count: 0, selected: None });
}

#[test]
fn workspace_window_follows_the_queue() {
    assert_eq!(WORKSPACE_HEIGHT, 1);
    let mut app = App::new();
    for _ in 0..4 {
        press(&mut app, 'w');
        press(&mut app, 't');
        enter(&mut app);
    }
    press(&mut app, '-');
    assert_eq!(app.workspace_window(5), Window { offset: 0, count: 2, selected: None });
    press(&mut app, 'k');
    press(&mut app, 'j');
    assert_eq!(app.workspace_window(5), Window { offset: 1, count: 2, selected: None });
    press(&mut app, 'j');
    assert_eq!(app.workspace_window(5), Window { offset: 2, count: 2, selected: Some(1) });
    assert_eq!(app.workspace_window(7), Window { offset: 0, count: 4, selected: Some(3) });
    assert_eq!(app.workspace_window(2), Window { offset: 0, count: 0, selected: None });
    app.summary_scroll_state.offset = 9;
    assert_eq!(app.workspace_window(2), Window { offset: 4, count: 0, selected: None });
    assert!(app.is_well_formed());
}

#[test]
fn footer_counts_every_item_once() {
    let mut app = with_items(4);
    press(&mut app, ' ');
    press(&mut app, 'k');
    press(&mut app, 'x');
    press(&mut app, 'k');
    press(&mut app, 'x');
    press(&mut app, ' ');
    assert_eq!(
        app.item_summary(),
        ItemSummary { pending: 1, finished: 2, late: 1, position: 2, total: 4 }
    );
    assert_eq!(
        App::new().item_summary(),
        ItemSummary { pending: 0, finished: 0, late: 0, position: 0, total: 0 }
    );
    assert_eq!(app.items[0][0].tone(), Tone::Pending);
    assert_eq!(app.items[0][1].tone(), Tone::Finished);
    assert_eq!(app.items[0][2].tone(), Tone::Late);
    assert_eq!(ItemWidget {}.tone(&app.items[0][3]), Tone::Finished);
}

#[test]
fn prompts_show_what_was_typed() {
    let mut state = AddWorkspaceState::new();
    let shown = AddWorkspaceWidget {}.render(&state);
    assert_eq!((shown.title.as_str(), shown.text.as_str(), shown.is_notice), (" Add Workspace", "", true));
    state.error_msg = Some(String::from("no title"));
    assert_eq!(AddWorkspaceWidget {}.render(&state).text, "no title");
    state.add_char('a');
    let shown = AddWorkspaceWidget {}.render(&state);
    assert_eq!((shown.text.as_str(), shown.is_notice), ("a", false));
    state.reset();
    let shown = AddWorkspaceWidget {}.render(&state);
    assert_eq!((shown.text.as_str(), shown.is_notice), ("", false));

    let mut state = EditWorkspaceState::new();
    state.add_char('b');
    let shown = EditWorkspaceWidget {}.render(&state);
    assert_eq!((shown.title.as_str(), shown.text.as_str(), shown.is_notice), (" Modify Workspace ", "b", false));

    let mut state = AddItemState::new();
    let shown = AddItemWidget {}.render(&state);
    assert_eq!((shown.title.as_str(), shown.text.as_str(), shown.is_notice), (" Add Item ", "", true));
    state.add_char('t');
    state.has_expire_datetime = true;
    state.add_char('9');
    let shown = AddItemWidget {}.render(&state);
    assert_eq!((shown.title.as_str(), shown.text.as_str(), shown.is_notice), (" Set Expiry Timestamp ", "9", false));
    state.has_expire_datetime = false;
    let shown = AddItemWidget {}.render(&state);
    assert_eq!((shown.title.as_str(), shown.text.as_str()), (" Add Item ", "t"));

    let mut state = EditItemState::new();
    state.has_expire_datetime = true;
    let shown = EditItemWidget {}.render(&state);
    assert_eq!((shown.title.as_str(), shown.is_notice), (" Modify Expiry Timestamp ", true));
    state.add_char('1');
    state.has_expire_datetime = false;
    let shown = EditItemWidget {}.render(&state);
    assert_eq!((shown.title.as_str(), shown.text.as_str(), shown.is_notice), (" Modify Item ", "", false));
}

#[test]
fn workspace_label_fills_the_row() {
    let label = WorkspaceWidget {}.render(&WorkspaceState::new(12, String::from("héllo"), 0, true));
    assert!(label.starts_with("(12) + héllo "));
    assert_eq!(label.chars().count(), "(12) + ".len() + 1000);
    assert_eq!(label.trim_end(), "(12) + héllo");
    let long = "x".repeat(1003);
    let label = WorkspaceWidget {}.render(&WorkspaceState::new(0, long.clone(), 0, false));
    assert_eq!(label, format!("(0) + {}", long));
}

#[test]
fn item_box_says_what_the_item_is() {
    let widget = ItemWidget {};
    let mut plain = ItemState::with_expiry(0, String::from("call"), String::new(), false, false, None, 50);
    assert_eq!(widget.header_at(&mut plain, 100), " Status: [x] ");
    assert!(!plain.is_late);
    assert_eq!(widget.body(&plain), " Objective: call ");
    assert_eq!(widget.render(&mut plain), " Status: [x] ");
    plain.is_selected = true;
    plain.is_finished = true;
    assert_eq!(widget.header_at(&mut plain, 100), " > Status: [✓] ");
    let mut timed = ItemState::with_expiry(0, String::new(), String::new(), false, true, Some(200), 50);
    assert_eq!(
        widget.header_at(&mut timed, 75),
        " > Status: [x] | Time Left: 2 minute, 5 second  "
    );
    assert!(!timed.is_late);
    timed.is_selected = false;
    assert_eq!(widget.header_at(&mut timed, 201), " Status: [x] | Time Left: -1 second  ");
    assert!(timed.is_late);
    let shown = widget.render(&mut timed);
    assert!(shown.starts_with(" Status: [x] | Time Left: -"));
    assert!(shown.ends_with(" second  "));
}
