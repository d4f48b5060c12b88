use http_tui::session::{Action, App, InputMode, Key, PANEL_COUNT};

fn press_all(app: &mut App, keys: &[Key]) -> Vec<Action> {
    keys.iter().map(|k| app.handle_key(*k)).collect()
}

fn type_text(app: &mut App, text: &str) {
    for c in text.chars() {
        assert_eq!(app.handle_key(Key::Char(c)), Action::Continue);
    }
}

#[test]
fn new_session_is_empty() {
    let app = App::new();
    assert_eq!(app.url(), "");
    assert_eq!(app.response(), "");
    assert!(app.logs().is_empty());
    assert_eq!(app.input_mode(), InputMode::Normal);
    assert_eq!(app.active_panel(), 1);
}

#[test]
fn tab_cycles_through_every_panel() {
    let mut app = App::new();
    let mut seen = Vec::new();
    for _ in 0..PANEL_COUNT {
        assert_eq!(app.handle_key(Key::Tab), Action::Continue);
        seen.push(app.active_panel());
    }
    assert_eq!(seen, vec![2, 3, 4, 0, 1]);
    for _ in 0..(3 * PANEL_COUNT + 2) {
        app.handle_key(Key::Tab);
        assert!(app.active_panel() < PANEL_COUNT);
    }
    assert_eq!(app.active_panel(), 3);
}

#[test]
fn tab_while_editing_changes_nothing() {
    let mut app = App::new();
    app.handle_key(Key::Char('i'));
    app.handle_key(Key::Tab);
    assert_eq!(app.active_panel(), 1);
    assert_eq!(app.url(), "");
}

#[test]
fn typing_builds_the_url() {
    let mut app = App::new();
    app.handle_key(Key::Char('i'));
    type_text(&mut app, "example.com");
    assert_eq!(app.url(), "example.com");
    assert_eq!(app.input_mode(), InputMode::Editing);
}

#[test]
fn backspace_pops_the_last_character() {
    let mut app = App::new();
    app.handle_key(Key::Char('i'));
    press_all(
        &mut app,
        &[Key::Char('a'), Key::Char('b'), Key::Backspace, Key::Char('c'), Key::Char('d'), Key::Backspace],
    );
    assert_eq!(app.url(), "ac");
    press_all(&mut app, &[Key::Backspace, Key::Backspace]);
    assert_eq!(app.url(), "");
    press_all(&mut app, &[Key::Backspace, Key::Backspace]);
    assert_eq!(app.url(), "");
    assert_eq!(app.input_mode(), InputMode::Editing);
}

#[test]
fn command_letters_are_text_while_editing() {
    let mut app = App::new();
    app.handle_key(Key::Char('i'));
    let actions = press_all(&mut app, &[Key::Char('q'), Key::Char('i'), Key::Enter, Key::Tab, Key::Other]);
    assert!(actions.iter().all(|a| *a == Action::Continue));
    assert_eq!(app.url(), "qi");
    assert!(app.logs().is_empty());
}

#[test]
fn mode_changes_follow_the_table() {
    let mut app = App::new();
    app.handle_key(Key::Esc);
    assert_eq!(app.input_mode(), InputMode::Normal);
    app.handle_key(Key::Char('x'));
    assert_eq!(app.input_mode(), InputMode::Normal);
    assert_eq!(app.url(), "");
    app.handle_key(Key::Char('i'));
    assert_eq!(app.input_mode(), InputMode::Editing);
    app.handle_key(Key::Esc);
    assert_eq!(app.input_mode(), InputMode::Normal);
}

#[test]
fn unlisted_keys_change_nothing() {
    let mut app = App::new();
    let actions = press_all(&mut app, &[Key::Backspace, Key::Esc, Key::Other, Key::Char('z')]);
    assert!(actions.iter().all(|a| *a == Action::Continue));
    assert_eq!(app.url(), "");
    assert!(app.logs().is_empty());
    assert_eq!(app.active_panel(), 1);
    assert_eq!(app.input_mode(), InputMode::Normal);
}

#[test]
fn q_quits_from_normal_mode() {
    let mut app = App::new();
    assert_eq!(app.handle_key(Key::Char('q')), Action::Quit);
}

#[test]
fn q_quits_after_switching_modes() {
    let mut app = App::new();
    let actions = press_all(
        &mut app,
        &[Key::Char('i'), Key::Char('a'), Key::Esc, Key::Tab, Key::Char('i'), Key::Esc],
    );
    assert!(actions.iter().all(|a| *a == Action::Continue));
    assert_eq!(app.handle_key(Key::Char('q')), Action::Quit);
}

#[test]
fn enter_asks_for_a_request_and_logs_it() {
    let mut app = App::new();
    assert_eq!(app.handle_key(Key::Enter), Action::Fetch);
    assert_eq!(app.logs().clone(), vec![String::from("Fetching results...")]);
    assert_eq!(app.url(), "");
    assert_eq!(app.input_mode(), InputMode::Normal);
}
