use http_tui::screen::{cursor_position, get_style, screen_layout, Area, Highlight, Panel};
use http_tui::session::{App, InputMode, Key};

#[test]
fn active_panel_is_highlighted_by_mode() {
    assert_eq!(get_style(2, 2, InputMode::Normal), Highlight::Normal);
    assert_eq!(get_style(2, 2, InputMode::Editing), Highlight::Editing);
    assert_eq!(get_style(2, 3, InputMode::Normal), Highlight::Plain);
    assert_eq!(get_style(0, 4, InputMode::Editing), Highlight::Plain);
}

#[test]
fn session_highlights_the_url_panel_first() {
    let mut app = App::new();
    assert_eq!(app.panel_highlight(Panel::Url), Highlight::Normal);
    assert_eq!(app.panel_highlight(Panel::Method), Highlight::Plain);
    app.handle_key(Key::Char('i'));
    assert_eq!(app.panel_highlight(Panel::Url), Highlight::Editing);
    app.handle_key(Key::Esc);
    app.handle_key(Key::Tab);
    app.handle_key(Key::Tab);
    assert_eq!(app.panel_highlight(Panel::Response), Highlight::Normal);
    assert_eq!(app.panel_highlight(Panel::Url), Highlight::Plain);
}

#[test]
fn panel_indices_follow_tab_order() {
    let order = [Panel::Method, Panel::Url, Panel::Placeholder, Panel::Response, Panel::Logs];
    for (i, p) in order.iter().enumerate() {
        assert_eq!(p.index(), i);
    }
}

#[test]
fn cursor_hidden_in_normal_mode() {
    assert_eq!(cursor_position(InputMode::Normal, 10, 3, 5), None);
}

#[test]
fn cursor_after_text_while_editing() {
    assert_eq!(cursor_position(InputMode::Editing, 10, 3, 5), Some((16, 4)));
    assert_eq!(cursor_position(InputMode::Editing, 0, 0, 0), Some((1, 1)));
}

#[test]
fn cursor_stays_on_screen_coordinates() {
    assert_eq!(cursor_position(InputMode::Editing, 65530, 65535, 10), Some((65535, 65535)));
    assert_eq!(cursor_position(InputMode::Editing, 1, 1, usize::MAX), Some((65535, 2)));
}

#[test]
fn url_cursor_counts_columns() {
    let mut app = App::new();
    assert_eq!(app.url_cursor(4, 2), None);
    app.handle_key(Key::Char('i'));
    for c in "abc".chars() {
        app.handle_key(Key::Char(c));
    }
    assert_eq!(app.url_cursor(4, 2), Some((8, 3)));
    app.handle_key(Key::Char('\u{4e16}'));
    assert_eq!(app.url_cursor(4, 2), Some((10, 3)));
}

#[test]
fn log_lines_are_numbered() {
    let mut app = App::new();
    app.handle_key(Key::Enter);
    app.receive_body("{\"a\":1}");
    assert_eq!(
        app.log_lines(),
        vec![String::from("0: Fetching results..."), String::from("1: Done")]
    );
}

#[test]
fn log_numbers_past_nine() {
    let mut app = App::new();
    for _ in 0..12 {
        app.handle_key(Key::Enter);
    }
    let lines = app.log_lines();
    assert_eq!(lines.len(), 12);
    assert_eq!(lines[9], "9: Fetching results...");
    assert_eq!(lines[11], "11: Fetching results...");
}

#[test]
fn layout_places_panels() {
    let size = Area { x: 0, y: 0, width: 100, height: 60 };
    let l = screen_layout(size);
    assert_eq!((l.method.x, l.method.y), (1, 1));
    assert_ne!(l.method, size);
    assert_eq!(l.url.y, l.method.y);
    assert!(l.url.x > l.method.x);
    assert_eq!(l.url.x + l.url.width, 99);
    assert!(l.placeholder.y > l.method.y);
    assert_eq!(l.response.y, l.placeholder.y);
    assert!(l.response.x > l.placeholder.x);
    assert_eq!(l.logs.x, l.response.x);
    assert!(l.logs.y > l.response.y);
    assert!(l.response.height > l.logs.height);
}

#[test]
fn layout_of_a_wide_screen_is_cut_down() {
    let l = screen_layout(Area { x: 0, y: 0, width: 1000, height: 300 });
    assert_eq!((l.method.x, l.method.y), (1, 1));
    assert_eq!(l.url.x + l.url.width, 654);
    assert!(l.logs.y + l.logs.height <= 299);
}

#[test]
fn layout_fills_the_inner_area() {
    let l = screen_layout(Area { x: 2, y: 3, width: 80, height: 40 });
    assert_eq!((l.method.x, l.method.y), (3, 4));
    assert_eq!(l.method.height, l.url.height);
    assert_eq!(l.url.x + l.url.width, 81);
    assert_eq!(l.placeholder.x, 3);
    assert_eq!(l.placeholder.y, l.response.y);
    assert_eq!(l.placeholder.y + l.placeholder.height, 42);
    assert_eq!((l.response.x, l.response.width), (l.logs.x, l.logs.width));
    assert_eq!(l.logs.x + l.logs.width, 81);
    assert_eq!(l.logs.y + l.logs.height, 42);
}
