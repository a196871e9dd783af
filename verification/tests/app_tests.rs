use container_dash::state::{AppMode, AppState, Key};

fn get_app_state() -> AppState {
    AppState {
        container_data: vec![
            (
                "id1".to_string(),
                vec![
                    "id1".into(),
                    "img1".into(),
                    "running".into(),
                    "name1".into(),
                    "127.0.0.1".into(),
                ],
            ),
            (
                "id2".to_string(),
                vec![
                    "id2".into(),
                    "img2".into(),
                    "exited".into(),
                    "name2".into(),
                    "127.0.0.2".into(),
                ],
            ),
        ],
        logs: vec!["log_line".to_string(); 50],
        ..Default::default()
    }
}

#[test]
fn handle_input_handles_exit() {
    let mut app = AppState {
        ..Default::default()
    };

    app.handle_input(Key::Esc);
    assert_eq!(false, app.running);
}

#[test]
fn esc_exits_search_input_and_clears_input() {
    let mut app = get_app_state();
    app.last_mode = AppMode::Logs;
    app.mode = AppMode::Search;
    app.search_query = "test".to_string();
    app.handle_input(Key::Esc);
    assert_eq!(AppMode::Logs, app.mode);
    assert_eq!("".to_string(), app.search_query);
}

#[test]
fn enter_exits_search_input() {
    let mut app = get_app_state();
    app.last_mode = AppMode::Logs;
    app.mode = AppMode::Search;
    app.search_query = "test".to_string();
    app.handle_input(Key::Enter);
    assert_eq!(AppMode::Logs, app.mode);
    assert_eq!("test".to_string(), app.search_query);
}

#[test]
fn bound_keys_can_be_entered_in_search() {
    let mut app = get_app_state();
    app.mode = AppMode::Search;
    app.handle_input(Key::Char('h'));
    assert_eq!("h".to_string(), app.search_query);
}

#[test]
fn question_mark_opens_help() {
    let mut app = get_app_state();
    app.mode = AppMode::Logs;
    app.handle_input(Key::Char('?'));
    assert_eq!(AppMode::Help, app.mode);
}

#[test]
fn enter_opens_context_menu() {
    let mut app = get_app_state();
    app.handle_input(Key::Enter);
    assert_eq!(AppMode::ContextMenu, app.mode);
}

#[test]
fn enter_opens_logs() {
    let mut app = get_app_state();
    app.mode = AppMode::ContextMenu;
    app.menu_selected = 1;
    app.handle_input(Key::Up);
    app.handle_input(Key::Enter);
    assert_eq!(AppMode::Logs, app.mode);
}

#[test]
fn slash_opens_search() {
    let mut app = get_app_state();
    app.mode = AppMode::Logs;
    app.handle_input(Key::Char('/'));
    app.handle_input(Key::Char('a'));
    assert_eq!(AppMode::Search, app.mode);
    assert_eq!("a".to_string(), app.search_query);
}

#[test]
fn handle_input_scroll_up() {
    let mut app = get_app_state();
    app.selected = 1;
    app.handle_input(Key::Up);
    assert_eq!(app.selected, 0);

    app.selected = 1;
    app.handle_input(Key::Char('k'));
    assert_eq!(app.selected, 0);

    app.vertical_scroll = 1;
    app.mode = AppMode::Logs;
    app.handle_input(Key::Char('k'));
    assert_eq!(0, app.vertical_scroll);
}

#[test]
fn handle_input_scroll_down() {
    let mut app = get_app_state();
    app.selected = 0;
    app.handle_input(Key::Down);
    assert_eq!(1, app.selected);

    app.selected = 0;
    app.handle_input(Key::Char('j'));
    assert_eq!(1, app.selected);

    app.vertical_scroll = 0;
    app.mode = AppMode::Logs;
    app.handle_input(Key::Char('j'));
    assert_eq!(1, app.vertical_scroll);
}
