use container_dash::state::{AppMode, AppState, Key};

fn two_containers() -> AppState {
    AppState {
        container_data: vec![
            (
                "id1".to_string(),
                vec![
                    "id1".into(),
                    "img1".into(),
                    "running".into(),
                    "name1".into(),
                    "127.0.0.1".into(),
                ],
            ),
            (
                "id2".to_string(),
                vec![
                    "id2".into(),
                    "img2".into(),
                    "exited".into(),
                    "name2".into(),
                    "127.0.0.2".into(),
                ],
            ),
        ],
        ..Default::default()
    }
}

#[test]
fn navigate_containers_and_menu_wrap() {
    let mut app = two_containers();
    assert_eq!(AppMode::Normal, app.mode);
    assert_eq!(0, app.selected);

    app.handle_input(Key::Down);
    assert_eq!(1, app.selected);

    app.handle_input(Key::Enter);
    assert_eq!(AppMode::ContextMenu, app.mode);
    assert_eq!(0, app.menu_selected);

    app.handle_input(Key::Up);
    assert_eq!(2, app.menu_selected);
    app.handle_input(Key::Enter);
    assert_eq!(AppMode::Normal, app.mode);
}

#[test]
fn open_logs_session_shows_loading_notice() {
    let mut app = two_containers();
    app.handle_input(Key::Enter);
    app.handle_input(Key::Enter);
    assert_eq!(AppMode::Logs, app.mode);
    assert_eq!(vec!["Loading logs...".to_string()], app.logs);
    // The run loop observes this and attaches the log producer.
    assert!(app.should_start_log_stream());
}

#[test]
fn search_in_logs_and_cycle_matches() {
    let mut app = two_containers();
    app.logs = vec!["aaa".to_string(), "bab".to_string(), "abc".to_string()];
    app.mode = AppMode::Logs;

    app.handle_input(Key::Char('/'));
    assert_eq!(AppMode::Search, app.mode);
    assert_eq!(AppMode::Logs, app.last_mode);

    app.handle_input(Key::Char('a'));
    app.handle_input(Key::Char('b'));
    assert_eq!("ab".to_string(), app.search_query);

    app.handle_input(Key::Enter);
    assert_eq!(vec![1usize, 2usize], app.search_matches);
    assert_eq!(Some(0), app.current_match_index);
    assert_eq!(1, app.vertical_scroll);
    assert_eq!(AppMode::Logs, app.mode);

    app.handle_input(Key::Char('n'));
    assert_eq!(Some(1), app.current_match_index);
    assert_eq!(2, app.vertical_scroll);

    // Retreating wraps through the match list cyclically.
    app.handle_input(Key::Char('N'));
    assert_eq!(Some(0), app.current_match_index);
    assert_eq!(1, app.vertical_scroll);
    app.handle_input(Key::Char('N'));
    assert_eq!(Some(1), app.current_match_index);
    assert_eq!(2, app.vertical_scroll);
}

#[test]
fn follow_tail_until_user_scrolls_then_jump_back() {
    let mut app = two_containers();
    app.mode = AppMode::Logs;
    app.user_scrolled = false;
    app.visible_height = 10;

    let mut buffer: Vec<String> = (0..12).map(|i| format!("line{}", i)).collect();
    let mut counter: usize = 0;
    app.flush_buffer(&mut buffer, &mut counter);
    assert_eq!(12, app.logs.len());
    assert_eq!(2, app.vertical_scroll);

    app.handle_input(Key::Char('j'));
    assert_eq!(true, app.user_scrolled);
    assert_eq!(3, app.vertical_scroll);

    let mut more: Vec<String> = (0..5).map(|i| format!("more{}", i)).collect();
    app.flush_buffer(&mut more, &mut counter);
    assert_eq!(17, app.logs.len());
    assert_eq!(3, app.vertical_scroll);

    app.handle_input(Key::Char('G'));
    assert_eq!(false, app.user_scrolled);
    assert_eq!(2, app.vertical_scroll); // 17 - 15, clamped at 0
}

#[test]
fn jump_to_latest_clamps_at_zero() {
    let mut app = two_containers();
    app.mode = AppMode::Logs;
    app.logs = vec!["a".to_string(); 4];
    app.user_scrolled = true;
    app.vertical_scroll = 3;
    app.handle_input(Key::Char('G'));
    assert_eq!(false, app.user_scrolled);
    assert_eq!(0, app.vertical_scroll);
}

#[test]
fn leaving_resources_aborts_sampler_and_clears_windows() {
    let rt = tokio::runtime::Builder::new_current_thread()
        .enable_time()
        .build()
        .unwrap();
    let handle = rt.spawn(async {
        std::future::pending::<()>().await;
    });

    let mut app = two_containers();
    app.mode = AppMode::Resources;
    app.cpu_data.add((1, 10));
    app.mem_data.add((1, 20));
    app.stats_task = Some(handle);

    app.handle_input(Key::Esc);
    assert_eq!(AppMode::Normal, app.mode);
    assert!(app.cpu_data.data.is_empty());
    assert!(app.mem_data.data.is_empty());
    assert!(app.stats_task.is_none());
}

#[test]
fn esc_in_normal_quits_and_stays_quit() {
    let mut app = two_containers();
    app.handle_input(Key::Esc);
    assert_eq!(false, app.running);
    assert_eq!(AppMode::Normal, app.mode);
    let selected = app.selected;
    app.handle_input(Key::Esc);
    assert_eq!(false, app.running);
    assert_eq!(AppMode::Normal, app.mode);
    assert_eq!(selected, app.selected);
}

#[test]
fn search_from_normal_selects_matching_container() {
    let mut app = two_containers();
    app.handle_input(Key::Char('/'));
    assert_eq!(AppMode::Search, app.mode);
    assert_eq!(AppMode::Normal, app.last_mode);
    app.handle_input(Key::Char('i'));
    app.handle_input(Key::Char('m'));
    app.handle_input(Key::Char('g'));
    app.handle_input(Key::Char('2'));
    app.handle_input(Key::Enter);
    assert_eq!(AppMode::Normal, app.mode);
    assert_eq!(vec![1usize], app.search_matches);
    assert_eq!(Some(0), app.current_match_index);
    assert_eq!(1, app.selected);
}

#[test]
fn backspace_edits_search_query() {
    let mut app = two_containers();
    app.mode = AppMode::Search;
    app.search_query = "ab".to_string();
    app.handle_input(Key::Backspace);
    assert_eq!("a".to_string(), app.search_query);
    app.handle_input(Key::Backspace);
    assert_eq!("".to_string(), app.search_query);
    app.handle_input(Key::Backspace);
    assert_eq!("".to_string(), app.search_query);
    assert_eq!(AppMode::Search, app.mode);
}

#[test]
fn horizontal_pan_steps_by_ten_and_saturates() {
    let mut app = two_containers();
    app.mode = AppMode::Logs;
    app.handle_input(Key::Right);
    assert_eq!(10, app.horizontal_scroll);
    app.handle_input(Key::Char('l'));
    assert_eq!(20, app.horizontal_scroll);
    app.handle_input(Key::Char('h'));
    assert_eq!(10, app.horizontal_scroll);
    app.handle_input(Key::Left);
    app.handle_input(Key::Left);
    assert_eq!(0, app.horizontal_scroll);
}

#[test]
fn help_returns_to_the_mode_it_was_opened_from() {
    let mut app = two_containers();
    app.mode = AppMode::Logs;
    app.handle_input(Key::Char('?'));
    assert_eq!(AppMode::Help, app.mode);
    assert_eq!(AppMode::Logs, app.last_mode);
    app.handle_input(Key::Esc);
    assert_eq!(AppMode::Logs, app.mode);
}

#[test]
fn next_match_without_matches_changes_nothing() {
    let mut app = two_containers();
    app.mode = AppMode::Logs;
    app.vertical_scroll = 4;
    app.handle_input(Key::Char('n'));
    assert_eq!(None, app.current_match_index);
    assert_eq!(4, app.vertical_scroll);
    app.current_match_index = Some(3);
    app.handle_input(Key::Char('n'));
    assert_eq!(Some(3), app.current_match_index);
    assert_eq!(4, app.vertical_scroll);
}

#[test]
fn unbound_character_changes_nothing_outside_search() {
    let mut app = two_containers();
    app.handle_input(Key::Char('z'));
    assert_eq!(AppMode::Normal, app.mode);
    assert!(app.running);
    assert_eq!(0, app.selected);
}

#[test]
fn search_with_no_containers_is_a_noop_selection() {
    let mut app = container_dash::state::AppState::default();
    app.handle_input(Key::Char('/'));
    app.handle_input(Key::Char('x'));
    app.handle_input(Key::Enter);
    assert_eq!(AppMode::Normal, app.mode);
    assert!(app.search_matches.is_empty());
    assert_eq!(None, app.current_match_index);
    assert_eq!(0, app.selected);
}

#[test]
fn search_query_with_no_log_matches_keeps_scroll() {
    let mut app = two_containers();
    app.logs = vec!["aaa".to_string(), "bbb".to_string()];
    app.mode = AppMode::Logs;
    app.vertical_scroll = 1;
    app.handle_input(Key::Char('/'));
    app.handle_input(Key::Char('z'));
    app.handle_input(Key::Enter);
    assert_eq!(AppMode::Logs, app.mode);
    assert!(app.search_matches.is_empty());
    assert_eq!(None, app.current_match_index);
    assert_eq!(1, app.vertical_scroll);
}
