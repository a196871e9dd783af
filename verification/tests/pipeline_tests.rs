use container_dash::keybindings::{default_keybindings, ActionId};
use container_dash::pipeline::{
    clean_log_chunk, container_row, cpu_usage_inputs, join_strings, memory_usage_inputs,
    record_chunk, short_id,
};
use container_dash::search::str_contains;
use container_dash::state::{AppState, Key, CLEANUP_THRESHOLD, MAX_LOG_LINES};

#[test]
fn flush_trims_to_cap_once_counter_reaches_threshold() {
    let mut app = AppState::default();
    app.user_scrolled = true;
    app.logs = (0..990).map(|i| format!("old{}", i)).collect();
    let mut buffer: Vec<String> = (0..20).map(|i| format!("new{}", i)).collect();
    let mut counter: usize = CLEANUP_THRESHOLD;
    app.flush_buffer(&mut buffer, &mut counter);
    assert_eq!(MAX_LOG_LINES, app.logs.len());
    assert_eq!(0, counter);
    assert!(buffer.is_empty());
    // The ten oldest lines were dropped.
    assert_eq!("old10", app.logs[0]);
    assert_eq!("new19", app.logs[MAX_LOG_LINES - 1]);
}

#[test]
fn flush_below_threshold_keeps_excess_and_counter() {
    let mut app = AppState::default();
    app.user_scrolled = true;
    app.logs = (0..995).map(|i| format!("old{}", i)).collect();
    let mut buffer: Vec<String> = (0..10).map(|i| format!("new{}", i)).collect();
    let mut counter: usize = CLEANUP_THRESHOLD - 1;
    app.flush_buffer(&mut buffer, &mut counter);
    assert_eq!(1005, app.logs.len());
    assert_eq!(CLEANUP_THRESHOLD - 1, counter);
}

#[test]
fn empty_flush_changes_nothing() {
    let mut app = AppState::default();
    app.logs = vec!["kept".to_string()];
    app.vertical_scroll = 7;
    app.user_scrolled = false;
    let mut buffer: Vec<String> = Vec::new();
    let mut counter: usize = CLEANUP_THRESHOLD;
    app.flush_buffer(&mut buffer, &mut counter);
    assert_eq!(vec!["kept".to_string()], app.logs);
    assert_eq!(7, app.vertical_scroll);
    assert_eq!(CLEANUP_THRESHOLD, counter);
}

#[test]
fn flush_follows_tail_when_not_scrolled() {
    let mut app = AppState::default();
    app.user_scrolled = false;
    app.visible_height = 3;
    let mut buffer: Vec<String> = (0..8).map(|i| format!("l{}", i)).collect();
    let mut counter: usize = 0;
    app.flush_buffer(&mut buffer, &mut counter);
    assert_eq!(5, app.vertical_scroll);

    let mut small: Vec<String> = vec!["x".to_string()];
    app.logs = vec!["only".to_string()];
    app.vertical_scroll = 9;
    app.flush_buffer(&mut small, &mut counter);
    // Two lines fit in a three-row viewport: the offset returns to zero.
    assert_eq!(0, app.vertical_scroll);
}

#[test]
fn stream_error_is_appended_as_log_line() {
    let mut app = AppState::default();
    app.logs = vec!["before".to_string()];
    app.log_stream_error("connection reset");
    assert_eq!(2, app.logs.len());
    assert_eq!("Error streaming logs: connection reset", app.logs[1]);
}

#[test]
fn chunk_cleaning_strips_ansi_escapes() {
    let bytes: Vec<u8> = b"\x1b[32mfoo\x1b[m bar".to_vec();
    let line = clean_log_chunk(&bytes);
    assert_eq!("foo bar", line);
}

#[test]
fn record_chunk_stages_line_and_counts_it() {
    let mut buffer: Vec<String> = vec!["first".to_string()];
    let mut counter: usize = 41;
    let bytes: Vec<u8> = b"\x1b[1mplain\x1b[0m".to_vec();
    record_chunk(&mut buffer, &mut counter, &bytes);
    assert_eq!(vec!["first".to_string(), "plain".to_string()], buffer);
    assert_eq!(42, counter);
}

#[test]
fn cpu_sample_skipped_without_fields_or_progress() {
    assert_eq!(None, cpu_usage_inputs(10, 5, None, Some(1), Some(4)));
    assert_eq!(None, cpu_usage_inputs(10, 5, Some(2), None, Some(4)));
    assert_eq!(None, cpu_usage_inputs(10, 5, Some(2), Some(1), None));
    assert_eq!(None, cpu_usage_inputs(10, 5, Some(3), Some(3), Some(4)));
}

#[test]
fn cpu_sample_yields_exact_deltas() {
    let r = cpu_usage_inputs(110, 10, Some(1000), Some(600), Some(8));
    assert_eq!(Some((100, 400, 8)), r);
}

#[test]
fn memory_sample_skipped_without_usage_or_limit() {
    assert_eq!(None, memory_usage_inputs(None, Some(0), Some(10)));
    assert_eq!(None, memory_usage_inputs(Some(5), Some(0), None));
    assert_eq!(None, memory_usage_inputs(Some(5), Some(0), Some(0)));
}

#[test]
fn memory_sample_yields_used_and_limit() {
    assert_eq!(Some((100, 200)), memory_usage_inputs(Some(150), Some(50), Some(200)));
    // A missing stats object counts as zero cache, not as a skipped sample.
    assert_eq!(Some((5, 10)), memory_usage_inputs(Some(5), None, Some(10)));
    // Cache larger than usage floors at zero instead of wrapping.
    assert_eq!(Some((0, 200)), memory_usage_inputs(Some(40), Some(50), Some(200)));
}

#[test]
fn container_row_truncates_id_and_fills_defaults() {
    let id = "0123456789abcdef".to_string();
    let names = vec!["/web".to_string(), "/api".to_string()];
    let row = container_row(&id, Some("img".to_string()), None, &names, None);
    assert_eq!(
        vec![
            "0123456789ab".to_string(),
            "img".to_string(),
            "".to_string(),
            "/web, /api".to_string(),
            "N/A".to_string(),
        ],
        row
    );
}

#[test]
fn short_id_keeps_short_ids_whole() {
    assert_eq!("abc", short_id(&"abc".to_string()));
    assert_eq!("0123456789ab", short_id(&"0123456789ab".to_string()));
}

#[test]
fn join_strings_separates_parts() {
    assert_eq!("", join_strings(&Vec::new(), ", "));
    assert_eq!("one", join_strings(&vec!["one".to_string()], ", "));
    assert_eq!(
        "a, b, c",
        join_strings(&vec!["a".to_string(), "b".to_string(), "c".to_string()], ", ")
    );
}

#[test]
fn substring_search_matches_rust_semantics() {
    assert!(str_contains("hello world", "lo w"));
    assert!(str_contains("hello", ""));
    assert!(str_contains("", ""));
    assert!(!str_contains("", "a"));
    assert!(!str_contains("hello", "hamlet"));
    assert!(str_contains("aaa", "aa"));
}

#[test]
fn stats_stream_starts_only_once() {
    let rt = tokio::runtime::Builder::new_current_thread()
        .enable_time()
        .build()
        .unwrap();
    let mut app = AppState::default();
    app.mode = container_dash::state::AppMode::Resources;
    assert!(app.should_start_stats_stream());
    app.stats_task = Some(rt.spawn(async {
        std::future::pending::<()>().await;
    }));
    assert!(!app.should_start_stats_stream());
    if let Some(h) = app.stats_task.take() {
        h.abort();
    }
}

#[test]
fn default_state_matches_documented_initial_values() {
    let app = AppState::default();
    assert!(app.running);
    assert_eq!(container_dash::state::AppMode::Normal, app.mode);
    assert_eq!(vec!["Logs", "Stats", "Restart"], app.menu_items);
    assert_eq!(0, app.selected);
    assert!(app.logs.is_empty());
    assert!(app.log_task.is_none());
    assert!(app.stats_task.is_none());
    assert_eq!(None, app.cpu_data.get_max());
}

#[test]
fn keybinding_table_lists_every_binding_in_order() {
    let t = default_keybindings();
    assert_eq!(12, t.len());
    assert_eq!(vec![Key::Esc, Key::Char('q')], t[0].keys);
    assert_eq!(ActionId::Quit, t[0].action);
    assert_eq!("Quit / Close dialog", t[0].description);
    assert_eq!(vec![Key::Enter], t[5].keys);
    assert_eq!(ActionId::Confirm, t[5].action);
    assert_eq!(vec![Key::Char('?')], t[11].keys);
    assert_eq!(ActionId::OpenHelp, t[11].action);
}

#[test]
fn invalid_utf8_is_replaced_not_dropped() {
    let bytes: Vec<u8> = vec![0x66, 0xFF, 0x6F];
    let line = clean_log_chunk(&bytes);
    assert_eq!("f\u{FFFD}o", line);
}
