use flashnotes::backup::create_backup;
use flashnotes::backup::create_migration_backup;
use flashnotes::backup::parse_backup_timestamp;
use flashnotes::schema::vacuum;
use flashnotes::commands;
use flashnotes::connection::create_connection;
use flashnotes::connection::create_memory_connection;
use flashnotes::connection::ReaderPool;
use flashnotes::connection::READER_POOL_SIZE;
use flashnotes::queries;
use flashnotes::schema::check_integrity;
use flashnotes::schema::initialize_schema;

fn fresh_store() -> rusqlite::Connection {
    let conn = create_memory_connection().expect("open in-memory store");
    initialize_schema(&conn).expect("schema");
    conn
}

#[test]
fn schema_initialization_is_idempotent() {
    let conn = fresh_store();
    initialize_schema(&conn).expect("second run");
    assert!(check_integrity(&conn).expect("integrity"));
}

#[test]
fn create_then_get_returns_exact_content() {
    let conn = fresh_store();
    let content = "Alpha\nBeta\n\u{00e9}\u{4e16}\u{754c}";
    let summary = commands::create_buffer(&conn, Some(content.to_string())).expect("create");
    assert_eq!(summary.id.len(), 36);
    assert!(!summary.is_pinned);
    let got = commands::get_buffer_content(&conn, &summary.id).expect("get");
    assert_eq!(got, content);
}

#[test]
fn accessed_at_advances_on_each_get() {
    let conn = fresh_store();
    let summary = commands::create_buffer(&conn, Some("note".to_string())).expect("create");
    let before = queries::get_buffer_content(&conn, &summary.id)
        .expect("row")
        .expect("present")
        .accessed_at;
    commands::get_buffer_content(&conn, &summary.id).expect("get");
    let after = queries::get_buffer_content(&conn, &summary.id)
        .expect("row")
        .expect("present")
        .accessed_at;
    assert!(after >= before);
}

#[test]
fn get_unknown_buffer_names_the_id() {
    let conn = fresh_store();
    let err = commands::get_buffer_content(&conn, "no-such-id").unwrap_err();
    assert_eq!(err, "Buffer not found: no-such-id");
}

#[test]
fn save_then_list_reflects_derived_title_and_preview() {
    let conn = fresh_store();
    let summary = commands::create_buffer(&conn, None).expect("create");
    let (title, preview) =
        commands::save_buffer(&conn, &summary.id, "\nHello\nWorld\n").expect("save");
    assert_eq!(title, "Hello");
    assert_eq!(preview, "World");
    let listed = commands::get_sidebar_data(&conn).expect("list");
    assert_eq!(listed.len(), 1);
    assert_eq!(listed[0].title, "Hello");
    assert_eq!(listed[0].preview, "World");

    commands::save_buffer(&conn, &summary.id, "").expect("save empty");
    let listed = commands::get_sidebar_data(&conn).expect("list");
    assert_eq!(listed[0].title, "Untitled");
    assert_eq!(listed[0].preview, "");
}

#[test]
fn new_buffers_float_to_the_top() {
    let conn = fresh_store();
    let first = commands::create_buffer(&conn, Some("first".to_string())).expect("create");
    let second = commands::create_buffer(&conn, Some("second".to_string())).expect("create");
    let listed = commands::get_sidebar_data(&conn).expect("list");
    assert_eq!(listed[0].id, second.id);
    assert_eq!(listed[1].id, first.id);
}

#[test]
fn reorder_then_list_follows_the_given_order() {
    let conn = fresh_store();
    let a = commands::create_buffer(&conn, Some("a".to_string())).expect("a");
    let b = commands::create_buffer(&conn, Some("b".to_string())).expect("b");
    let c = commands::create_buffer(&conn, Some("c".to_string())).expect("c");
    let mut conn = conn;
    commands::reorder_buffers(&mut conn, &vec![c.id.clone(), a.id.clone(), b.id.clone()])
        .expect("reorder");
    let listed = commands::get_sidebar_data(&conn).expect("list");
    let ids: Vec<&str> = listed.iter().map(|s| s.id.as_str()).collect();
    assert_eq!(ids, vec![c.id.as_str(), a.id.as_str(), b.id.as_str()]);
}

#[test]
fn pinned_buffers_precede_non_pinned() {
    let conn = fresh_store();
    let a = commands::create_buffer(&conn, Some("a".to_string())).expect("a");
    let b = commands::create_buffer(&conn, Some("b".to_string())).expect("b");
    let c = commands::create_buffer(&conn, Some("c".to_string())).expect("c");
    let mut conn = conn;
    commands::reorder_buffers(&mut conn, &vec![c.id.clone(), a.id.clone(), b.id.clone()])
        .expect("reorder");
    assert!(commands::toggle_pin(&conn, &b.id).expect("pin"));
    let listed = commands::get_sidebar_data(&conn).expect("list");
    assert_eq!(listed[0].id, b.id);
    let rest: Vec<&str> = listed[1..].iter().map(|s| s.id.as_str()).collect();
    assert_eq!(rest, vec![c.id.as_str(), a.id.as_str()]);
}

#[test]
fn toggle_pin_returns_the_post_flip_state() {
    let conn = fresh_store();
    let s = commands::create_buffer(&conn, Some("n".to_string())).expect("create");
    assert!(commands::toggle_pin(&conn, &s.id).expect("first flip"));
    assert!(!commands::toggle_pin(&conn, &s.id).expect("second flip"));
}

#[test]
fn blank_searches_return_empty_without_error() {
    let conn = fresh_store();
    commands::create_buffer(&conn, Some("anything".to_string())).expect("create");
    assert!(commands::search_buffers(&conn, "").expect("empty").is_empty());
    assert!(commands::search_buffers(&conn, "   ").expect("spaces").is_empty());
    assert!(commands::search_buffers(&conn, " \t\n").expect("mixed").is_empty());
}

#[test]
fn search_matches_all_terms_as_prefixes() {
    let conn = fresh_store();
    let hit1 = commands::create_buffer(&conn, Some("foolish barn door".to_string())).expect("1");
    let hit2 = commands::create_buffer(&conn, Some("football bar story".to_string())).expect("2");
    commands::create_buffer(&conn, Some("fox only".to_string())).expect("3");
    commands::create_buffer(&conn, Some("barricade only".to_string())).expect("4");
    let results = commands::search_buffers(&conn, "foo bar").expect("search");
    let mut ids: Vec<&str> = results.iter().map(|r| r.id.as_str()).collect();
    ids.sort();
    let mut expected = vec![hit1.id.as_str(), hit2.id.as_str()];
    expected.sort();
    assert_eq!(ids, expected);
}

#[test]
fn search_tolerates_quotes_in_the_query() {
    let conn = fresh_store();
    let s = commands::create_buffer(&conn, Some("he said \"hi\" loudly".to_string()))
        .expect("create");
    let results = commands::search_buffers(&conn, "\"hi\"").expect("search");
    assert_eq!(results.len(), 1);
    assert_eq!(results[0].id, s.id);
}

#[test]
fn search_highlights_the_match() {
    let conn = fresh_store();
    commands::create_buffer(&conn, Some("needle in a haystack".to_string())).expect("create");
    let results = commands::search_buffers(&conn, "needle").expect("search");
    assert_eq!(results.len(), 1);
    assert!(results[0].snippet.contains("<mark>needle</mark>"));
}

#[test]
fn search_respects_the_limit() {
    let conn = fresh_store();
    commands::create_buffer(&conn, Some("common word".to_string())).expect("1");
    commands::create_buffer(&conn, Some("common thing".to_string())).expect("2");
    let results = queries::search_buffers(&conn, "common", 1).expect("search");
    assert_eq!(results.len(), 1);
}

#[test]
fn sidebar_respects_the_limit() {
    let conn = fresh_store();
    for i in 0..3 {
        commands::create_buffer(&conn, Some(format!("note {}", i))).expect("create");
    }
    let page = queries::get_sidebar_buffers(&conn, 2).expect("page");
    assert_eq!(page.len(), 2);
}

#[test]
fn delete_returns_a_different_next_id() {
    let conn = fresh_store();
    let a = commands::create_buffer(&conn, Some("a".to_string())).expect("a");
    let b = commands::create_buffer(&conn, Some("b".to_string())).expect("b");
    let next = commands::delete_buffer(&conn, &a.id).expect("delete");
    let next = next.expect("some buffer remains");
    assert_ne!(next, a.id);
    assert_eq!(next, b.id);
    let last = commands::delete_buffer(&conn, &b.id).expect("delete last");
    assert!(last.is_none());
}

#[test]
fn deleted_buffers_leave_the_search_index() {
    let conn = fresh_store();
    let s = commands::create_buffer(&conn, Some("ephemeral text".to_string())).expect("create");
    assert_eq!(commands::search_buffers(&conn, "ephemeral").expect("hit").len(), 1);
    commands::delete_buffer(&conn, &s.id).expect("delete");
    assert!(commands::search_buffers(&conn, "ephemeral").expect("miss").is_empty());
}

#[test]
fn oversized_content_is_rejected_before_any_write() {
    let conn = fresh_store();
    let big = "x".repeat(11 * 1024 * 1024);
    let err = commands::create_buffer(&conn, Some(big)).unwrap_err();
    assert_eq!(
        err,
        "Content size 11534336 bytes exceeds the maximum of 10485760 bytes"
    );
    assert!(commands::get_sidebar_data(&conn).expect("list").is_empty());
}

#[test]
fn oversized_save_is_rejected_and_content_kept() {
    let conn = fresh_store();
    let s = commands::create_buffer(&conn, Some("keep me".to_string())).expect("create");
    let big = "y".repeat(11 * 1024 * 1024);
    let err = commands::save_buffer(&conn, &s.id, &big).unwrap_err();
    assert_eq!(
        err,
        "Content size 11534336 bytes exceeds the maximum of 10485760 bytes"
    );
    assert_eq!(commands::get_buffer_content(&conn, &s.id).expect("get"), "keep me");
}

#[test]
fn cleanup_removes_only_blank_buffers() {
    let conn = fresh_store();
    commands::create_buffer(&conn, None).expect("empty");
    commands::create_buffer(&conn, Some("   ".to_string())).expect("spaces");
    commands::create_buffer(&conn, Some("\n\t \u{00a0}".to_string())).expect("mixed blanks");
    let kept = commands::create_buffer(&conn, Some("kept".to_string())).expect("kept");
    let removed = commands::cleanup_empty_buffers(&conn).expect("cleanup");
    assert_eq!(removed, 3);
    let listed = commands::get_sidebar_data(&conn).expect("list");
    assert_eq!(listed.len(), 1);
    assert_eq!(listed[0].id, kept.id);
}

#[test]
fn cleanup_is_idempotent() {
    let conn = fresh_store();
    commands::create_buffer(&conn, None).expect("empty");
    assert_eq!(commands::cleanup_empty_buffers(&conn).expect("first"), 1);
    assert_eq!(commands::cleanup_empty_buffers(&conn).expect("second"), 0);
}

#[test]
fn blank_selection_keeps_row_order() {
    let rows = vec![
        ("a".to_string(), "".to_string()),
        ("b".to_string(), "note".to_string()),
        ("c".to_string(), " \t\n".to_string()),
        ("d".to_string(), "x".to_string()),
    ];
    assert_eq!(queries::select_blank_ids(&rows), vec!["a".to_string(), "c".to_string()]);
    assert_eq!(queries::select_blank_ids(&Vec::new()), Vec::<String>::new());
}

#[test]
fn fresh_buffers_take_the_slot_below_the_minimum() {
    assert_eq!(queries::next_sort_order(None), -1);
    assert_eq!(queries::next_sort_order(Some(5)), 4);
    assert_eq!(queries::next_sort_order(Some(0)), -1);
    assert_eq!(queries::next_sort_order(Some(i64::MIN)), i64::MIN);
}

#[test]
fn summaries_follow_their_rows() {
    let rows = vec![
        flashnotes::queries::SidebarRow {
            id: "one".to_string(),
            content: "\nHello\nWorld\n".to_string(),
            updated_at: 11,
            is_pinned: true,
        },
        flashnotes::queries::SidebarRow {
            id: "two".to_string(),
            content: "".to_string(),
            updated_at: 22,
            is_pinned: false,
        },
    ];
    let summaries = queries::summarize_rows(&rows);
    assert_eq!(summaries.len(), 2);
    assert_eq!(summaries[0].id, "one");
    assert_eq!(summaries[0].title, "Hello");
    assert_eq!(summaries[0].preview, "World");
    assert_eq!(summaries[0].updated_at, 11);
    assert!(summaries[0].is_pinned);
    assert_eq!(summaries[1].title, "Untitled");
    assert_eq!(summaries[1].preview, "");
}

#[test]
fn missing_buffer_maps_to_the_not_found_message() {
    assert_eq!(
        commands::content_or_not_found(None, "gone"),
        Err("Buffer not found: gone".to_string())
    );
}

#[test]
fn search_degrades_when_the_statement_fails() {
    // A store without the schema makes every search statement fail as a plain
    // statement error; search treats that as no result, not a caller error.
    let conn = create_memory_connection().expect("open");
    let hits = commands::search_buffers(&conn, "anything").expect("degraded");
    assert!(hits.is_empty());
}

#[test]
fn settings_default_and_overlay() {
    let conn = fresh_store();
    let s = commands::get_settings(&conn).expect("defaults");
    assert_eq!(s.font_family, "JetBrains Mono");
    assert_eq!(s.font_size, 13);
    assert_eq!(s.line_height, "1.5");
    assert_eq!(s.sidebar_width, 256);
    assert!(!s.sidebar_collapsed);
    assert!(!s.vim_mode);
    assert!(!s.always_on_top);

    commands::set_setting(&conn, "font_size", "20").expect("set");
    commands::set_setting(&conn, "sidebar_collapsed", "true").expect("set");
    commands::set_setting(&conn, "line_height", "2.25").expect("set");
    commands::set_setting(&conn, "unknown_key", "whatever").expect("set");
    let s = commands::get_settings(&conn).expect("overlaid");
    assert_eq!(s.font_size, 20);
    assert!(s.sidebar_collapsed);
    assert_eq!(s.line_height, "2.25");

    commands::set_setting(&conn, "font_size", "not a number").expect("set");
    let s = commands::get_settings(&conn).expect("fallback");
    assert_eq!(s.font_size, 13);
}

fn temp_store_path() -> String {
    let stamp = chrono::Utc::now().timestamp_nanos_opt().expect("clock");
    format!("/tmp/flashnotes_store_{}.db", stamp)
}

#[test]
fn reader_pool_hands_each_slot_out_once() {
    let path = temp_store_path();
    let conn = create_connection(&path).expect("open");
    initialize_schema(&conn).expect("schema");
    let mut pool = ReaderPool::new(&path, READER_POOL_SIZE).expect("pool");
    let mut slots = Vec::new();
    for _ in 0..READER_POOL_SIZE {
        let s = pool.acquire().expect("a free slot");
        assert!(!slots.contains(&s));
        slots.push(s);
    }
    assert!(pool.acquire().is_none());
    let freed = slots.pop().unwrap();
    pool.release(freed);
    assert_eq!(pool.acquire(), Some(freed));
}

#[test]
fn pooled_readers_see_committed_data_and_reject_writes() {
    let path = temp_store_path();
    let conn = create_connection(&path).expect("open");
    initialize_schema(&conn).expect("schema");
    commands::create_buffer(&conn, Some("shared note".to_string())).expect("create");
    let mut pool = ReaderPool::new(&path, 2).expect("pool");
    let slot = pool.acquire().expect("slot");
    let listed = queries::get_sidebar_buffers(pool.reader(slot), 10).expect("list");
    assert_eq!(listed.len(), 1);
    assert_eq!(listed[0].title, "shared note");
    assert!(queries::set_setting(pool.reader(slot), "vim_mode", "true").is_err());
    pool.release(slot);
}

#[test]
fn vacuum_runs_after_deletions() {
    let conn = fresh_store();
    let s = commands::create_buffer(&conn, Some("short lived".to_string())).expect("create");
    commands::delete_buffer(&conn, &s.id).expect("delete");
    vacuum(&conn).expect("vacuum");
    assert!(commands::get_sidebar_data(&conn).expect("list").is_empty());
}

#[test]
fn migration_backups_escape_the_rotation() {
    let conn = fresh_store();
    let stamp = chrono::Utc::now()
        .timestamp_nanos_opt()
        .expect("clock") as u64;
    let path = create_migration_backup(&conn, "/tmp", stamp).expect("backup");
    assert_eq!(path, format!("/tmp/flashnotes_premigration_{}.db", stamp));
    let name = format!("flashnotes_premigration_{}.db", stamp);
    assert_eq!(parse_backup_timestamp(&name), None);
}

#[test]
fn driver_errors_carry_their_context() {
    let path = temp_store_path();
    let conn = create_connection(&path).expect("open");
    initialize_schema(&conn).expect("schema");
    let mut pool = ReaderPool::new(&path, 1).expect("pool");
    let slot = pool.acquire().expect("slot");
    let err = commands::create_buffer(pool.reader(slot), Some("nope".to_string())).unwrap_err();
    assert!(err.starts_with("Failed to create buffer: "), "got {:?}", err);
    pool.release(slot);
}

#[test]
fn backup_snapshot_is_an_openable_copy() {
    let conn = fresh_store();
    commands::create_buffer(&conn, Some("snapshot me".to_string())).expect("create");
    let stamp = chrono::Utc::now()
        .timestamp_nanos_opt()
        .expect("clock") as u64;
    let path = create_backup(&conn, "/tmp", stamp).expect("backup");
    assert_eq!(path, format!("/tmp/flashnotes_{}.db", stamp));
    let copy = create_connection(&path).expect("open copy");
    let listed = queries::get_sidebar_buffers(&copy, 10).expect("list copy");
    assert_eq!(listed.len(), 1);
    assert_eq!(listed[0].title, "snapshot me");
}
