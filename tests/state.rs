use mongo_browser::filter::FilterError;
use mongo_browser::models::{CollectionInfo, DatabaseInfo, ServerInfo};
use mongo_browser::screen::Screen;
use mongo_browser::state::{AppState, InputMode};
use mongodb::bson::Document;

fn db(name: &str) -> DatabaseInfo {
    DatabaseInfo { name: name.to_string(), size_on_disk: 100, collection_count: 2 }
}

fn coll(name: &str) -> CollectionInfo {
    CollectionInfo { name: name.to_string(), document_count: 5, indexes: vec!["_id_".to_string()] }
}

fn doc(id: i32) -> Document {
    let mut d = Document::new();
    d.insert("_id", id);
    d
}

fn info() -> ServerInfo {
    ServerInfo { host: "host:1".to_string(), version: "7.0".to_string() }
}

#[test]
fn fresh_state_defaults() {
    let s = AppState::new();
    assert!(!s.is_connected());
    assert_eq!(s.current_screen, Screen::Connection);
    assert_eq!(s.page_size, 20);
    assert_eq!(s.connection_input, "mongodb://localhost:27017");
    assert_eq!(s.mode, InputMode::Normal);
    assert!(s.filter.is_none());
    assert!(!s.should_quit);
    let d = AppState::default();
    assert_eq!(d.connection_input, "mongodb://localhost:27017");
}

#[test]
fn next_cycles_back_to_start() {
    let mut s = AppState::new();
    s.set_databases(vec![db("a"), db("b"), db("c")]);
    s.select_next_db();
    let start = s.selected_db_index;
    for _ in 0..3 {
        s.select_next_db();
    }
    assert_eq!(s.selected_db_index, start);
    for _ in 0..3 {
        s.select_prev_db();
    }
    assert_eq!(s.selected_db_index, start);
}

#[test]
fn prev_wraps_to_last() {
    let mut s = AppState::new();
    s.set_collections(vec![coll("x"), coll("y"), coll("z"), coll("w")]);
    s.select_prev_coll();
    assert_eq!(s.selected_coll_index, 3);
    assert_eq!(s.get_selected_collection().unwrap().name, "w");
    s.select_next_coll();
    assert_eq!(s.selected_coll_index, 0);
}

#[test]
fn moves_on_empty_lists_keep_cursor() {
    let mut s = AppState::new();
    s.selected_db_index = 7;
    s.select_next_db();
    assert_eq!(s.selected_db_index, 7);
    s.select_prev_db();
    assert_eq!(s.selected_db_index, 7);
    s.select_next_doc();
    s.select_prev_doc();
    assert_eq!(s.selected_doc_index, 0);
    s.select_next_history();
    s.select_prev_history();
    assert_eq!(s.selected_history_index, 0);
    s.select_prev_coll();
    assert_eq!(s.selected_coll_index, 0);
}

#[test]
fn selected_on_empty_is_none() {
    let s = AppState::new();
    assert!(s.get_selected_database().is_none());
    assert!(s.get_selected_collection().is_none());
    assert!(s.get_selected_document().is_none());
    assert!(s.get_selected_history_uri().is_none());
}

#[test]
fn selected_follows_cursor() {
    let mut s = AppState::new();
    s.set_documents(vec![doc(1), doc(2)]);
    s.select_next_doc();
    assert_eq!(s.get_selected_document().unwrap().get_i32("_id").unwrap(), 2);
    s.set_connection_history(vec!["db://a".to_string(), "db://b".to_string()]);
    s.select_prev_history();
    assert_eq!(s.get_selected_history_uri(), Some("db://b".to_string()));
}

#[test]
fn stale_cursor_gives_none() {
    let mut s = AppState::new();
    s.set_databases(vec![db("a")]);
    s.selected_db_index = 5;
    assert!(s.get_selected_database().is_none());
}

#[test]
fn shorter_list_resets_cursor() {
    let mut s = AppState::new();
    s.set_databases(vec![db("a"), db("b"), db("c")]);
    s.select_next_db();
    s.select_next_db();
    s.set_databases(vec![db("d")]);
    assert_eq!(s.selected_db_index, 0);
    s.set_collections(vec![coll("a"), coll("b"), coll("c")]);
    s.select_prev_coll();
    s.set_collections(vec![coll("d")]);
    assert_eq!(s.selected_coll_index, 0);
    s.set_documents(vec![doc(1), doc(2), doc(3)]);
    s.select_prev_doc();
    s.set_documents(vec![doc(4)]);
    assert_eq!(s.selected_doc_index, 0);
    s.set_connection_history(vec!["a".to_string(), "b".to_string(), "c".to_string()]);
    s.select_prev_history();
    s.set_connection_history(vec!["d".to_string()]);
    assert_eq!(s.selected_history_index, 0);
    assert_eq!(s.get_selected_history_uri(), Some("d".to_string()));
}

#[test]
fn empty_object_compiles_to_empty_filter() {
    let mut s = AppState::new();
    for c in "{}".chars() {
        s.push_filter_char(c);
    }
    assert!(s.apply_filter().is_ok());
    assert!(s.filter.as_ref().unwrap().is_empty());
}

#[test]
fn object_compiles_to_its_document() {
    let mut s = AppState::new();
    for c in "{\"age\": 3}".chars() {
        s.push_filter_char(c);
    }
    assert!(s.apply_filter().is_ok());
    assert!(s.filter.as_ref().unwrap().contains_key("age"));
}

#[test]
fn bad_json_keeps_previous_filter() {
    let mut s = AppState::new();
    for c in "{\"a\": 1}".chars() {
        s.push_filter_char(c);
    }
    assert!(s.apply_filter().is_ok());
    s.clear_query();
    let before = s.filter.clone();
    for c in "{invalid".chars() {
        s.push_query_char(c);
    }
    match s.apply_filter() {
        Err(FilterError::InvalidSyntax(_)) => {}
        other => panic!("expected a syntax error, got {:?}", other),
    }
    assert_eq!(s.filter, before);
}

#[test]
fn non_object_json_is_invalid_filter() {
    let mut s = AppState::new();
    for c in "[1, 2]".chars() {
        s.push_filter_char(c);
    }
    match s.apply_filter() {
        Err(FilterError::InvalidFilter(_)) => {}
        other => panic!("expected a filter error, got {:?}", other),
    }
    assert!(s.filter.is_none());
}

#[test]
fn install_filter_outcomes() {
    let mut s = AppState::new();
    assert!(s.install_filter(Ok(doc(9))).is_ok());
    assert_eq!(s.filter, Some(doc(9)));
    match s.install_filter(Err("bad".to_string())) {
        Err(FilterError::InvalidFilter(m)) => assert_eq!(m, "bad"),
        other => panic!("expected a filter error, got {:?}", other),
    }
    assert_eq!(s.filter, Some(doc(9)));
}

#[test]
fn empty_text_clears_filter() {
    let mut s = AppState::new();
    for c in "{}".chars() {
        s.push_filter_char(c);
    }
    assert!(s.apply_filter().is_ok());
    assert!(s.filter.is_some());
    s.pop_filter_char();
    s.pop_filter_char();
    assert!(s.apply_filter().is_ok());
    assert!(s.filter.is_none());
}

#[test]
fn query_text_takes_priority() {
    let mut s = AppState::new();
    for c in "{bad".chars() {
        s.push_filter_char(c);
    }
    for c in "{\"q\": true}".chars() {
        s.push_every_char(c);
    }
    assert!(s.apply_filter().is_ok());
    assert!(s.filter.as_ref().unwrap().get_bool("q").unwrap());
}

#[test]
fn pops_on_empty_buffers_do_nothing() {
    let mut s = AppState::new();
    s.clear_input();
    s.pop_char();
    s.pop_filter_char();
    s.pop_query_char();
    s.pop_every_char();
    assert_eq!(s.connection_input, "");
    assert_eq!(s.filter_input, "");
    assert_eq!(s.query_input, "");
}

#[test]
fn quit_is_one_way() {
    let mut s = AppState::new();
    s.quit();
    s.set_loading(true);
    s.set_error(Some("boom".to_string()));
    s.set_screen(Screen::DocumentView);
    s.enter_query_mode();
    s.push_query_char('x');
    s.toggle_history();
    s.quit();
    assert!(s.should_quit);
    assert!(s.loading);
    assert_eq!(s.error, Some("boom".to_string()));
}

#[test]
fn connect_scenario() {
    let mut s = AppState::new();
    s.set_connection("db://host:1".to_string(), info());
    assert!(s.is_connected());
    assert_eq!(s.connection.as_ref().unwrap().uri, "db://host:1");
    assert_eq!(s.connection.as_ref().unwrap().server_info.version, "7.0");
}

#[test]
fn select_scenario() {
    let mut s = AppState::new();
    s.set_databases(vec![db("A"), db("B"), db("C")]);
    s.select_next_db();
    s.select_next_db();
    assert_eq!(s.get_selected_database().unwrap().name, "C");
    s.select_next_db();
    assert_eq!(s.get_selected_database().unwrap().name, "A");
}

#[test]
fn buffer_scenario() {
    let mut s = AppState::new();
    s.push_filter_char('a');
    s.push_filter_char('b');
    assert_eq!(s.filter_input, "ab");
    s.pop_filter_char();
    assert_eq!(s.filter_input, "a");
    s.clear_filter();
    assert_eq!(s.filter_input, "");
}

#[test]
fn connection_text_editing() {
    let mut s = AppState::new();
    s.clear_input();
    s.push_char('d');
    s.push_char('b');
    s.pop_char();
    assert_eq!(s.connection_input, "d");
}

#[test]
fn clear_filter_drops_compiled_filter() {
    let mut s = AppState::new();
    s.push_filter_char('{');
    s.push_filter_char('}');
    assert!(s.apply_filter().is_ok());
    s.clear_filter();
    assert!(s.filter.is_none());
    assert_eq!(s.filter_input, "");
}

#[test]
fn modes_are_exclusive() {
    let mut s = AppState::new();
    s.enter_input_mode();
    assert_eq!(s.mode, InputMode::Connection);
    s.enter_filter_mode();
    assert_eq!(s.mode, InputMode::Filter);
    s.exit_query_mode();
    assert_eq!(s.mode, InputMode::Filter);
    s.exit_filter_mode();
    assert_eq!(s.mode, InputMode::Normal);
    s.enter_query_mode();
    s.push_filter_char('z');
    s.exit_query_mode();
    assert_eq!(s.mode, InputMode::Normal);
    s.exit_input_mode();
    assert_eq!(s.mode, InputMode::Normal);
    assert_eq!(s.filter_input, "z");
}

#[test]
fn scrolling_saturates() {
    let mut s = AppState::new();
    s.scroll_doc_up();
    assert_eq!(s.doc_scroll_offset, 0);
    s.scroll_doc_down();
    s.scroll_doc_down();
    s.scroll_doc_up();
    assert_eq!(s.doc_scroll_offset, 1);
    s.doc_scroll_offset = usize::MAX;
    s.scroll_doc_down();
    assert_eq!(s.doc_scroll_offset, usize::MAX);
}

#[test]
fn history_toggle_and_screen() {
    let mut s = AppState::new();
    s.toggle_history();
    assert!(s.show_history);
    s.toggle_history();
    assert!(!s.show_history);
    s.set_screen(Screen::CollectionList);
    assert_eq!(s.current_screen, Screen::CollectionList);
}

#[test]
fn integer_beyond_i64_is_invalid_filter() {
    let mut s = AppState::new();
    for c in "{\"n\": 18446744073709551615}".chars() {
        s.push_query_char(c);
    }
    match s.apply_filter() {
        Err(FilterError::InvalidFilter(_)) => {}
        other => panic!("expected a filter error, got {:?}", other),
    }
    assert!(s.filter.is_none());
}

#[test]
fn default_matches_new() {
    let d = AppState::default();
    assert!(!d.loading);
    assert!(d.error.is_none());
    assert_eq!(d.selected_db_index, 0);
    assert_eq!(d.selected_coll_index, 0);
    assert_eq!(d.selected_doc_index, 0);
    assert_eq!(d.selected_history_index, 0);
    assert_eq!(d.doc_scroll_offset, 0);
    assert_eq!(d.current_page, 0);
    assert!(!d.show_history);
    assert_eq!(d.filter_input, "");
    assert_eq!(d.query_input, "");
}
