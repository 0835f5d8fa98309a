use truyvansql::grid_delegate::{CellDisplay, GridDelegate};
use truyvansql::grid_error::{GridError, StageError};
use truyvansql::grid_fetch_state::GridFetchState;
use truyvansql::grid_state::{GridDataSource, GridState};
use truyvansql::pending::{PendingEdits, RowSet};
use truyvansql::schema::Column;
use truyvansql::tab_info::{query_status_label, sql_editor_tab_info, table_viewer_tab_info, TabIcon};

fn s(x: &str) -> Option<String> {
    Some(x.to_string())
}

fn table_grid() -> GridState {
    let mut st = GridState::new(GridDataSource::Table {
        source_table: "items".to_string(),
        limit: 100,
        offset: 0,
    });
    st.set_data(
        vec![
            Column { name: "id".to_string(), declared_type: Some("INTEGER".to_string()) },
            Column { name: "label".to_string(), declared_type: Some("TEXT".to_string()) },
        ],
        vec![vec![s("1"), s("one")], vec![s("2"), None]],
    );
    st.primary_keys = vec!["id".to_string()];
    st
}

#[test]
fn data_sources_decide_what_the_grid_allows() {
    let st = table_grid();
    assert!(st.can_paginate() && st.can_insert() && st.can_edit());
    assert_eq!(st.source_table(), s("items"));
    let q = GridState::new(GridDataSource::Query { source_table: None, query: "select 1".to_string() });
    assert!(!q.can_paginate() && !q.can_insert() && !q.can_edit());
    assert_eq!(q.source_table(), None);
    let mut q2 = GridState::new(GridDataSource::Query { source_table: s("t"), query: "q".to_string() });
    assert!(!q2.can_edit());
    q2.primary_keys = vec!["k".to_string()];
    assert!(q2.can_edit());
    assert!(q2.fetch_state.is_idle());
}

#[test]
fn cell_values_prefer_edits_then_new_rows_then_loaded() {
    let mut st = table_grid();
    assert_eq!(st.cell_value(0, 1), s("one"));
    assert_eq!(st.cell_value(1, 1), None);
    assert_eq!(st.cell_value(5, 5), None);
    st.add_row();
    assert_eq!(st.total_len(), 3);
    assert!(st.is_inserted_row(2));
    assert_eq!(st.insert_index(2), 0);
    assert_eq!(st.cell_value(2, 0), None);
    st.pending_edits.insert(0, 1, s("uno"));
    st.pending_edits.insert(2, 0, s("9"));
    assert_eq!(st.cell_value(0, 1), s("uno"));
    assert_eq!(st.cell_original_value(0, 1), s("one"));
    assert_eq!(st.cell_value(2, 0), s("9"));
}

#[test]
fn staging_in_loaded_and_new_rows() {
    let mut st = table_grid();
    assert_eq!(st.begin_edit(1, 1), Some(String::new()));
    // empty text, empty strings not allowed: NULL, equal to the loaded NULL
    assert_eq!(st.stage_cell_edit(String::new(), false, true).ok(), Some((1, 1)));
    assert!(!st.has_pending_changes());
    assert_eq!(st.begin_edit(1, 1), Some(String::new()));
    assert_eq!(st.stage_cell_edit(String::new(), true, true).ok(), Some((1, 1)));
    assert_eq!(st.cell_value(1, 1), s(""));
    assert_eq!(st.begin_edit(0, 0), Some("1".to_string()));
    match st.stage_cell_edit("x".to_string(), true, false) {
        Err(StageError::InvalidData(m)) => assert_eq!(m, "Giá trị 'x' không đúng định dạng INTEGER"),
        _ => panic!("expected InvalidData"),
    }
    assert_eq!(st.begin_edit(1, 0), None);
    assert_eq!(st.stage_cell_edit("7".to_string(), true, true).ok(), Some((0, 0)));
    assert_eq!(st.cell_value(0, 0), s("7"));
    st.add_row();
    assert_eq!(st.begin_edit(2, 1), Some(String::new()));
    assert_eq!(st.stage_cell_edit("new".to_string(), true, true).ok(), Some((2, 1)));
    assert_eq!(st.pending_inserts[0], vec![None, s("new")]);
    assert!(!st.pending_edits.contains_key(2, 1));
    let mut q = GridState::new(GridDataSource::Query { source_table: None, query: "q".to_string() });
    assert_eq!(q.begin_edit(0, 0), None);
    assert!(matches!(q.stage_cell_edit("a".to_string(), true, true), Err(StageError::NoActiveEdit)));
}

#[test]
fn deleting_and_discarding_rows() {
    let mut st = table_grid();
    st.toggle_delete_row(1);
    assert!(st.is_deleted_row(1));
    st.toggle_delete_row(1);
    assert!(!st.is_deleted_row(1));
    st.toggle_delete_row(0);
    st.add_row();
    st.add_row();
    assert_eq!(st.pending_inserts.len(), 2);
    st.toggle_delete_row(3);
    assert_eq!(st.pending_inserts.len(), 1);
    assert!(st.has_pending_changes());
    st.discard_changes();
    assert!(!st.has_pending_changes());
    let mut empty = GridState::new(GridDataSource::Query { source_table: None, query: String::new() });
    empty.add_row();
    assert_eq!(empty.pending_inserts.len(), 0);
}

#[test]
fn fetch_states_and_errors() {
    assert!(GridFetchState::Loaded.has_displayable_data());
    assert!(GridFetchState::Error(GridError::Refresh("r".to_string())).has_displayable_data());
    assert!(GridFetchState::Error(GridError::Commit("c".to_string())).has_displayable_data());
    let fatal = GridFetchState::Error(GridError::Fatal("boom".to_string()));
    assert!(!fatal.has_displayable_data() && fatal.is_fatal() && fatal.is_error());
    assert!(!GridFetchState::Loading.has_displayable_data() && GridFetchState::Loading.is_loading());
    assert!(!GridFetchState::Idle.has_displayable_data());
    assert_eq!(fatal.as_error().map(|e| e.message()), Some("boom".to_string()));
    assert!(GridFetchState::Loaded.as_error().is_none() && GridFetchState::Loaded.is_loaded());
    let mut st = table_grid();
    assert_eq!(st.fatal_error_message(), None);
    st.fetch_state = fatal;
    assert_eq!(st.fatal_error_message(), Some("boom".to_string()));
    st.fetch_state = GridFetchState::Loading;
    let tb = st.toolbar_state();
    assert!(!tb.refresh_enabled && !tb.add_row_enabled);
}

#[test]
fn delegate_texts_and_display() {
    let mut st = table_grid();
    st.pending_edits.insert(0, 0, None);
    st.pending_edits.insert(1, 0, s("5"));
    st.pending_deletes.insert(1);
    let d = GridDelegate::new(st);
    assert_eq!(d.columns_count(), 2);
    assert_eq!(d.column(1), "label");
    assert_eq!(d.rows_count(), 2);
    assert_eq!(d.cell_text(0, 0), "NULL");
    assert_eq!(d.cell_text(0, 1), "one");
    assert_eq!(d.row_text(1), "5\tNULL");
    assert!(matches!(d.cell_display(0, 0), CellDisplay::EditedNull));
    assert!(matches!(d.cell_display(1, 0), CellDisplay::EditedValue(ref t) if t == "5"));
    assert!(matches!(d.cell_display(1, 1), CellDisplay::Null));
    assert!(matches!(d.cell_display(0, 1), CellDisplay::Value(ref t) if t == "one"));
    let style = d.row_style(1);
    assert!(style.deleted && !style.inserted && style.stripe);
    assert!(!d.row_style(0).stripe);
}

#[test]
fn editor_cell_is_displayed_as_editor() {
    let mut st = table_grid();
    st.begin_edit(0, 1);
    let d = GridDelegate::new(st);
    assert!(matches!(d.cell_display(0, 1), CellDisplay::Editor { has_error: false }));
}

#[test]
fn pending_collections_behave_like_map_and_set() {
    let mut m: PendingEdits<String> = PendingEdits::new();
    m.insert(1, 2, "a".to_string());
    m.insert(3, 4, "b".to_string());
    m.insert(1, 2, "c".to_string());
    assert_eq!(m.len(), 2);
    assert_eq!(m.as_slice()[0].value, "c");
    assert_eq!(m.get(1, 2), Some(&"c".to_string()));
    m.remove(1, 2);
    assert!(m.get(1, 2).is_none());
    assert_eq!(m.get(3, 4), Some(&"b".to_string()));
    m.remove(9, 9);
    assert_eq!(m.len(), 1);
    m.clear();
    assert!(m.is_empty());
    let mut r = RowSet::new();
    r.insert(5);
    r.insert(5);
    r.insert(2);
    assert_eq!(r.as_slice(), &[5, 2]);
    r.toggle(5);
    r.toggle(5);
    assert_eq!(r.as_slice(), &[2, 5]);
    r.remove(2);
    assert!(!r.contains(2) && r.contains(5));
}

#[test]
fn tab_infos() {
    let info = sql_editor_tab_info("local");
    assert_eq!(info.title, "SQL: local");
    assert!(!info.is_dirty && matches!(info.icon, TabIcon::FileSql));
    let mut st = table_grid();
    assert!(!table_viewer_tab_info("items", &st).is_dirty);
    st.toggle_delete_row(0);
    let info = table_viewer_tab_info("items", &st);
    assert!(info.is_dirty && info.title == "items" && matches!(info.icon, TabIcon::Table));
    assert_eq!(query_status_label(true), "Đang thực thi...");
    assert_eq!(query_status_label(false), "Sẵn sàng");
}

#[test]
fn staging_a_value_then_the_loaded_one_undoes_the_edit() {
    let mut st = table_grid();
    assert!(st.begin_edit(0, 1).is_some());
    assert_eq!(st.stage_cell_edit("uno".to_string(), true, true).ok(), Some((0, 1)));
    assert_eq!(st.pending_edits.len(), 1);
    assert_eq!(st.pending_edits.get(0, 1), Some(&s("uno")));
    assert!(st.begin_edit(0, 1).is_some());
    assert_eq!(st.stage_cell_edit("one".to_string(), true, true).ok(), Some((0, 1)));
    assert!(st.pending_edits.is_empty());
    assert_eq!(st.cell_value(0, 1), s("one"));
    // staging the loaded value of an unedited cell stores nothing
    assert!(st.begin_edit(0, 0).is_some());
    assert_eq!(st.stage_cell_edit("1".to_string(), true, true).ok(), Some((0, 0)));
    assert!(st.pending_edits.is_empty());
    // a new row's cell never becomes a staged edit
    st.add_row();
    assert!(st.begin_edit(2, 1).is_some());
    assert_eq!(st.stage_cell_edit("fresh".to_string(), true, true).ok(), Some((2, 1)));
    assert!(st.pending_edits.is_empty());
}
