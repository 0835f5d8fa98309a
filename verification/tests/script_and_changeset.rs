use truyvansql::data_changeset::{DataChangesetBuilder, DataChangesetError};
use truyvansql::grid_error::StageError;
use truyvansql::schema::Column;
use truyvansql::script_generator::{GenerateScriptError, ScriptGenerator};
use truyvansql::state::GridState;

fn col(name: &str, ty: Option<&str>) -> Column {
    Column { name: name.to_string(), declared_type: ty.map(|t| t.to_string()) }
}

fn users() -> GridState {
    let mut st = GridState::new();
    st.set_data(
        vec![col("id", Some("INTEGER")), col("name", Some("TEXT")), col("note", None)],
        vec![
            vec!["1".to_string(), "Alice".to_string(), "a".to_string()],
            vec!["2".to_string(), "O'Brien".to_string(), "b".to_string()],
            vec!["3".to_string(), "Carol".to_string(), "c".to_string()],
        ],
    );
    st.set_metadata(Some("users".to_string()), vec!["id".to_string()]);
    st
}

#[test]
fn try_new_accepts_a_table_with_a_primary_key() {
    let mut state = GridState::new();
    state.source_table = Some("users".to_string());
    state.primary_keys = vec!["id".to_string()];
    let generator = ScriptGenerator::try_new(&state);
    assert!(generator.is_ok());
}

#[test]
fn try_new_errors() {
    let state = GridState::new();
    match ScriptGenerator::try_new(&state) {
        Err(GenerateScriptError::TableUndefinded) => {}
        _ => panic!("expected TableUndefinded"),
    }
    let mut state = GridState::new();
    state.source_table = Some("t".to_string());
    match ScriptGenerator::try_new(&state) {
        Err(e @ GenerateScriptError::PrimaryKeyNotFound(_)) => {
            assert_eq!(e.to_message(), "Không thể tạo script vì t không có khoá chính");
        }
        _ => panic!("expected PrimaryKeyNotFound"),
    }
    assert_eq!(GenerateScriptError::TableUndefinded.to_message(), "Không tìm thấy tên bảng gốc");
}

#[test]
fn script_lists_updates_by_row_then_deletes() {
    let mut st = users();
    st.pending_edits.insert(1, 1, "Bob".to_string());
    st.pending_edits.insert(0, 2, "x'y".to_string());
    st.pending_edits.insert(1, 2, "NULL".to_string());
    st.pending_edits.insert(1, 1, "Bobby".to_string());
    st.pending_deletes.insert(2);
    st.pending_deletes.insert(0);
    let script = ScriptGenerator::try_new(&st).ok().unwrap().generate();
    assert_eq!(
        script,
        "UPDATE \"users\" SET \"name\" = 'Bobby', \"note\" = NULL WHERE \"id\" = 2;\n\
         UPDATE \"users\" SET \"note\" = 'x''y' WHERE \"id\" = 1;\n\
         DELETE FROM \"users\" WHERE \"id\" = 3;\n\
         DELETE FROM \"users\" WHERE \"id\" = 1;\n"
    );
}

#[test]
fn script_with_composite_key_and_no_changes() {
    let mut st = users();
    st.set_metadata(Some("users".to_string()), vec!["id".to_string(), "name".to_string()]);
    assert_eq!(ScriptGenerator::try_new(&st).ok().unwrap().generate(), "");
    st.pending_deletes.insert(1);
    assert_eq!(
        ScriptGenerator::try_new(&st).ok().unwrap().generate(),
        "DELETE FROM \"users\" WHERE \"id\" = 2 AND \"name\" = 'O''Brien';\n"
    );
}

#[test]
fn changeset_mirrors_the_staged_changes() {
    let mut st = users();
    st.pending_edits.insert(2, 1, "Caroline".to_string());
    st.pending_edits.insert(0, 1, "Al".to_string());
    st.pending_edits.insert(2, 2, "z".to_string());
    st.pending_deletes.insert(1);
    let cs = DataChangesetBuilder::new(&st).build_changeset().ok().unwrap();
    assert_eq!(cs.table_name, "users");
    assert_eq!(cs.updates.len(), 2);
    let u0 = &cs.updates[0];
    assert_eq!(u0.pk_conditions.len(), 1);
    assert_eq!(u0.pk_conditions[0].column_name, "id");
    assert_eq!(u0.pk_conditions[0].value, "3");
    assert_eq!(u0.pk_conditions[0].data_type, "INTEGER");
    assert_eq!(u0.changes.len(), 2);
    assert_eq!(u0.changes[0].column_name, "name");
    assert_eq!(u0.changes[0].value, "Caroline");
    assert_eq!(u0.changes[0].data_type, "TEXT");
    assert_eq!(u0.changes[1].column_name, "note");
    assert_eq!(u0.changes[1].data_type, "");
    assert_eq!(cs.updates[1].pk_conditions[0].value, "1");
    assert_eq!(cs.updates[1].changes[0].value, "Al");
    assert_eq!(cs.deletes.len(), 1);
    assert_eq!(cs.deletes[0].pk_conditions[0].value, "2");
}

#[test]
fn changeset_errors() {
    let st = GridState::new();
    assert!(matches!(
        DataChangesetBuilder::new(&st).build_changeset(),
        Err(DataChangesetError::TableUndefinded)
    ));
    let mut st = GridState::new();
    st.source_table = Some("t".to_string());
    match DataChangesetBuilder::new(&st).build_changeset() {
        Err(e @ DataChangesetError::PrimaryKeyNotFound(_)) => {
            assert_eq!(e.to_message(), "Không thể tạo script vì t không có khoá chính")
        }
        _ => panic!("expected PrimaryKeyNotFound"),
    }
}

#[test]
fn staging_edits_in_the_text_grid() {
    let mut st = users();
    assert!(st.is_editable());
    assert!(!st.has_pending_changes());
    assert!(matches!(st.stage_cell_edit("x".to_string()), Err(StageError::NoActiveEdit)));
    assert!(st.begin_edit(0, 0));
    assert!(!st.begin_edit(0, 0));
    match st.stage_cell_edit("abc".to_string()) {
        Err(StageError::InvalidData(m)) => {
            assert_eq!(m, "Giá trị 'abc' không đúng định dạng INTEGER");
        }
        _ => panic!("expected InvalidData"),
    }
    assert!(st.editing_state.unwrap().has_error);
    assert!(!st.begin_edit(1, 1));
    assert_eq!(st.stage_cell_edit("10".to_string()).ok(), Some((0, 0)));
    assert!(st.editing_state.is_none());
    assert!(st.has_pending_changes());
    assert_eq!(st.pending_edits.get(0, 0), Some(&"10".to_string()));
    assert!(st.begin_edit(0, 0));
    assert_eq!(st.stage_cell_edit("1".to_string()).ok(), Some((0, 0)));
    assert!(st.pending_edits.get(0, 0).is_none());
    assert!(!st.has_pending_changes());
    let e = StageError::InvalidData("m".to_string());
    assert_eq!(e.to_message(), "Dữ liệu không hợp lệ: m");
    assert_eq!(
        StageError::NoActiveEdit.to_message(),
        "Không có phiên chỉnh sửa nào đang hoạt động"
    );
}

#[test]
fn toolbar_and_cancel() {
    let mut st = users();
    let tb = st.toolbar_state();
    assert!(tb.refresh_enabled && tb.add_row_enabled && !tb.commit_enabled);
    assert_eq!(tb.row_count, 3);
    st.pending_deletes.insert(0);
    st.is_loading = true;
    let tb = st.toolbar_state();
    assert!(!tb.refresh_enabled && !tb.commit_enabled && !tb.add_row_enabled);
    assert!(st.begin_edit(2, 1));
    let sel = st.select_response(2, 1);
    assert!(sel.clear_selection && sel.refocus_editor);
    assert!(!st.select_response(0, 1).refocus_editor);
    assert_eq!(st.cancel_edit(), Some((2, 1)));
    assert_eq!(st.cancel_edit(), None);
    assert!(!st.select_response(2, 1).clear_selection);
}
