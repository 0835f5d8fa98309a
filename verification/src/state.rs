//! The grid state of a table view whose cells are plain text: the loaded rows,
//! the source table and its primary key, and the changes staged on top of them.
use vstd::prelude::*;
use crate::grid_error::StageError;
use crate::pending::{insert_edit, remove_edit, PendingEdits, RowSet};
use crate::schema::Column;
use crate::sql_value::{sql_type_accepts, validate_sql_type};

verus! {

/// The cell being edited.
#[derive(Clone, Copy)]
pub struct EditingState {
    pub row: usize,
    pub col: usize,
    pub has_error: bool,
}

/// The state behind an editable grid.
pub struct GridState {
    pub columns: Vec<Column>,
    pub original_rows: Vec<Vec<String>>,
    pub source_table: Option<String>,
    pub primary_keys: Vec<String>,
    pub pending_edits: PendingEdits<String>,
    pub pending_deletes: RowSet,
    pub pending_inserts: Vec<Vec<String>>,
    pub limit: usize,
    pub offset: usize,
    pub total_rows: Option<usize>,
    pub is_loading: bool,
    pub editing_state: Option<EditingState>,
}

/// Which toolbar buttons are enabled.
pub struct ToolbarState {
    pub refresh_enabled: bool,
    pub add_row_enabled: bool,
    pub delete_row_enabled: bool,
    pub commit_enabled: bool,
    pub discard_enabled: bool,
    /// Number of loaded rows, shown as `Rows: n`.
    pub row_count: usize,
}

/// What a cell-selection event asks of the view while a cell is edited.
pub struct SelectResponse {
    /// Drop the table's own selection.
    pub clear_selection: bool,
    /// Give the focus back to the cell editor.
    pub refocus_editor: bool,
}

impl GridState {
    /// The grid may be edited: it knows its source table and that table's
    /// primary key.
    pub open spec fn is_editable_spec(&self) -> bool {
        self.source_table is Some && self.primary_keys@.len() > 0
    }

    /// Some change is staged.
    pub open spec fn has_pending_changes_spec(&self) -> bool {
        self.pending_edits@.len() > 0 || self.pending_deletes@.len() > 0
            || self.pending_inserts@.len() > 0
    }

    /// The loaded text of a cell, or the empty text outside the loaded rows.
    pub open spec fn original_text(&self, row: int, col: int) -> Seq<char> {
        if 0 <= row < self.original_rows@.len() && 0 <= col < self.original_rows@[row]@.len() {
            self.original_rows@[row]@[col]@
        } else {
            Seq::<char>::empty()
        }
    }

    /// An empty grid: no columns, rows or changes, a page of 1000 rows from the
    /// start, not loading, nothing edited.
    pub fn new() -> (r: Self)
        ensures
            r.columns@.len() == 0,
            r.original_rows@.len() == 0,
            r.source_table is None,
            r.primary_keys@.len() == 0,
            r.pending_edits@.len() == 0,
            r.pending_deletes@.len() == 0,
            r.pending_inserts@.len() == 0,
            r.limit == 1000,
            r.offset == 0,
            r.total_rows is None,
            !r.is_loading,
            r.editing_state is None,
    {
        GridState {
            columns: Vec::new(),
            original_rows: Vec::new(),
            source_table: None,
            primary_keys: Vec::new(),
            pending_edits: PendingEdits::new(),
            pending_deletes: RowSet::new(),
            pending_inserts: Vec::new(),
            limit: 1000,
            offset: 0,
            total_rows: None,
            is_loading: false,
            editing_state: None,
        }
    }

    pub fn is_editable(&self) -> (r: bool)
        ensures
            r == self.is_editable_spec(),
    {
        self.source_table.is_some() && self.primary_keys.len() > 0
    }

    pub fn has_pending_changes(&self) -> (r: bool)
        ensures
            r == self.has_pending_changes_spec(),
    {
        !self.pending_edits.is_empty() || !self.pending_deletes.is_empty()
            || self.pending_inserts.len() > 0
    }

    /// Starts editing `(row, col)`. Refused (and nothing changes) when the grid
    /// is not editable, when that cell is already being edited, or when the
    /// cell being edited holds an invalid value.
    pub fn begin_edit(&mut self, row: usize, col: usize) -> (started: bool)
        ensures
            started == (old(self).is_editable_spec() && !(old(self).editing_state matches Some(
                e,
            ) && ((e.row == row && e.col == col) || e.has_error))),
            started ==> final(self).editing_state == Some(
                EditingState { row, col, has_error: false },
            ),
            !started ==> *final(self) == *old(self),
            final(self).columns == old(self).columns,
            final(self).original_rows == old(self).original_rows,
            final(self).pending_edits == old(self).pending_edits,
            final(self).pending_deletes == old(self).pending_deletes,
            final(self).pending_inserts == old(self).pending_inserts,
            final(self).source_table == old(self).source_table,
            final(self).primary_keys == old(self).primary_keys,
            final(self).limit == old(self).limit,
            final(self).offset == old(self).offset,
            final(self).total_rows == old(self).total_rows,
            final(self).is_loading == old(self).is_loading,
    {
        if !self.is_editable() {
            return false;
        }
        if let Some(e) = self.editing_state {
            if (e.row == row && e.col == col) || e.has_error {
                return false;
            }
        }
        self.editing_state = Some(EditingState { row, col, has_error: false });
        true
    }

    /// Stages the editor's text `value` for the cell being edited.
    ///
    /// - No cell edited: `Err(NoActiveEdit)`, nothing changes.
    /// - `value` equals the loaded text: any staged edit of the cell is
    ///   dropped and editing ends.
    /// - `value` fits the column's declared type: it is staged and editing ends.
    /// - Otherwise the edit is flagged as erroneous and `Err(InvalidData)`
    ///   explains why.
    pub fn stage_cell_edit(&mut self, value: String) -> (r: Result<(usize, usize), StageError>)
        requires
            old(self).editing_state matches Some(e) ==> e.col < old(self).columns@.len(),
        ensures
            final(self).columns == old(self).columns,
            final(self).original_rows == old(self).original_rows,
            final(self).pending_deletes == old(self).pending_deletes,
            final(self).pending_inserts == old(self).pending_inserts,
            final(self).source_table == old(self).source_table,
            final(self).primary_keys == old(self).primary_keys,
            final(self).limit == old(self).limit,
            final(self).offset == old(self).offset,
            final(self).total_rows == old(self).total_rows,
            final(self).is_loading == old(self).is_loading,
            match old(self).editing_state {
                None => r == Err::<(usize, usize), StageError>(StageError::NoActiveEdit)
                    && final(self).editing_state is None && final(self).pending_edits@ == old(
                    self,
                ).pending_edits@,
                Some(e) => {
                    let declared = old(self).columns@[e.col as int].type_text();
                    if value@ == old(self).original_text(e.row as int, e.col as int) {
                        &&& r == Ok::<(usize, usize), StageError>((e.row, e.col))
                        &&& final(self).pending_edits@ == remove_edit(
                            old(self).pending_edits@,
                            e.row,
                            e.col,
                        )
                        &&& final(self).editing_state is None
                    } else if sql_type_accepts(value@, declared) {
                        &&& r == Ok::<(usize, usize), StageError>((e.row, e.col))
                        &&& final(self).pending_edits@ == insert_edit(
                            old(self).pending_edits@,
                            e.row,
                            e.col,
                            value,
                        )
                        &&& final(self).editing_state is None
                    } else {
                        &&& r matches Err(StageError::InvalidData(m)) && m@ == "Giá trị '"@
                            + value@ + "' không đúng định dạng "@ + declared
                        &&& final(self).pending_edits@ == old(self).pending_edits@
                        &&& final(self).editing_state == Some(
                            EditingState { row: e.row, col: e.col, has_error: true },
                        )
                    }
                },
            },
    {
        let (r, c) = match self.editing_state {
            Some(s) => (s.row, s.col),
            None => return Err(StageError::NoActiveEdit),
        };
        let col_type = self.columns[c].declared_type_or_empty();
        let original_value = if r < self.original_rows.len() && c < self.original_rows[r].len() {
            self.original_rows[r][c].clone()
        } else {
            String::new()
        };
        if value == original_value {
            self.pending_edits.remove(r, c);
            self.editing_state = None;
            return Ok((r, c));
        }
        if validate_sql_type(value.as_str(), col_type.as_str()) {
            self.pending_edits.insert(r, c, value);
            self.editing_state = None;
            Ok((r, c))
        } else {
            self.editing_state = Some(EditingState { row: r, col: c, has_error: true });
            let mut msg = String::from_str("Giá trị '");
            msg.append(value.as_str());
            msg.append("' không đúng định dạng ");
            msg.append(col_type.as_str());
            Err(StageError::InvalidData(msg))
        }
    }

    /// Leaves the cell editor without staging anything; gives back the cell
    /// that was being edited, so that the view can select it again.
    pub fn cancel_edit(&mut self) -> (r: Option<(usize, usize)>)
        ensures
            r == (match old(self).editing_state {
                Some(e) => Some((e.row, e.col)),
                None => None,
            }),
            final(self).editing_state is None,
            final(self).pending_edits == old(self).pending_edits,
            final(self).pending_deletes == old(self).pending_deletes,
            final(self).pending_inserts == old(self).pending_inserts,
            final(self).columns == old(self).columns,
            final(self).original_rows == old(self).original_rows,
    {
        let r = match self.editing_state {
            Some(e) => Some((e.row, e.col)),
            None => None,
        };
        self.editing_state = None;
        r
    }

    /// How the view answers the selection of `(row, col)`: while a cell is
    /// edited the table selection is dropped, and the editor takes the focus
    /// back when the selected cell is the edited one and its value is valid.
    pub fn select_response(&self, row: usize, col: usize) -> (r: SelectResponse)
        ensures
            r.clear_selection == (self.editing_state is Some),
            r.refocus_editor == (self.editing_state matches Some(e) && e.row == row && e.col
                == col && !e.has_error),
    {
        match self.editing_state {
            Some(e) => SelectResponse {
                clear_selection: true,
                refocus_editor: e.row == row && e.col == col && !e.has_error,
            },
            None => SelectResponse { clear_selection: false, refocus_editor: false },
        }
    }

    /// The toolbar: refresh unless loading; adding and deleting rows when
    /// editable and not loading; committing and discarding when changes are
    /// staged and not loading.
    pub fn toolbar_state(&self) -> (r: ToolbarState)
        ensures
            r.refresh_enabled == !self.is_loading,
            r.add_row_enabled == (self.is_editable_spec() && !self.is_loading),
            r.delete_row_enabled == (self.is_editable_spec() && !self.is_loading),
            r.commit_enabled == (self.has_pending_changes_spec() && !self.is_loading),
            r.discard_enabled == (self.has_pending_changes_spec() && !self.is_loading),
            r.row_count == self.original_rows@.len(),
    {
        let editable = self.is_editable();
        let changes = self.has_pending_changes();
        let loading = self.is_loading;
        ToolbarState {
            refresh_enabled: !loading,
            add_row_enabled: editable && !loading,
            delete_row_enabled: editable && !loading,
            commit_enabled: changes && !loading,
            discard_enabled: changes && !loading,
            row_count: self.original_rows.len(),
        }
    }

    /// Replaces the loaded data and drops every staged change.
    pub fn set_data(&mut self, columns: Vec<Column>, rows: Vec<Vec<String>>)
        ensures
            final(self).columns == columns,
            final(self).original_rows == rows,
            final(self).pending_edits@.len() == 0,
            final(self).pending_deletes@.len() == 0,
            final(self).pending_inserts@.len() == 0,
            final(self).source_table == old(self).source_table,
            final(self).primary_keys == old(self).primary_keys,
            final(self).editing_state == old(self).editing_state,
    {
        self.columns = columns;
        self.original_rows = rows;
        self.pending_edits.clear();
        self.pending_deletes.clear();
        self.pending_inserts = Vec::new();
    }

    /// Records which table the rows come from and its primary key columns.
    pub fn set_metadata(&mut self, source_table: Option<String>, primary_keys: Vec<String>)
        ensures
            final(self).source_table == source_table,
            final(self).primary_keys == primary_keys,
            final(self).columns == old(self).columns,
            final(self).original_rows == old(self).original_rows,
            final(self).pending_edits == old(self).pending_edits,
            final(self).pending_deletes == old(self).pending_deletes,
            final(self).pending_inserts == old(self).pending_inserts,
            final(self).editing_state == old(self).editing_state,
    {
        self.source_table = source_table;
        self.primary_keys = primary_keys;
    }
}

} // verus!
