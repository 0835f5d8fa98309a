//! The state behind the data grid whose cells may hold SQL `NULL`: the loaded
//! rows, where they come from, and the edits, deletions and new rows staged on
//! top of them.
use vstd::prelude::*;
use crate::grid_error::StageError;
use crate::grid_fetch_state::GridFetchState;
use crate::pending::{
    all_edits, edit_keys_unique, has_edit, insert_edit, lemma_insert_keeps_all, lemma_insert_then_lookup,
    lemma_insert_then_remove, lemma_remove_keeps_all, lemma_remove_then_lookup, lookup_edit, CellEdit,
    remove_edit, toggle_row, PendingEdits, RowSet,
};
use crate::schema::Column;
use crate::state::ToolbarState;
use crate::grid_error::GridError;
use crate::text::{decimal, push_decimal};

verus! {

/// The cell being edited.
#[derive(Clone, Copy)]
pub struct EditingState {
    pub row: usize,
    pub col: usize,
    pub has_error: bool,
}

/// Where a grid's rows come from.
#[allow(inconsistent_fields)]
#[derive(Clone, Debug)]
pub enum GridDataSource {
    /// One table, read page by page; rows can be added.
    Table { source_table: String, limit: usize, offset: usize },
    /// An arbitrary query, read at once; it may name the table it reads.
    Query { source_table: Option<String>, query: String },
}

/// What a cell-selection event asks of the view while a cell is edited.
pub struct SelectResponse {
    /// Drop the table's own selection.
    pub clear_selection: bool,
    /// Give the focus back to the cell editor.
    pub refocus_editor: bool,
}

/// The text of an optional cell value.
pub open spec fn opt_text(v: Option<String>) -> Option<Seq<char>> {
    match v {
        Some(s) => Some(s@),
        None => None,
    }
}

/// The state behind the grid.
pub struct GridState {
    pub columns: Vec<Column>,
    pub original_rows: Vec<Vec<Option<String>>>,
    pub data_source: GridDataSource,
    pub primary_keys: Vec<String>,
    pub pending_edits: PendingEdits<Option<String>>,
    pub pending_deletes: RowSet,
    pub pending_inserts: Vec<Vec<Option<String>>>,
    pub total_rows: Option<usize>,
    pub fetch_state: GridFetchState,
    pub editing_state: Option<EditingState>,
}

impl GridState {
    /// Number of loaded rows.
    pub open spec fn original_len_spec(&self) -> int {
        self.original_rows@.len() as int
    }

    /// The loaded value of a cell; `None` for SQL `NULL` and outside the
    /// loaded rows.
    pub open spec fn original_cell(&self, row: int, col: int) -> Option<Seq<char>> {
        if 0 <= row < self.original_rows@.len() && 0 <= col < self.original_rows@[row]@.len() {
            opt_text(self.original_rows@[row]@[col])
        } else {
            None
        }
    }

    /// A staged edit is on a loaded row and differs from that cell's loaded
    /// value.
    pub open spec fn edit_is_canonical(&self, e: CellEdit<Option<String>>) -> bool {
        &&& (e.row as int) < self.original_rows@.len()
        &&& opt_text(e.value) != self.original_cell(e.row as int, e.col as int)
    }

    /// Every staged edit is on a loaded row and differs from the loaded value.
    pub open spec fn edits_canonical(&self) -> bool {
        forall|i: int|
            0 <= i < self.pending_edits@.len() ==> self.edit_is_canonical(
                #[trigger] self.pending_edits@[i],
            )
    }

    /// The value of a cell of the new row at position `ix`; `None` for SQL
    /// `NULL` and outside the new rows.
    pub open spec fn inserted_cell(&self, ix: int, col: int) -> Option<Seq<char>> {
        if 0 <= ix < self.pending_inserts@.len() && 0 <= col < self.pending_inserts@[ix]@.len() {
            opt_text(self.pending_inserts@[ix]@[col])
        } else {
            None
        }
    }

    /// The value shown in a cell: a staged edit first, then the new row's
    /// value for rows past the loaded ones, then the loaded value.
    pub open spec fn cell_value_spec(&self, row: int, col: int) -> Option<Seq<char>> {
        match lookup_edit(self.pending_edits@, row as usize, col as usize) {
            Some(v) => opt_text(v),
            None => if row >= self.original_len_spec() {
                self.inserted_cell(row - self.original_len_spec(), col)
            } else {
                self.original_cell(row, col)
            },
        }
    }

    /// The source table of the grid, if known.
    pub open spec fn source_table_spec(&self) -> Option<Seq<char>> {
        match self.data_source {
            GridDataSource::Table { source_table, .. } => Some(source_table@),
            GridDataSource::Query { source_table, .. } => opt_text(source_table),
        }
    }

    /// The grid may be edited: it knows its source table and its primary key.
    pub open spec fn can_edit_spec(&self) -> bool {
        self.source_table_spec() is Some && self.primary_keys@.len() > 0
    }

    pub open spec fn has_pending_changes_spec(&self) -> bool {
        self.pending_edits@.len() > 0 || self.pending_deletes@.len() > 0
            || self.pending_inserts@.len() > 0
    }

    /// A grid over `data_source` with nothing loaded, nothing staged and no
    /// fetch started.
    pub fn new(data_source: GridDataSource) -> (r: Self)
        ensures
            r.columns@.len() == 0,
            r.original_rows@.len() == 0,
            r.data_source == data_source,
            r.primary_keys@.len() == 0,
            r.pending_edits@.len() == 0,
            r.pending_deletes@.len() == 0,
            r.pending_inserts@.len() == 0,
            r.total_rows is None,
            r.fetch_state is Idle,
            r.editing_state is None,
    {
        GridState {
            columns: Vec::new(),
            original_rows: Vec::new(),
            data_source,
            primary_keys: Vec::new(),
            pending_edits: PendingEdits::new(),
            pending_deletes: RowSet::new(),
            pending_inserts: Vec::new(),
            total_rows: None,
            fetch_state: GridFetchState::Idle,
            editing_state: None,
        }
    }

    /// Number of loaded rows (new rows not counted).
    pub fn original_len(&self) -> (r: usize)
        ensures
            r == self.original_rows@.len(),
    {
        self.original_rows.len()
    }

    /// Number of rows shown: loaded rows, then new rows.
    pub fn total_len(&self) -> (r: usize)
        requires
            self.original_rows@.len() + self.pending_inserts@.len() <= usize::MAX,
        ensures
            r == self.original_rows@.len() + self.pending_inserts@.len(),
    {
        self.original_rows.len() + self.pending_inserts.len()
    }

    /// The position among the new rows of the shown row `row_ix`.
    pub fn insert_index(&self, row_ix: usize) -> (r: usize)
        requires
            row_ix >= self.original_rows@.len(),
        ensures
            r == row_ix - self.original_rows@.len(),
    {
        row_ix - self.original_len()
    }

    /// The source table, if known.
    pub fn source_table(&self) -> (r: Option<String>)
        ensures
            opt_text(r) == self.source_table_spec(),
    {
        match &self.data_source {
            GridDataSource::Table { source_table, .. } => Some(source_table.clone()),
            GridDataSource::Query { source_table, .. } => match source_table {
                Some(t) => Some(t.clone()),
                None => None,
            },
        }
    }

    /// Rows come page by page (a table grid).
    pub fn can_paginate(&self) -> (r: bool)
        ensures
            r == (self.data_source is Table),
    {
        matches!(self.data_source, GridDataSource::Table { .. })
    }

    /// New rows can be added (a table grid).
    pub fn can_insert(&self) -> (r: bool)
        ensures
            r == (self.data_source is Table),
    {
        matches!(self.data_source, GridDataSource::Table { .. })
    }

    /// The grid can be edited: it knows its source table and primary key.
    pub fn can_edit(&self) -> (r: bool)
        ensures
            r == self.can_edit_spec(),
    {
        match &self.data_source {
            GridDataSource::Table { .. } => self.primary_keys.len() > 0,
            GridDataSource::Query { source_table: Some(_), .. } => self.primary_keys.len() > 0,
            GridDataSource::Query { source_table: None, .. } => false,
        }
    }

    /// The shown row `row_ix` is a loaded row marked for deletion.
    pub fn is_deleted_row(&self, row_ix: usize) -> (r: bool)
        ensures
            r == (row_ix < self.original_rows@.len() && self.pending_deletes@.contains(row_ix)),
    {
        row_ix < self.original_rows.len() && self.pending_deletes.contains(row_ix)
    }

    /// The shown row `row_ix` is a new row.
    pub fn is_inserted_row(&self, row_ix: usize) -> (r: bool)
        ensures
            r == (row_ix >= self.original_rows@.len()),
    {
        row_ix >= self.original_rows.len()
    }

    /// Some change is staged.
    pub fn has_pending_changes(&self) -> (r: bool)
        ensures
            r == self.has_pending_changes_spec(),
    {
        !self.pending_edits.is_empty() || !self.pending_deletes.is_empty()
            || self.pending_inserts.len() > 0
    }

    /// The value shown in a cell (see `cell_value_spec`).
    pub fn cell_value(&self, row_ix: usize, col_ix: usize) -> (r: Option<String>)
        ensures
            opt_text(r) == self.cell_value_spec(row_ix as int, col_ix as int),
    {
        if let Some(editing_value) = self.pending_edits.get(row_ix, col_ix) {
            return match editing_value {
                Some(s) => Some(s.clone()),
                None => None,
            };
        }
        if self.is_inserted_row(row_ix) {
            let ix = row_ix - self.original_len();
            if ix < self.pending_inserts.len() && col_ix < self.pending_inserts[ix].len() {
                return match &self.pending_inserts[ix][col_ix] {
                    Some(s) => Some(s.clone()),
                    None => None,
                };
            }
            return None;
        }
        self.cell_original_value(row_ix, col_ix)
    }

    /// The loaded value of a cell, staged edits not counted.
    pub fn cell_original_value(&self, row_ix: usize, col_ix: usize) -> (r: Option<String>)
        ensures
            opt_text(r) == self.original_cell(row_ix as int, col_ix as int),
    {
        if row_ix < self.original_rows.len() && col_ix < self.original_rows[row_ix].len() {
            match &self.original_rows[row_ix][col_ix] {
                Some(s) => Some(s.clone()),
                None => None,
            }
        } else {
            None
        }
    }

    /// Starts editing `(row, col)` and returns the text the editor starts
    /// with (the shown value, or empty for `NULL`). Refused (`None`, nothing
    /// changes) when the grid cannot be edited, when that cell is already being
    /// edited, or when the cell being edited holds an invalid value.
    pub fn begin_edit(&mut self, row: usize, col: usize) -> (r: Option<String>)
        ensures
            (r is Some) == (old(self).can_edit_spec() && !(old(self).editing_state matches Some(
                e,
            ) && ((e.row == row && e.col == col) || e.has_error))),
            r matches Some(t) ==> t@ == match old(self).cell_value_spec(row as int, col as int) {
                Some(v) => v,
                None => Seq::<char>::empty(),
            },
            r is Some ==> final(self).editing_state == Some(
                EditingState { row, col, has_error: false },
            ),
            r is None ==> *final(self) == *old(self),
            final(self).columns == old(self).columns,
            final(self).original_rows == old(self).original_rows,
            final(self).pending_edits == old(self).pending_edits,
            final(self).pending_deletes == old(self).pending_deletes,
            final(self).pending_inserts == old(self).pending_inserts,
            final(self).data_source == old(self).data_source,
            final(self).primary_keys == old(self).primary_keys,
    {
        if !self.can_edit() {
            return None;
        }
        if let Some(e) = self.editing_state {
            if (e.row == row && e.col == col) || e.has_error {
                return None;
            }
        }
        let current = match self.cell_value(row, col) {
            Some(v) => v,
            None => String::new(),
        };
        self.editing_state = Some(EditingState { row, col, has_error: false });
        Some(current)
    }

    /// Stages the editor's `text` for the cell being edited. The column's
    /// type category decides two things that the caller reports:
    /// `empty_allowed` (an empty text is an empty string rather than `NULL`)
    /// and `text_valid` (a non-empty text fits the type).
    ///
    /// - No cell edited: `Err(NoActiveEdit)`, nothing changes.
    /// - A non-empty invalid text: the edit is flagged as erroneous and
    ///   `Err(InvalidData)` explains why.
    /// - Otherwise the new value is `Some(text)`, or for an empty text `Some("")`
    ///   when allowed and `None` (`NULL`) when not. In a new row it replaces the
    ///   cell; in a loaded row it is staged, or any staged edit is dropped when
    ///   it equals the loaded value. Editing ends.
    pub fn stage_cell_edit(&mut self, text: String, empty_allowed: bool, text_valid: bool) -> (r:
        Result<(usize, usize), StageError>)
        requires
            old(self).editing_state matches Some(e) ==> e.col < old(self).columns@.len(),
        ensures
            final(self).columns == old(self).columns,
            final(self).original_rows == old(self).original_rows,
            final(self).pending_deletes == old(self).pending_deletes,
            final(self).data_source == old(self).data_source,
            final(self).primary_keys == old(self).primary_keys,
            final(self).total_rows == old(self).total_rows,
            final(self).fetch_state == old(self).fetch_state,
            old(self).edits_canonical() ==> final(self).edits_canonical(),
            match old(self).editing_state {
                None => r == Err::<(usize, usize), StageError>(StageError::NoActiveEdit)
                    && final(self).editing_state is None && final(self).pending_edits@ == old(
                    self,
                ).pending_edits@ && final(self).pending_inserts == old(self).pending_inserts,
                Some(e) => {
                    let declared = old(self).columns@[e.col as int].type_text();
                    let new_value: Option<Seq<char>> = if text@.len() == 0 {
                        if empty_allowed {
                            Some(Seq::<char>::empty())
                        } else {
                            None
                        }
                    } else {
                        Some(text@)
                    };
                    if text@.len() > 0 && !text_valid {
                        &&& r matches Err(StageError::InvalidData(m)) && m@ == "Giá trị '"@
                            + text@ + "' không đúng định dạng "@ + declared
                        &&& final(self).pending_edits@ == old(self).pending_edits@
                        &&& final(self).pending_inserts == old(self).pending_inserts
                        &&& final(self).editing_state == Some(
                            EditingState { row: e.row, col: e.col, has_error: true },
                        )
                    } else {
                        &&& r == Ok::<(usize, usize), StageError>((e.row, e.col))
                        &&& final(self).editing_state is None
                        &&& if e.row >= old(self).original_rows@.len() {
                            let ix = e.row - old(self).original_rows@.len();
                            &&& final(self).pending_edits@ == old(self).pending_edits@
                            &&& final(self).pending_inserts@.len()
                                == old(self).pending_inserts@.len()
                            &&& forall|i: int|
                                0 <= i < old(self).pending_inserts@.len() && i != ix
                                    ==> #[trigger] final(self).pending_inserts@[i] == old(
                                    self,
                                ).pending_inserts@[i]
                            &&& (0 <= ix < old(self).pending_inserts@.len()
                                && e.col < old(self).pending_inserts@[ix]@.len()) ==> {
                                &&& final(self).pending_inserts@[ix]@.len() == old(
                                    self,
                                ).pending_inserts@[ix]@.len()
                                &&& opt_text(final(self).pending_inserts@[ix]@[e.col as int])
                                    == new_value
                                &&& forall|j: int|
                                    0 <= j < old(self).pending_inserts@[ix]@.len() && j
                                        != e.col ==> #[trigger] final(self).pending_inserts@[ix]@[j]
                                        == old(self).pending_inserts@[ix]@[j]
                            }
                            &&& !(0 <= ix < old(self).pending_inserts@.len() && e.col < old(
                                self,
                            ).pending_inserts@[ix]@.len()) ==> final(self).pending_inserts
                                == old(self).pending_inserts
                        } else {
                            &&& final(self).pending_inserts == old(self).pending_inserts
                            &&& if new_value == old(self).original_cell(e.row as int, e.col as int) {
                                final(self).pending_edits@ == remove_edit(
                                    old(self).pending_edits@,
                                    e.row,
                                    e.col,
                                )
                            } else {
                                exists|v: Option<String>|
                                    opt_text(v) == new_value && final(self).pending_edits@
                                        == insert_edit(old(self).pending_edits@, e.row, e.col, v)
                            }
                        }
                    }
                },
            },
    {
        let ghost before = *self;
        let (r, c) = match self.editing_state {
            Some(s) => (s.row, s.col),
            None => return Err(StageError::NoActiveEdit),
        };
        let col_type = self.columns[c].declared_type_or_empty();
        let new_value: Option<String> = if text.as_str().is_empty() {
            if empty_allowed {
                Some(String::new())
            } else {
                None
            }
        } else {
            if !text_valid {
                self.editing_state = Some(EditingState { row: r, col: c, has_error: true });
                let mut msg = String::from_str("Giá trị '");
                msg.append(text.as_str());
                msg.append("' không đúng định dạng ");
                msg.append(col_type.as_str());
                return Err(StageError::InvalidData(msg));
            }
            Some(text)
        };
        let ghost nv = new_value;
        assert(opt_text(nv) == (if text@.len() == 0 {
            if empty_allowed {
                Some(Seq::<char>::empty())
            } else {
                None
            }
        } else {
            Some(text@)
        }));
        if self.is_inserted_row(r) {
            let ix = self.insert_index(r);
            if ix < self.pending_inserts.len() && c < self.pending_inserts[ix].len() {
                let mut inserts: Vec<Vec<Option<String>>> = Vec::new();
                std::mem::swap(&mut inserts, &mut self.pending_inserts);
                let mut row_cells: Vec<Option<String>> = Vec::new();
                std::mem::swap(&mut row_cells, &mut inserts[ix]);
                let ghost old_row = row_cells@;
                row_cells.set(c, new_value);
                inserts.set(ix, row_cells);
                self.pending_inserts = inserts;
                proof {
                    assert(old_row == old(self).pending_inserts@[ix as int]@);
                    assert(self.pending_inserts@[ix as int]@[c as int] == nv);
                }
            }
        } else {
            let original = self.cell_original_value(r, c);
            let same = match &new_value {
                Some(a) => match &original {
                    Some(b) => a.eq(b),
                    None => false,
                },
                None => original.is_none(),
            };
            proof {
                assert(same == (opt_text(nv) == opt_text(original)));
            }
            if same {
                self.pending_edits.remove(r, c);
                proof {
                    if before.edits_canonical() {
                        lemma_remove_keeps_canonical(before, *self, r, c);
                    }
                }
            } else {
                self.pending_edits.insert(r, c, new_value);
                assert(opt_text(nv) == opt_text(nv) && self.pending_edits@ == insert_edit(
                    old(self).pending_edits@,
                    r,
                    c,
                    nv,
                ));
                proof {
                    if before.edits_canonical() {
                        lemma_insert_keeps_canonical(before, *self, r, c, nv);
                    }
                }
            }
        }
        self.editing_state = None;
        Ok((r, c))
    }

    /// Marks the loaded row `row` for deletion, or unmarks it if it was
    /// marked; a new row is dropped instead.
    pub fn toggle_delete_row(&mut self, row: usize)
        requires
            row >= old(self).original_rows@.len() ==> row - old(self).original_rows@.len() < old(
                self,
            ).pending_inserts@.len(),
        ensures
            row >= old(self).original_rows@.len() ==> final(self).pending_inserts@ == old(
                self,
            ).pending_inserts@.remove(row - old(self).original_rows@.len())
                && final(self).pending_deletes@ == old(self).pending_deletes@,
            row < old(self).original_rows@.len() ==> final(self).pending_inserts == old(
                self,
            ).pending_inserts && final(self).pending_deletes@ == toggle_row(
                old(self).pending_deletes@,
                row,
            ),
            final(self).pending_edits == old(self).pending_edits,
            final(self).original_rows == old(self).original_rows,
            final(self).columns == old(self).columns,
            final(self).editing_state == old(self).editing_state,
            final(self).data_source == old(self).data_source,
            final(self).primary_keys == old(self).primary_keys,
            final(self).total_rows == old(self).total_rows,
            final(self).fetch_state == old(self).fetch_state,
    {
        if self.is_inserted_row(row) {
            let ix = self.insert_index(row);
            self.pending_inserts.remove(ix);
        } else {
            self.pending_deletes.toggle(row);
        }
    }

    /// Appends a new row of `NULL`s, one per column; nothing happens when there
    /// are no columns.
    pub fn add_row(&mut self)
        ensures
            old(self).columns@.len() == 0 ==> final(self).pending_inserts == old(
                self,
            ).pending_inserts,
            old(self).columns@.len() > 0 ==> final(self).pending_inserts@.len() == old(
                self,
            ).pending_inserts@.len() + 1 && final(self).pending_inserts@.drop_last() == old(
                self,
            ).pending_inserts@ && final(self).pending_inserts@.last()@.len()
                == old(self).columns@.len() && forall|j: int|
                0 <= j < old(self).columns@.len()
                    ==> #[trigger] final(self).pending_inserts@.last()@[j] is None,
            final(self).columns == old(self).columns,
            final(self).original_rows == old(self).original_rows,
            final(self).pending_edits == old(self).pending_edits,
            final(self).pending_deletes == old(self).pending_deletes,
            final(self).editing_state == old(self).editing_state,
            final(self).data_source == old(self).data_source,
            final(self).primary_keys == old(self).primary_keys,
            final(self).total_rows == old(self).total_rows,
            final(self).fetch_state == old(self).fetch_state,
    {
        let col_count = self.columns.len();
        if col_count == 0 {
            return ;
        }
        let mut row: Vec<Option<String>> = Vec::new();
        let mut i: usize = 0;
        while i < col_count
            invariant
                i <= col_count,
                row@.len() == i,
                forall|j: int| 0 <= j < i ==> #[trigger] row@[j] is None,
            decreases col_count - i,
        {
            row.push(None);
            i += 1;
        }
        self.pending_inserts.push(row);
        assert(self.pending_inserts@.drop_last() =~= old(self).pending_inserts@);
    }

    /// Drops every staged change and leaves the editor.
    pub fn discard_changes(&mut self)
        ensures
            final(self).pending_edits@.len() == 0,
            final(self).pending_deletes@.len() == 0,
            final(self).pending_inserts@.len() == 0,
            final(self).editing_state is None,
            final(self).columns == old(self).columns,
            final(self).original_rows == old(self).original_rows,
            final(self).data_source == old(self).data_source,
            final(self).primary_keys == old(self).primary_keys,
    {
        self.pending_edits.clear();
        self.pending_deletes.clear();
        self.pending_inserts = Vec::new();
        self.editing_state = None;
    }

    /// Leaves the cell editor without staging anything; gives back the cell
    /// that was being edited, so that the view can select it again.
    pub fn cancel_edit(&mut self) -> (r: Option<(usize, usize)>)
        ensures
            r == (match old(self).editing_state {
                Some(e) => Some((e.row, e.col)),
                None => None,
            }),
            final(self).editing_state is None,
            final(self).pending_edits == old(self).pending_edits,
            final(self).pending_deletes == old(self).pending_deletes,
            final(self).pending_inserts == old(self).pending_inserts,
            final(self).columns == old(self).columns,
            final(self).original_rows == old(self).original_rows,
    {
        let r = match self.editing_state {
            Some(e) => Some((e.row, e.col)),
            None => None,
        };
        self.editing_state = None;
        r
    }

    /// How the view answers the selection of `(row, col)`: while a cell is
    /// edited the table selection is dropped, and the editor takes the focus
    /// back when the selected cell is the edited one and its value is valid.
    pub fn select_response(&self, row: usize, col: usize) -> (r: SelectResponse)
        ensures
            r.clear_selection == (self.editing_state is Some),
            r.refocus_editor == (self.editing_state matches Some(e) && e.row == row && e.col
                == col && !e.has_error),
    {
        match self.editing_state {
            Some(e) => SelectResponse {
                clear_selection: true,
                refocus_editor: e.row == row && e.col == col && !e.has_error,
            },
            None => SelectResponse { clear_selection: false, refocus_editor: false },
        }
    }

    /// The toolbar: refresh unless loading; adding and deleting rows when
    /// editable and not loading; committing and discarding when changes are
    /// staged and not loading.
    pub fn toolbar_state(&self) -> (r: ToolbarState)
        ensures
            r.refresh_enabled == !(self.fetch_state is Loading),
            r.add_row_enabled == (self.can_edit_spec() && !(self.fetch_state is Loading)),
            r.delete_row_enabled == (self.can_edit_spec() && !(self.fetch_state is Loading)),
            r.commit_enabled == (self.has_pending_changes_spec() && !(self.fetch_state is Loading)),
            r.discard_enabled == (self.has_pending_changes_spec() && !(self.fetch_state is Loading)),
            r.row_count == self.original_rows@.len(),
    {
        let editable = self.can_edit();
        let changes = self.has_pending_changes();
        let loading = self.fetch_state.is_loading();
        ToolbarState {
            refresh_enabled: !loading,
            add_row_enabled: editable && !loading,
            delete_row_enabled: editable && !loading,
            commit_enabled: changes && !loading,
            discard_enabled: changes && !loading,
            row_count: self.original_rows.len(),
        }
    }

    /// The row count shown at the end of the toolbar: `Rows: ` and the
    /// number of loaded rows.
    pub fn rows_label(&self) -> (r: String)
        ensures
            r@ == "Rows: "@ + decimal(self.original_rows@.len()),
    {
        let mut t = String::from_str("Rows: ");
        push_decimal(&mut t, self.original_rows.len() as u64);
        t
    }

    /// The message shown in place of the table when the grid could not be
    /// loaded at all; `None` when the table is shown.
    pub fn fatal_error_message(&self) -> (r: Option<String>)
        ensures
            match self.fetch_state {
                GridFetchState::Error(GridError::Fatal(m)) => r matches Some(t) && t@ == m@,
                _ => r is None,
            },
    {
        match &self.fetch_state {
            GridFetchState::Error(e) => if e.is_fatal() {
                Some(e.message())
            } else {
                None
            },
            _ => None,
        }
    }

    /// Replaces the loaded data and drops every staged change.
    pub fn set_data(&mut self, columns: Vec<Column>, rows: Vec<Vec<Option<String>>>)
        ensures
            final(self).columns == columns,
            final(self).original_rows == rows,
            final(self).pending_edits@.len() == 0,
            final(self).pending_deletes@.len() == 0,
            final(self).pending_inserts@.len() == 0,
            final(self).data_source == old(self).data_source,
            final(self).primary_keys == old(self).primary_keys,
            final(self).editing_state == old(self).editing_state,
    {
        self.original_rows = rows;
        self.columns = columns;
        self.pending_edits.clear();
        self.pending_deletes.clear();
        self.pending_inserts = Vec::new();
    }
}

/// Law: a value staged for a cell is what the cell shows, and every other
/// cell shows what it showed before.
pub proof fn lemma_staged_value_is_shown(
    s: GridState,
    t: GridState,
    row: usize,
    col: usize,
    v: Option<String>,
    r2: usize,
    c2: usize,
)
    requires
        edit_keys_unique(s.pending_edits@),
        t.pending_edits@ == insert_edit(s.pending_edits@, row, col, v),
        t.original_rows == s.original_rows,
        t.pending_inserts == s.pending_inserts,
    ensures
        t.cell_value_spec(row as int, col as int) == opt_text(v),
        !(r2 == row && c2 == col) ==> t.cell_value_spec(r2 as int, c2 as int)
            == s.cell_value_spec(r2 as int, c2 as int),
{
    lemma_insert_then_lookup(s.pending_edits@, row, col, v, r2, c2);
}

/// Law: once the staged edit of a cell is dropped (as staging its loaded
/// value does), the cell shows its loaded value again.
pub proof fn lemma_dropped_edit_shows_loaded(s: GridState, t: GridState, row: usize, col: usize)
    requires
        edit_keys_unique(s.pending_edits@),
        t.pending_edits@ == remove_edit(s.pending_edits@, row, col),
        t.original_rows == s.original_rows,
        t.pending_inserts == s.pending_inserts,
        (row as int) < s.original_rows@.len(),
    ensures
        t.cell_value_spec(row as int, col as int) == s.original_cell(row as int, col as int),
{
    lemma_remove_then_lookup(s.pending_edits@, row, col, row, col);
}

/// Law: dropping the row just added gives back the new rows as they were.
pub proof fn lemma_add_then_drop_row(inserts: Seq<Vec<Option<String>>>, row: Vec<Option<String>>)
    ensures
        inserts.push(row).remove(inserts.len() as int) == inserts,
{
    assert(inserts.push(row).remove(inserts.len() as int) =~= inserts);
}

/// The row a delete acts on: the selected row, else the row of the selected
/// cell, else none.
pub fn delete_target(selected_row: Option<usize>, selected_cell: Option<(usize, usize)>) -> (r: Option<usize>)
    ensures
        r == match (selected_row, selected_cell) {
            (Some(row), _) => Some(row),
            (None, Some((row, _))) => Some(row),
            (None, None) => None,
        },
{
    match selected_row {
        Some(row) => Some(row),
        None => match selected_cell {
            Some((row, _)) => Some(row),
            None => None,
        },
    }
}

/// Law: staging, for a loaded cell, a value other than its loaded value keeps
/// every staged edit on a loaded row and different from its loaded value.
pub proof fn lemma_insert_keeps_canonical(s: GridState, t: GridState, row: usize, col: usize, v: Option<String>)
    requires
        s.edits_canonical(),
        t.original_rows == s.original_rows,
        t.pending_edits@ == insert_edit(s.pending_edits@, row, col, v),
        (row as int) < s.original_rows@.len(),
        opt_text(v) != s.original_cell(row as int, col as int),
    ensures
        t.edits_canonical(),
{
    let p = |e: CellEdit<Option<String>>| s.edit_is_canonical(e);
    assert(all_edits(s.pending_edits@, p));
    assert(p(CellEdit { row, col, value: v }));
    lemma_insert_keeps_all(s.pending_edits@, row, col, v, p);
    assert forall|i: int| 0 <= i < t.pending_edits@.len() implies t.edit_is_canonical(
        #[trigger] t.pending_edits@[i],
    ) by {
        assert(p(t.pending_edits@[i]));
    }
}

/// Law: dropping a cell's staged edit keeps every staged edit on a loaded row
/// and different from its loaded value.
pub proof fn lemma_remove_keeps_canonical(s: GridState, t: GridState, row: usize, col: usize)
    requires
        s.edits_canonical(),
        t.original_rows == s.original_rows,
        t.pending_edits@ == remove_edit(s.pending_edits@, row, col),
    ensures
        t.edits_canonical(),
{
    let p = |e: CellEdit<Option<String>>| s.edit_is_canonical(e);
    assert(all_edits(s.pending_edits@, p));
    lemma_remove_keeps_all(s.pending_edits@, row, col, p);
    assert forall|i: int| 0 <= i < t.pending_edits@.len() implies t.edit_is_canonical(
        #[trigger] t.pending_edits@[i],
    ) by {
        assert(p(t.pending_edits@[i]));
    }
}

/// Law: staging a value for a loaded cell and then staging its loaded value
/// again (which drops the cell's edit, see `stage_cell_edit`) leaves the
/// staged edits as they were without that cell; when the cell had no edit
/// before, exactly as they were.
pub proof fn lemma_stage_then_restore(s: GridState, t: GridState, u: GridState, row: usize, col: usize, v: Option<String>)
    requires
        edit_keys_unique(s.pending_edits@),
        t.pending_edits@ == insert_edit(s.pending_edits@, row, col, v),
        u.pending_edits@ == remove_edit(t.pending_edits@, row, col),
    ensures
        u.pending_edits@ == remove_edit(s.pending_edits@, row, col),
        !has_edit(s.pending_edits@, row, col) ==> u.pending_edits@ == s.pending_edits@,
{
    lemma_insert_then_remove(s.pending_edits@, row, col, v);
}

/// Law: in a grid whose staged edits all lie on loaded rows (as staging keeps
/// them, see `edits_canonical`), each cell of a new row shows the value that
/// new row holds.
pub proof fn lemma_new_row_cell_shows_its_value(st: GridState, ix: int, col: int)
    requires
        st.edits_canonical(),
        0 <= ix < st.pending_inserts@.len(),
        0 <= col < st.pending_inserts@[ix]@.len(),
        st.original_rows@.len() + ix <= usize::MAX,
    ensures
        st.cell_value_spec(st.original_rows@.len() + ix, col) == opt_text(st.pending_inserts@[ix]@[col]),
{
    let row = st.original_rows@.len() + ix;
    if has_edit(st.pending_edits@, row as usize, col as usize) {
        let k = choose|i: int|
            0 <= i < st.pending_edits@.len() && (#[trigger] st.pending_edits@[i]).row == row as usize
                && st.pending_edits@[i].col == col as usize;
        assert(st.edit_is_canonical(st.pending_edits@[k]));
    }
}

} // verus!
