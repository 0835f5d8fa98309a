//! What the data grid's table shows: column titles, row and cell counts, cell
//! texts and how each row and cell is drawn.
use vstd::prelude::*;
use crate::changes::{lemma_join_step, seq_join};
use crate::grid_state::GridState;
use crate::pending::has_edit;
use crate::schema::Column;

verus! {

/// How a cell is drawn.
pub enum CellDisplay {
    /// The cell is being edited; the editor is shown, marked when invalid.
    Editor { has_error: bool },
    /// An edit set the cell to `NULL`.
    EditedNull,
    /// An edit set the cell to this text.
    EditedValue(String),
    /// The cell holds `NULL`.
    Null,
    /// The cell holds this text.
    Value(String),
}

/// How a row is drawn.
pub struct RowStyle {
    /// A new row.
    pub inserted: bool,
    /// A loaded row marked for deletion.
    pub deleted: bool,
    /// An odd row, drawn striped.
    pub stripe: bool,
}

/// The grid's state with the column titles the table shows.
pub struct GridDelegate {
    pub state: GridState,
    pub cached_columns: Vec<String>,
}

/// The column names, in order.
pub open spec fn column_names(cols: Seq<Column>) -> Seq<Seq<char>> {
    cols.map_values(|c: Column| c.name@)
}

impl GridDelegate {
    /// The text a cell shows when copied: its value, or `NULL`.
    pub open spec fn cell_text_spec(&self, row: int, col: int) -> Seq<char> {
        match self.state.cell_value_spec(row, col) {
            Some(v) => v,
            None => "NULL"@,
        }
    }

    /// A delegate over `state`, titling each column by its name.
    pub fn new(state: GridState) -> (r: Self)
        ensures
            r.state == state,
            r.cached_columns@.map_values(|s: String| s@) == column_names(state.columns@),
    {
        let mut cached: Vec<String> = Vec::new();
        let mut i: usize = 0;
        while i < state.columns.len()
            invariant
                i <= state.columns@.len(),
                cached@.len() == i,
                forall|j: int| 0 <= j < i ==> (#[trigger] cached@[j])@ == state.columns@[j].name@,
            decreases state.columns.len() - i,
        {
            cached.push(state.columns[i].name_clone());
            i += 1;
        }
        assert(cached@.map_values(|s: String| s@) =~= column_names(state.columns@));
        GridDelegate { state, cached_columns: cached }
    }

    pub fn columns_count(&self) -> (r: usize)
        ensures
            r == self.cached_columns@.len(),
    {
        self.cached_columns.len()
    }

    /// Loaded rows, then new rows.
    pub fn rows_count(&self) -> (r: usize)
        requires
            self.state.original_rows@.len() + self.state.pending_inserts@.len() <= usize::MAX,
        ensures
            r == self.state.original_rows@.len() + self.state.pending_inserts@.len(),
    {
        self.state.total_len()
    }

    /// The title of column `col_ix`.
    pub fn column(&self, col_ix: usize) -> (r: String)
        requires
            col_ix < self.cached_columns@.len(),
        ensures
            r@ == self.cached_columns@[col_ix as int]@,
    {
        self.cached_columns[col_ix].clone()
    }

    /// The text of a cell: its value, or `NULL` when it holds none.
    pub fn cell_text(&self, row_ix: usize, col_ix: usize) -> (r: String)
        ensures
            r@ == self.cell_text_spec(row_ix as int, col_ix as int),
    {
        match self.state.cell_value(row_ix, col_ix) {
            Some(v) => v,
            None => String::from_str("NULL"),
        }
    }

    /// The text of a whole row as copied: the cell texts of every column,
    /// separated by tabs.
    pub fn row_text(&self, row_ix: usize) -> (r: String)
        ensures
            r@ == seq_join(
                Seq::new(
                    self.cached_columns@.len(),
                    |c: int| self.cell_text_spec(row_ix as int, c),
                ),
                "\t"@,
            ),
    {
        let n = self.columns_count();
        let ghost items = Seq::new(n as nat, |c: int| self.cell_text_spec(row_ix as int, c));
        let mut out = String::new();
        let mut c: usize = 0;
        while c < n
            invariant
                c <= n,
                n == self.cached_columns@.len(),
                items == Seq::new(n as nat, |c: int| self.cell_text_spec(row_ix as int, c)),
                out@ == seq_join(items.take(c as int), "\t"@),
            decreases n - c,
        {
            proof {
                lemma_join_step(items, "\t"@, c as int);
            }
            let ghost before = out@;
            if c > 0 {
                out.append("\t");
            }
            let t = self.cell_text(row_ix, c);
            out.append(t.as_str());
            proof {
                if c > 0 {
                    assert(out@ =~= before + "\t"@ + items[c as int]);
                } else {
                    assert(out@ =~= before + items[c as int]);
                }
            }
            c += 1;
        }
        assert(items.take(n as int) =~= items);
        out
    }

    /// What copying the selection puts on the clipboard: the selected row's
    /// text when a row is selected, else the selected cell's text, else
    /// nothing.
    pub fn copy_selection(&self, selected_row: Option<usize>, selected_cell: Option<(usize, usize)>) -> (r: Option<String>)
        ensures
            match (selected_row, selected_cell) {
                (Some(row), _) => r matches Some(t) && t@ == seq_join(
                    Seq::new(
                        self.cached_columns@.len(),
                        |c: int| self.cell_text_spec(row as int, c),
                    ),
                    "\t"@,
                ),
                (None, Some((row, col))) => r matches Some(t) && t@ == self.cell_text_spec(row as int, col as int),
                (None, None) => r is None,
            },
    {
        match selected_row {
            Some(row) => Some(self.row_text(row)),
            None => match selected_cell {
                Some((row, col)) => Some(self.cell_text(row, col)),
                None => None,
            },
        }
    }

    /// How row `row_ix` is drawn.
    pub fn row_style(&self, row_ix: usize) -> (r: RowStyle)
        ensures
            r.inserted == (row_ix >= self.state.original_rows@.len()),
            r.deleted == (row_ix < self.state.original_rows@.len()
                && self.state.pending_deletes@.contains(row_ix)),
            r.stripe == (row_ix % 2 != 0),
    {
        RowStyle {
            inserted: self.state.is_inserted_row(row_ix),
            deleted: self.state.is_deleted_row(row_ix),
            stripe: row_ix % 2 != 0,
        }
    }

    /// How cell `(row_ix, col_ix)` is drawn: the editor when it is being
    /// edited, else its value (or `NULL`), marked as edited when an edit is
    /// staged for it.
    pub fn cell_display(&self, row_ix: usize, col_ix: usize) -> (r: CellDisplay)
        ensures
            match self.state.editing_state {
                Some(e) if e.row == row_ix && e.col == col_ix => r == CellDisplay::Editor {
                    has_error: e.has_error,
                },
                _ => {
                    let edited = has_edit(self.state.pending_edits@, row_ix, col_ix);
                    match self.state.cell_value_spec(row_ix as int, col_ix as int) {
                        Some(v) => if edited {
                            r matches CellDisplay::EditedValue(t) && t@ == v
                        } else {
                            r matches CellDisplay::Value(t) && t@ == v
                        },
                        None => if edited {
                            r is EditedNull
                        } else {
                            r is Null
                        },
                    }
                },
            },
    {
        if let Some(e) = self.state.editing_state {
            if e.row == row_ix && e.col == col_ix {
                return CellDisplay::Editor { has_error: e.has_error };
            }
        }
        let value = self.state.cell_value(row_ix, col_ix);
        let edited = self.state.pending_edits.contains_key(row_ix, col_ix);
        match value {
            Some(v) => if edited {
                CellDisplay::EditedValue(v)
            } else {
                CellDisplay::Value(v)
            },
            None => if edited {
                CellDisplay::EditedNull
            } else {
                CellDisplay::Null
            },
        }
    }
}

} // verus!
