//! The table that shows a query's rows.
use vstd::prelude::*;
use crate::schema::{Column, Row};

verus! {

/// Column titles and cell texts of a query's rows, `NULL` shown as `NULL`.
pub struct QueryTableDelegate {
    pub columns: Vec<String>,
    pub rows: Vec<Vec<String>>,
}

/// The text shown for a value: its text, or `NULL`.
pub open spec fn shown_value(v: Option<String>) -> Seq<char> {
    match v {
        Some(s) => s@,
        None => "NULL"@,
    }
}

impl QueryTableDelegate {
    /// The table shows these columns and rows: each column titled by its
    /// name, each value by its text or `NULL`.
    pub open spec fn shows(&self, cols: Seq<Column>, rows: Seq<Row>) -> bool {
        &&& self.columns@.len() == cols.len()
        &&& forall|i: int| 0 <= i < cols.len() ==> (#[trigger] self.columns@[i])@ == cols[i].name@
        &&& self.rows@.len() == rows.len()
        &&& forall|i: int| 0 <= i < rows.len() ==> (#[trigger] self.rows@[i])@.len() == rows[i].values@.len()
        &&& forall|i: int, j: int| 0 <= i < rows.len() && 0 <= j < rows[i].values@.len() ==> (#[trigger] self.rows@[i]@[j])@ == shown_value(rows[i].values@[j])
    }

    /// The table of `engine_columns` and `engine_rows`: each column titled by
    /// its name, each value by its text or `NULL`.
    pub fn new(engine_columns: &[Column], engine_rows: &[Row]) -> (r: Self)
        ensures
            r.shows(engine_columns@, engine_rows@),
    {
        let mut columns: Vec<String> = Vec::new();
        let mut i: usize = 0;
        while i < engine_columns.len()
            invariant
                i <= engine_columns@.len(),
                columns@.len() == i,
                forall|k: int| 0 <= k < i ==> (#[trigger] columns@[k])@ == engine_columns@[k].name@,
            decreases engine_columns.len() - i,
        {
            columns.push(engine_columns[i].name_clone());
            i += 1;
        }
        let mut rows: Vec<Vec<String>> = Vec::new();
        let mut r: usize = 0;
        while r < engine_rows.len()
            invariant
                r <= engine_rows@.len(),
                rows@.len() == r,
                forall|a: int| 0 <= a < r ==> (#[trigger] rows@[a])@.len() == engine_rows@[a].values@.len(),
                forall|a: int, b: int| 0 <= a < r && 0 <= b < engine_rows@[a].values@.len() ==> (#[trigger] rows@[a]@[b])@ == shown_value(engine_rows@[a].values@[b]),
            decreases engine_rows.len() - r,
        {
            let values = &engine_rows[r].values;
            let mut cells: Vec<String> = Vec::new();
            let mut c: usize = 0;
            while c < values.len()
                invariant
                    c <= values@.len(),
                    cells@.len() == c,
                    forall|b: int| 0 <= b < c ==> (#[trigger] cells@[b])@ == shown_value(values@[b]),
                decreases values.len() - c,
            {
                let text = match &values[c] {
                    Some(v) => v.clone(),
                    None => String::from_str("NULL"),
                };
                cells.push(text);
                c += 1;
            }
            rows.push(cells);
            r += 1;
        }
        QueryTableDelegate { columns, rows }
    }

    /// No columns and no rows.
    pub fn empty() -> (r: Self)
        ensures
            r.columns@.len() == 0,
            r.rows@.len() == 0,
    {
        QueryTableDelegate { columns: Vec::new(), rows: Vec::new() }
    }

    pub fn columns_count(&self) -> (r: usize)
        ensures
            r == self.columns@.len(),
    {
        self.columns.len()
    }

    pub fn rows_count(&self) -> (r: usize)
        ensures
            r == self.rows@.len(),
    {
        self.rows.len()
    }

    /// The text of a cell, or the empty text outside the table.
    pub fn cell_text(&self, row_ix: usize, col_ix: usize) -> (r: String)
        ensures
            r@ == if row_ix < self.rows@.len() && col_ix < self.rows@[row_ix as int]@.len() {
                self.rows@[row_ix as int]@[col_ix as int]@
            } else {
                Seq::<char>::empty()
            },
    {
        if row_ix < self.rows.len() && col_ix < self.rows[row_ix].len() {
            self.rows[row_ix][col_ix].clone()
        } else {
            String::new()
        }
    }
}

} // verus!
