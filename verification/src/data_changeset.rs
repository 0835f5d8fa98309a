//! Turns the changes staged in a grid into a structured change set: for each
//! edited row its primary-key values and new column values, and for each row
//! marked for deletion its primary-key values.
use vstd::prelude::*;
use crate::changes::{column_position, find_column, group_edits_by_row, group_rows, lemma_groups_are_rows};
use crate::script_generator::{row_keyed, script_ready};
use crate::state::GridState;

verus! {

/// A column name with a value and the column's declared type.
pub struct ColumnData {
    pub column_name: String,
    pub value: String,
    pub data_type: String,
}

pub struct ColumnDataView {
    pub column_name: Seq<char>,
    pub value: Seq<char>,
    pub data_type: Seq<char>,
}

impl View for ColumnData {
    type V = ColumnDataView;

    open spec fn view(&self) -> ColumnDataView {
        ColumnDataView { column_name: self.column_name@, value: self.value@, data_type: self.data_type@ }
    }
}

/// The new values of one row, and the key that finds it.
pub struct RowUpdate {
    pub pk_conditions: Vec<ColumnData>,
    pub changes: Vec<ColumnData>,
}

pub struct RowUpdateView {
    pub pk_conditions: Seq<ColumnDataView>,
    pub changes: Seq<ColumnDataView>,
}

impl View for RowUpdate {
    type V = RowUpdateView;

    open spec fn view(&self) -> RowUpdateView {
        RowUpdateView {
            pk_conditions: self.pk_conditions@.map_values(|c: ColumnData| c@),
            changes: self.changes@.map_values(|c: ColumnData| c@),
        }
    }
}

/// The key of a row to delete.
pub struct RowDelete {
    pub pk_conditions: Vec<ColumnData>,
}

pub struct RowDeleteView {
    pub pk_conditions: Seq<ColumnDataView>,
}

impl View for RowDelete {
    type V = RowDeleteView;

    open spec fn view(&self) -> RowDeleteView {
        RowDeleteView { pk_conditions: self.pk_conditions@.map_values(|c: ColumnData| c@) }
    }
}

/// The changes to apply to one table.
pub struct DataChangeset {
    pub table_name: String,
    pub updates: Vec<RowUpdate>,
    pub deletes: Vec<RowDelete>,
}

pub struct DataChangesetView {
    pub table_name: Seq<char>,
    pub updates: Seq<RowUpdateView>,
    pub deletes: Seq<RowDeleteView>,
}

impl View for DataChangeset {
    type V = DataChangesetView;

    open spec fn view(&self) -> DataChangesetView {
        DataChangesetView {
            table_name: self.table_name@,
            updates: self.updates@.map_values(|u: RowUpdate| u@),
            deletes: self.deletes@.map_values(|d: RowDelete| d@),
        }
    }
}

/// Why no change set can be built.
#[derive(Debug)]
pub enum DataChangesetError {
    /// The grid does not know its source table.
    TableUndefinded,
    /// The source table (named here) has no primary key.
    PrimaryKeyNotFound(String),
}

impl DataChangesetError {
    /// The text that the error displays.
    pub open spec fn message_spec(&self) -> Seq<char> {
        match self {
            DataChangesetError::TableUndefinded => "Không tìm thấy tên bảng gốc"@,
            DataChangesetError::PrimaryKeyNotFound(t) => "Không thể tạo script vì "@ + t@
                + " không có khoá chính"@,
        }
    }

    pub fn to_message(&self) -> (r: String)
        ensures
            r@ == self.message_spec(),
    {
        match self {
            DataChangesetError::TableUndefinded => String::from_str("Không tìm thấy tên bảng gốc"),
            DataChangesetError::PrimaryKeyNotFound(t) => {
                let mut s = String::from_str("Không thể tạo script vì ");
                s.append(t.as_str());
                s.append(" không có khoá chính");
                s
            },
        }
    }
}

/// The primary-key value of `row` in the column named `pk`.
pub open spec fn pk_condition(st: GridState, row: int, pk: Seq<char>) -> ColumnDataView {
    let c = column_position(st.columns@, pk);
    ColumnDataView {
        column_name: pk,
        value: st.original_rows@[row]@[c]@,
        data_type: st.columns@[c].type_text(),
    }
}

/// The primary-key values that find `row`, in primary-key order.
pub open spec fn pk_conditions(st: GridState, row: int) -> Seq<ColumnDataView> {
    st.primary_keys@.map_values(|pk: String| pk_condition(st, row, pk@))
}

/// The new value staged by the edit at position `idx`.
pub open spec fn edit_change(st: GridState, idx: usize) -> ColumnDataView {
    let e = st.pending_edits@[idx as int];
    ColumnDataView {
        column_name: st.columns@[e.col as int].name@,
        value: e.value@,
        data_type: st.columns@[e.col as int].type_text(),
    }
}

/// The update of one group of edits.
pub open spec fn row_update(st: GridState, g: (usize, Seq<usize>)) -> RowUpdateView {
    RowUpdateView {
        pk_conditions: pk_conditions(st, g.0 as int),
        changes: g.1.map_values(|i: usize| edit_change(st, i)),
    }
}

/// The change set of a grid whose source table is `table`: one update per
/// edited row, in the order in which the rows were first edited, and one
/// delete per row marked, in the order of marking.
pub open spec fn changeset_spec(st: GridState, table: Seq<char>) -> DataChangesetView {
    DataChangesetView {
        table_name: table,
        updates: group_rows(st.pending_edits@).map_values(
            |g: (usize, Seq<usize>)| row_update(st, g),
        ),
        deletes: st.pending_deletes@.map_values(
            |r: usize| RowDeleteView { pk_conditions: pk_conditions(st, r as int) },
        ),
    }
}

/// Builds the change set of a grid's staged changes.
pub struct DataChangesetBuilder<'a> {
    state: &'a GridState,
}

impl<'a> DataChangesetBuilder<'a> {
    /// The grid whose changes are collected.
    pub closed spec fn grid(&self) -> GridState {
        *self.state
    }

    pub fn new(state: &'a GridState) -> (r: Self)
        ensures
            r.grid() == *state,
    {
        DataChangesetBuilder { state }
    }

    /// The change set (see `changeset_spec`). Fails with `TableUndefinded`
    /// when the grid has no source table, else with
    /// `PrimaryKeyNotFound(table)` when it has no primary key.
    pub fn build_changeset(&self) -> (r: Result<DataChangeset, DataChangesetError>)
        requires
            self.grid().is_editable_spec() ==> script_ready(self.grid()),
        ensures
            self.grid().source_table is None ==> r matches Err(
                DataChangesetError::TableUndefinded,
            ),
            self.grid().source_table is Some && self.grid().primary_keys@.len() == 0 ==> (r matches Err(
                DataChangesetError::PrimaryKeyNotFound(n),
            ) && n@ == self.grid().source_table->0@),
            self.grid().is_editable_spec() ==> (r matches Ok(c) && c@ == changeset_spec(
                self.grid(),
                self.grid().source_table->0@,
            )),
    {
        let st = self.state;
        let table_name = match &st.source_table {
            Some(t) => t.clone(),
            None => return Err(DataChangesetError::TableUndefinded),
        };
        if st.primary_keys.len() == 0 {
            return Err(DataChangesetError::PrimaryKeyNotFound(table_name));
        }
        let edits = st.pending_edits.as_slice();
        let (rows, members) = group_edits_by_row(edits);
        let ghost gs = group_rows(st.pending_edits@);
        proof {
            assert(edits@.len() == edits.len());
            lemma_groups_are_rows(st.pending_edits@);
        }
        let mut updates: Vec<RowUpdate> = Vec::new();
        let mut k: usize = 0;
        while k < rows.len()
            invariant
                k <= rows@.len(),
                rows@.len() == members@.len(),
                rows@.len() == gs.len(),
                forall|j: int| 0 <= j < rows@.len() ==> (#[trigger] gs[j]) == (rows@[j], members@[j]@),
                gs == group_rows(st.pending_edits@),
                edits@ == st.pending_edits@,
                st == self.state,
                script_ready(*st),
                forall|a: int, m: int|
                    0 <= a < gs.len() && 0 <= m < gs[a].1.len() ==> (#[trigger] gs[a].1[m])
                        < edits@.len() && edits@[gs[a].1[m] as int].row == gs[a].0,
                forall|a: int| 0 <= a < gs.len() ==> (#[trigger] gs[a]).1.len() > 0,
                updates@.len() == k,
                forall|j: int| 0 <= j < k ==> (#[trigger] updates@[j])@ == row_update(*st, gs[j]),
            decreases rows.len() - k,
        {
            let row = rows[k];
            proof {
                assert(gs[k as int] == (rows@[k as int], members@[k as int]@));
                let m0 = gs[k as int].1[0];
                assert(m0 < edits@.len());
                assert(edits@[m0 as int].row == row);
            }
            let idxs = &members[k];
            let mut changes: Vec<ColumnData> = Vec::new();
            let mut m: usize = 0;
            while m < idxs.len()
                invariant
                    m <= idxs@.len(),
                    idxs@ == gs[k as int].1,
                    k < gs.len(),
                    edits@ == st.pending_edits@,
                    script_ready(*st),
                    forall|a: int| 0 <= a < idxs@.len() ==> (#[trigger] idxs@[a]) < edits@.len(),
                    changes@.len() == m,
                    forall|j: int|
                        0 <= j < m ==> (#[trigger] changes@[j])@ == edit_change(*st, idxs@[j]),
                decreases idxs.len() - m,
            {
                let e = &edits[idxs[m]];
                proof {
                    assert(e.col < st.columns@.len());
                }
                let col = &st.columns[e.col];
                changes.push(
                    ColumnData {
                        column_name: col.name_clone(),
                        value: e.value.clone(),
                        data_type: col.declared_type_or_empty(),
                    },
                );
                m += 1;
            }
            let pk_conditions = self.get_pk_conditions(row);
            updates.push(RowUpdate { pk_conditions, changes });
            proof {
                assert(updates@[k as int]@.changes =~= gs[k as int].1.map_values(
                    |i: usize| edit_change(*st, i),
                ));
            }
            k += 1;
        }
        let rows_del = st.pending_deletes.as_slice();
        let mut deletes: Vec<RowDelete> = Vec::new();
        let mut d: usize = 0;
        while d < rows_del.len()
            invariant
                d <= rows_del@.len(),
                rows_del@ == st.pending_deletes@,
                st == self.state,
                script_ready(*st),
                deletes@.len() == d,
                forall|j: int|
                    0 <= j < d ==> (#[trigger] deletes@[j])@ == (RowDeleteView {
                        pk_conditions: pk_conditions(*st, rows_del@[j] as int),
                    }),
            decreases rows_del.len() - d,
        {
            proof {
                assert(row_keyed(*st, rows_del@[d as int] as int));
            }
            let pk_conditions = self.get_pk_conditions(rows_del[d]);
            deletes.push(RowDelete { pk_conditions });
            d += 1;
        }
        let r = DataChangeset { table_name, updates, deletes };
        proof {
            let want = changeset_spec(*st, st.source_table->0@);
            assert(r@.updates =~= want.updates);
            assert(r@.deletes =~= want.deletes);
        }
        Ok(r)
    }

    /// The primary-key values of `row` (see `pk_conditions`).
    fn get_pk_conditions(&self, row: usize) -> (r: Vec<ColumnData>)
        requires
            row_keyed(self.grid(), row as int),
        ensures
            r@.map_values(|c: ColumnData| c@) == pk_conditions(self.grid(), row as int),
    {
        let st = self.state;
        let pks = &st.primary_keys;
        let mut out: Vec<ColumnData> = Vec::new();
        let mut k: usize = 0;
        while k < pks.len()
            invariant
                k <= pks@.len(),
                pks == &st.primary_keys,
                st == self.state,
                row_keyed(*st, row as int),
                out@.len() == k,
                forall|j: int|
                    0 <= j < k ==> (#[trigger] out@[j])@ == pk_condition(*st, row as int, pks@[j]@),
            decreases pks.len() - k,
        {
            let pk = &pks[k];
            let c = match find_column(st.columns.as_slice(), pk.as_str()) {
                Some(c) => c,
                None => {
                    proof {
                        assert(column_position(st.columns@, pks@[k as int]@) < st.columns@.len());
                    }
                    return out;
                },
            };
            proof {
                assert(column_position(st.columns@, pks@[k as int]@) < st.original_rows@[row as int]@.len());
            }
            out.push(
                ColumnData {
                    column_name: pk.clone(),
                    value: st.original_rows[row][c].clone(),
                    data_type: st.columns[c].declared_type_or_empty(),
                },
            );
            k += 1;
        }
        assert(out@.map_values(|c: ColumnData| c@) =~= pk_conditions(*st, row as int));
        out
    }
}

} // verus!
