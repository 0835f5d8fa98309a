//! Turns the changes staged in a grid into an SQL script: one `UPDATE` per
//! edited row, then one `DELETE` per row marked for deletion.
use vstd::prelude::*;
use crate::changes::{
    column_position, find_column, group_edits_by_row, group_rows, lemma_concat_step,
    lemma_groups_are_rows, lemma_join_contains, lemma_join_step, seq_concat, seq_join,
};
use crate::sql_value::{push_sql_literal, sql_literal};
use crate::state::GridState;

verus! {

/// Why no script can be generated.
#[derive(Debug)]
pub enum GenerateScriptError {
    /// The grid does not know its source table.
    TableUndefinded,
    /// The source table (named here) has no primary key.
    PrimaryKeyNotFound(String),
}

impl GenerateScriptError {
    /// The text that the error displays.
    pub open spec fn message_spec(&self) -> Seq<char> {
        match self {
            GenerateScriptError::TableUndefinded => "Không tìm thấy tên bảng gốc"@,
            GenerateScriptError::PrimaryKeyNotFound(t) => "Không thể tạo script vì "@ + t@
                + " không có khoá chính"@,
        }
    }

    pub fn to_message(&self) -> (r: String)
        ensures
            r@ == self.message_spec(),
    {
        match self {
            GenerateScriptError::TableUndefinded => String::from_str("Không tìm thấy tên bảng gốc"),
            GenerateScriptError::PrimaryKeyNotFound(t) => {
                let mut s = String::from_str("Không thể tạo script vì ");
                s.append(t.as_str());
                s.append(" không có khoá chính");
                s
            },
        }
    }
}

/// Row `row` is loaded and holds every primary-key column.
pub open spec fn row_keyed(st: GridState, row: int) -> bool {
    &&& 0 <= row < st.original_rows@.len()
    &&& forall|k: int|
        0 <= k < st.primary_keys@.len() ==> column_position(
            st.columns@,
            (#[trigger] st.primary_keys@[k])@,
        ) < st.columns@.len() && column_position(st.columns@, st.primary_keys@[k]@)
            < st.original_rows@[row]@.len()
}

/// Every staged change can be written out: each edit names an existing column
/// of a keyed row, and each deleted row is keyed.
pub open spec fn script_ready(st: GridState) -> bool {
    &&& forall|k: int|
        0 <= k < st.pending_edits@.len() ==> (#[trigger] st.pending_edits@[k]).col
            < st.columns@.len() && row_keyed(st, st.pending_edits@[k].row as int)
    &&& forall|k: int|
        0 <= k < st.pending_deletes@.len() ==> row_keyed(
            st,
            #[trigger] st.pending_deletes@[k] as int,
        )
}

/// `"pk" = literal` for one primary-key column of `row`, the literal taken
/// from the loaded value.
pub open spec fn where_item(st: GridState, row: int, pk: Seq<char>) -> Seq<char> {
    let c = column_position(st.columns@, pk);
    "\""@ + pk + "\" = "@ + sql_literal(st.original_rows@[row]@[c]@, st.columns@[c].type_text())
}

/// The condition that picks out `row` by its primary key.
pub open spec fn where_clause(st: GridState, row: int) -> Seq<char> {
    seq_join(st.primary_keys@.map_values(|pk: String| where_item(st, row, pk@)), " AND "@)
}

/// `"column" = literal` for the staged edit at position `idx`.
pub open spec fn set_item(st: GridState, idx: usize) -> Seq<char> {
    let e = st.pending_edits@[idx as int];
    let c = e.col as int;
    "\""@ + st.columns@[c].name@ + "\" = "@ + sql_literal(e.value@, st.columns@[c].type_text())
}

/// The assignments of one row's staged edits.
pub open spec fn set_clause(st: GridState, idxs: Seq<usize>) -> Seq<char> {
    seq_join(idxs.map_values(|i: usize| set_item(st, i)), ", "@)
}

/// The `UPDATE` statement of one group of edits.
pub open spec fn update_statement(st: GridState, table: Seq<char>, g: (usize, Seq<usize>)) -> Seq<
    char,
> {
    "UPDATE \""@ + table + "\" SET "@ + set_clause(st, g.1) + " WHERE "@ + where_clause(
        st,
        g.0 as int,
    ) + ";\n"@
}

/// The `DELETE` statement of one row.
pub open spec fn delete_statement(st: GridState, table: Seq<char>, row: usize) -> Seq<char> {
    "DELETE FROM \""@ + table + "\" WHERE "@ + where_clause(st, row as int) + ";\n"@
}

/// The whole script: the updates of the edited rows, in the order in which
/// the rows were first edited, then the deletes, in the order in which the rows
/// were marked.
pub open spec fn change_script(st: GridState, table: Seq<char>) -> Seq<char> {
    seq_concat(
        group_rows(st.pending_edits@).map_values(
            |g: (usize, Seq<usize>)| update_statement(st, table, g),
        ),
    ) + seq_concat(st.pending_deletes@.map_values(|r: usize| delete_statement(st, table, r)))
}

/// Builds the SQL script of a grid's staged changes.
pub struct ScriptGenerator<'a> {
    state: &'a GridState,
    table_name: &'a str,
    script: String,
}

impl<'a> ScriptGenerator<'a> {
    /// The grid whose changes are written.
    pub closed spec fn grid(&self) -> GridState {
        *self.state
    }

    /// The table the statements name.
    pub closed spec fn table(&self) -> Seq<char> {
        self.table_name@
    }

    /// Text already in the script before `generate` appends to it.
    pub closed spec fn pending_script(&self) -> Seq<char> {
        self.script@
    }

    /// A generator for `state`'s changes. Fails with `TableUndefinded` when the
    /// grid has no source table, else with `PrimaryKeyNotFound(table)` when it
    /// has no primary key.
    pub fn try_new(state: &'a GridState) -> (r: Result<Self, GenerateScriptError>)
        ensures
            state.source_table is None ==> r matches Err(GenerateScriptError::TableUndefinded),
            state.source_table is Some && state.primary_keys@.len() == 0 ==> (r matches Err(
                GenerateScriptError::PrimaryKeyNotFound(n),
            ) && n@ == state.source_table->0@),
            state.source_table is Some && state.primary_keys@.len() > 0 ==> (r matches Ok(g) && g.grid()
                == *state && g.table() == state.source_table->0@ && g.pending_script().len() == 0),
    {
        let table_name = match &state.source_table {
            Some(t) => t.as_str(),
            None => return Err(GenerateScriptError::TableUndefinded),
        };
        if state.primary_keys.len() == 0 {
            return Err(GenerateScriptError::PrimaryKeyNotFound(String::from_str(table_name)));
        }
        Ok(ScriptGenerator { state, table_name, script: String::new() })
    }

    /// The script of every staged update and delete (see `change_script`).
    pub fn generate(self) -> (r: String)
        requires
            script_ready(self.grid()),
        ensures
            r@ == self.pending_script() + change_script(self.grid(), self.table()),
    {
        let mut this = self;
        let mut script = String::new();
        std::mem::swap(&mut script, &mut this.script);
        this.generate_update(&mut script);
        this.generate_delete(&mut script);
        script
    }

    /// Appends the `UPDATE` statements.
    fn generate_update(&self, out: &mut String)
        requires
            script_ready(self.grid()),
        ensures
            final(out)@ == old(out)@ + seq_concat(
                group_rows(self.grid().pending_edits@).map_values(
                    |g: (usize, Seq<usize>)| update_statement(self.grid(), self.table(), g),
                ),
            ),
    {
        let st = self.state;
        let edits = st.pending_edits.as_slice();
        let (rows, members) = group_edits_by_row(edits);
        let ghost gs = group_rows(st.pending_edits@);
        let ghost f = |g: (usize, Seq<usize>)| update_statement(*st, self.table_name@, g);
        let ghost base = out@;
        proof {
            assert(edits@.len() == edits.len());
            lemma_groups_are_rows(st.pending_edits@);
        }
        let mut k: usize = 0;
        while k < rows.len()
            invariant
                k <= rows@.len(),
                rows@.len() == members@.len(),
                rows@.len() == gs.len(),
                forall|j: int| 0 <= j < rows@.len() ==> (#[trigger] gs[j]) == (rows@[j], members@[j]@),
                gs == group_rows(st.pending_edits@),
                edits@ == st.pending_edits@,
                st == self.state,
                script_ready(*st),
                forall|a: int, m: int|
                    0 <= a < gs.len() && 0 <= m < gs[a].1.len() ==> (#[trigger] gs[a].1[m])
                        < edits@.len() && edits@[gs[a].1[m] as int].row == gs[a].0,
                forall|a: int| 0 <= a < gs.len() ==> (#[trigger] gs[a]).1.len() > 0,
                f == (|g: (usize, Seq<usize>)| update_statement(*st, self.table_name@, g)),
                out@ == base + seq_concat(gs.map_values(f).take(k as int)),
            decreases rows.len() - k,
        {
            let row = rows[k];
            proof {
                assert(gs[k as int] == (rows@[k as int], members@[k as int]@));
                let m0 = gs[k as int].1[0];
                assert(m0 < edits@.len());
                assert(edits@[m0 as int].row == row);
                assert(row_keyed(*st, row as int));
                lemma_concat_step(gs.map_values(f), k as int);
            }
            let ghost before = out@;
            out.append("UPDATE \"");
            out.append(self.table_name);
            out.append("\" SET ");
            self.push_set_clause(out, &members[k]);
            out.append(" WHERE ");
            self.push_where_clause(out, row);
            out.append(";\n");
            proof {
                assert(out@ =~= before + f(gs[k as int]));
                assert(gs.map_values(f)[k as int] == f(gs[k as int]));
                assert(base + seq_concat(gs.map_values(f).take(k + 1)) =~= before + f(gs[k as int]));
            }
            k += 1;
        }
        assert(gs.map_values(f).take(gs.len() as int) =~= gs.map_values(f));
    }

    /// Appends the `DELETE` statements.
    fn generate_delete(&self, out: &mut String)
        requires
            script_ready(self.grid()),
        ensures
            final(out)@ == old(out)@ + seq_concat(
                self.grid().pending_deletes@.map_values(
                    |r: usize| delete_statement(self.grid(), self.table(), r),
                ),
            ),
    {
        let st = self.state;
        let rows = st.pending_deletes.as_slice();
        let ghost f = |r: usize| delete_statement(*st, self.table_name@, r);
        let ghost base = out@;
        let mut k: usize = 0;
        while k < rows.len()
            invariant
                k <= rows@.len(),
                rows@ == st.pending_deletes@,
                st == self.state,
                script_ready(*st),
                f == (|r: usize| delete_statement(*st, self.table_name@, r)),
                out@ == base + seq_concat(rows@.map_values(f).take(k as int)),
            decreases rows.len() - k,
        {
            let row = rows[k];
            proof {
                assert(row_keyed(*st, rows@[k as int] as int));
                lemma_concat_step(rows@.map_values(f), k as int);
            }
            let ghost before = out@;
            out.append("DELETE FROM \"");
            out.append(self.table_name);
            out.append("\" WHERE ");
            self.push_where_clause(out, row);
            out.append(";\n");
            proof {
                assert(out@ =~= before + f(row));
                assert(rows@.map_values(f)[k as int] == f(row));
                assert(base + seq_concat(rows@.map_values(f).take(k + 1)) =~= before + f(row));
            }
            k += 1;
        }
        assert(rows@.map_values(f).take(rows@.len() as int) =~= rows@.map_values(f));
    }

    /// Appends the assignments of the edits at positions `idxs`.
    fn push_set_clause(&self, out: &mut String, idxs: &Vec<usize>)
        requires
            script_ready(self.grid()),
            forall|m: int| 0 <= m < idxs@.len() ==> (#[trigger] idxs@[m]) < self.grid().pending_edits@.len(),
        ensures
            final(out)@ == old(out)@ + set_clause(self.grid(), idxs@),
    {
        let st = self.state;
        let edits = st.pending_edits.as_slice();
        let ghost f = |i: usize| set_item(*st, i);
        let ghost base = out@;
        let mut k: usize = 0;
        while k < idxs.len()
            invariant
                k <= idxs@.len(),
                edits@ == st.pending_edits@,
                st == self.state,
                script_ready(*st),
                forall|m: int| 0 <= m < idxs@.len() ==> (#[trigger] idxs@[m]) < edits@.len(),
                f == (|i: usize| set_item(*st, i)),
                out@ == base + seq_join(idxs@.map_values(f).take(k as int), ", "@),
            decreases idxs.len() - k,
        {
            proof {
                lemma_join_step(idxs@.map_values(f), ", "@, k as int);
            }
            let ghost before = out@;
            if k > 0 {
                out.append(", ");
            }
            let e = &edits[idxs[k]];
            proof {
                assert(e.col < st.columns@.len());
            }
            let col = &st.columns[e.col];
            let declared = col.declared_type_or_empty();
            let ghost mid = out@;
            out.append("\"");
            out.append(col.name.as_str());
            out.append("\" = ");
            push_sql_literal(out, e.value.as_str(), declared.as_str());
            proof {
                let item = f(idxs@[k as int]);
                assert(e == st.pending_edits@[idxs@[k as int] as int]);
                assert(item == "\""@ + col.name@ + "\" = "@ + sql_literal(e.value@, declared@));
                assert(out@ == mid + "\""@ + col.name@ + "\" = "@ + sql_literal(e.value@, declared@));
                assert(out@ =~= mid + item);
                assert(idxs@.map_values(f)[k as int] == item);
                if k > 0 {
                    assert(out@ =~= before + ", "@ + item);
                    assert(base + seq_join(idxs@.map_values(f).take(k + 1), ", "@) =~= before + ", "@ + item);
                } else {
                    assert(out@ =~= before + item);
                    assert(base + seq_join(idxs@.map_values(f).take(k + 1), ", "@) =~= before + item);
                }
            }
            k += 1;
        }
        assert(idxs@.map_values(f).take(idxs@.len() as int) =~= idxs@.map_values(f));
    }

    /// Appends the condition selecting `row` by its primary key.
    fn push_where_clause(&self, out: &mut String, row: usize)
        requires
            row_keyed(self.grid(), row as int),
        ensures
            final(out)@ == old(out)@ + where_clause(self.grid(), row as int),
    {
        let st = self.state;
        let pks = &st.primary_keys;
        let ghost f = |pk: String| where_item(*st, row as int, pk@);
        let ghost base = out@;
        let mut k: usize = 0;
        while k < pks.len()
            invariant
                k <= pks@.len(),
                pks == &st.primary_keys,
                st == self.state,
                row_keyed(*st, row as int),
                f == (|pk: String| where_item(*st, row as int, pk@)),
                out@ == base + seq_join(pks@.map_values(f).take(k as int), " AND "@),
            decreases pks.len() - k,
        {
            proof {
                lemma_join_step(pks@.map_values(f), " AND "@, k as int);
            }
            let ghost before = out@;
            if k > 0 {
                out.append(" AND ");
            }
            let pk = &pks[k];
            let c = match find_column(st.columns.as_slice(), pk.as_str()) {
                Some(c) => c,
                None => {
                    proof {
                        assert(column_position(st.columns@, pks@[k as int]@) < st.columns@.len());
                    }
                    return ;
                },
            };
            proof {
                assert(column_position(st.columns@, pks@[k as int]@) < st.original_rows@[row as int]@.len());
            }
            let declared = st.columns[c].declared_type_or_empty();
            out.append("\"");
            out.append(pk.as_str());
            out.append("\" = ");
            push_sql_literal(out, st.original_rows[row][c].as_str(), declared.as_str());
            proof {
                let item = f(pks@[k as int]);
                assert(pks@.map_values(f)[k as int] == item);
                if k > 0 {
                    assert(out@ =~= before + " AND "@ + item);
                    assert(base + seq_join(pks@.map_values(f).take(k + 1), " AND "@) =~= before + " AND "@ + item);
                } else {
                    assert(out@ =~= before + item);
                    assert(base + seq_join(pks@.map_values(f).take(k + 1), " AND "@) =~= before + item);
                }
            }
            k += 1;
        }
        assert(pks@.map_values(f).take(pks@.len() as int) =~= pks@.map_values(f));
    }
}

/// Law: the `UPDATE` of a row's edits picks the row out by the same
/// condition as the `DELETE` of that row: both end in ` WHERE `, one common
/// condition and `;`.
pub proof fn lemma_update_and_delete_share_condition(st: GridState, table: Seq<char>, g: (usize, Seq<usize>))
    ensures
        exists|cond: Seq<char>|
            update_statement(st, table, g) == "UPDATE \""@ + table + "\" SET "@ + set_clause(st, g.1)
                + " WHERE "@ + cond + ";\n"@ && delete_statement(st, table, g.0) == "DELETE FROM \""@
                + table + "\" WHERE "@ + cond + ";\n"@,
{
    let cond = where_clause(st, g.0 as int);
    assert(update_statement(st, table, g) == "UPDATE \""@ + table + "\" SET "@ + set_clause(st, g.1)
        + " WHERE "@ + cond + ";\n"@);
    assert(delete_statement(st, table, g.0) == "DELETE FROM \""@ + table + "\" WHERE "@ + cond
        + ";\n"@);
}

/// Law: the condition that picks out a row holds, for every primary-key
/// column, that column's `"pk" = literal` item.
pub proof fn lemma_condition_names_every_key(st: GridState, row: int, k: int)
    requires
        0 <= k < st.primary_keys@.len(),
    ensures
        exists|a: Seq<char>, b: Seq<char>|
            where_clause(st, row) == a + where_item(st, row, st.primary_keys@[k]@) + b,
{
    let items = st.primary_keys@.map_values(|pk: String| where_item(st, row, pk@));
    lemma_join_contains(items, " AND "@, k);
    assert(items[k] == where_item(st, row, st.primary_keys@[k]@));
}

} // verus!
