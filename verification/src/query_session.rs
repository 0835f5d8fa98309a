//! One SQL editor session: running the typed statement and keeping its output.
use vstd::prelude::*;
use crate::connection::ConnectionStatus;
use crate::schema::{Column, Row};
use crate::text::{
    push_decimal, push_signed_decimal, decimal, signed_decimal, seq_starts_with, trim,
    trim_start, trim_spec, trim_start_spec, to_chars, to_uppercase, unicode_uppercase,
    chars_start_with,
};

verus! {

/// What the engine answers for a statement.
pub enum QueryResult {
    /// Rows returned by a query.
    Query { columns: Vec<Column>, rows: Vec<Row> },
    /// The effect of a statement that returns no rows.
    Execution { rows_affected: u64, last_insert_rowid: Option<i64> },
}

/// The output shown under the editor.
#[derive(Debug, Clone)]
pub enum OutputContent {
    Empty,
    Execution { text: String },
    Query { columns: Vec<Column>, rows: Vec<Row> },
    Error(String),
}

/// The report of a statement that returns no rows: the number of rows it
/// affected and, when there is one, the id of the row it inserted.
pub open spec fn execution_text(rows_affected: u64, last_insert_rowid: Option<i64>) -> Seq<char> {
    decimal(rows_affected as nat) + " rows affected"@ + match last_insert_rowid {
        Some(id) => "\nlast_insert_rowid: "@ + signed_decimal(id as int),
        None => Seq::<char>::empty(),
    }
}

/// The text starts with `CREATE`, `DROP`, `ALTER` or `RENAME`.
pub open spec fn ddl_keyword_prefix(s: Seq<char>) -> bool {
    seq_starts_with(s, "CREATE"@) || seq_starts_with(s, "DROP"@) || seq_starts_with(s, "ALTER"@)
        || seq_starts_with(s, "RENAME"@)
}

/// The statement changes the schema: after leading whitespace and
/// upper-casing it starts with `CREATE`, `DROP`, `ALTER` or `RENAME`.
pub open spec fn is_ddl_spec(sql: Seq<char>) -> bool {
    ddl_keyword_prefix(unicode_uppercase(trim_start_spec(sql)))
}

/// Whether upper-cased text starts with a keyword that changes the schema
/// (see `ddl_keyword_prefix`).
pub fn starts_with_ddl_keyword(upper: &str) -> (r: bool)
    ensures
        r == ddl_keyword_prefix(upper@),
{
    let v = to_chars(upper);
    let create = to_chars("CREATE");
    let drop = to_chars("DROP");
    let alter = to_chars("ALTER");
    let rename = to_chars("RENAME");
    chars_start_with(v.as_slice(), create.as_slice()) || chars_start_with(v.as_slice(), drop.as_slice())
        || chars_start_with(v.as_slice(), alter.as_slice()) || chars_start_with(v.as_slice(), rename.as_slice())
}

/// Whether a statement changes the schema (so the metadata should be
/// refreshed after it ran).
pub fn is_ddl(sql: &str) -> (r: bool)
    ensures
        r == is_ddl_spec(sql@),
{
    let t = trim_start(sql);
    let u = to_uppercase(t.as_str());
    starts_with_ddl_keyword(u.as_str())
}

/// A session's running state and output.
pub struct QuerySession {
    pub output: OutputContent,
    pub is_executing: bool,
}

impl QuerySession {
    /// Nothing run yet.
    pub fn new() -> (r: Self)
        ensures
            r.output is Empty,
            !r.is_executing,
    {
        QuerySession { output: OutputContent::Empty, is_executing: false }
    }

    /// Decides whether `sql` is run, given the connection's status and
    /// whether it has a client; `true` when the caller should now run it.
    ///
    /// - Blank `sql`: not run, nothing changes.
    /// - Connection not online: not run; the output says so.
    /// - No client: not run, nothing changes.
    /// - Otherwise the session is executing and the output is cleared.
    pub fn execute(&mut self, sql: &str, status: &ConnectionStatus, has_client: bool) -> (run: bool)
        ensures
            run == (trim_spec(sql@).len() > 0 && status is Online && has_client),
            run ==> final(self).is_executing && final(self).output is Empty,
            trim_spec(sql@).len() == 0 ==> *final(self) == *old(self),
            trim_spec(sql@).len() > 0 && !(status is Online) ==> (final(self).output matches OutputContent::Error(m) && m@ == "Database chưa kết nối."@) && final(self).is_executing == old(self).is_executing,
            trim_spec(sql@).len() > 0 && status is Online && !has_client ==> *final(self) == *old(self),
    {
        let t = trim(sql);
        if t.as_str().is_empty() {
            return false;
        }
        if !status.is_connected() {
            self.output = OutputContent::Error(String::from_str("Database chưa kết nối."));
            return false;
        }
        if !has_client {
            return false;
        }
        self.is_executing = true;
        self.output = OutputContent::Empty;
        true
    }

    /// Records the engine's answer to `sql`: rows become a query output, an
    /// execution its report, an error its message; the session is no longer
    /// executing. Returns whether the connection's metadata should now be
    /// refreshed: exactly when `sql` changes the schema, whatever the answer.
    pub fn finish_execute(&mut self, sql: &str, result: Result<QueryResult, String>) -> (refresh_metadata: bool)
        ensures
            refresh_metadata == is_ddl_spec(sql@),
            !final(self).is_executing,
            match result {
                Ok(QueryResult::Query { columns, rows }) => final(self).output == (OutputContent::Query { columns, rows }),
                Ok(QueryResult::Execution { rows_affected, last_insert_rowid }) => final(self).output matches OutputContent::Execution { text } && text@ == execution_text(rows_affected, last_insert_rowid),
                Err(m) => final(self).output == OutputContent::Error(m),
            },
    {
        let output = match result {
            Ok(QueryResult::Query { columns, rows }) => OutputContent::Query { columns, rows },
            Ok(QueryResult::Execution { rows_affected, last_insert_rowid }) => {
                let mut text = String::new();
                push_decimal(&mut text, rows_affected);
                text.append(" rows affected");
                let ghost mid = text@;
                match last_insert_rowid {
                    Some(id) => {
                        text.append("\nlast_insert_rowid: ");
                        push_signed_decimal(&mut text, id);
                        assert(text@ =~= mid + ("\nlast_insert_rowid: "@ + signed_decimal(id as int)));
                    },
                    None => {
                        assert(text@ =~= mid + Seq::<char>::empty());
                    },
                }
                OutputContent::Execution { text }
            },
            Err(e) => OutputContent::Error(e),
        };
        self.is_executing = false;
        self.output = output;
        is_ddl(sql)
    }
}

} // verus!
