//! The results panel under the SQL editor.
use vstd::prelude::*;
use crate::query_session::OutputContent;
use crate::query_table::QueryTableDelegate;

verus! {

/// What the results panel shows.
#[derive(Debug, Clone)]
pub enum ResultsView {
    /// Nothing yet: the panel is not drawn.
    Hidden,
    /// The report of a statement that returned no rows.
    Text(String),
    /// The table of a query's rows.
    Table,
    /// An error message, drawn in red.
    Error(String),
}

/// What the panel shows for an output: nothing before the first statement,
/// the report, the table, or the error prefixed with `Lỗi: `.
pub fn results_view(output: &OutputContent) -> (r: ResultsView)
    ensures
        match *output {
            OutputContent::Empty => r is Hidden,
            OutputContent::Execution { text } => r matches ResultsView::Text(t) && t@ == text@,
            OutputContent::Query { .. } => r is Table,
            OutputContent::Error(msg) => r matches ResultsView::Error(t) && t@ == "Lỗi: "@ + msg@,
        },
{
    match output {
        OutputContent::Empty => ResultsView::Hidden,
        OutputContent::Execution { text } => ResultsView::Text(text.clone()),
        OutputContent::Query { .. } => ResultsView::Table,
        OutputContent::Error(msg) => {
            let mut t = String::from_str("Lỗi: ");
            t.append(msg.as_str());
            ResultsView::Error(t)
        },
    }
}

/// The table behind the panel after the output changed: a query's columns
/// and rows, or an empty table for any other output.
pub fn results_table(output: &OutputContent) -> (r: QueryTableDelegate)
    ensures
        match *output {
            OutputContent::Query { columns, rows } => r.shows(columns@, rows@),
            _ => r.columns@.len() == 0 && r.rows@.len() == 0,
        },
{
    match output {
        OutputContent::Query { columns, rows } => QueryTableDelegate::new(columns.as_slice(), rows.as_slice()),
        _ => QueryTableDelegate::empty(),
    }
}

} // verus!
