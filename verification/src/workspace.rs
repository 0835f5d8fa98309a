//! The workspace's commands: opening or creating a SQLite file, the
//! in-memory database, a new query, and what shows when no tab is open.
use vstd::prelude::*;
use crate::connection_form::{in_memory_url, sqlite_url, sqlite_url_spec, ConnectionSettings};

verus! {

/// The connection for a SQLite file picked or created in a file dialog:
/// named after the file, at `sqlite:` and its path.
pub fn file_connection(file_name: String, path: &str) -> (r: (String, ConnectionSettings))
    ensures
        r.0 == file_name,
        r.1 matches ConnectionSettings::Sqlite { url } && url@ == sqlite_url_spec(path@),
{
    (file_name, ConnectionSettings::Sqlite { url: sqlite_url(path) })
}

/// The in-memory SQLite connection, named `In-Memory`.
pub fn in_memory_connection() -> (r: (String, ConnectionSettings))
    ensures
        r.0@ == "In-Memory"@,
        r.1 matches ConnectionSettings::Sqlite { url } && url@ == "sqlite::memory:"@,
{
    (String::from_str("In-Memory"), ConnectionSettings::Sqlite { url: in_memory_url() })
}

/// A new query opens on the first connection; with no connection nothing
/// opens.
pub fn new_query_connection(connection_count: usize) -> (r: Option<usize>)
    ensures
        r == (if connection_count > 0 { Some(0usize) } else { None }),
{
    if connection_count > 0 {
        Some(0)
    } else {
        None
    }
}

/// The two lines shown in place of a tab when none is open.
pub fn empty_workspace_lines() -> (r: (String, String))
    ensures
        r.0@ == "Chưa có tab nào được mở."@,
        r.1@ == "Chọn một database ở Explorer để bắt đầu."@,
{
    (
        String::from_str("Chưa có tab nào được mở."),
        String::from_str("Chọn một database ở Explorer để bắt đầu."),
    )
}

} // verus!
