//! What the tab bar shows for each kind of tab.
use vstd::prelude::*;
use crate::grid_state::GridState;

verus! {

/// The icon of a tab.
#[derive(Debug, Clone, Copy, PartialEq, Eq)]
pub enum TabIcon {
    FileSql,
    Table,
}

/// What the tab bar shows for a tab.
pub struct TabInfo {
    /// The title (a connection or table name).
    pub title: String,
    /// The tab holds unsaved changes (drawn with a dot).
    pub is_dirty: bool,
    pub icon: TabIcon,
}

/// The tab of an SQL editor on the named connection: `SQL: name`, never
/// dirty.
pub fn sql_editor_tab_info(connection_name: &str) -> (r: TabInfo)
    ensures
        r.title@ == "SQL: "@ + connection_name@,
        !r.is_dirty,
        r.icon is FileSql,
{
    let mut title = String::from_str("SQL: ");
    title.append(connection_name);
    TabInfo { title, is_dirty: false, icon: TabIcon::FileSql }
}

/// The tab of a table viewer: the table's name, dirty while the grid has
/// staged changes.
pub fn table_viewer_tab_info(table_name: &str, state: &GridState) -> (r: TabInfo)
    ensures
        r.title@ == table_name@,
        r.is_dirty == state.has_pending_changes_spec(),
        r.icon is Table,
{
    TabInfo {
        title: String::from_str(table_name),
        is_dirty: state.has_pending_changes(),
        icon: TabIcon::Table,
    }
}

/// The status label of the query toolbar.
pub fn query_status_label(is_executing: bool) -> (r: String)
    ensures
        r@ == if is_executing { "Đang thực thi..."@ } else { "Sẵn sàng"@ },
{
    if is_executing {
        String::from_str("Đang thực thi...")
    } else {
        String::from_str("Sẵn sàng")
    }
}

} // verus!
