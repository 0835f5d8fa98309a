//! The entries of the explorer sidebar: each connection, the databases under
//! it, the schemas of a database, and each schema's tables and views.
use vstd::prelude::*;
use crate::connection::{ConnectionStatus, DatabaseKind};
use crate::load_state::LoadState;
use crate::sidebar_item::{DotColor, ItemIcon, SidebarMenuItem};

verus! {

/// Where a schema sits in the explorer: the positions (from 0) of its
/// connection, of its database under the connection, and of itself under the
/// database.
#[derive(Debug, Clone, Copy, PartialEq, Eq)]
pub struct SchemaPath {
    pub connection: usize,
    pub database: usize,
    pub schema: usize,
}

/// What an explorer entry asks the application to do.
#[derive(Debug, Clone)]
pub enum ExplorerAction {
    /// A connection was expanded (see `refresh_on_expand`).
    ExpandConnection { connection: usize },
    /// Load the schemas of a database.
    LoadSchemas { connection: usize, database: usize },
    /// Load the tables of a schema.
    LoadTables(SchemaPath),
    /// Load the views of a schema.
    LoadViews(SchemaPath),
    /// Open a table or view of a schema in a viewer tab.
    OpenTable { schema: SchemaPath, name: String },
    /// The "Refresh database" command.
    RefreshDatabase,
    /// A connection of the flat explorer was clicked (see
    /// `DatabaseConnection::wants_refresh_on_click`).
    ClickConnection { connection: usize },
    /// Open a table of a flat explorer's connection in a viewer tab.
    OpenConnectionTable { connection: usize, name: String },
}

/// The icon of a connection's database kind.
pub open spec fn kind_icon(kind: DatabaseKind) -> ItemIcon {
    match kind {
        DatabaseKind::Sqlite => ItemIcon::Sqlite,
        DatabaseKind::Postgres => ItemIcon::Postgres,
    }
}

/// The colour of a connection's status dot: yellow while connecting, green
/// online, muted when disconnected, red after an error.
pub open spec fn status_dot_spec(status: ConnectionStatus) -> DotColor {
    match status {
        ConnectionStatus::Connecting => DotColor::Yellow,
        ConnectionStatus::Online => DotColor::Green,
        ConnectionStatus::Disconnected => DotColor::Muted,
        ConnectionStatus::Error(_) => DotColor::Red,
    }
}

pub fn status_dot(status: &ConnectionStatus) -> (r: DotColor)
    ensures
        r == status_dot_spec(*status),
{
    match status {
        ConnectionStatus::Connecting => DotColor::Yellow,
        ConnectionStatus::Online => DotColor::Green,
        ConnectionStatus::Disconnected => DotColor::Muted,
        ConnectionStatus::Error(_) => DotColor::Red,
    }
}

/// Expanding a connection refreshes its databases only when it has none yet
/// and is online.
pub fn refresh_on_expand(has_databases: bool, status: &ConnectionStatus) -> (r: bool)
    ensures
        r == (!has_databases && *status is Online),
{
    !has_databases && status.is_connected()
}

/// An entry with no actions, children, suffix or context menu, not indented,
/// loading, active, open or disabled: what `new` gives, apart from its label,
/// icon and double-click setting.
pub open spec fn plain_flags(item: SidebarMenuItem<ExplorerAction>) -> bool {
    &&& item.handler is None
    &&& !item.indented
    &&& !item.active
    &&& !item.default_open
    &&& item.suffix is None
    &&& !item.disabled
    &&& item.context_menu@.len() == 0
}

/// The entry of a table or view: indented, with the table icon, opened in a
/// viewer tab on a double click instead of expanding.
pub open spec fn is_table_item(item: SidebarMenuItem<ExplorerAction>, path: SchemaPath, name: Seq<char>) -> bool {
    &&& item.label@ == name
    &&& item.icon == Some(ItemIcon::Table)
    &&& item.indented
    &&& !item.double_click_to_expand
    &&& (item.on_double_click matches Some(ExplorerAction::OpenTable { schema, name: n }) && schema
        == path && n@ == name)
    &&& item.on_expand is None
    &&& !item.loading
    &&& item.children@.len() == 0
    &&& item.handler is None
    &&& !item.active
    &&& !item.default_open
    &&& item.suffix is None
    &&& !item.disabled
    &&& item.context_menu@.len() == 0
}

/// The entries of these tables or views, in order.
pub open spec fn are_table_items(items: Seq<SidebarMenuItem<ExplorerAction>>, path: SchemaPath, names: Seq<String>) -> bool {
    &&& items.len() == names.len()
    &&& forall|i: int| 0 <= i < items.len() ==> is_table_item(#[trigger] items[i], path, names[i]@)
}

/// The names a fetch brought, when it is done.
pub open spec fn loaded_names(state: LoadState<Vec<String>>) -> Seq<String> {
    match state {
        LoadState::Loaded(v) => v@,
        _ => Seq::empty(),
    }
}

/// The "Tables" or "Views" group of a schema: a folder that spins while its
/// list loads, loads the list when expanded, and holds an entry for each name
/// once the list is loaded.
pub open spec fn is_group_item(
    item: SidebarMenuItem<ExplorerAction>,
    label: Seq<char>,
    state: LoadState<Vec<String>>,
    path: SchemaPath,
    load_tables: bool,
) -> bool {
    &&& item.label@ == label
    &&& item.icon == Some(ItemIcon::Folder)
    &&& item.loading == (state is Loading)
    &&& item.double_click_to_expand
    &&& item.on_double_click is None
    &&& (if load_tables {
        item.on_expand matches Some(ExplorerAction::LoadTables(p)) && p == path
    } else {
        item.on_expand matches Some(ExplorerAction::LoadViews(p)) && p == path
    })
    &&& are_table_items(item.children@, path, loaded_names(state))
    &&& plain_flags(item)
}

/// Builds the entry of one table or view.
pub fn table_item(path: SchemaPath, name: String) -> (r: SidebarMenuItem<ExplorerAction>)
    ensures
        is_table_item(r, path, name@),
{
    let action = ExplorerAction::OpenTable { schema: path, name: name.clone() };
    SidebarMenuItem::new(name).icon(ItemIcon::Table).indented(true).double_click_to_expand(
        false,
    ).on_double_click(action)
}

fn table_items(path: SchemaPath, names: &Vec<String>) -> (r: Vec<SidebarMenuItem<ExplorerAction>>)
    ensures
        are_table_items(r@, path, names@),
{
    let mut out: Vec<SidebarMenuItem<ExplorerAction>> = Vec::new();
    let mut i: usize = 0;
    while i < names.len()
        invariant
            i <= names@.len(),
            out@.len() == i,
            forall|j: int| 0 <= j < i ==> is_table_item(#[trigger] out@[j], path, names@[j]@),
        decreases names@.len() - i,
    {
        let item = table_item(path, names[i].clone());
        out.push(item);
        i += 1;
    }
    out
}

fn group_item(
    label: &str,
    state: &LoadState<Vec<String>>,
    path: SchemaPath,
    load_tables: bool,
) -> (r: SidebarMenuItem<ExplorerAction>)
    ensures
        is_group_item(r, label@, *state, path, load_tables),
{
    let action = if load_tables {
        ExplorerAction::LoadTables(path)
    } else {
        ExplorerAction::LoadViews(path)
    };
    let group = SidebarMenuItem::new(String::from_str(label)).icon(ItemIcon::Folder).loading(
        state.is_loading(),
    ).on_expand(action);
    match state.as_loaded() {
        Some(names) => {
            let items = table_items(path, names);
            group.children(items)
        },
        None => group,
    }
}

/// Builds a schema's entry: the schema icon, and two groups, "Tables" and
/// "Views", filled from the two lists as far as they are loaded.
pub fn schema_item(
    path: SchemaPath,
    name: String,
    tables: &LoadState<Vec<String>>,
    views: &LoadState<Vec<String>>,
) -> (r: SidebarMenuItem<ExplorerAction>)
    ensures
        r.label@ == name@,
        r.icon == Some(ItemIcon::Schema),
        r.children@.len() == 2,
        is_group_item(r.children@[0], "Tables"@, *tables, path, true),
        is_group_item(r.children@[1], "Views"@, *views, path, false),
        r.double_click_to_expand,
        r.on_double_click is None,
        r.on_expand is None,
        !r.loading,
        plain_flags(r),
{
    let tables_group = group_item("Tables", tables, path, true);
    let views_group = group_item("Views", views, path, false);
    let mut groups: Vec<SidebarMenuItem<ExplorerAction>> = Vec::new();
    groups.push(tables_group);
    groups.push(views_group);
    SidebarMenuItem::new(name).icon(ItemIcon::Schema).children(groups)
}

/// Builds a database's entry: the database icon, a spinner while its schemas
/// load, loading the schemas when expanded, and the given schema entries.
pub fn database_item(
    connection: usize,
    database: usize,
    name: String,
    schemas_loading: bool,
    schemas: Vec<SidebarMenuItem<ExplorerAction>>,
) -> (r: SidebarMenuItem<ExplorerAction>)
    ensures
        r.label@ == name@,
        r.icon == Some(ItemIcon::Database),
        r.loading == schemas_loading,
        r.double_click_to_expand,
        r.on_double_click is None,
        r.on_expand matches Some(ExplorerAction::LoadSchemas { connection: c, database: d }) && c
            == connection && d == database,
        r.children@ == schemas@,
        plain_flags(r),
{
    SidebarMenuItem::new(name).icon(ItemIcon::Database).double_click_to_expand(true).loading(
        schemas_loading,
    ).on_expand(ExplorerAction::LoadSchemas { connection, database }).children(schemas)
}

/// Builds a connection's entry: the icon of its kind, a spinner while
/// connecting, the status dot, the "Refresh database" context menu, expanding
/// it asks for its databases, and the given database entries.
pub fn connection_item(
    connection: usize,
    name: String,
    kind: DatabaseKind,
    status: &ConnectionStatus,
    databases: Vec<SidebarMenuItem<ExplorerAction>>,
) -> (r: SidebarMenuItem<ExplorerAction>)
    ensures
        r.label@ == name@,
        r.icon == Some(kind_icon(kind)),
        r.loading == (*status is Connecting),
        r.double_click_to_expand,
        r.on_double_click is None,
        r.on_expand matches Some(ExplorerAction::ExpandConnection { connection: c }) && c
            == connection,
        r.suffix == Some(status_dot_spec(*status)),
        r.context_menu@.len() == 1,
        r.context_menu@[0].0@ == "Refresh database"@,
        r.context_menu@[0].1 is RefreshDatabase,
        r.children@ == databases@,
        r.handler is None,
        !r.indented,
        !r.active,
        !r.default_open,
        !r.disabled,
{
    let icon = match kind {
        DatabaseKind::Sqlite => ItemIcon::Sqlite,
        DatabaseKind::Postgres => ItemIcon::Postgres,
    };
    let mut menu: Vec<(String, ExplorerAction)> = Vec::new();
    menu.push((String::from_str("Refresh database"), ExplorerAction::RefreshDatabase));
    SidebarMenuItem::new(name).icon(icon).loading(status.is_connecting()).double_click_to_expand(
        true,
    ).on_expand(ExplorerAction::ExpandConnection { connection }).suffix(status_dot(status)).context_menu(
        menu,
    ).children(databases)
}

/// The entry of a table in the flat explorer: opened in a viewer tab on a
/// click.
pub open spec fn is_flat_table_item(item: SidebarMenuItem<ExplorerAction>, connection: usize, name: Seq<char>) -> bool {
    &&& item.label@ == name
    &&& item.icon == Some(ItemIcon::Table)
    &&& (item.handler matches Some(ExplorerAction::OpenConnectionTable { connection: c, name: n })
        && c == connection && n@ == name)
    &&& item.double_click_to_expand
    &&& item.on_double_click is None
    &&& item.on_expand is None
    &&& !item.loading
    &&& item.children@.len() == 0
    &&& !item.indented
    &&& !item.active
    &&& !item.default_open
    &&& item.suffix is None
    &&& !item.disabled
    &&& item.context_menu@.len() == 0
}

/// Builds a connection's entry in the flat explorer, where a connection
/// lists its tables directly: the database icon, a spinner while connecting,
/// a click that may refresh its tables, the "Refresh database" context menu,
/// and one entry per table.
pub fn flat_connection_item(
    connection: usize,
    name: String,
    status: &ConnectionStatus,
    tables: &Vec<String>,
) -> (r: SidebarMenuItem<ExplorerAction>)
    ensures
        r.label@ == name@,
        r.icon == Some(ItemIcon::Database),
        r.loading == (*status is Connecting),
        r.double_click_to_expand,
        r.handler matches Some(ExplorerAction::ClickConnection { connection: c }) && c == connection,
        r.on_double_click is None,
        r.on_expand is None,
        r.context_menu@.len() == 1,
        r.context_menu@[0].0@ == "Refresh database"@,
        r.context_menu@[0].1 is RefreshDatabase,
        r.children@.len() == tables@.len(),
        forall|i: int| 0 <= i < tables@.len() ==> is_flat_table_item(#[trigger] r.children@[i], connection, tables@[i]@),
        r.suffix is None,
        !r.indented,
        !r.active,
        !r.default_open,
        !r.disabled,
{
    let mut children: Vec<SidebarMenuItem<ExplorerAction>> = Vec::new();
    let mut i: usize = 0;
    while i < tables.len()
        invariant
            i <= tables@.len(),
            children@.len() == i,
            forall|j: int| 0 <= j < i ==> is_flat_table_item(#[trigger] children@[j], connection, tables@[j]@),
        decreases tables@.len() - i,
    {
        let t = tables[i].clone();
        let action = ExplorerAction::OpenConnectionTable { connection, name: t.clone() };
        children.push(SidebarMenuItem::new(t).icon(ItemIcon::Table).on_click(action));
        i += 1;
    }
    let mut menu: Vec<(String, ExplorerAction)> = Vec::new();
    menu.push((String::from_str("Refresh database"), ExplorerAction::RefreshDatabase));
    SidebarMenuItem::new(name).icon(ItemIcon::Database).double_click_to_expand(true).loading(
        status.is_connecting(),
    ).on_click(ExplorerAction::ClickConnection { connection }).context_menu(menu).children(children)
}

} // verus!
