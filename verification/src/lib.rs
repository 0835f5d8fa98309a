//! The verified core of a desktop SQL client: tab and connection bookkeeping,
//! the editable data grid with its pending changes, and the SQL change scripts
//! built from them.

pub mod text;
pub mod pending;
pub mod numeric;
pub mod sql_value;
pub mod schema;
pub mod grid_error;
pub mod grid_fetch_state;
pub mod state;
pub mod changes;
pub mod script_generator;
pub mod data_changeset;
pub mod grid_state;
pub mod tab_manager;
pub mod connection_store;
pub mod grid_delegate;
pub mod load_state;
pub mod connection;
pub mod connection_model;
pub mod nodes;
pub mod query_session;
pub mod query_table;
pub mod cli_table;
pub mod connection_form;
pub mod tab_info;
pub mod sidebar_item;
pub mod explorer;
pub mod tab;
pub mod titlebar;
pub mod results;
pub mod workspace;
pub mod theme;
