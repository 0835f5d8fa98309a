use truyvansql::cli_table::{execution_report, format_value, parse_cli_input, print_table, CliCommand, Value};
use truyvansql::connection::{ChildrenRequest, ConnectionChildren, ConnectionStatus, DatabaseConnection, DatabaseKind};
use truyvansql::connection_form::{
    connection_settings, kind_from_label, port_typing_error, validate_form, ConnectionCategory,
    ConnectionSettings, FormField,
};
use truyvansql::connection_model::DatabaseConnection as MetaConnection;
use truyvansql::connection_store::ConnectionStore;
use truyvansql::load_state::{EngineError, LoadState};
use truyvansql::nodes::{DatabaseNode, SchemaNode};
use truyvansql::query_session::{OutputContent, QueryResult, QuerySession};
use truyvansql::query_table::QueryTableDelegate;
use truyvansql::schema::{Column, Row};
use truyvansql::tab_manager::TabManager;

#[test]
fn tabs_open_close_and_select() {
    let mut m: TabManager<&str> = TabManager::new();
    assert!(m.active_tab().is_none());
    m.open_tab("a");
    m.open_tab("b");
    m.open_tab("c");
    assert_eq!(m.active_index(), Some(2));
    m.select_tab(0);
    assert_eq!(m.active_tab(), Some(&"a"));
    m.select_tab(9);
    assert_eq!(m.active_index(), Some(0));
    m.close_tab(1);
    assert_eq!(m.tabs(), &["a", "c"]);
    assert_eq!(m.active_index(), Some(0));
    m.select_tab(1);
    m.close_tab(0);
    assert_eq!(m.active_tab(), Some(&"c"));
    m.close_tab(5);
    assert_eq!(m.tabs().len(), 1);
    m.close_tab(0);
    assert_eq!(m.active_index(), None);
    m.open_tab("d");
    m.close_tab(0);
    assert!(m.tabs().is_empty());
}

#[test]
fn closing_a_tab_before_the_active_one() {
    let mut m: TabManager<u32> = TabManager::new();
    for t in [10, 20, 30] {
        m.open_tab(t);
    }
    m.select_tab(1);
    m.close_tab(0);
    assert_eq!(m.active_tab(), Some(&30));
}

#[test]
fn connection_store_keeps_a_valid_active_connection() {
    let mut s: ConnectionStore<&str> = ConnectionStore::new();
    assert!(s.active_connection().is_none());
    s.push_connection("x");
    assert_eq!(s.active_connection(), Some(&"x"));
    s.push_connection("y");
    assert_eq!(s.active_connection(), Some(&"x"));
    s.set_active(1);
    s.set_active(7);
    assert_eq!(s.active_connection(), Some(&"y"));
    s.remove_connection(1);
    assert_eq!(s.active_connection(), Some(&"x"));
    s.remove_connection(3);
    s.remove_connection(0);
    assert!(s.active_connection().is_none());
    assert!(s.connections().is_empty());
}

#[test]
fn connection_lifecycle() {
    let mut c: DatabaseConnection<u8, &str, &str> = DatabaseConnection::new("db".to_string(), lite());
    assert!(c.status.is_disconnected());
    assert!(c.children_request().is_none());
    assert!(c.begin_connect());
    assert!(c.status.is_connecting());
    assert!(!c.begin_connect());
    assert!(!c.finish_connect(Err("refused".to_string())));
    assert!(c.status == ConnectionStatus::Error("refused".to_string()) && c.status.is_error());
    assert!(c.begin_connect());
    assert!(c.finish_connect(Ok(7)));
    assert!(c.status.is_connected());
    assert!(matches!(c.children_request(), Some(ChildrenRequest::ListSchemas)));
    c.finish_load_schemas(Ok(vec!["main"]));
    assert!(matches!(&c.children, ConnectionChildren::Schemas(v) if v == &vec!["main"]));
    c.finish_load_schemas(Err("io".to_string()));
    assert_eq!(c.status, ConnectionStatus::Error("Không thể tải schemas: io".to_string()));
    c.disconnect();
    assert!(c.client.is_none() && c.status.is_disconnected());
    let mut p: DatabaseConnection<u8, &str, &str> = DatabaseConnection::new("pg".to_string(), pg());
    p.begin_connect();
    p.finish_connect(Ok(1));
    assert!(matches!(p.refresh_databases(), Some(ChildrenRequest::ListDatabases)));
    p.finish_load_databases(Ok(vec!["postgres"]));
    assert!(matches!(&p.children, ConnectionChildren::Databases(v) if v.len() == 1));
    p.finish_load_databases(Err("x".to_string()));
    assert_eq!(p.status, ConnectionStatus::Error("Không thể tải databases: x".to_string()));
}

#[test]
fn metadata_connection() {
    let mut c: MetaConnection<u8, &str> = MetaConnection::new("m".to_string());
    assert!(!c.refresh_metadata());
    assert!(c.begin_connect());
    c.finish_connect(Ok((3, vec!["t1"], vec!["v1".to_string()])));
    assert!(c.status.is_connected() && c.refresh_metadata());
    assert!(!c.wants_refresh_on_click());
    c.finish_refresh(vec![], vec![]);
    assert!(c.wants_refresh_on_click());
    c.disconnect();
    assert!(c.tables.is_empty() && !c.refresh_metadata());
    c.begin_connect();
    c.finish_connect(Err("e".to_string()));
    assert_eq!(c.status, ConnectionStatus::Error("e".to_string()));
}

#[test]
fn nodes_load_once() {
    let mut d: DatabaseNode<u8, &str> = DatabaseNode::new("db".to_string(), None);
    assert!(d.is_idle());
    assert!(d.load_schemas());
    assert!(!d.load_schemas());
    d.finish_load_schemas(Err(EngineError { message: "down".to_string() }));
    assert_eq!(d.schemas_state.as_error().map(|e| e.message.clone()), Some("down".to_string()));
    assert!(!d.load_schemas());
    let mut s: SchemaNode<&str> = SchemaNode::new("public".to_string(), "db".to_string());
    assert!(s.is_idle());
    assert!(s.load_tables());
    assert!(!s.is_idle());
    s.finish_load_tables::<String>(Ok(vec!["t"]));
    assert_eq!(s.tables_state.as_loaded(), Some(&vec!["t"]));
    assert!(s.load_views());
    assert!(!s.load_views());
    s.finish_load_views(Err("no views".to_string()));
    assert_eq!(s.views_state.as_loaded(), Some(&vec![]));
    assert_eq!((s.schema_name.as_str(), s.db_name.as_str()), ("public", "db"));
    let mut l: LoadState<u32> = LoadState::Loaded(1);
    if let Some(x) = l.as_loaded_mut() {
        *x = 2;
    }
    assert_eq!(l.as_loaded(), Some(&2));
    assert!(!l.begin_load() && !l.is_loading());
    let mut i: LoadState<u32> = LoadState::Idle;
    assert!(i.as_loaded_mut().is_none() && i.begin_load() && i.is_loading());
}

#[test]
fn query_session_flow() {
    let mut q = QuerySession::new();
    assert!(!q.execute("   ", &ConnectionStatus::Online, true));
    assert!(matches!(q.output, OutputContent::Empty));
    assert!(!q.execute("select 1", &ConnectionStatus::Connecting, true));
    assert!(matches!(&q.output, OutputContent::Error(m) if m == "Database chưa kết nối."));
    assert!(!q.execute("select 1", &ConnectionStatus::Online, false));
    assert!(q.execute("select 1", &ConnectionStatus::Online, true));
    assert!(q.is_executing && matches!(q.output, OutputContent::Empty));
    assert!(!q.finish_execute("insert into t values (1)", Ok(QueryResult::Execution { rows_affected: 3, last_insert_rowid: Some(-12) })));
    assert!(!q.is_executing);
    assert!(matches!(&q.output, OutputContent::Execution { text } if text == "3 rows affected\nlast_insert_rowid: -12"));
    assert!(q.finish_execute(" create table t(x)", Ok(QueryResult::Execution { rows_affected: 0, last_insert_rowid: None })));
    assert!(matches!(&q.output, OutputContent::Execution { text } if text == "0 rows affected"));
    assert!(q.finish_execute("drop table", Err("syntax".to_string())));
    assert!(matches!(&q.output, OutputContent::Error(m) if m == "syntax"));
    assert!(!q.finish_execute("select 1", Ok(QueryResult::Query { columns: vec![], rows: vec![] })));
    assert!(matches!(&q.output, OutputContent::Query { .. }));
}

#[test]
fn query_table_shows_null_and_bounds() {
    let cols = vec![Column { name: "a".to_string(), declared_type: None }];
    let rows = vec![Row { values: vec![Some("1".to_string())] }, Row { values: vec![None] }];
    let t = QueryTableDelegate::new(&cols, &rows);
    assert_eq!(t.columns_count(), 1);
    assert_eq!(t.rows_count(), 2);
    assert_eq!(t.cell_text(0, 0), "1");
    assert_eq!(t.cell_text(1, 0), "NULL");
    assert_eq!(t.cell_text(2, 0), "");
    assert_eq!(QueryTableDelegate::empty().rows_count(), 0);
}

#[test]
fn cli_table_printing() {
    let cols = vec![
        Column { name: "id".to_string(), declared_type: None },
        Column { name: "name".to_string(), declared_type: None },
    ];
    let rows = vec![
        vec![Some(Value::Integer(1)), Some(Value::Text("Alice".to_string()))],
        vec![Some(Value::Integer(-20)), None],
        vec![Some(Value::Blob(vec![1, 2, 3])), Some(Value::Float("2.5".to_string()))],
    ];
    let out = print_table(&cols, &rows);
    let expected = "| id        | name  |\n\
                    |-----------|-------|\n\
                    | 1         | Alice |\n\
                    | -20       | NULL  |\n\
                    | <3 bytes> | 2.5   |\n\
                    (3 rows)\n\n";
    assert_eq!(out, expected);
}

#[test]
fn cli_table_widths_count_bytes_and_pad_chars() {
    let cols = vec![Column { name: "é".to_string(), declared_type: None }];
    let rows: Vec<Vec<Option<Value>>> = vec![vec![Some(Value::Text("ab".to_string()))]];
    // "é" is 2 bytes: width 2; "é" is one char so it is padded with one space
    assert_eq!(print_table(&cols, &rows), "| é  |\n|----|\n| ab |\n(1 rows)\n\n");
    assert_eq!(print_table(&cols, &[]), "| é  |\n|----|\n(0 rows)\n\n");
}

#[test]
fn cli_values_and_commands() {
    assert_eq!(format_value(&Value::Integer(i64::MIN)), i64::MIN.to_string());
    assert_eq!(format_value(&Value::Blob(vec![])), "<0 bytes>");
    assert_eq!(format_value(&Value::Text("t".to_string())), "t");
    assert!(matches!(parse_cli_input("  EXIT \n"), CliCommand::Exit));
    assert!(matches!(parse_cli_input("Quit"), CliCommand::Exit));
    assert!(matches!(parse_cli_input(" \n"), CliCommand::Skip));
    assert!(matches!(parse_cli_input(" select 1; \n"), CliCommand::Run(ref q) if q == "select 1;"));
    assert_eq!(execution_report(2, Some(5)), "2 rows affected\nlast_insert_rowid: 5\n\n");
    assert_eq!(execution_report(0, None), "0 rows affected\n\n");
}

#[test]
fn connection_form_checks() {
    assert!(matches!(kind_from_label("SQLite"), Some(DatabaseKind::Sqlite)));
    assert!(matches!(kind_from_label("PostgreSQL"), Some(DatabaseKind::Postgres)));
    assert!(kind_from_label("MySQL").is_none());
    assert_eq!(port_typing_error("54a2"), Some("Port chỉ được nhập số".to_string()));
    assert_eq!(port_typing_error(""), None);
    assert_eq!(port_typing_error("5432"), None);
    let ok = validate_form("local", ConnectionCategory::NetworkBased, "h", " 5432 ", "u", "d", false);
    assert!(ok.is_empty());
    let errs = validate_form(" ", ConnectionCategory::NetworkBased, "", "0", "", " ", false);
    let fields: Vec<FormField> = errs.iter().map(|e| e.0).collect();
    assert!(matches!(fields.as_slice(), [FormField::Name, FormField::Host, FormField::Port, FormField::User, FormField::Database]));
    assert_eq!(errs[2].1, "Port phải là số từ 1 đến 65535");
    let errs = validate_form("n", ConnectionCategory::NetworkBased, "h", "  ", "u", "d", false);
    assert_eq!(errs.len(), 1);
    assert_eq!(errs[0].1, "Port không được để trống");
    let errs = validate_form("n", ConnectionCategory::NetworkBased, "h", "70000", "u", "d", false);
    assert_eq!(errs[0].1, "Port phải là số từ 1 đến 65535");
    let errs = validate_form("n", ConnectionCategory::FileBased, "", "", "", "", false);
    assert!(matches!(errs.as_slice(), [(FormField::File, m)] if m == "Vui lòng chọn file SQLite"));
    assert!(validate_form("n", ConnectionCategory::FileBased, "", "", "", "", true).is_empty());
    let errs = validate_form("", ConnectionCategory::FileBased, "", "", "", "", true);
    assert_eq!(errs[0].1, "Tên kết nối không được để trống");
}

#[test]
fn connection_settings_defaults() {
    match connection_settings(DatabaseKind::Sqlite, ConnectionCategory::FileBased, Some("/tmp/a.db"),
        String::new(), "", String::new(), String::new(), String::new(), 0, String::new()) {
        ConnectionSettings::Sqlite { url } => assert_eq!(url, "sqlite:/tmp/a.db"),
        _ => panic!(),
    }
    match connection_settings(DatabaseKind::Sqlite, ConnectionCategory::FileBased, None,
        String::new(), "", String::new(), String::new(), String::new(), 0, String::new()) {
        ConnectionSettings::Sqlite { url } => assert_eq!(url, "sqlite::memory:"),
        _ => panic!(),
    }
    match connection_settings(DatabaseKind::Postgres, ConnectionCategory::NetworkBased, None,
        String::new(), "x", String::new(), "pw".to_string(), "db".to_string(), 5432, "postgres".to_string()) {
        ConnectionSettings::Network { host, port, user, password, database, .. } => {
            assert_eq!((host.as_str(), port, user.as_str(), password.as_str(), database.as_str()),
                ("localhost", 5432, "postgres", "pw", "db"));
        }
        _ => panic!(),
    }
    match connection_settings(DatabaseKind::Postgres, ConnectionCategory::NetworkBased, None,
        "h".to_string(), "6000", "me".to_string(), String::new(), String::new(), 5432, "postgres".to_string()) {
        ConnectionSettings::Network { host, port, user, .. } => {
            assert_eq!((host.as_str(), port, user.as_str()), ("h", 6000, "me"));
        }
        _ => panic!(),
    }
}

#[test]
fn adding_a_connection_starts_connecting_it() {
    let mut s: ConnectionStore<DatabaseConnection<u8, DatabaseNode<u8, SchemaNode<String>>, SchemaNode<String>>> =
        ConnectionStore::new();
    s.add_connection("local".to_string(), lite());
    s.add_connection("pg".to_string(), pg());
    assert_eq!(s.connections().len(), 2);
    let c = &s.connections()[1];
    assert_eq!(c.name, "pg");
    assert!(c.status.is_connecting() && c.client.is_none());
    assert_eq!(c.kind, DatabaseKind::Postgres);
    assert!(matches!(&c.config, ConnectionSettings::Network { host, port: 5432, .. } if host == "localhost"));
    assert_eq!(s.connections()[0].kind, DatabaseKind::Sqlite);
    assert_eq!(s.active_connection().map(|c| c.name.as_str()), Some("local"));
}

#[test]
fn listed_children_become_fresh_nodes() {
    let mut c: DatabaseConnection<u8, DatabaseNode<u8, SchemaNode<String>>, SchemaNode<String>> =
        DatabaseConnection::new("f".to_string(), lite());
    c.begin_connect();
    c.finish_connect(Ok(4));
    c.finish_list_schemas(Ok(vec!["main".to_string(), "temp".to_string()]));
    match &c.children {
        ConnectionChildren::Schemas(v) => {
            assert_eq!(v.len(), 2);
            assert_eq!((v[1].schema_name.as_str(), v[1].db_name.as_str()), ("temp", "main"));
            assert!(v[1].is_idle());
        }
        _ => panic!("expected schemas"),
    }
    c.finish_list_schemas(Err("locked".to_string()));
    assert_eq!(c.status, ConnectionStatus::Error("Không thể tải schemas: locked".to_string()));
    let mut p: DatabaseConnection<u8, DatabaseNode<u8, SchemaNode<String>>, SchemaNode<String>> =
        DatabaseConnection::new("pg".to_string(), pg());
    p.begin_connect();
    p.finish_connect(Ok(9));
    p.finish_list_databases(Ok(vec!["shop".to_string()]));
    match &p.children {
        ConnectionChildren::Databases(v) => {
            assert_eq!(v.len(), 1);
            assert_eq!(v[0].database_name, "shop");
            assert_eq!(v[0].client, Some(9));
            assert!(v[0].is_idle());
        }
        _ => panic!("expected databases"),
    }
}

#[test]
fn a_database_node_connects_then_lists_its_schemas() {
    let mut d: DatabaseNode<u8, SchemaNode<String>> = DatabaseNode::new("shop".to_string(), None);
    assert!(d.load_schemas());
    assert!(d.needs_connect());
    assert!(d.finish_connect(Ok(5)));
    assert_eq!(d.client, Some(5));
    d.schemas_listed(Ok(vec!["public".to_string()]));
    let v = d.schemas_state.as_loaded().expect("loaded");
    assert_eq!((v[0].schema_name.as_str(), v[0].db_name.as_str()), ("public", "shop"));
    let mut e: DatabaseNode<u8, SchemaNode<String>> = DatabaseNode::new("x".to_string(), Some(1));
    assert!(!e.needs_connect());
    e.load_schemas();
    e.schemas_listed(Err(EngineError { message: "denied".to_string() }));
    assert_eq!(e.schemas_state.as_loaded().map(|v| v.len()), Some(0));
    let mut f: DatabaseNode<u8, SchemaNode<String>> = DatabaseNode::new("y".to_string(), None);
    f.load_schemas();
    assert!(!f.finish_connect(Err(EngineError { message: "down".to_string() })));
    assert!(f.schemas_state.is_error() && f.client.is_none());
}

fn lite() -> ConnectionSettings {
    ConnectionSettings::Sqlite { url: "sqlite::memory:".to_string() }
}

fn pg() -> ConnectionSettings {
    ConnectionSettings::Network {
        kind: DatabaseKind::Postgres,
        host: "localhost".to_string(),
        port: 5432,
        user: "postgres".to_string(),
        password: String::new(),
        database: "postgres".to_string(),
    }
}
