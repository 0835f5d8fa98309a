use truyvansql::connection::{ConnectionStatus, DatabaseKind};
use truyvansql::connection_form::{
    ConnectionCategory, ConnectionForm, ConnectionSettings, FieldNote, FormErrors, FormField,
    InputField, KindDefaults,
};
use truyvansql::explorer::{
    connection_item, database_item, flat_connection_item, refresh_on_expand, schema_item,
    status_dot, table_item, ExplorerAction, SchemaPath,
};
use truyvansql::grid_delegate::GridDelegate;
use truyvansql::grid_state::{delete_target, GridDataSource, GridState};
use truyvansql::load_state::{EngineError, LoadState};
use truyvansql::query_session::OutputContent;
use truyvansql::results::{results_table, results_view, ResultsView};
use truyvansql::schema::{Column, Row};
use truyvansql::sidebar_item::{
    CaretView, ClickOutcome, DotColor, ItemIcon, ItemInteraction, SidebarMenuItem,
};
use truyvansql::tab::{
    mouse_down_action, style_disabled, style_hovered, style_normal, style_selected, tab_bar_hidden,
    tab_bar_tabs, MouseButton, Tab, TabBarAction, TabIconView, TabStyle, ThemeColor,
};
use truyvansql::tab_info::{TabIcon, TabInfo};
use truyvansql::theme::{toggle_dark_light, ActiveTheme, ThemeMode, DEFAULT_THEME_NAME};
use truyvansql::titlebar::{
    maximize_icon, shows_window_controls, theme_menu, theme_toggle_icon, BarIcon, Titlebar,
    TitlebarEvent, WindowCommand,
};
use truyvansql::workspace::{
    empty_workspace_lines, file_connection, in_memory_connection, new_query_connection,
};

const NONE: ClickOutcome = ClickOutcome { run_expand: false, run_double_click: false, run_click: false };

fn expandable() -> SidebarMenuItem<u32> {
    SidebarMenuItem::new("db".to_string()).on_expand(7).on_double_click(8).on_click(9)
}

#[test]
fn a_new_entry_opens_on_double_click_and_has_a_caret() {
    let item: SidebarMenuItem<u32> = SidebarMenuItem::new("x".to_string());
    assert!(item.double_click_to_expand);
    assert!(item.needs_caret());
    assert!(item.has_double_click());
    assert!(!item.is_submenu());
    let leaf: SidebarMenuItem<u32> = SidebarMenuItem::new("t".to_string()).double_click_to_expand(false);
    assert!(!leaf.needs_caret());
    assert!(!leaf.has_double_click());
    let with_child = leaf.children(vec![SidebarMenuItem::new("c".to_string())]);
    assert!(with_child.is_submenu() && with_child.needs_caret());
}

#[test]
fn a_quick_second_click_is_a_double_click_that_opens_the_entry() {
    let item = expandable();
    let mut st = ItemInteraction::new(&item);
    assert!(!st.open);
    let first = st.click(&item, 10_000);
    assert_eq!(first, ClickOutcome { run_expand: false, run_double_click: false, run_click: true });
    assert_eq!(st.last_click_ms, 10_000);
    let second = st.click(&item, 10_299);
    assert_eq!(second, ClickOutcome { run_expand: true, run_double_click: true, run_click: false });
    assert!(st.open);
    assert_eq!(st.last_click_ms, 0);
    // a double click on an open entry closes it without expanding
    st.click(&item, 20_000);
    let again = st.click(&item, 20_100);
    assert_eq!(again, ClickOutcome { run_expand: false, run_double_click: true, run_click: false });
    assert!(!st.open);
}

#[test]
fn clicks_three_hundred_ms_apart_are_single_clicks() {
    let item = expandable();
    let mut st = ItemInteraction::new(&item);
    st.click(&item, 5_000);
    let second = st.click(&item, 5_300);
    assert_eq!(second, ClickOutcome { run_expand: false, run_double_click: false, run_click: true });
    assert!(!st.open);
    assert_eq!(st.last_click_ms, 5_300);
}

#[test]
fn an_entry_without_double_click_ignores_clicks_and_a_disabled_one_too() {
    let plain: SidebarMenuItem<u32> =
        SidebarMenuItem::new("p".to_string()).double_click_to_expand(false).on_click(1);
    let mut st = ItemInteraction::new(&plain);
    assert_eq!(st.click(&plain, 1_000), NONE);
    assert_eq!(st.last_click_ms, 0);
    let disabled = expandable().disable(true);
    let mut st = ItemInteraction::new(&disabled);
    assert_eq!(st.click(&disabled, 1_000), NONE);
    assert_eq!(st.click(&disabled, 1_001), NONE);
    assert!(!st.open);
}

#[test]
fn a_double_click_on_a_table_runs_its_action_without_opening() {
    let item: SidebarMenuItem<u32> =
        SidebarMenuItem::new("t".to_string()).double_click_to_expand(false).on_double_click(3);
    let mut st = ItemInteraction::new(&item);
    st.click(&item, 400);
    let r = st.click(&item, 450);
    assert_eq!(r, ClickOutcome { run_expand: false, run_double_click: true, run_click: false });
    assert!(!st.open);
}

#[test]
fn two_caret_clicks_restore_the_entry_and_expand_once() {
    let item = expandable();
    let mut st = ItemInteraction::new(&item);
    let before = st;
    assert!(st.caret_click(&item));
    assert!(st.open);
    assert!(!st.caret_click(&item));
    assert_eq!(st, before);
    let loading = expandable().loading(true);
    let mut st = ItemInteraction::new(&loading);
    assert!(!st.caret_click(&loading));
    assert!(!st.open);
}

#[test]
fn an_entry_is_drawn_by_its_flags() {
    let item = expandable().default_open(true);
    let st = ItemInteraction::new(&item);
    assert!(st.open);
    let p = item.presentation(&st);
    assert_eq!(p.caret, CaretView::Button { rotated: true });
    assert!(p.hoverable && !p.highlighted && p.clickable && p.children_visible && !p.indent);
    let busy = expandable().loading(true).active(true);
    let p = busy.presentation(&ItemInteraction::new(&busy));
    assert_eq!(p.caret, CaretView::Spinner);
    assert!(!p.hoverable && p.highlighted);
    let leaf: SidebarMenuItem<u32> =
        SidebarMenuItem::new("t".to_string()).double_click_to_expand(false).indented(true).disable(true);
    let p = leaf.presentation(&ItemInteraction::new(&leaf));
    assert_eq!(p.caret, CaretView::Hidden);
    assert!(p.indent && p.muted && !p.clickable && !p.hoverable);
}

fn path() -> SchemaPath {
    SchemaPath { connection: 1, database: 2, schema: 3 }
}

#[test]
fn a_schema_lists_its_loaded_tables_and_views() {
    let tables = LoadState::Loaded(vec!["users".to_string(), "orders".to_string()]);
    let views: LoadState<Vec<String>> = LoadState::Loading;
    let item = schema_item(path(), "public".to_string(), &tables, &views);
    assert_eq!(item.label, "public");
    assert_eq!(item.icon, Some(ItemIcon::Schema));
    assert_eq!(item.children.len(), 2);
    let t = &item.children[0];
    assert_eq!(t.label, "Tables");
    assert_eq!(t.icon, Some(ItemIcon::Folder));
    assert!(!t.loading);
    assert!(matches!(t.on_expand, Some(ExplorerAction::LoadTables(p)) if p == path()));
    assert_eq!(t.children.len(), 2);
    assert_eq!(t.children[1].label, "orders");
    assert!(t.children[1].indented && !t.children[1].double_click_to_expand);
    assert!(matches!(&t.children[1].on_double_click,
        Some(ExplorerAction::OpenTable { schema, name }) if *schema == path() && name == "orders"));
    let v = &item.children[1];
    assert_eq!(v.label, "Views");
    assert!(v.loading);
    assert!(matches!(v.on_expand, Some(ExplorerAction::LoadViews(_))));
    assert!(v.children.is_empty());
    let failed: LoadState<Vec<String>> = LoadState::Error(EngineError { message: "x".to_string() });
    let item = schema_item(path(), "s".to_string(), &failed, &failed);
    assert!(item.children[0].children.is_empty() && !item.children[0].loading);
}

#[test]
fn connections_and_databases_carry_their_state() {
    let table = table_item(path(), "t".to_string());
    assert_eq!(table.icon, Some(ItemIcon::Table));
    let db = database_item(0, 4, "shop".to_string(), true, vec![]);
    assert!(db.loading);
    assert!(matches!(db.on_expand, Some(ExplorerAction::LoadSchemas { connection: 0, database: 4 })));
    let conn = connection_item(5, "local".to_string(), DatabaseKind::Postgres, &ConnectionStatus::Connecting, vec![db]);
    assert_eq!(conn.icon, Some(ItemIcon::Postgres));
    assert!(conn.loading);
    assert_eq!(conn.suffix, Some(DotColor::Yellow));
    assert_eq!(conn.children.len(), 1);
    assert_eq!(conn.context_menu.len(), 1);
    assert_eq!(conn.context_menu[0].0, "Refresh database");
    assert!(matches!(conn.context_menu[0].1, ExplorerAction::RefreshDatabase));
    assert!(matches!(conn.on_expand, Some(ExplorerAction::ExpandConnection { connection: 5 })));
    let lite = connection_item(0, "f".to_string(), DatabaseKind::Sqlite, &ConnectionStatus::Online, vec![]);
    assert_eq!(lite.icon, Some(ItemIcon::Sqlite));
    assert!(!lite.loading);
    assert_eq!(status_dot(&ConnectionStatus::Online), DotColor::Green);
    assert_eq!(status_dot(&ConnectionStatus::Disconnected), DotColor::Muted);
    assert_eq!(status_dot(&ConnectionStatus::Error("e".to_string())), DotColor::Red);
    assert!(refresh_on_expand(false, &ConnectionStatus::Online));
    assert!(!refresh_on_expand(true, &ConnectionStatus::Online));
    assert!(!refresh_on_expand(false, &ConnectionStatus::Connecting));
}

#[test]
fn the_flat_explorer_opens_tables_on_click() {
    let item = flat_connection_item(2, "c".to_string(), &ConnectionStatus::Online, &vec!["a".to_string()]);
    assert!(matches!(item.handler, Some(ExplorerAction::ClickConnection { connection: 2 })));
    assert_eq!(item.children.len(), 1);
    assert!(matches!(&item.children[0].handler,
        Some(ExplorerAction::OpenConnectionTable { connection: 2, name }) if name == "a"));
}

#[test]
fn tab_styles_follow_the_tab_state() {
    assert_eq!(style_normal().fg, ThemeColor::TabForeground);
    assert_eq!(style_hovered(true).fg, ThemeColor::TabActiveForeground);
    assert_eq!(style_selected().bg, ThemeColor::TabActive);
    assert_eq!(style_disabled(true).border_color, ThemeColor::Border);
    assert_eq!(style_disabled(false).border_color, ThemeColor::Transparent);
    assert_eq!(TabStyle::default().border_left, 0);
    let t: Tab<u8> = Tab::new().selected(true).icon(TabIcon::Table).on_click(1);
    let v = t.view();
    assert_eq!(v.style, style_selected());
    assert_eq!(v.hover, None);
    assert_eq!(v.border_left, 1);
    assert_eq!(v.icon, TabIconView::Icon(TabIcon::Table));
    assert!(v.clickable);
    let t: Tab<u8> = Tab::new().non_border_l(true).loading(true).close_button(true);
    let v = t.view();
    assert_eq!(v.style, style_normal());
    assert_eq!(v.hover, Some(style_hovered(false)));
    assert_eq!((v.border_left, v.hover_border_left), (0, 0));
    assert_eq!(v.icon, TabIconView::Spinner);
    assert!(v.wide_right_padding && v.close_button && !v.clickable && !v.close_clickable);
    let t: Tab<u8> = Tab::new().close_button(true).on_close(4).on_click(2);
    assert!(t.view().close_clickable);
    assert_eq!(t.close_action(), Some(&4));
    assert_eq!(t.click_action(), Some(&2));
    let t: Tab<u8> = Tab::new().on_close(4).on_click(2).disabled(true);
    assert_eq!(t.close_action(), None);
    assert_eq!(t.click_action(), None);
    let t: Tab<u8> = Tab::new().disabled(true).selected(true).on_click(1);
    let v = t.view();
    assert_eq!(v.style, style_disabled(true));
    assert!(!v.clickable && v.hover.is_none());
}

#[test]
fn the_tab_bar_marks_the_active_tab_and_closes_with_the_middle_button() {
    let infos = vec![
        TabInfo { title: "SQL: a".to_string(), is_dirty: false, icon: TabIcon::FileSql },
        TabInfo { title: "users".to_string(), is_dirty: true, icon: TabIcon::Table },
    ];
    let tabs = tab_bar_tabs(&infos, Some(1));
    assert_eq!(tabs.len(), 2);
    assert_eq!(tabs[0].non_border_l, Some(true));
    assert_eq!(tabs[1].non_border_l, Some(false));
    assert!(!tabs[0].selected && tabs[1].selected);
    assert!(tabs[1].dirtied);
    assert_eq!(tabs[1].label.as_deref(), Some("users"));
    assert_eq!(tabs[1].suffix, Some(TabBarAction::Close(1)));
    assert_eq!(mouse_down_action(3, MouseButton::Left), Some(TabBarAction::Select(3)));
    assert_eq!(mouse_down_action(3, MouseButton::Middle), Some(TabBarAction::Close(3)));
    assert_eq!(mouse_down_action(3, MouseButton::Right), None);
    assert!(tab_bar_hidden(0) && !tab_bar_hidden(1));
}

#[test]
fn dragging_the_title_bar_moves_the_window_once() {
    let mut bar = Titlebar::main();
    assert_eq!(bar.handle(TitlebarEvent::MouseMove), None);
    assert_eq!(bar.handle(TitlebarEvent::LeftMouseDown), None);
    assert_eq!(bar.handle(TitlebarEvent::MouseMove), Some(WindowCommand::StartMove));
    assert_eq!(bar.handle(TitlebarEvent::MouseMove), None);
    bar.handle(TitlebarEvent::LeftMouseDown);
    bar.handle(TitlebarEvent::LeftMouseUp);
    assert_eq!(bar.handle(TitlebarEvent::MouseMove), None);
    bar.handle(TitlebarEvent::LeftMouseDown);
    bar.handle(TitlebarEvent::MouseDownOutside);
    assert!(!bar.should_move);
    assert_eq!(bar.handle(TitlebarEvent::DoubleClick), Some(WindowCommand::Zoom));
    assert_eq!(bar.dialog_title(), "");
    let dlg = Titlebar::dialog("Kết nối Database".to_string());
    assert_eq!(dlg.dialog_title(), "Kết nối Database");
}

#[test]
fn the_title_bar_icons_and_theme_menu() {
    assert_eq!(theme_toggle_icon(true), BarIcon::Sun);
    assert_eq!(theme_toggle_icon(false), BarIcon::Moon);
    assert_eq!(maximize_icon(true), BarIcon::WindowRestore);
    assert_eq!(maximize_icon(false), BarIcon::WindowMaximize);
    assert!(shows_window_controls(false) && !shows_window_controls(true));
    let menu = theme_menu(&vec!["A".to_string(), "TruyVanSQL Light".to_string()], DEFAULT_THEME_NAME);
    assert_eq!(menu, vec![("A".to_string(), false), ("TruyVanSQL Light".to_string(), true)]);
}

#[test]
fn switching_the_theme_mode_twice_gives_it_back() {
    assert_eq!(toggle_dark_light(true), ThemeMode::Light);
    assert_eq!(toggle_dark_light(false), ThemeMode::Dark);
    let mut th = ActiveTheme { light_theme: 1, dark_theme: 2, mode: ThemeMode::Light };
    th.toggle_dark_light();
    assert!(th.is_dark());
    th.toggle_dark_light();
    assert_eq!(th.mode, ThemeMode::Light);
    assert!(th.apply_theme(Some((9, ThemeMode::Dark))));
    assert_eq!((th.light_theme, th.dark_theme, th.mode), (1, 9, ThemeMode::Dark));
    assert!(!th.apply_theme(None));
    assert_eq!((th.light_theme, th.dark_theme, th.mode), (1, 9, ThemeMode::Dark));
    assert!(th.apply_theme(Some((5, ThemeMode::Light))));
    assert_eq!((th.light_theme, th.dark_theme, th.mode), (5, 9, ThemeMode::Light));
}

#[test]
fn the_results_panel_shows_each_output() {
    assert!(matches!(results_view(&OutputContent::Empty), ResultsView::Hidden));
    assert!(matches!(results_view(&OutputContent::Execution { text: "3 rows affected".to_string() }),
        ResultsView::Text(t) if t == "3 rows affected"));
    assert!(matches!(results_view(&OutputContent::Error("boom".to_string())),
        ResultsView::Error(t) if t == "Lỗi: boom"));
    let out = OutputContent::Query {
        columns: vec![Column { name: "n".to_string(), declared_type: None }],
        rows: vec![Row { values: vec![None] }, Row { values: vec![Some("2".to_string())] }],
    };
    assert!(matches!(results_view(&out), ResultsView::Table));
    let t = results_table(&out);
    assert_eq!(t.columns, vec!["n".to_string()]);
    assert_eq!(t.rows, vec![vec!["NULL".to_string()], vec!["2".to_string()]]);
    let e = results_table(&OutputContent::Empty);
    assert!(e.columns.is_empty() && e.rows.is_empty());
}

fn pg() -> KindDefaults {
    KindDefaults { port: 5432, user: "postgres".to_string(), database: "postgres".to_string() }
}

#[test]
fn the_form_opens_for_postgres() {
    let f = ConnectionForm::new();
    assert_eq!(f.selected_kind, DatabaseKind::Postgres);
    assert_eq!((f.host.as_str(), f.port.as_str(), f.user.as_str(), f.database.as_str()),
        ("localhost", "5432", "postgres", "postgres"));
    assert!(f.form_errors.is_empty());
    assert_eq!(f.test_button(), ("Kiểm tra kết nối".to_string(), false));
    assert_eq!(f.path_display(), ("Choose a file...".to_string(), true));
}

#[test]
fn typing_in_a_field_takes_its_error_away_and_the_port_takes_digits_only() {
    let mut f = ConnectionForm::new();
    f.port = "x".to_string();
    assert!(!f.validate());
    assert!(f.form_errors.get(FormField::Name).is_some());
    assert_eq!(f.form_errors.get(FormField::Port).as_deref(), Some("Port phải là số từ 1 đến 65535"));
    f.input_changed(InputField::Name, "mine".to_string());
    assert_eq!(f.name, "mine");
    assert!(f.form_errors.get(FormField::Name).is_none());
    f.input_changed(InputField::Port, "54a".to_string());
    assert_eq!(f.form_errors.get(FormField::Port).as_deref(), Some("Port chỉ được nhập số"));
    f.input_changed(InputField::Port, "5433".to_string());
    assert!(f.form_errors.get(FormField::Port).is_none());
    f.input_changed(InputField::Password, "pw".to_string());
    assert_eq!(f.password, "pw");
    assert!(f.validate());
}

#[test]
fn submitting_a_valid_form_gives_the_new_connection() {
    let mut f = ConnectionForm::new();
    f.input_changed(InputField::Name, "prod".to_string());
    f.input_changed(InputField::Host, "".to_string());
    assert!(f.submit(&pg()).is_none());
    assert!(matches!(f.field_note(FormField::Host, &pg()), FieldNote::Error(m) if m == "Host không được để trống"));
    f.input_changed(InputField::Host, "db.example".to_string());
    let (name, settings) = f.submit(&pg()).expect("valid");
    assert_eq!(name, "prod");
    match settings {
        ConnectionSettings::Network { kind, host, port, user, password, database } => {
            assert_eq!(kind, DatabaseKind::Postgres);
            assert_eq!((host.as_str(), port, user.as_str(), password.as_str(), database.as_str()),
                ("db.example", 5432, "postgres", "", "postgres"));
        }
        _ => panic!("expected a server"),
    }
}

#[test]
fn picking_sqlite_clears_errors_and_needs_a_file() {
    let mut f = ConnectionForm::new();
    f.validate();
    let lite = KindDefaults { port: 0, user: String::new(), database: String::new() };
    assert!(!f.kind_selected("MySQL", (ConnectionCategory::FileBased, &lite), (ConnectionCategory::NetworkBased, &pg())));
    assert!(!f.form_errors.is_empty());
    assert!(f.kind_selected("SQLite", (ConnectionCategory::FileBased, &lite), (ConnectionCategory::NetworkBased, &pg())));
    assert_eq!(f.selected_kind, DatabaseKind::Sqlite);
    assert!(f.form_errors.is_empty());
    assert_eq!(f.port, "5432");
    f.input_changed(InputField::Name, "local".to_string());
    assert!(f.submit(&lite).is_none());
    assert!(matches!(f.field_note(FormField::File, &lite), FieldNote::Error(m) if m == "Vui lòng chọn file SQLite"));
    f.file_chosen("/tmp/a.db".to_string());
    assert_eq!(f.path_display(), ("/tmp/a.db".to_string(), false));
    let (_, settings) = f.submit(&lite).expect("valid");
    assert!(matches!(settings, ConnectionSettings::Sqlite { url } if url == "sqlite:/tmp/a.db"));
}

#[test]
fn a_server_kind_fills_in_its_defaults() {
    let mut f = ConnectionForm::new();
    f.port = "1".to_string();
    let d = KindDefaults { port: 3306, user: "root".to_string(), database: "mysql".to_string() };
    f.kind_changed(DatabaseKind::Postgres, ConnectionCategory::NetworkBased, &d);
    assert_eq!((f.port.as_str(), f.user.as_str(), f.database.as_str()), ("3306", "root", "mysql"));
    assert!(matches!(f.field_note(FormField::Port, &d), FieldNote::Description(t) if t == "Mặc định: 3306"));
    assert!(matches!(f.field_note(FormField::Database, &d), FieldNote::Description(t) if t == "Mặc định: mysql"));
    assert!(matches!(f.field_note(FormField::Host, &d), FieldNote::Description(t) if t == "Địa chỉ máy chủ"));
    assert!(matches!(f.field_note(FormField::Name, &d), FieldNote::Description(t) if t.is_empty()));
}

#[test]
fn a_connection_test_marks_the_form_busy() {
    let mut f = ConnectionForm::new();
    let s = f.begin_test(&pg());
    assert!(matches!(s, ConnectionSettings::Network { port: 5432, .. }));
    assert_eq!(f.test_button(), ("Đang kiểm tra...".to_string(), true));
    f.finish_test();
    assert!(!f.is_testing);
}

#[test]
fn form_errors_keep_one_message_per_field() {
    let mut e = FormErrors::new();
    assert!(e.is_empty());
    e.insert(FormField::User, "a".to_string());
    e.insert(FormField::User, "b".to_string());
    assert_eq!(e.get(FormField::User).as_deref(), Some("b"));
    let list = vec![(FormField::Host, "h".to_string()), (FormField::Host, "h2".to_string())];
    let from = FormErrors::from_list(&list);
    assert_eq!(from.get(FormField::Host).as_deref(), Some("h2"));
    e.remove(FormField::User);
    assert!(e.is_empty());
}

#[test]
fn workspace_commands_build_their_connections() {
    let (name, s) = file_connection("shop.db".to_string(), "/data/shop.db");
    assert_eq!(name, "shop.db");
    assert!(matches!(s, ConnectionSettings::Sqlite { url } if url == "sqlite:/data/shop.db"));
    let (name, s) = in_memory_connection();
    assert_eq!(name, "In-Memory");
    assert!(matches!(s, ConnectionSettings::Sqlite { url } if url == "sqlite::memory:"));
    assert_eq!(new_query_connection(0), None);
    assert_eq!(new_query_connection(3), Some(0));
    let (a, b) = empty_workspace_lines();
    assert_eq!(a, "Chưa có tab nào được mở.");
    assert_eq!(b, "Chọn một database ở Explorer để bắt đầu.");
}

#[test]
fn copying_prefers_the_selected_row() {
    let mut st = GridState::new(GridDataSource::Query { source_table: None, query: "q".to_string() });
    st.set_data(
        vec![
            Column { name: "a".to_string(), declared_type: None },
            Column { name: "b".to_string(), declared_type: None },
        ],
        vec![vec![Some("1".to_string()), None]],
    );
    assert_eq!(st.rows_label(), "Rows: 1");
    let d = GridDelegate::new(st);
    assert_eq!(d.copy_selection(Some(0), Some((0, 0))), Some("1\tNULL".to_string()));
    assert_eq!(d.copy_selection(None, Some((0, 1))), Some("NULL".to_string()));
    assert_eq!(d.copy_selection(None, None), None);
    assert_eq!(delete_target(Some(4), Some((2, 1))), Some(4));
    assert_eq!(delete_target(None, Some((2, 1))), Some(2));
    assert_eq!(delete_target(None, None), None);
}
