# truyvansql

The verified core of TruyVanSQL, a desktop SQL client for SQLite and
PostgreSQL. Every function under `src/` is checked by Verus against its
`requires`/`ensures` contract.

- `src/` — the library: text and number grammars (`text`, `numeric`,
  `sql_value`), the editable data grid (`grid_state`, `pending`,
  `grid_delegate`, `state`), the change scripts built from it
  (`changes`, `script_generator`, `data_changeset`), tabs and connections
  (`tab_manager`, `tab`, `tab_info`, `connection_store`, `connection`,
  `connection_model`, `nodes`, `load_state`), the explorer tree
  (`sidebar_item`, `explorer`), the connection form (`connection_form`),
  the SQL editor session and its results (`query_session`, `query_table`,
  `results`), the title bar and theme (`titlebar`, `theme`), the workspace
  commands (`workspace`) and the command-line table printer (`cli_table`).
- `tests/` — tests run against the compiled library.
- `app/` — the command-line runner (terminal I/O and the database engine)
  and error types with `Display` for reporting.
