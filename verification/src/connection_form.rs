//! The new-connection form: which database kinds it offers, how its fields
//! are checked, and the settings it produces.
use vstd::prelude::*;
use crate::connection::DatabaseKind;
use crate::numeric::{parse_u16, parse_u16_spec};
use crate::text::{decimal, is_digit, push_decimal, to_chars, trim, trim_spec};

verus! {

/// A field of the form.
#[derive(Clone, Copy)]
pub enum FormField {
    Name,
    Host,
    Port,
    User,
    Database,
    File,
}

/// How a database is reached.
#[derive(Clone, Copy)]
pub enum ConnectionCategory {
    /// A file on this machine (SQLite).
    FileBased,
    /// A server (host, port, user, database).
    NetworkBased,
}

/// The kind picked from the form's list, by its label.
pub open spec fn kind_from_label_spec(label: Seq<char>) -> Option<DatabaseKind> {
    if label == "SQLite"@ {
        Some(DatabaseKind::Sqlite)
    } else if label == "PostgreSQL"@ {
        Some(DatabaseKind::Postgres)
    } else {
        None
    }
}

/// The kind picked from the form's list, by its label; `None` for any other
/// label.
pub fn kind_from_label(label: &str) -> (r: Option<DatabaseKind>)
    ensures
        r == kind_from_label_spec(label@),
{
    let l = String::from_str(label);
    if l == String::from_str("SQLite") {
        Some(DatabaseKind::Sqlite)
    } else if l == String::from_str("PostgreSQL") {
        Some(DatabaseKind::Postgres)
    } else {
        None
    }
}

/// The error shown under the port while it is typed: a non-empty value with
/// a character that is not an ASCII digit.
pub open spec fn port_typing_error_spec(val: Seq<char>) -> bool {
    val.len() > 0 && exists|i: int| 0 <= i < val.len() && !is_digit(#[trigger] val[i])
}

/// Checks the port as it is typed: `Some(message)` when it holds anything
/// but digits, `None` (no error) otherwise.
pub fn port_typing_error(val: &str) -> (r: Option<String>)
    ensures
        r is Some <==> port_typing_error_spec(val@),
        r matches Some(m) ==> m@ == "Port chỉ được nhập số"@,
{
    let v = to_chars(val);
    let mut i: usize = 0;
    while i < v.len()
        invariant
            i <= v.len(),
            v@ == val@,
            forall|j: int| 0 <= j < i ==> is_digit(#[trigger] v@[j]),
        decreases v.len() - i,
    {
        if !('0' <= v[i] && v[i] <= '9') {
            assert(!is_digit(v@[i as int]));
            return Some(String::from_str("Port chỉ được nhập số"));
        }
        i += 1;
    }
    None
}

/// One error when `cond` holds, none otherwise.
pub open spec fn error_if(cond: bool, field: FormField, msg: Seq<char>) -> Seq<(FormField, Seq<char>)> {
    if cond {
        seq![(field, msg)]
    } else {
        Seq::empty()
    }
}

/// The port error of a submitted form: blank, or not a number from 1 to
/// 65535 (after trimming).
pub open spec fn port_submit_errors(port: Seq<char>) -> Seq<(FormField, Seq<char>)> {
    let p = trim_spec(port);
    if p.len() == 0 {
        seq![(FormField::Port, "Port không được để trống"@)]
    } else {
        match parse_u16_spec(p) {
            Some(n) => if n > 0 {
                Seq::empty()
            } else {
                seq![(FormField::Port, "Port phải là số từ 1 đến 65535"@)]
            },
            None => seq![(FormField::Port, "Port phải là số từ 1 đến 65535"@)],
        }
    }
}

/// The errors of a submitted form, in field order: the name must not be
/// blank; a server needs a host, a port from 1 to 65535, a user and a
/// database; a file database needs a chosen file.
pub open spec fn form_errors_spec(
    name: Seq<char>,
    category: ConnectionCategory,
    host: Seq<char>,
    port: Seq<char>,
    user: Seq<char>,
    database: Seq<char>,
    has_file: bool,
) -> Seq<(FormField, Seq<char>)> {
    error_if(trim_spec(name).len() == 0, FormField::Name, "Tên kết nối không được để trống"@)
        + match category {
        ConnectionCategory::NetworkBased => error_if(
            trim_spec(host).len() == 0,
            FormField::Host,
            "Host không được để trống"@,
        ) + port_submit_errors(port) + error_if(
            trim_spec(user).len() == 0,
            FormField::User,
            "User không được để trống"@,
        ) + error_if(
            trim_spec(database).len() == 0,
            FormField::Database,
            "Database không được để trống"@,
        ),
        ConnectionCategory::FileBased => error_if(
            !has_file,
            FormField::File,
            "Vui lòng chọn file SQLite"@,
        ),
    }
}

/// The errors as field and message text.
pub open spec fn errors_view(v: Seq<(FormField, String)>) -> Seq<(FormField, Seq<char>)> {
    v.map_values(|e: (FormField, String)| (e.0, e.1@))
}

fn push_error_if(errors: &mut Vec<(FormField, String)>, cond: bool, field: FormField, msg: &str)
    ensures
        errors_view(final(errors)@) == errors_view(old(errors)@) + error_if(cond, field, msg@),
{
    let ghost before = errors@;
    if cond {
        errors.push((field, String::from_str(msg)));
        assert(errors_view(errors@) =~= errors_view(before) + error_if(cond, field, msg@));
    } else {
        assert(errors_view(errors@) =~= errors_view(before) + error_if(cond, field, msg@));
    }
}

/// Checks a submitted form (see `form_errors_spec`); the form is valid when
/// the list is empty.
pub fn validate_form(
    name: &str,
    category: ConnectionCategory,
    host: &str,
    port: &str,
    user: &str,
    database: &str,
    has_file: bool,
) -> (r: Vec<(FormField, String)>)
    ensures
        errors_view(r@) == form_errors_spec(name@, category, host@, port@, user@, database@, has_file),
{
    let mut errors: Vec<(FormField, String)> = Vec::new();
    let n = trim(name);
    push_error_if(&mut errors, n.as_str().is_empty(), FormField::Name, "Tên kết nối không được để trống");
    let ghost after_name = errors_view(errors@);
    match category {
        ConnectionCategory::NetworkBased => {
            let h = trim(host);
            push_error_if(&mut errors, h.as_str().is_empty(), FormField::Host, "Host không được để trống");
            let ghost after_host = errors_view(errors@);
            let p = trim(port);
            if p.as_str().is_empty() {
                push_error_if(&mut errors, true, FormField::Port, "Port không được để trống");
            } else {
                let ok = match parse_u16(p.as_str()) {
                    Some(v) => v > 0,
                    None => false,
                };
                push_error_if(&mut errors, !ok, FormField::Port, "Port phải là số từ 1 đến 65535");
            }
            assert(errors_view(errors@) =~= after_host + port_submit_errors(port@));
            let u = trim(user);
            push_error_if(&mut errors, u.as_str().is_empty(), FormField::User, "User không được để trống");
            let d = trim(database);
            push_error_if(&mut errors, d.as_str().is_empty(), FormField::Database, "Database không được để trống");
        },
        ConnectionCategory::FileBased => {
            push_error_if(&mut errors, !has_file, FormField::File, "Vui lòng chọn file SQLite");
        },
    }
    errors
}

/// The connection settings the form produces.
pub enum ConnectionSettings {
    /// A SQLite database at this URL.
    Sqlite { url: String },
    /// A server.
    Network { kind: DatabaseKind, host: String, port: u16, user: String, password: String, database: String },
}

impl ConnectionSettings {
    /// The kind of database the settings reach: SQLite for a file, the
    /// server's kind otherwise.
    pub open spec fn kind_spec(&self) -> DatabaseKind {
        match self {
            ConnectionSettings::Sqlite { .. } => DatabaseKind::Sqlite,
            ConnectionSettings::Network { kind, .. } => *kind,
        }
    }

    pub fn kind(&self) -> (r: DatabaseKind)
        ensures
            r == self.kind_spec(),
    {
        match self {
            ConnectionSettings::Sqlite { .. } => DatabaseKind::Sqlite,
            ConnectionSettings::Network { kind, .. } => *kind,
        }
    }
}

/// The URL of a SQLite database file.
pub open spec fn sqlite_url_spec(path: Seq<char>) -> Seq<char> {
    "sqlite:"@ + path
}

/// The URL of a SQLite database file: `sqlite:` then the path.
pub fn sqlite_url(path: &str) -> (r: String)
    ensures
        r@ == sqlite_url_spec(path@),
{
    let mut s = String::from_str("sqlite:");
    s.append(path);
    s
}

/// The URL of the in-memory SQLite database.
pub fn in_memory_url() -> (r: String)
    ensures
        r@ == "sqlite::memory:"@,
{
    String::from_str("sqlite::memory:")
}

/// A field's text, or `default` when the field is empty.
pub fn field_or(value: String, default: String) -> (r: String)
    ensures
        r@ == if value@.len() == 0 { default@ } else { value@ },
{
    if value.as_str().is_empty() {
        default
    } else {
        value
    }
}

/// The settings of a filled form. A file database takes the chosen file, or
/// the in-memory database when none was chosen. A server takes the host
/// (`localhost` when empty), the port when it parses (else the kind's default
/// port), the user (else the kind's default user), and the password and
/// database as typed.
pub fn connection_settings(
    kind: DatabaseKind,
    category: ConnectionCategory,
    selected_path: Option<&str>,
    host: String,
    port: &str,
    user: String,
    password: String,
    database: String,
    default_port: u16,
    default_user: String,
) -> (r: ConnectionSettings)
    ensures
        category is FileBased ==> (r matches ConnectionSettings::Sqlite { url } && url@ == match selected_path {
            Some(p) => sqlite_url_spec(p@),
            None => "sqlite::memory:"@,
        }),
        category is NetworkBased ==> (r matches ConnectionSettings::Network { kind: k, host: h, port: pt, user: u, password: pw, database: d }
            && k == kind
            && h@ == (if host@.len() == 0 { "localhost"@ } else { host@ })
            && pt == (match parse_u16_spec(port@) { Some(v) => v, None => default_port })
            && u@ == (if user@.len() == 0 { default_user@ } else { user@ })
            && pw@ == password@
            && d@ == database@),
{
    match category {
        ConnectionCategory::FileBased => {
            let url = match selected_path {
                Some(p) => sqlite_url(p),
                None => in_memory_url(),
            };
            ConnectionSettings::Sqlite { url }
        },
        ConnectionCategory::NetworkBased => {
            let host = field_or(host, String::from_str("localhost"));
            let user = field_or(user, default_user);
            let port = match parse_u16(port) {
                Some(v) => v,
                None => default_port,
            };
            ConnectionSettings::Network { kind, host, port, user, password, database }
        },
    }
}

/// A message as text, if there is one.
pub open spec fn opt_text(m: Option<String>) -> Option<Seq<char>> {
    match m {
        Some(s) => Some(s@),
        None => None,
    }
}

/// The error of `f` in a list of errors: the last one given for it.
pub open spec fn list_error(list: Seq<(FormField, Seq<char>)>, f: FormField) -> Option<Seq<char>>
    decreases list.len(),
{
    if list.len() == 0 {
        None
    } else if list.last().0 == f {
        Some(list.last().1)
    } else {
        list_error(list.drop_last(), f)
    }
}

/// The error shown under each field of the form, at most one per field.
pub struct FormErrors {
    pub name: Option<String>,
    pub host: Option<String>,
    pub port: Option<String>,
    pub user: Option<String>,
    pub database: Option<String>,
    pub file: Option<String>,
}

impl FormErrors {
    pub open spec fn get_spec(&self, f: FormField) -> Option<Seq<char>> {
        match f {
            FormField::Name => opt_text(self.name),
            FormField::Host => opt_text(self.host),
            FormField::Port => opt_text(self.port),
            FormField::User => opt_text(self.user),
            FormField::Database => opt_text(self.database),
            FormField::File => opt_text(self.file),
        }
    }

    pub open spec fn is_empty_spec(&self) -> bool {
        forall|g: FormField| #[trigger] self.get_spec(g) is None
    }

    /// No errors.
    pub fn new() -> (r: Self)
        ensures
            forall|g: FormField| #[trigger] r.get_spec(g) is None,
    {
        FormErrors { name: None, host: None, port: None, user: None, database: None, file: None }
    }

    fn slot(&mut self, f: FormField, value: Option<String>)
        ensures
            final(self).get_spec(f) == opt_text(value),
            forall|g: FormField| g != f ==> #[trigger] final(self).get_spec(g) == old(self).get_spec(g),
    {
        match f {
            FormField::Name => self.name = value,
            FormField::Host => self.host = value,
            FormField::Port => self.port = value,
            FormField::User => self.user = value,
            FormField::Database => self.database = value,
            FormField::File => self.file = value,
        }
    }

    /// The error of a field.
    pub fn get(&self, f: FormField) -> (r: Option<String>)
        ensures
            opt_text(r) == self.get_spec(f),
    {
        match f {
            FormField::Name => self.name.clone(),
            FormField::Host => self.host.clone(),
            FormField::Port => self.port.clone(),
            FormField::User => self.user.clone(),
            FormField::Database => self.database.clone(),
            FormField::File => self.file.clone(),
        }
    }

    /// Gives `f` this error, in place of any it had.
    pub fn insert(&mut self, f: FormField, msg: String)
        ensures
            final(self).get_spec(f) == Some(msg@),
            forall|g: FormField| g != f ==> #[trigger] final(self).get_spec(g) == old(self).get_spec(g),
    {
        self.slot(f, Some(msg));
    }

    /// Takes away the error of `f`.
    pub fn remove(&mut self, f: FormField)
        ensures
            final(self).get_spec(f) is None,
            forall|g: FormField| g != f ==> #[trigger] final(self).get_spec(g) == old(self).get_spec(g),
    {
        self.slot(f, None);
    }

    pub fn clear(&mut self)
        ensures
            forall|g: FormField| #[trigger] final(self).get_spec(g) is None,
    {
        *self = FormErrors::new();
    }

    pub fn is_empty(&self) -> (r: bool)
        ensures
            r == self.is_empty_spec(),
    {
        let r = self.name.is_none() && self.host.is_none() && self.port.is_none()
            && self.user.is_none() && self.database.is_none() && self.file.is_none();
        proof {
            if !r {
                if self.name is Some {
                    assert(self.get_spec(FormField::Name) is Some);
                } else if self.host is Some {
                    assert(self.get_spec(FormField::Host) is Some);
                } else if self.port is Some {
                    assert(self.get_spec(FormField::Port) is Some);
                } else if self.user is Some {
                    assert(self.get_spec(FormField::User) is Some);
                } else if self.database is Some {
                    assert(self.get_spec(FormField::Database) is Some);
                } else {
                    assert(self.get_spec(FormField::File) is Some);
                }
            }
        }
        r
    }

    /// The errors of a list, each field taking the last error given for it.
    pub fn from_list(list: &Vec<(FormField, String)>) -> (r: Self)
        ensures
            forall|g: FormField| #[trigger] r.get_spec(g) == list_error(errors_view(list@), g),
    {
        let mut errs = FormErrors::new();
        let mut i: usize = 0;
        while i < list.len()
            invariant
                i <= list@.len(),
                forall|g: FormField| #[trigger] errs.get_spec(g) == list_error(errors_view(list@.take(i as int)), g),
            decreases list@.len() - i,
        {
            let ghost before = errs;
            errs.insert(list[i].0, list[i].1.clone());
            proof {
                assert(errors_view(list@.take(i + 1)).drop_last() =~= errors_view(list@.take(i as int)));
                assert forall|g: FormField| #[trigger] errs.get_spec(g) == list_error(errors_view(list@.take(i + 1)), g) by {
                    if g != list@[i as int].0 {
                        assert(before.get_spec(g) == errs.get_spec(g));
                    }
                }
            }
            i += 1;
        }
        assert(list@.take(list@.len() as int) =~= list@);
        errs
    }
}

/// A list of errors is empty exactly when it gives no field an error.
proof fn lemma_list_error_empty(list: Seq<(FormField, Seq<char>)>)
    ensures
        list.len() == 0 <==> forall|g: FormField| #[trigger] list_error(list, g) is None,
{
    if list.len() > 0 {
        assert(list_error(list, list.last().0) is Some);
    }
}

/// A text input of the form.
#[derive(Debug, Clone, Copy, PartialEq, Eq)]
pub enum InputField {
    Name,
    Host,
    Port,
    User,
    Password,
    Database,
}

/// What a database kind fills in when it is picked: its usual port, user and
/// database.
pub struct KindDefaults {
    pub port: u16,
    pub user: String,
    pub database: String,
}

/// The note under a field: its error, or its description.
#[derive(Debug, Clone)]
pub enum FieldNote {
    Error(String),
    Description(String),
}

/// The new-connection form: the picked kind and how it is reached, the text
/// of each input, the chosen file, the errors shown, and whether a connection
/// test is running.
pub struct ConnectionForm {
    pub is_testing: bool,
    pub selected_kind: DatabaseKind,
    pub category: ConnectionCategory,
    pub name: String,
    pub host: String,
    pub port: String,
    pub user: String,
    pub password: String,
    pub database: String,
    pub selected_path: Option<String>,
    pub form_errors: FormErrors,
}

impl ConnectionForm {
    /// The form as it opens: PostgreSQL on `localhost`, port `5432`, user and
    /// database `postgres`; no name, password or file; no errors.
    pub fn new() -> (r: Self)
        ensures
            !r.is_testing,
            r.selected_kind is Postgres,
            r.category is NetworkBased,
            r.name@.len() == 0,
            r.host@ == "localhost"@,
            r.port@ == "5432"@,
            r.user@ == "postgres"@,
            r.password@.len() == 0,
            r.database@ == "postgres"@,
            r.selected_path is None,
            r.form_errors.is_empty_spec(),
    {
        ConnectionForm {
            is_testing: false,
            selected_kind: DatabaseKind::Postgres,
            category: ConnectionCategory::NetworkBased,
            name: String::new(),
            host: String::from_str("localhost"),
            port: String::from_str("5432"),
            user: String::from_str("postgres"),
            password: String::new(),
            database: String::from_str("postgres"),
            selected_path: None,
            form_errors: FormErrors::new(),
        }
    }

    /// An input changed. Its text is kept. Typing in the name, host, user or
    /// database takes away that field's error; typing in the port shows or
    /// takes away the "digits only" error (see `port_typing_error`).
    pub fn input_changed(&mut self, field: InputField, value: String)
        ensures
            final(self).is_testing == old(self).is_testing,
            final(self).selected_kind == old(self).selected_kind,
            final(self).category == old(self).category,
            final(self).selected_path == old(self).selected_path,
            final(self).name@ == (if field == InputField::Name { value@ } else { old(self).name@ }),
            final(self).host@ == (if field == InputField::Host { value@ } else { old(self).host@ }),
            final(self).port@ == (if field == InputField::Port { value@ } else { old(self).port@ }),
            final(self).user@ == (if field == InputField::User { value@ } else { old(self).user@ }),
            final(self).password@ == (if field == InputField::Password { value@ } else { old(self).password@ }),
            final(self).database@ == (if field == InputField::Database { value@ } else { old(self).database@ }),
            forall|g: FormField| #[trigger] final(self).form_errors.get_spec(g) == match (field, g) {
                (InputField::Name, FormField::Name) => None,
                (InputField::Host, FormField::Host) => None,
                (InputField::User, FormField::User) => None,
                (InputField::Database, FormField::Database) => None,
                (InputField::Port, FormField::Port) => if port_typing_error_spec(value@) {
                    Some("Port chỉ được nhập số"@)
                } else {
                    None
                },
                _ => old(self).form_errors.get_spec(g),
            },
    {
        match field {
            InputField::Name => {
                self.name = value;
                self.form_errors.remove(FormField::Name);
            },
            InputField::Host => {
                self.host = value;
                self.form_errors.remove(FormField::Host);
            },
            InputField::Port => {
                match port_typing_error(value.as_str()) {
                    Some(m) => self.form_errors.insert(FormField::Port, m),
                    None => self.form_errors.remove(FormField::Port),
                }
                self.port = value;
            },
            InputField::User => {
                self.user = value;
                self.form_errors.remove(FormField::User);
            },
            InputField::Password => {
                self.password = value;
            },
            InputField::Database => {
                self.database = value;
                self.form_errors.remove(FormField::Database);
            },
        }
    }

    /// Another kind was picked: the errors go, and a server kind fills in
    /// its usual port, user and database.
    pub fn kind_changed(&mut self, kind: DatabaseKind, category: ConnectionCategory, defaults: &KindDefaults)
        ensures
            final(self).selected_kind == kind,
            final(self).category == category,
            final(self).form_errors.is_empty_spec(),
            final(self).is_testing == old(self).is_testing,
            final(self).name == old(self).name,
            final(self).host == old(self).host,
            final(self).password == old(self).password,
            final(self).selected_path == old(self).selected_path,
            category is NetworkBased ==> final(self).port@ == decimal(defaults.port as nat)
                && final(self).user@ == defaults.user@ && final(self).database@ == defaults.database@,
            category is FileBased ==> final(self).port == old(self).port && final(self).user
                == old(self).user && final(self).database == old(self).database,
    {
        self.form_errors.clear();
        self.selected_kind = kind;
        self.category = category;
        match category {
            ConnectionCategory::NetworkBased => {
                let mut p = String::new();
                push_decimal(&mut p, defaults.port as u64);
                self.port = p;
                self.user = defaults.user.clone();
                self.database = defaults.database.clone();
            },
            ConnectionCategory::FileBased => {},
        }
    }

    /// A kind was confirmed in the list by its label; an unknown label
    /// changes nothing. `sqlite` and `postgres` give how each kind is reached
    /// and what it fills in.
    pub fn kind_selected(
        &mut self,
        label: &str,
        sqlite: (ConnectionCategory, &KindDefaults),
        postgres: (ConnectionCategory, &KindDefaults),
    ) -> (changed: bool)
        ensures
            changed == kind_from_label_spec(label@) is Some,
            !changed ==> *final(self) == *old(self),
            kind_from_label_spec(label@) matches Some(k) ==> final(self).selected_kind == k
                && final(self).category == (if k is Sqlite { sqlite.0 } else { postgres.0 })
                && final(self).form_errors.is_empty_spec(),
    {
        match kind_from_label(label) {
            Some(DatabaseKind::Sqlite) => {
                self.kind_changed(DatabaseKind::Sqlite, sqlite.0, sqlite.1);
                true
            },
            Some(DatabaseKind::Postgres) => {
                self.kind_changed(DatabaseKind::Postgres, postgres.0, postgres.1);
                true
            },
            None => false,
        }
    }

    /// A SQLite file was chosen.
    pub fn file_chosen(&mut self, path: String)
        ensures
            final(self).selected_path == Some(path),
            final(self).form_errors == old(self).form_errors,
            final(self).name == old(self).name,
            final(self).category == old(self).category,
    {
        self.selected_path = Some(path);
    }

    pub open spec fn errors_spec(&self) -> Seq<(FormField, Seq<char>)> {
        form_errors_spec(
            self.name@,
            self.category,
            self.host@,
            self.port@,
            self.user@,
            self.database@,
            self.selected_path is Some,
        )
    }

    /// Checks the form (see `form_errors_spec`), shows the errors found in
    /// place of the old ones, and tells whether there were none.
    pub fn validate(&mut self) -> (ok: bool)
        ensures
            forall|g: FormField| #[trigger] final(self).form_errors.get_spec(g) == list_error(old(self).errors_spec(), g),
            ok == (old(self).errors_spec().len() == 0),
            ok == final(self).form_errors.is_empty_spec(),
            final(self).name == old(self).name,
            final(self).category == old(self).category,
            final(self).host == old(self).host,
            final(self).port == old(self).port,
            final(self).user == old(self).user,
            final(self).password == old(self).password,
            final(self).database == old(self).database,
            final(self).selected_path == old(self).selected_path,
            final(self).selected_kind == old(self).selected_kind,
            final(self).is_testing == old(self).is_testing,
    {
        let list = validate_form(
            self.name.as_str(),
            self.category,
            self.host.as_str(),
            self.port.as_str(),
            self.user.as_str(),
            self.database.as_str(),
            self.selected_path.is_some(),
        );
        self.form_errors = FormErrors::from_list(&list);
        proof {
            let l = errors_view(list@);
            lemma_list_error_empty(l);
            if self.form_errors.is_empty_spec() {
                assert forall|g: FormField| #[trigger] list_error(l, g) is None by {
                    assert(self.form_errors.get_spec(g) is None);
                }
            }
            if l.len() == 0 {
                assert forall|g: FormField| #[trigger] self.form_errors.get_spec(g) is None by {
                    assert(list_error(l, g) is None);
                }
            }
        }
        self.form_errors.is_empty()
    }

    /// `r` is what the form describes (see `connection_settings`), with the
    /// picked kind's usual port and user standing in for blanks.
    pub open spec fn describes(&self, defaults: KindDefaults, r: ConnectionSettings) -> bool {
        &&& self.category is FileBased ==> (r matches ConnectionSettings::Sqlite { url } && url@
            == match self.selected_path {
            Some(p) => sqlite_url_spec(p@),
            None => "sqlite::memory:"@,
        })
        &&& self.category is NetworkBased ==> (r matches ConnectionSettings::Network {
            kind: k,
            host: h,
            port: pt,
            user: u,
            password: pw,
            database: d,
        } && k == self.selected_kind && h@ == (if self.host@.len() == 0 {
            "localhost"@
        } else {
            self.host@
        }) && pt == (match parse_u16_spec(self.port@) {
            Some(v) => v,
            None => defaults.port,
        }) && u@ == (if self.user@.len() == 0 {
            defaults.user@
        } else {
            self.user@
        }) && pw@ == self.password@ && d@ == self.database@)
    }

    /// The settings the form describes.
    pub fn settings(&self, defaults: &KindDefaults) -> (r: ConnectionSettings)
        ensures
            self.describes(*defaults, r),
    {
        let path = match &self.selected_path {
            Some(p) => Some(p.as_str()),
            None => None,
        };
        connection_settings(
            self.selected_kind,
            self.category,
            path,
            self.host.clone(),
            self.port.as_str(),
            self.user.clone(),
            self.password.clone(),
            self.database.clone(),
            defaults.port,
            defaults.user.clone(),
        )
    }

    /// Submits the form: when it checks out, the name and settings of the new
    /// connection; otherwise `None`, with the errors shown.
    pub fn submit(&mut self, defaults: &KindDefaults) -> (r: Option<(String, ConnectionSettings)>)
        ensures
            r is Some <==> old(self).errors_spec().len() == 0,
            r matches Some(p) ==> p.0@ == old(self).name@ && old(self).describes(*defaults, p.1),
            final(self).is_testing == old(self).is_testing,
            final(self).name == old(self).name,
            final(self).category == old(self).category,
            forall|g: FormField| #[trigger] final(self).form_errors.get_spec(g) == list_error(old(self).errors_spec(), g),
    {
        if !self.validate() {
            return None;
        }
        let settings = self.settings(defaults);
        Some((self.name.clone(), settings))
    }

    /// Starts a connection test: marks the test running and gives the
    /// settings to try.
    pub fn begin_test(&mut self, defaults: &KindDefaults) -> (r: ConnectionSettings)
        ensures
            old(self).describes(*defaults, r),
            final(self).is_testing,
            final(self).form_errors == old(self).form_errors,
            final(self).name == old(self).name,
    {
        let s = self.settings(defaults);
        self.is_testing = true;
        s
    }

    /// The connection test ended.
    pub fn finish_test(&mut self)
        ensures
            !final(self).is_testing,
            final(self).form_errors == old(self).form_errors,
            final(self).name == old(self).name,
    {
        self.is_testing = false;
    }

    /// The label of the test button, and whether it spins and is disabled.
    pub fn test_button(&self) -> (r: (String, bool))
        ensures
            r.0@ == (if self.is_testing { "Đang kiểm tra..."@ } else { "Kiểm tra kết nối"@ }),
            r.1 == self.is_testing,
    {
        if self.is_testing {
            (String::from_str("Đang kiểm tra..."), true)
        } else {
            (String::from_str("Kiểm tra kết nối"), false)
        }
    }

    /// The text of the file box: the chosen path, or a prompt drawn muted.
    pub fn path_display(&self) -> (r: (String, bool))
        ensures
            match self.selected_path {
                Some(p) => r.0@ == p@ && !r.1,
                None => r.0@ == "Choose a file..."@ && r.1,
            },
    {
        match &self.selected_path {
            Some(p) => (p.clone(), false),
            None => (String::from_str("Choose a file..."), true),
        }
    }

    /// The note under a field: its error when it has one; otherwise its
    /// description, which for the port and database names the kind's usual
    /// value, and is empty for the name.
    pub fn field_note(&self, field: FormField, defaults: &KindDefaults) -> (r: FieldNote)
        ensures
            self.form_errors.get_spec(field) matches Some(m) ==> (r matches FieldNote::Error(t) && t@ == m),
            self.form_errors.get_spec(field) is None ==> (r matches FieldNote::Description(t) && t@ == match field {
                FormField::Name => Seq::<char>::empty(),
                FormField::Host => "Địa chỉ máy chủ"@,
                FormField::Port => "Mặc định: "@ + decimal(defaults.port as nat),
                FormField::User => "Tên người dùng kết nối"@,
                FormField::Database => "Mặc định: "@ + defaults.database@,
                FormField::File => "Đường dẫn tới file SQLite (.db, .sqlite, .sqlite3)"@,
            }),
    {
        match self.form_errors.get(field) {
            Some(m) => FieldNote::Error(m),
            None => {
                let t = match field {
                    FormField::Name => String::new(),
                    FormField::Host => String::from_str("Địa chỉ máy chủ"),
                    FormField::Port => {
                        let mut t = String::from_str("Mặc định: ");
                        push_decimal(&mut t, defaults.port as u64);
                        t
                    },
                    FormField::User => String::from_str("Tên người dùng kết nối"),
                    FormField::Database => {
                        let mut t = String::from_str("Mặc định: ");
                        t.append(defaults.database.as_str());
                        t
                    },
                    FormField::File => String::from_str("Đường dẫn tới file SQLite (.db, .sqlite, .sqlite3)"),
                };
                FieldNote::Description(t)
            },
        }
    }
}

} // verus!
