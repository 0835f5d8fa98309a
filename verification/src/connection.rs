//! A connection to a database server: its status and the databases or schemas
//! found under it.
use vstd::prelude::*;
use crate::connection_form::ConnectionSettings;
use crate::nodes::{are_fresh_schema_nodes, schema_nodes, DatabaseNode, SchemaNode};

verus! {

/// The status of a connection.
#[derive(Debug, Clone, PartialEq, Eq)]
pub enum ConnectionStatus {
    Disconnected,
    Connecting,
    Online,
    Error(String),
}

impl ConnectionStatus {
    pub fn is_connected(&self) -> (r: bool)
        ensures
            r == (*self is Online),
    {
        matches!(self, ConnectionStatus::Online)
    }

    pub fn is_connecting(&self) -> (r: bool)
        ensures
            r == (*self is Connecting),
    {
        matches!(self, ConnectionStatus::Connecting)
    }

    pub fn is_disconnected(&self) -> (r: bool)
        ensures
            r == (*self is Disconnected),
    {
        matches!(self, ConnectionStatus::Disconnected)
    }

    pub fn is_error(&self) -> (r: bool)
        ensures
            r == (*self is Error),
    {
        matches!(self, ConnectionStatus::Error(_))
    }
}

/// The kinds of database the client offers.
#[derive(Debug, Clone, Copy, PartialEq, Eq)]
pub enum DatabaseKind {
    Sqlite,
    Postgres,
}

/// The children of a connection in the sidebar tree.
pub enum ConnectionChildren<D, S> {
    /// Servers with databases (database → schema → table).
    Databases(Vec<D>),
    /// SQLite: no databases, only schemas (schema → table).
    Schemas(Vec<S>),
}

impl<D, S> ConnectionChildren<D, S> {
    /// No children: an empty list of schemas.
    pub fn default() -> (r: Self)
        ensures
            r matches ConnectionChildren::Schemas(v) && v@.len() == 0,
    {
        ConnectionChildren::Schemas(Vec::new())
    }
}

/// Which list a connection asks the server for to fill its children.
pub enum ChildrenRequest {
    ListSchemas,
    ListDatabases,
}

/// A connection: its name, the settings it connects with and the kind of
/// database they reach, its status, children and, once connected, its
/// client handle.
pub struct DatabaseConnection<Cl, D, S> {
    pub name: String,
    pub config: ConnectionSettings,
    pub kind: DatabaseKind,
    pub status: ConnectionStatus,
    pub children: ConnectionChildren<D, S>,
    pub client: Option<Cl>,
}

impl<Cl, D, S> DatabaseConnection<Cl, D, S> {
    /// A connection with these settings, not yet connected, with no
    /// children.
    pub fn new(name: String, config: ConnectionSettings) -> (r: Self)
        ensures
            r.name == name,
            r.kind == config.kind_spec(),
            r.config == config,
            r.status is Disconnected,
            r.children matches ConnectionChildren::Schemas(v) && v@.len() == 0,
            r.client is None,
    {
        let kind = config.kind();
        DatabaseConnection {
            name,
            config,
            kind,
            status: ConnectionStatus::Disconnected,
            children: ConnectionChildren::default(),
            client: None,
        }
    }

    /// Starts connecting, unless the connection is connecting or online
    /// already; `true` when the caller should now connect with `config`.
    pub fn begin_connect(&mut self) -> (start: bool)
        ensures
            start == !(old(self).status is Connecting || old(self).status is Online),
            start ==> final(self).status is Connecting,
            !start ==> final(self).status == old(self).status,
            final(self).name == old(self).name,
            final(self).kind == old(self).kind,
            final(self).config == old(self).config,
            final(self).children == old(self).children,
            final(self).client == old(self).client,
    {
        if self.status.is_connecting() || self.status.is_connected() {
            return false;
        }
        self.status = ConnectionStatus::Connecting;
        true
    }

    /// Records the outcome of connecting: a client makes the connection
    /// online (and the caller should then load its children, `true`); an
    /// error message puts it in the error status.
    pub fn finish_connect(&mut self, result: Result<Cl, String>) -> (load_children: bool)
        ensures
            load_children == (result is Ok),
            match result {
                Ok(c) => final(self).client == Some(c) && final(self).status is Online,
                Err(m) => final(self).status == ConnectionStatus::Error(m) && final(self).client
                    == old(self).client,
            },
            final(self).name == old(self).name,
            final(self).kind == old(self).kind,
            final(self).config == old(self).config,
            final(self).children == old(self).children,
    {
        match result {
            Ok(client) => {
                self.client = Some(client);
                self.status = ConnectionStatus::Online;
                true
            },
            Err(e) => {
                self.status = ConnectionStatus::Error(e);
                false
            },
        }
    }

    /// What to ask for to fill the children: nothing without a client,
    /// schemas for SQLite, databases otherwise.
    pub fn children_request(&self) -> (r: Option<ChildrenRequest>)
        ensures
            self.client is None ==> r is None,
            self.client is Some ==> (r matches Some(q) && (q is ListSchemas <==> self.kind is Sqlite)),
    {
        if self.client.is_none() {
            return None;
        }
        match self.kind {
            DatabaseKind::Sqlite => Some(ChildrenRequest::ListSchemas),
            _ => Some(ChildrenRequest::ListDatabases),
        }
    }

    /// Refreshing asks for the same list as loading the children.
    pub fn refresh_databases(&self) -> (r: Option<ChildrenRequest>)
        ensures
            self.client is None ==> r is None,
            self.client is Some ==> (r matches Some(q) && (q is ListSchemas <==> self.kind is Sqlite)),
    {
        self.children_request()
    }

    /// Records the schemas listed for the connection, or the error that kept
    /// them from being listed.
    pub fn finish_load_schemas(&mut self, result: Result<Vec<S>, String>)
        ensures
            match result {
                Ok(v) => final(self).children == ConnectionChildren::<D, S>::Schemas(v)
                    && final(self).status == old(self).status,
                Err(m) => final(self).children == old(self).children && (final(self).status matches ConnectionStatus::Error(t) && t@ == "Không thể tải schemas: "@ + m@),
            },
            final(self).client == old(self).client,
            final(self).name == old(self).name,
            final(self).kind == old(self).kind,
            final(self).config == old(self).config,
    {
        match result {
            Ok(schemas) => {
                self.children = ConnectionChildren::Schemas(schemas);
            },
            Err(e) => {
                let mut msg = String::from_str("Không thể tải schemas: ");
                msg.append(e.as_str());
                self.status = ConnectionStatus::Error(msg);
            },
        }
    }

    /// Records the databases listed for the connection, or the error that
    /// kept them from being listed.
    pub fn finish_load_databases(&mut self, result: Result<Vec<D>, String>)
        ensures
            match result {
                Ok(v) => final(self).children == ConnectionChildren::<D, S>::Databases(v)
                    && final(self).status == old(self).status,
                Err(m) => final(self).children == old(self).children && (final(self).status matches ConnectionStatus::Error(t) && t@ == "Không thể tải databases: "@ + m@),
            },
            final(self).client == old(self).client,
            final(self).name == old(self).name,
            final(self).kind == old(self).kind,
            final(self).config == old(self).config,
    {
        match result {
            Ok(databases) => {
                self.children = ConnectionChildren::Databases(databases);
            },
            Err(e) => {
                let mut msg = String::from_str("Không thể tải databases: ");
                msg.append(e.as_str());
                self.status = ConnectionStatus::Error(msg);
            },
        }
    }

    /// Drops the client and the children; the connection is disconnected.
    pub fn disconnect(&mut self)
        ensures
            final(self).client is None,
            final(self).status is Disconnected,
            final(self).children matches ConnectionChildren::Schemas(v) && v@.len() == 0,
            final(self).name == old(self).name,
            final(self).kind == old(self).kind,
            final(self).config == old(self).config,
    {
        self.client = None;
        self.status = ConnectionStatus::Disconnected;
        self.children = ConnectionChildren::default();
    }
}

/// The nodes `v` are fresh database nodes for `names`, one each and in order:
/// none has loaded its schemas, and each has a client exactly when `has_client`.
pub open spec fn are_fresh_database_nodes<Cl, S>(v: Seq<DatabaseNode<Cl, S>>, names: Seq<String>, has_client: bool) -> bool {
    &&& v.len() == names.len()
    &&& forall|i: int|
        0 <= i < v.len() ==> (#[trigger] v[i]).database_name@ == names[i]@ && v[i].schemas_state is Idle
            && (v[i].client is Some <==> has_client)
}

impl<Cl: Clone, S2, T> DatabaseConnection<Cl, DatabaseNode<Cl, S2>, SchemaNode<T>> {
    /// Records the schema names listed for a SQLite connection: each becomes
    /// a fresh schema node of the database `main`, in order. A failed listing
    /// puts the connection in the error status and keeps its children.
    pub fn finish_list_schemas(&mut self, result: Result<Vec<String>, String>)
        ensures
            match result {
                Ok(names) => (final(self).children matches ConnectionChildren::Schemas(v)
                    && are_fresh_schema_nodes(v@, names@, "main"@))
                    && final(self).status == old(self).status,
                Err(m) => final(self).children == old(self).children && (final(self).status matches ConnectionStatus::Error(t) && t@ == "Không thể tải schemas: "@ + m@),
            },
            final(self).client == old(self).client,
            final(self).name == old(self).name,
            final(self).kind == old(self).kind,
            final(self).config == old(self).config,
    {
        let nodes = match result {
            Ok(names) => Ok(schema_nodes(names, "main")),
            Err(e) => Err(e),
        };
        self.finish_load_schemas(nodes);
    }

    /// Records the database names listed for a server: each becomes a fresh
    /// database node, in order, sharing the connection's client. A failed
    /// listing puts the connection in the error status and keeps its children.
    pub fn finish_list_databases(&mut self, result: Result<Vec<String>, String>)
        ensures
            match result {
                Ok(names) => (final(self).children matches ConnectionChildren::Databases(v)
                    && are_fresh_database_nodes(v@, names@, old(self).client is Some))
                    && final(self).status == old(self).status,
                Err(m) => final(self).children == old(self).children && (final(self).status matches ConnectionStatus::Error(t) && t@ == "Không thể tải databases: "@ + m@),
            },
            final(self).client == old(self).client,
            final(self).name == old(self).name,
            final(self).kind == old(self).kind,
            final(self).config == old(self).config,
    {
        let nodes = match result {
            Ok(names) => {
                let mut out: Vec<DatabaseNode<Cl, S2>> = Vec::new();
                let mut i: usize = 0;
                while i < names.len()
                    invariant
                        i <= names@.len(),
                        out@.len() == i,
                        forall|j: int|
                            0 <= j < i ==> (#[trigger] out@[j]).database_name@ == names@[j]@
                                && out@[j].schemas_state is Idle && (out@[j].client is Some
                                <==> self.client is Some),
                    decreases names@.len() - i,
                {
                    let client = match &self.client {
                        Some(c) => Some(c.clone()),
                        None => None,
                    };
                    out.push(DatabaseNode::new(names[i].clone(), client));
                    i += 1;
                }
                Ok(out)
            },
            Err(e) => Err(e),
        };
        self.finish_load_databases(nodes);
    }
}

} // verus!
