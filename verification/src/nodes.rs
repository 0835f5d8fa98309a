//! The database and schema nodes of the sidebar tree, each loading its own
//! children once.
use vstd::prelude::*;
use crate::load_state::{EngineError, LoadState};

verus! {

/// The node `n` is a fresh schema node named `name` in the database `db`:
/// neither its tables nor its views are loaded yet.
pub open spec fn is_fresh_schema_node<T>(n: SchemaNode<T>, name: Seq<char>, db: Seq<char>) -> bool {
    &&& n.schema_name@ == name
    &&& n.db_name@ == db
    &&& n.tables_state is Idle
    &&& n.views_state is Idle
}

/// The nodes `v` are fresh schema nodes for `names`, one each and in order,
/// all in the database `db`.
pub open spec fn are_fresh_schema_nodes<T>(v: Seq<SchemaNode<T>>, names: Seq<String>, db: Seq<char>) -> bool {
    &&& v.len() == names.len()
    &&& forall|i: int| 0 <= i < v.len() ==> is_fresh_schema_node(#[trigger] v[i], names[i]@, db)
}

/// One fresh node per listed schema, in order, each in the database `db_name`.
pub fn schema_nodes<T>(names: Vec<String>, db_name: &str) -> (r: Vec<SchemaNode<T>>)
    ensures
        are_fresh_schema_nodes(r@, names@, db_name@),
{
    let mut out: Vec<SchemaNode<T>> = Vec::new();
    let mut i: usize = 0;
    while i < names.len()
        invariant
            i <= names@.len(),
            out@.len() == i,
            forall|j: int| 0 <= j < i ==> is_fresh_schema_node(#[trigger] out@[j], names@[j]@, db_name@),
        decreases names@.len() - i,
    {
        out.push(SchemaNode::new(names[i].clone(), String::from_str(db_name)));
        i += 1;
    }
    out
}

/// A database in the tree, the client it lists its schemas with once it has
/// one, and the schemas inside it.
pub struct DatabaseNode<Cl, S> {
    pub database_name: String,
    pub schemas_state: LoadState<Vec<S>>,
    pub client: Option<Cl>,
}

impl<Cl, S> DatabaseNode<Cl, S> {
    /// A database whose schemas are not loaded yet.
    pub fn new(database_name: String, client: Option<Cl>) -> (r: Self)
        ensures
            r.database_name == database_name,
            r.schemas_state is Idle,
            r.client == client,
    {
        DatabaseNode { database_name, schemas_state: LoadState::Idle, client }
    }

    /// The schemas were never requested.
    pub fn is_idle(&self) -> (r: bool)
        ensures
            r == (self.schemas_state is Idle),
    {
        self.schemas_state.is_idle()
    }

    /// Starts loading the schemas unless that was done before; `true` when
    /// the caller should now fetch them (connecting first when the node has
    /// no client, see `needs_connect`).
    pub fn load_schemas(&mut self) -> (start: bool)
        ensures
            start == (old(self).schemas_state is Idle),
            start ==> final(self).schemas_state is Loading,
            !start ==> *final(self) == *old(self),
            final(self).database_name == old(self).database_name,
            final(self).client == old(self).client,
    {
        self.schemas_state.begin_load()
    }

    /// Listing the schemas needs a connection first: the node has no client.
    pub fn needs_connect(&self) -> (r: bool)
        ensures
            r == (self.client is None),
    {
        self.client.is_none()
    }

    /// Records the outcome of connecting for the listing: the client is kept
    /// (`true`: now list the schemas), or the error ends the load.
    pub fn finish_connect(&mut self, result: Result<Cl, EngineError>) -> (list: bool)
        ensures
            list == (result is Ok),
            match result {
                Ok(c) => final(self).client == Some(c) && final(self).schemas_state
                    == old(self).schemas_state,
                Err(e) => final(self).schemas_state == LoadState::<Vec<S>>::Error(e)
                    && final(self).client == old(self).client,
            },
            final(self).database_name == old(self).database_name,
    {
        match result {
            Ok(c) => {
                self.client = Some(c);
                true
            },
            Err(e) => {
                self.schemas_state = LoadState::Error(e);
                false
            },
        }
    }

    /// Records the outcome of loading: the connection error, or the schemas
    /// found.
    pub fn finish_load_schemas(&mut self, result: Result<Vec<S>, EngineError>)
        ensures
            match result {
                Ok(v) => final(self).schemas_state == LoadState::Loaded(v),
                Err(e) => final(self).schemas_state == LoadState::<Vec<S>>::Error(e),
            },
            final(self).database_name == old(self).database_name,
            final(self).client == old(self).client,
    {
        self.schemas_state = match result {
            Ok(v) => LoadState::Loaded(v),
            Err(e) => LoadState::Error(e),
        };
    }
}

impl<Cl, T> DatabaseNode<Cl, SchemaNode<T>> {
    /// Records the listed schema names: one fresh node per schema, in order,
    /// in this database; a failed listing gives an empty list.
    pub fn schemas_listed(&mut self, listed: Result<Vec<String>, EngineError>)
        ensures
            final(self).schemas_state matches LoadState::Loaded(v) && match listed {
                Ok(names) => are_fresh_schema_nodes(v@, names@, old(self).database_name@),
                Err(_) => v@.len() == 0,
            },
            final(self).database_name == old(self).database_name,
            final(self).client == old(self).client,
    {
        let names = match listed {
            Ok(names) => names,
            Err(_) => Vec::new(),
        };
        let nodes = schema_nodes(names, self.database_name.as_str());
        self.schemas_state = LoadState::Loaded(nodes);
    }
}

/// A schema in the tree and the tables and views inside it.
pub struct SchemaNode<T> {
    pub schema_name: String,
    pub tables_state: LoadState<Vec<T>>,
    pub views_state: LoadState<Vec<T>>,
    pub db_name: String,
}

/// What a listing gives: the items found, or none when it failed.
pub open spec fn listed_or_empty<T, E>(r: Result<Vec<T>, E>) -> Seq<T> {
    match r {
        Ok(v) => v@,
        Err(_) => Seq::empty(),
    }
}

fn unwrap_or_empty<T, E>(r: Result<Vec<T>, E>) -> (v: Vec<T>)
    ensures
        v@ == listed_or_empty(r),
{
    match r {
        Ok(v) => v,
        Err(_) => Vec::new(),
    }
}

impl<T> SchemaNode<T> {
    /// A schema whose tables and views are not loaded yet.
    pub fn new(schema_name: String, db_name: String) -> (r: Self)
        ensures
            r.schema_name == schema_name,
            r.db_name == db_name,
            r.tables_state is Idle,
            r.views_state is Idle,
    {
        SchemaNode {
            schema_name,
            tables_state: LoadState::Idle,
            views_state: LoadState::Idle,
            db_name,
        }
    }

    /// Neither tables nor views were ever requested.
    pub fn is_idle(&self) -> (r: bool)
        ensures
            r == (self.tables_state is Idle && self.views_state is Idle),
    {
        self.tables_state.is_idle() && self.views_state.is_idle()
    }

    /// Starts loading the tables unless that was done before; `true` when the
    /// caller should now fetch them.
    pub fn load_tables(&mut self) -> (start: bool)
        ensures
            start == (old(self).tables_state is Idle),
            start ==> final(self).tables_state is Loading,
            !start ==> *final(self) == *old(self),
            final(self).views_state == old(self).views_state,
            final(self).schema_name == old(self).schema_name,
            final(self).db_name == old(self).db_name,
    {
        self.tables_state.begin_load()
    }

    /// Records the tables listed; a failed listing gives an empty list.
    pub fn finish_load_tables<E>(&mut self, tables: Result<Vec<T>, E>)
        ensures
            final(self).tables_state matches LoadState::Loaded(v) && v@ == listed_or_empty(tables),
            final(self).views_state == old(self).views_state,
            final(self).schema_name == old(self).schema_name,
            final(self).db_name == old(self).db_name,
    {
        self.tables_state = LoadState::Loaded(unwrap_or_empty(tables));
    }

    /// Starts loading the views unless that was done before; `true` when the
    /// caller should now fetch them.
    pub fn load_views(&mut self) -> (start: bool)
        ensures
            start == (old(self).views_state is Idle),
            start ==> final(self).views_state is Loading,
            !start ==> *final(self) == *old(self),
            final(self).tables_state == old(self).tables_state,
            final(self).schema_name == old(self).schema_name,
            final(self).db_name == old(self).db_name,
    {
        self.views_state.begin_load()
    }

    /// Records the views listed; a failed listing gives an empty list.
    pub fn finish_load_views<E>(&mut self, views: Result<Vec<T>, E>)
        ensures
            final(self).views_state matches LoadState::Loaded(v) && v@ == listed_or_empty(views),
            final(self).tables_state == old(self).tables_state,
            final(self).schema_name == old(self).schema_name,
            final(self).db_name == old(self).db_name,
    {
        self.views_state = LoadState::Loaded(unwrap_or_empty(views));
    }
}

} // verus!
