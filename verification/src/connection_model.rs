//! A connection that lists the tables and views of its database directly.
use vstd::prelude::*;
use crate::connection::ConnectionStatus;

verus! {

/// A connection with its tables and views, and, once connected, its client
/// handle.
pub struct DatabaseConnection<Cl, Tb> {
    pub name: String,
    pub status: ConnectionStatus,
    pub tables: Vec<Tb>,
    pub views: Vec<String>,
    pub client: Option<Cl>,
}

impl<Cl, Tb> DatabaseConnection<Cl, Tb> {
    /// A connection not yet connected, with no tables or views.
    pub fn new(name: String) -> (r: Self)
        ensures
            r.name == name,
            r.status is Disconnected,
            r.tables@.len() == 0,
            r.views@.len() == 0,
            r.client is None,
    {
        DatabaseConnection {
            name,
            status: ConnectionStatus::Disconnected,
            tables: Vec::new(),
            views: Vec::new(),
            client: None,
        }
    }

    /// Starts connecting, unless the connection is connecting or online
    /// already; `true` when the caller should now connect.
    pub fn begin_connect(&mut self) -> (start: bool)
        ensures
            start == !(old(self).status is Connecting || old(self).status is Online),
            start ==> final(self).status is Connecting,
            !start ==> final(self).status == old(self).status,
            final(self).tables == old(self).tables,
            final(self).views == old(self).views,
            final(self).client == old(self).client,
    {
        if self.status.is_connecting() || self.status.is_connected() {
            return false;
        }
        self.status = ConnectionStatus::Connecting;
        true
    }

    /// Records the outcome of connecting: on success the client with the
    /// tables and views it listed (an empty list where listing failed), and
    /// the connection is online; on failure the error message.
    pub fn finish_connect(&mut self, result: Result<(Cl, Vec<Tb>, Vec<String>), String>)
        ensures
            match result {
                Ok(t) => final(self).client == Some(t.0) && final(self).tables == t.1
                    && final(self).views == t.2 && final(self).status is Online,
                Err(m) => final(self).status == ConnectionStatus::Error(m) && final(self).client
                    == old(self).client && final(self).tables == old(self).tables
                    && final(self).views == old(self).views,
            },
            final(self).name == old(self).name,
    {
        match result {
            Ok((client, tables, views)) => {
                self.client = Some(client);
                self.tables = tables;
                self.views = views;
                self.status = ConnectionStatus::Online;
            },
            Err(e) => {
                self.status = ConnectionStatus::Error(e);
            },
        }
    }

    /// A refresh of the metadata is possible only with a client.
    pub fn refresh_metadata(&self) -> (r: bool)
        ensures
            r == (self.client is Some),
    {
        self.client.is_some()
    }

    /// Records refreshed tables and views.
    pub fn finish_refresh(&mut self, tables: Vec<Tb>, views: Vec<String>)
        ensures
            final(self).tables == tables,
            final(self).views == views,
            final(self).status == old(self).status,
            final(self).client == old(self).client,
            final(self).name == old(self).name,
    {
        self.tables = tables;
        self.views = views;
    }

    /// Drops the client, tables and views; the connection is disconnected.
    pub fn disconnect(&mut self)
        ensures
            final(self).client is None,
            final(self).status is Disconnected,
            final(self).tables@.len() == 0,
            final(self).views@.len() == 0,
            final(self).name == old(self).name,
    {
        self.client = None;
        self.status = ConnectionStatus::Disconnected;
        self.tables = Vec::new();
        self.views = Vec::new();
    }

    /// A click on the connection in the sidebar refreshes its metadata when
    /// it is online and has no tables yet.
    pub fn wants_refresh_on_click(&self) -> (r: bool)
        ensures
            r == (self.tables@.len() == 0 && self.status is Online),
    {
        self.tables.len() == 0 && self.status.is_connected()
    }
}

} // verus!
