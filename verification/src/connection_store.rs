//! The list of database connections and which of them is active.
use vstd::prelude::*;
use crate::tab_manager::active_consistent;
use crate::connection::{ConnectionChildren, DatabaseConnection};
use crate::connection_form::ConnectionSettings;

verus! {

/// The active position after removing the connection at `index`: it stays
/// where it was unless it fell off the end, then it moves to the new last
/// connection, or is gone when none is left.
pub open spec fn active_after_remove(len: nat, active: Option<usize>, index: usize) -> Option<
    usize,
> {
    if index < len {
        match active {
            Some(a) => if a >= len - 1 {
                if len - 1 == 0 {
                    None
                } else {
                    Some((len - 2) as usize)
                }
            } else {
                Some(a)
            },
            None => None,
        }
    } else {
        active
    }
}

/// The open connections, each a handle of the caller's choosing, and the
/// position of the active one.
pub struct ConnectionStore<C> {
    connections: Vec<C>,
    active_index: Option<usize>,
}

impl<C> ConnectionStore<C> {
    #[verifier::type_invariant]
    spec fn consistent(self) -> bool {
        active_consistent(self.connections@.len(), self.active_index)
    }

    /// The connections, in the order they were added.
    pub closed spec fn connection_seq(&self) -> Seq<C> {
        self.connections@
    }

    /// The position of the active connection.
    pub closed spec fn active(&self) -> Option<usize> {
        self.active_index
    }

    /// No connections.
    pub fn new() -> (r: Self)
        ensures
            r.connection_seq().len() == 0,
            r.active() is None,
    {
        ConnectionStore { connections: Vec::new(), active_index: None }
    }

    /// Puts `connection` after the others as it is; the first one becomes
    /// active, later ones leave the active connection as it was.
    pub fn push_connection(&mut self, connection: C)
        ensures
            final(self).connection_seq() == old(self).connection_seq().push(connection),
            final(self).active() == match old(self).active() {
                Some(a) => Some(a),
                None => Some(0usize),
            },
            active_consistent(final(self).connection_seq().len(), final(self).active()),
    {
        let mut taken = ConnectionStore::new();
        std::mem::swap(&mut taken, self);
        proof {
            use_type_invariant(&taken);
        }
        let ConnectionStore { mut connections, active_index } = taken;
        connections.push(connection);
        let active_index = match active_index {
            Some(a) => Some(a),
            None => Some(0),
        };
        *self = ConnectionStore { connections, active_index };
    }

    /// The connections, in order.
    pub fn connections(&self) -> (r: &[C])
        ensures
            r@ == self.connection_seq(),
            active_consistent(self.connection_seq().len(), self.active()),
    {
        proof {
            use_type_invariant(self);
        }
        self.connections.as_slice()
    }

    /// The active connection, if any.
    pub fn active_connection(&self) -> (r: Option<&C>)
        ensures
            match self.active() {
                Some(i) => r matches Some(c) && *c == self.connection_seq()[i as int],
                None => r is None,
            },
    {
        proof {
            use_type_invariant(self);
        }
        match self.active_index {
            Some(i) => Some(&self.connections[i]),
            None => None,
        }
    }

    /// Makes the connection at `index` active; nothing happens when there is
    /// none there.
    pub fn set_active(&mut self, index: usize)
        ensures
            final(self).connection_seq() == old(self).connection_seq(),
            final(self).active() == if index < old(self).connection_seq().len() {
                Some(index)
            } else {
                old(self).active()
            },
    {
        if index < self.connections.len() {
            self.active_index = Some(index);
        }
    }

    /// Removes the connection at `index`; nothing happens when there is none
    /// there.
    pub fn remove_connection(&mut self, index: usize)
        ensures
            final(self).connection_seq() == if index < old(self).connection_seq().len() {
                old(self).connection_seq().remove(index as int)
            } else {
                old(self).connection_seq()
            },
            final(self).active() == active_after_remove(
                old(self).connection_seq().len(),
                old(self).active(),
                index,
            ),
            active_consistent(final(self).connection_seq().len(), final(self).active()),
    {
        proof {
            use_type_invariant(&*self);
        }
        if index < self.connections.len() {
            let mut taken = ConnectionStore::new();
            std::mem::swap(&mut taken, self);
            let ConnectionStore { mut connections, active_index } = taken;
            connections.remove(index);
            let n = connections.len();
            let active_index = match active_index {
                Some(active) => if active >= n {
                    if n == 0 {
                        None
                    } else {
                        Some(n - 1)
                    }
                } else {
                    Some(active)
                },
                None => None,
            };
            *self = ConnectionStore { connections, active_index };
        }
    }
}

/// Law: whatever is removed, a store whose active position was consistent
/// stays consistent.
pub proof fn lemma_remove_keeps_active_consistent(len: nat, active: Option<usize>, index: usize)
    requires
        active_consistent(len, active),
    ensures
        active_consistent(
            if index < len {
                (len - 1) as nat
            } else {
                len
            },
            active_after_remove(len, active, index),
        ),
{
}

impl<Cl, D, S> ConnectionStore<DatabaseConnection<Cl, D, S>> {
    /// Adds a new connection named `name` with the settings `config` after
    /// the others and starts connecting it: it is connecting, with no client and no
    /// children, and the caller now connects it (reporting the outcome with
    /// `DatabaseConnection::finish_connect`). The first connection added
    /// becomes active; later ones leave the active connection as it was.
    pub fn add_connection(&mut self, name: String, config: ConnectionSettings)
        ensures
            final(self).connection_seq().len() == old(self).connection_seq().len() + 1,
            final(self).connection_seq().drop_last() == old(self).connection_seq(),
            final(self).connection_seq().last().name == name,
            final(self).connection_seq().last().config == config,
            final(self).connection_seq().last().kind == config.kind_spec(),
            final(self).connection_seq().last().status is Connecting,
            final(self).connection_seq().last().client is None,
            final(self).connection_seq().last().children matches ConnectionChildren::Schemas(v)
                && v@.len() == 0,
            final(self).active() == match old(self).active() {
                Some(a) => Some(a),
                None => Some(0usize),
            },
    {
        let mut connection = DatabaseConnection::new(name, config);
        connection.begin_connect();
        self.push_connection(connection);
    }
}

/// Law: removing a connection placed after the active one leaves the active
/// position, and so the active connection itself, as they were.
pub proof fn lemma_remove_after_active<C>(conns: Seq<C>, a: usize, index: usize)
    requires
        a < index,
        (index as int) < conns.len(),
    ensures
        active_after_remove(conns.len(), Some(a), index) == Some(a),
        conns.remove(index as int)[a as int] == conns[a as int],
{
}

} // verus!
