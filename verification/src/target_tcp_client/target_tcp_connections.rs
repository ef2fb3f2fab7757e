//! The registry of the target connections that a tunnel session owns.

use crate::target_tcp_client::target_tcp_client::TargetTcpClient;
use crate::target_tcp_client::target_tcp_client::TargetTcpClientView;
use std::collections::hash_map::Entry;
use std::collections::HashMap;
use vstd::prelude::*;

verus! {

broadcast use vstd::std_specs::hash::group_hash_axioms;

/// Maps connection identifiers to the connections registered under them.
pub struct TargetTcpConnections {
    connections: HashMap<u32, TargetTcpClient>,
}

/// The connections of `connections`, each as plain values under its key.
pub open spec fn connections_view(connections: HashMap<u32, TargetTcpClient>) -> Map<
    u32,
    TargetTcpClientView,
> {
    connections@.map_values(|connection: TargetTcpClient| connection@)
}

impl View for TargetTcpConnections {
    type V = Map<u32, TargetTcpClientView>;

    closed spec fn view(&self) -> Map<u32, TargetTcpClientView> {
        connections_view(self.connections)
    }
}

impl TargetTcpConnections {
    /// A registry without connections.
    pub fn new() -> (connections: Self)
        ensures
            connections@ == Map::<u32, TargetTcpClientView>::empty(),
    {
        Self { connections: HashMap::new() }
    }

    /// Registers `connection` under its identifier. A connection that was
    /// registered under the same identifier leaves the registry and is dropped,
    /// which closes its write queue.
    pub fn add(&mut self, connection: TargetTcpClient)
        ensures
            final(self)@ == old(self)@.insert(connection@.id, connection@),
    {
        let _ = self.connections.insert(connection.id(), connection);
    }

    /// The connection registered under `connection_id`, if there is one.
    pub fn get(&self, connection_id: u32) -> (connection: Option<&TargetTcpClient>)
        ensures
            connection is Some <==> self@.contains_key(connection_id),
            connection matches Some(found) ==> found@ == self@[connection_id],
    {
        self.connections.get(&connection_id)
    }

    /// The connection registered under `connection_id`, for the caller to
    /// change in place.
    pub fn get_mut(&mut self, connection_id: u32) -> (connection: Option<&mut TargetTcpClient>)
        ensures
            connection is Some <==> old(self)@.contains_key(connection_id),
            match connection {
                Some(found) => found@ == old(self)@[connection_id] && final(self)@ == old(
                    self,
                )@.insert(connection_id, final(found)@),
                None => final(self)@ == old(self)@,
            },
    {
        match self.connections.entry(connection_id) {
            Entry::Occupied(occupied) => Some(occupied.into_mut()),
            Entry::Vacant(_) => None,
        }
    }

    /// Takes the connection registered under `connection_id` out of the registry
    /// and hands it to the caller.
    pub fn remove(&mut self, connection_id: u32) -> (connection: Option<TargetTcpClient>)
        ensures
            final(self)@ == old(self)@.remove(connection_id),
            connection is Some <==> old(self)@.contains_key(connection_id),
            connection matches Some(removed) ==> removed@ == old(self)@[connection_id],
    {
        self.connections.remove(&connection_id)
    }

    /// Gives up the registry and hands all its connections to the caller.
    pub fn remove_all(self) -> (connections: HashMap<u32, TargetTcpClient>)
        ensures
            connections_view(connections) == self@,
    {
        self.connections
    }
}

} // verus!
