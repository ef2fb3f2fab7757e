//! One tunnel session: the transport connection it runs on and the target
//! connections it owns.

use crate::target_tcp_client::target_tcp_client::TargetTcpClient;
use crate::target_tcp_client::target_tcp_client::TargetTcpClientView;
use crate::target_tcp_client::target_tcp_connections::connections_view;
use crate::target_tcp_client::target_tcp_connections::TargetTcpConnections;
use crate::tcp_tunnel::tunnel_message::TunnelMessage;
use crate::tcp_tunnel::tunnel_message::TunnelMessageView;
use crate::tcp_tunnel::tunnel_message::TunnelSend;
use crate::tcp_tunnel::tunnel_message::TunnelSendView;
use std::collections::HashMap;
use vstd::prelude::*;

verus! {

broadcast use vstd::std_specs::hash::group_hash_axioms;

/// One instance of "the tunnel is up".
pub struct TcpTunnel {
    tunnel_connection: i32,
    target_connections: TargetTcpConnections,
}

/// A session as plain values.
pub ghost struct TcpTunnelView {
    /// The transport connection that the session sends on.
    pub tunnel_connection: i32,
    /// The registered target connections, by identifier.
    pub target_connections: Map<u32, TargetTcpClientView>,
}

impl TcpTunnelView {
    /// A session on `tunnel_connection` that owns no target connection yet.
    pub open spec fn fresh(tunnel_connection: i32) -> Self {
        TcpTunnelView { tunnel_connection, target_connections: Map::empty() }
    }

    /// The session with `connection` registered under its identifier.
    pub open spec fn with_target(self, connection: TargetTcpClientView) -> Self {
        TcpTunnelView {
            target_connections: self.target_connections.insert(connection.id, connection),
            ..self
        }
    }

    /// The session without a connection under `connection_id`.
    pub open spec fn without_target(self, connection_id: u32) -> Self {
        TcpTunnelView { target_connections: self.target_connections.remove(connection_id), ..self }
    }

    /// The session after one attempt to queue `payload` for the connection
    /// under `connection_id`. Without such a connection nothing changes.
    pub open spec fn with_payload(self, connection_id: u32, payload: Seq<u8>, accepted: bool) -> Self {
        if self.target_connections.contains_key(connection_id) {
            TcpTunnelView {
                target_connections: self.target_connections.insert(
                    connection_id,
                    self.target_connections[connection_id].enqueued(Some(payload), accepted),
                ),
                ..self
            }
        } else {
            self
        }
    }

    /// The order to send `message` on this session's transport connection.
    pub open spec fn send(self, message: TunnelMessageView) -> TunnelSendView {
        TunnelSendView { tunnel_connection: self.tunnel_connection, message }
    }
}

/// Whether `after` holds the connections of `before`, each of them disconnected.
pub open spec fn all_disconnected(
    before: Map<u32, TargetTcpClientView>,
    after: Map<u32, TargetTcpClientView>,
) -> bool {
    &&& after.dom() == before.dom()
    &&& forall|id: u32| #[trigger]
        before.contains_key(id) ==> after[id].is_disconnection_of(before[id])
}

impl View for TcpTunnel {
    type V = TcpTunnelView;

    closed spec fn view(&self) -> TcpTunnelView {
        TcpTunnelView {
            tunnel_connection: self.tunnel_connection,
            target_connections: self.target_connections@,
        }
    }
}

/// A target connection that has left its session: disconnected, with the
/// notification that is owed upstream, if one is.
#[derive(Debug)]
pub struct DisconnectedTarget {
    pub connection: TargetTcpClient,
    pub notification: Option<TunnelSend>,
}

/// The identifiers under which `connections` holds a connection.
fn registered_ids(connections: &HashMap<u32, TargetTcpClient>) -> (ids: Vec<u32>)
    ensures
        forall|id: u32| connections@.contains_key(id) <==> ids@.contains(id),
{
    let mut ids: Vec<u32> = Vec::new();
    for id in iter: connections.keys()
        invariant
            iter.seq().unref().to_set() == connections@.dom(),
            forall|i: int| 0 <= i < ids@.len() ==> connections@.contains_key(#[trigger] ids@[i]),
            forall|j: int|
                0 <= j < iter.index() ==> ids@.contains(#[trigger] iter.seq().unref()[j]),
    {
        proof {
            let n = iter.index();
            assert(iter.seq().unref()[n] == *id);
            assert(iter.seq().unref().to_set().contains(*id));
            let before = ids@;
            assert forall|j: int| 0 <= j < n + 1 implies before.push(*id).contains(
                #[trigger] iter.seq().unref()[j],
            ) by {
                if j < n {
                    let k = choose|k: int|
                        0 <= k < before.len() && before[k] == iter.seq().unref()[j];
                    assert(before.push(*id)[k] == iter.seq().unref()[j]);
                } else {
                    assert(before.push(*id)[before.len() as int] == *id);
                }
            }
        }
        ids.push(*id);
    }
    proof {
        assert forall|id: u32| connections@.contains_key(id) implies ids@.contains(id) by {
            assert(connections@.dom().contains(id));
        }
    }
    ids
}

impl TcpTunnel {
    /// A session on the transport connection `tunnel_connection`, without
    /// target connections.
    pub fn new(tunnel_connection: i32) -> (tunnel: Self)
        ensures
            tunnel@ == TcpTunnelView::fresh(tunnel_connection),
    {
        Self { tunnel_connection, target_connections: TargetTcpConnections::new() }
    }

    /// The transport connection that the session sends on.
    pub fn get_tunnel_connection(&self) -> (tunnel_connection: i32)
        ensures
            tunnel_connection == self@.tunnel_connection,
    {
        self.tunnel_connection
    }

    /// The order to send `payload` upstream as bytes of `connection_id`.
    pub fn send_payload_to_tunnel(&self, connection_id: u32, payload: Vec<u8>) -> (send: TunnelSend)
        ensures
            send@ == self@.send(
                TunnelMessageView::Payload { id: connection_id, payload: payload@ },
            ),
    {
        TunnelSend {
            tunnel_connection: self.tunnel_connection,
            message: TunnelMessage::Payload { id: connection_id, payload },
        }
    }

    /// The order to tell upstream that `connection_id` has closed.
    fn send_disconnect_to_tunnel(&self, connection_id: u32) -> (send: TunnelSend)
        ensures
            send@ == self@.send(TunnelMessageView::Disconnected(connection_id)),
    {
        TunnelSend {
            tunnel_connection: self.tunnel_connection,
            message: TunnelMessage::Disconnected(connection_id),
        }
    }

    /// Registers a target connection under its identifier.
    pub fn add_target_connection(&mut self, tcp_client_to_target: TargetTcpClient)
        ensures
            final(self)@ == old(self)@.with_target(tcp_client_to_target@),
    {
        self.target_connections.add(tcp_client_to_target);
    }

    /// Queues `payload` for the target connection under `connection_id`. For an
    /// identifier that is not registered nothing happens. The result says
    /// whether a write queue took the payload.
    pub fn send_payload_to_target(&mut self, connection_id: u32, payload: Vec<u8>) -> (accepted:
        bool)
        ensures
            final(self)@ == old(self)@.with_payload(connection_id, payload@, accepted),
            accepted ==> old(self)@.target_connections.contains_key(connection_id),
    {
        match self.target_connections.get_mut(connection_id) {
            Some(target_connection) => target_connection.send_payload(payload),
            None => false,
        }
    }

    /// Takes the target connection under `connection_id` out of the session,
    /// disconnects it and returns it with the notification for upstream. For an
    /// identifier that is not registered nothing happens.
    pub fn disconnect_target_connection(&mut self, connection_id: u32) -> (disconnected: Option<
        DisconnectedTarget,
    >)
        ensures
            final(self)@ == old(self)@.without_target(connection_id),
            disconnected is Some <==> old(self)@.target_connections.contains_key(connection_id),
            disconnected matches Some(target) ==> {
                &&& target.connection@.is_disconnection_of(
                    old(self)@.target_connections[connection_id],
                )
                &&& target.notification matches Some(send)
                &&& send@ == old(self)@.send(TunnelMessageView::Disconnected(connection_id))
            },
    {
        match self.target_connections.remove(connection_id) {
            Some(mut removed_connection) => {
                let _ = removed_connection.disconnect();
                let notification = self.send_disconnect_to_tunnel(connection_id);
                Some(
                    DisconnectedTarget {
                        connection: removed_connection,
                        notification: Some(notification),
                    },
                )
            },
            None => None,
        }
    }

    /// Ends the session: disconnects every target connection it owns and hands
    /// them to the caller, by identifier. Nothing is sent upstream.
    pub fn dispose(self) -> (connections: HashMap<u32, TargetTcpClient>)
        ensures
            all_disconnected(self@.target_connections, connections_view(connections)),
    {
        let ghost before = self@.target_connections;
        let mut connections = self.target_connections.remove_all();
        let ids = registered_ids(&connections);
        let mut i: usize = 0;
        while i < ids.len()
            invariant
                i <= ids.len(),
                forall|id: u32| connections@.contains_key(id) <==> ids@.contains(id),
                connections@.dom() == before.dom(),
                forall|id: u32| #[trigger]
                    before.contains_key(id) ==> connections@[id]@ == before[id]
                        || connections@[id]@.is_disconnection_of(before[id]),
                forall|j: int|
                    0 <= j < i ==> connections@[#[trigger] ids@[j]]@.is_disconnection_of(
                        before[ids@[j]],
                    ),
            decreases ids.len() - i,
        {
            let id = ids[i];
            assert(ids@.contains(id));
            match connections.remove(&id) {
                Some(mut connection) => {
                    let _ = connection.disconnect();
                    let _ = connections.insert(id, connection);
                },
                None => {},
            }
            i += 1;
        }
        proof {
            assert forall|id: u32| #[trigger] before.contains_key(id) implies connections_view(
                connections,
            )[id].is_disconnection_of(before[id]) by {
                assert(before.dom().contains(id));
                assert(connections@.dom().contains(id));
                assert(connections@.contains_key(id));
                assert(ids@.contains(id));
                let j = choose|j: int| 0 <= j < ids@.len() && ids@[j] == id;
                assert(connections@[ids@[j]]@.is_disconnection_of(before[ids@[j]]));
            }
            assert(connections_view(connections).dom() =~= before.dom());
        }
        connections
    }
}

} // verus!
