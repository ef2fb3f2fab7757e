//! What the read path of a target connection reports to the tunnel.

use crate::tcp_tunnel::tcp_tunnel::DisconnectedTarget;
use crate::tcp_tunnel::tunnel_message::send_view;
use crate::tcp_tunnel::tunnel_message::TunnelMessageView;
use crate::tcp_tunnel::tunnel_message::TunnelSend;
use crate::tcp_tunnel::tunnel_tcp_connection::DisconnectReason;
use crate::tcp_tunnel::tunnel_tcp_connection::TunnelTcpConnection;
use vstd::prelude::*;

verus! {

/// The callbacks of the read path of one target connection.
pub struct TargetTcpCallbacks {
    id: u32,
}

impl TargetTcpCallbacks {
    /// The callbacks of the target connection `id`.
    pub fn new(id: u32) -> (callbacks: Self)
        ensures
            callbacks.id() == id,
    {
        Self { id }
    }

    /// The identifier of the target connection that reports here.
    pub closed spec fn id(&self) -> u32 {
        self.id
    }

    /// The target connection has ended on this side: it leaves the session, is
    /// disconnected, and the tunnel server is owed the notification that comes
    /// back with it. If the session no longer knows the connection, nothing
    /// happens.
    pub fn on_disconnected(&self, tunnel: &mut TunnelTcpConnection) -> (disconnected: Option<
        DisconnectedTarget,
    >)
        ensures
            final(tunnel)@ == old(tunnel)@.without_target(self.id()),
            disconnected is Some <==> old(tunnel)@.has_target(self.id()),
            disconnected matches Some(target) ==> {
                &&& target.connection@.is_disconnection_of(
                    old(tunnel)@.target_connections()[self.id()],
                )
                &&& send_view(target.notification) == old(tunnel)@.disconnect_notification(
                    self.id(),
                    DisconnectReason::DisconnectedFromSideB,
                )
            },
    {
        tunnel.disconnect_target_tcp_connection(self.id, DisconnectReason::DisconnectedFromSideB)
    }

    /// The target has sent `payload`: the order to pass it upstream, or none if
    /// no session is up.
    pub fn on_payload(&self, tunnel: &TunnelTcpConnection, payload: Vec<u8>) -> (send: Option<
        TunnelSend,
    >)
        ensures
            send_view(send) == tunnel@.send(
                TunnelMessageView::Payload { id: self.id(), payload: payload@ },
            ),
    {
        tunnel.send_payload_to_tunnel(self.id, payload)
    }
}

} // verus!
