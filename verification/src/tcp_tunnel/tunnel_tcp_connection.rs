//! The holder of the current tunnel session.

use crate::target_tcp_client::target_tcp_client::TargetTcpClient;
use crate::target_tcp_client::target_tcp_client::TargetTcpClientView;
use crate::target_tcp_client::target_tcp_connections::connections_view;
use crate::tcp_tunnel::tcp_tunnel::all_disconnected;
use crate::tcp_tunnel::tcp_tunnel::DisconnectedTarget;
use crate::tcp_tunnel::tcp_tunnel::TcpTunnel;
use crate::tcp_tunnel::tcp_tunnel::TcpTunnelView;
use crate::tcp_tunnel::tunnel_message::send_view;
use crate::tcp_tunnel::tunnel_message::TunnelMessage;
use crate::tcp_tunnel::tunnel_message::TunnelMessageView;
use crate::tcp_tunnel::tunnel_message::TunnelSend;
use crate::tcp_tunnel::tunnel_message::TunnelSendView;
use std::collections::HashMap;
use vstd::prelude::*;

verus! {

/// Which side closed a target connection.
#[derive(Debug, Clone, Copy, PartialEq, Eq)]
pub enum DisconnectReason {
    /// The tunnel server said so; it needs no notification.
    DisconnectedFromSideA,
    /// The connection ended on this side; the tunnel server is told.
    DisconnectedFromSideB,
}

/// Holds the current tunnel session, or none. The program keeps one of these
/// behind a lock and makes every call under that lock; what a call returns is
/// performed after the lock is released.
pub struct TunnelTcpConnection {
    tcp_tunnel: Option<TcpTunnel>,
}

/// The holder as plain values.
pub ghost struct TunnelTcpConnectionView {
    /// The current session, if the tunnel is up.
    pub tcp_tunnel: Option<TcpTunnelView>,
}

impl TunnelTcpConnectionView {
    /// No session.
    pub open spec fn idle() -> Self {
        TunnelTcpConnectionView { tcp_tunnel: None }
    }

    /// A new session on `tunnel_connection`, without target connections.
    pub open spec fn established(tunnel_connection: i32) -> Self {
        TunnelTcpConnectionView { tcp_tunnel: Some(TcpTunnelView::fresh(tunnel_connection)) }
    }

    /// Whether a session is up.
    pub open spec fn is_connected(self) -> bool {
        self.tcp_tunnel is Some
    }

    /// The target connections of the current session; none without a session.
    pub open spec fn target_connections(self) -> Map<u32, TargetTcpClientView> {
        match self.tcp_tunnel {
            Some(tunnel) => tunnel.target_connections,
            None => Map::empty(),
        }
    }

    /// Whether the current session has a target connection under `connection_id`.
    pub open spec fn has_target(self, connection_id: u32) -> bool {
        self.target_connections().contains_key(connection_id)
    }

    /// The holder after `connection` was offered for registration: registered
    /// if a session is up, unchanged otherwise.
    pub open spec fn with_target(self, connection: TargetTcpClientView) -> Self {
        match self.tcp_tunnel {
            Some(tunnel) => TunnelTcpConnectionView {
                tcp_tunnel: Some(tunnel.with_target(connection)),
            },
            None => self,
        }
    }

    /// The holder without a target connection under `connection_id`.
    pub open spec fn without_target(self, connection_id: u32) -> Self {
        match self.tcp_tunnel {
            Some(tunnel) => TunnelTcpConnectionView {
                tcp_tunnel: Some(tunnel.without_target(connection_id)),
            },
            None => self,
        }
    }

    /// The holder after one attempt to queue `payload` for the target
    /// connection under `connection_id`.
    pub open spec fn with_payload(self, connection_id: u32, payload: Seq<u8>, accepted: bool) -> Self {
        match self.tcp_tunnel {
            Some(tunnel) => TunnelTcpConnectionView {
                tcp_tunnel: Some(tunnel.with_payload(connection_id, payload, accepted)),
            },
            None => self,
        }
    }

    /// The order to send `message` upstream: on the current session's transport
    /// connection, and none without a session.
    pub open spec fn send(self, message: TunnelMessageView) -> Option<TunnelSendView> {
        match self.tcp_tunnel {
            Some(tunnel) => Some(tunnel.send(message)),
            None => None,
        }
    }

    /// What is owed upstream when the target connection under `connection_id`
    /// is closed for `reason`: a notification if the connection is registered
    /// and ended on this side, nothing otherwise.
    pub open spec fn disconnect_notification(
        self,
        connection_id: u32,
        reason: DisconnectReason,
    ) -> Option<TunnelSendView> {
        if self.has_target(connection_id) && reason is DisconnectedFromSideB {
            self.send(TunnelMessageView::Disconnected(connection_id))
        } else {
            None
        }
    }
}

impl View for TunnelTcpConnection {
    type V = TunnelTcpConnectionView;

    closed spec fn view(&self) -> TunnelTcpConnectionView {
        TunnelTcpConnectionView {
            tcp_tunnel: match self.tcp_tunnel {
                Some(tunnel) => Some(tunnel@),
                None => None,
            },
        }
    }
}

/// Whether `disposed` is what ending the session of `before` hands out: nothing
/// without a session, else its target connections, each disconnected.
pub open spec fn is_disposal_of(
    disposed: Option<HashMap<u32, TargetTcpClient>>,
    before: TunnelTcpConnectionView,
) -> bool {
    match disposed {
        Some(connections) => before.is_connected() && all_disconnected(
            before.target_connections(),
            connections_view(connections),
        ),
        None => !before.is_connected(),
    }
}

impl TunnelTcpConnection {
    /// A holder without a session.
    pub fn new() -> (connection: Self)
        ensures
            connection@ == TunnelTcpConnectionView::idle(),
    {
        Self { tcp_tunnel: None }
    }

    /// Registers a newly opened target connection with the current session and
    /// returns the order to tell upstream that it stands. Without a session the
    /// connection comes back untouched: nothing will ever route its data, and
    /// the caller closes it.
    pub fn new_target_connection_established(&mut self, target_tcp_client: TargetTcpClient) -> (send:
        Result<TunnelSend, TargetTcpClient>)
        ensures
            final(self)@ == old(self)@.with_target(target_tcp_client@),
            match send {
                Ok(send) => Some(send@) == old(self)@.send(
                    TunnelMessageView::Connected(target_tcp_client@.id),
                ),
                Err(returned) => !old(self)@.is_connected() && returned == target_tcp_client,
            },
    {
        match &mut self.tcp_tunnel {
            Some(tunnel) => {
                let id = target_tcp_client.id();
                let tunnel_connection = tunnel.get_tunnel_connection();
                tunnel.add_target_connection(target_tcp_client);
                Ok(TunnelSend { tunnel_connection, message: TunnelMessage::Connected(id) })
            },
            None => Err(target_tcp_client),
        }
    }

    /// The transport connection of the current session.
    fn get_tunnel_connection(&self) -> (tunnel_connection: Option<i32>)
        ensures
            tunnel_connection == match self@.tcp_tunnel {
                Some(tunnel) => Some(tunnel.tunnel_connection),
                None => None,
            },
    {
        match &self.tcp_tunnel {
            Some(tunnel) => Some(tunnel.get_tunnel_connection()),
            None => None,
        }
    }

    /// The order to tell upstream that no connection to the target of
    /// `connection_id` could be opened, for the reason `err`. Without a session
    /// there is nobody to tell.
    pub fn send_can_not_establish_target_connection_to_tunnel(
        &self,
        connection_id: u32,
        err: String,
    ) -> (send: Option<TunnelSend>)
        ensures
            send_view(send) == self@.send(
                TunnelMessageView::CanNotConnect { id: connection_id, reason: err@ },
            ),
    {
        match self.get_tunnel_connection() {
            Some(tunnel_connection) => Some(
                TunnelSend {
                    tunnel_connection,
                    message: TunnelMessage::CanNotConnect { id: connection_id, reason: err },
                },
            ),
            None => None,
        }
    }

    /// Takes the target connection under `connection_id` out of the current
    /// session and disconnects it. It is returned together with the
    /// notification for upstream, which is owed only when the connection ended
    /// on this side. Without a session, or for an identifier that is not
    /// registered, nothing happens.
    pub fn disconnect_target_tcp_connection(
        &mut self,
        connection_id: u32,
        reason: DisconnectReason,
    ) -> (disconnected: Option<DisconnectedTarget>)
        ensures
            final(self)@ == old(self)@.without_target(connection_id),
            disconnected is Some <==> old(self)@.has_target(connection_id),
            disconnected matches Some(target) ==> {
                &&& target.connection@.is_disconnection_of(
                    old(self)@.target_connections()[connection_id],
                )
                &&& send_view(target.notification) == old(self)@.disconnect_notification(
                    connection_id,
                    reason,
                )
            },
    {
        match &mut self.tcp_tunnel {
            Some(tunnel) => {
                match tunnel.disconnect_target_connection(connection_id) {
                    Some(target) => {
                        match reason {
                            DisconnectReason::DisconnectedFromSideB => Some(target),
                            DisconnectReason::DisconnectedFromSideA => Some(
                                DisconnectedTarget {
                                    connection: target.connection,
                                    notification: None,
                                },
                            ),
                        }
                    },
                    None => None,
                }
            },
            None => None,
        }
    }

    /// Queues `payload` for the target connection under `connection_id`.
    /// Without a session, or for an identifier that is not registered, nothing
    /// happens: the target has closed in the meantime. The result says whether a
    /// write queue took the payload.
    pub fn send_payload_to_target(&mut self, connection_id: u32, payload: Vec<u8>) -> (accepted:
        bool)
        ensures
            final(self)@ == old(self)@.with_payload(connection_id, payload@, accepted),
            accepted ==> old(self)@.has_target(connection_id),
    {
        match &mut self.tcp_tunnel {
            Some(tunnel) => tunnel.send_payload_to_target(connection_id, payload),
            None => false,
        }
    }

    /// Installs a new session on the transport connection `tunnel_connection`.
    /// A session that was up is ended first: its target connections are
    /// disconnected and handed to the caller. From here on nothing is sent on
    /// the old session's transport connection.
    pub fn tunnel_is_connected(&mut self, tunnel_connection: i32) -> (disposed: Option<
        HashMap<u32, TargetTcpClient>,
    >)
        ensures
            final(self)@ == TunnelTcpConnectionView::established(tunnel_connection),
            is_disposal_of(disposed, old(self)@),
    {
        let new_tunnel = TcpTunnel::new(tunnel_connection);
        let old_tunnel = self.tcp_tunnel.take();
        self.tcp_tunnel = Some(new_tunnel);
        match old_tunnel {
            Some(old_tunnel) => Some(old_tunnel.dispose()),
            None => None,
        }
    }

    /// Ends the current session, if one is up: its target connections are
    /// disconnected and handed to the caller. Nothing is sent upstream.
    pub fn tunnel_is_disconnected(&mut self) -> (disposed: Option<HashMap<u32, TargetTcpClient>>)
        ensures
            final(self)@ == TunnelTcpConnectionView::idle(),
            is_disposal_of(disposed, old(self)@),
    {
        match self.tcp_tunnel.take() {
            Some(old_tunnel) => Some(old_tunnel.dispose()),
            None => None,
        }
    }

    /// The order to send `payload` upstream as bytes of the connection `id`, or
    /// none without a session: then nothing will ever consume what the target
    /// sends, and the caller stops reading.
    pub fn send_payload_to_tunnel(&self, id: u32, payload: Vec<u8>) -> (send: Option<TunnelSend>)
        ensures
            send_view(send) == self@.send(TunnelMessageView::Payload { id, payload: payload@ }),
    {
        match &self.tcp_tunnel {
            Some(tunnel) => Some(tunnel.send_payload_to_tunnel(id, payload)),
            None => None,
        }
    }
}

/// The holder after the transport has connected on each of
/// `tunnel_connections` in turn.
pub open spec fn after_connects(
    tunnel: TunnelTcpConnectionView,
    tunnel_connections: Seq<i32>,
) -> TunnelTcpConnectionView
    decreases tunnel_connections.len(),
{
    if tunnel_connections.len() == 0 {
        tunnel
    } else {
        after_connects(
            TunnelTcpConnectionView::established(tunnel_connections[0]),
            tunnel_connections.drop_first(),
        )
    }
}

/// The sessions that are ended while the transport connects on each of
/// `tunnel_connections` in turn: one entry for each connect, which holds the
/// session that was up when the connect came, or none.
pub open spec fn sessions_ended(
    tunnel: TunnelTcpConnectionView,
    tunnel_connections: Seq<i32>,
) -> Seq<Option<TcpTunnelView>>
    decreases tunnel_connections.len(),
{
    if tunnel_connections.len() == 0 {
        Seq::empty()
    } else {
        seq![tunnel.tcp_tunnel] + sessions_ended(
            TunnelTcpConnectionView::established(tunnel_connections[0]),
            tunnel_connections.drop_first(),
        )
    }
}

/// Over any run of connects, every session is ended exactly once, by the
/// connect that follows the one which installed it, and before the new session
/// can be seen: the first connect ends the session that was up at the start, if
/// one was; each later connect ends the session of the connect before it, which
/// had no target connections yet; and after the run the session of the last
/// connect is up and no other.
pub proof fn lemma_each_session_is_ended_once(
    tunnel: TunnelTcpConnectionView,
    tunnel_connections: Seq<i32>,
)
    ensures
        sessions_ended(tunnel, tunnel_connections).len() == tunnel_connections.len(),
        tunnel_connections.len() > 0 ==> sessions_ended(tunnel, tunnel_connections)[0]
            == tunnel.tcp_tunnel,
        forall|i: int|
            1 <= i < tunnel_connections.len() ==> #[trigger] sessions_ended(
                tunnel,
                tunnel_connections,
            )[i] == Some(TcpTunnelView::fresh(tunnel_connections[i - 1])),
        tunnel_connections.len() > 0 ==> after_connects(tunnel, tunnel_connections)
            == TunnelTcpConnectionView::established(tunnel_connections.last()),
        tunnel_connections.len() == 0 ==> after_connects(tunnel, tunnel_connections) == tunnel,
    decreases tunnel_connections.len(),
{
    if tunnel_connections.len() > 0 {
        let next = TunnelTcpConnectionView::established(tunnel_connections[0]);
        let rest = tunnel_connections.drop_first();
        lemma_each_session_is_ended_once(next, rest);
        let ended = sessions_ended(tunnel, tunnel_connections);
        assert forall|i: int| 1 <= i < tunnel_connections.len() implies #[trigger] ended[i] == Some(
            TcpTunnelView::fresh(tunnel_connections[i - 1]),
        ) by {
            assert(ended[i] == sessions_ended(next, rest)[i - 1]);
            if i > 1 {
                assert(rest[i - 2] == tunnel_connections[i - 1]);
            }
        }
        if rest.len() > 0 {
            assert(rest.last() == tunnel_connections.last());
        }
    }
}

/// Closing a target connection twice is closing it once. After the first call
/// for `connection_id` the session does not know the identifier, so a second
/// call takes nothing out, changes nothing and owes upstream nothing. Where the
/// connection was registered and ended on this side, the first call therefore
/// gives the one notification that there is.
pub proof fn lemma_target_is_disconnected_once(
    tunnel: TunnelTcpConnectionView,
    connection_id: u32,
    reason: DisconnectReason,
)
    ensures
        !tunnel.without_target(connection_id).has_target(connection_id),
        tunnel.without_target(connection_id).without_target(connection_id)
            == tunnel.without_target(connection_id),
        tunnel.without_target(connection_id).disconnect_notification(connection_id, reason)
            is None,
        tunnel.has_target(connection_id) && reason is DisconnectedFromSideB
            ==> tunnel.disconnect_notification(connection_id, reason) == Some(
            TunnelSendView {
                tunnel_connection: tunnel.tcp_tunnel->0.tunnel_connection,
                message: TunnelMessageView::Disconnected(connection_id),
            },
        ),
{
    let once = tunnel.without_target(connection_id);
    match tunnel.tcp_tunnel {
        Some(session) => {
            assert(session.target_connections.remove(connection_id).remove(connection_id)
                =~= session.target_connections.remove(connection_id));
        },
        None => {},
    }
}

/// Without a session nothing is registered and nothing goes upstream: no
/// target connection is known, a connection that is offered is not taken, and
/// every message for upstream comes to no order to send.
pub proof fn lemma_nothing_happens_without_session(
    connection: TargetTcpClientView,
    message: TunnelMessageView,
)
    ensures
        !TunnelTcpConnectionView::idle().has_target(connection.id),
        TunnelTcpConnectionView::idle().with_target(connection) == TunnelTcpConnectionView::idle(),
        TunnelTcpConnectionView::idle().send(message) is None,
{
}

} // verus!
