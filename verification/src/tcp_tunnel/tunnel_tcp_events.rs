//! What the tunnel side does about each event that the transport reports.

use crate::settings_model::SettingsModel;
use crate::target_tcp_client::target_tcp_client::can_not_connect_reason;
use crate::target_tcp_client::target_tcp_client::TargetTcpClient;
use crate::target_tcp_client::target_tcp_client::TargetTcpClientView;
use crate::target_tcp_client::write_queue::accepted_entries;
use crate::tcp_tunnel::tcp_tunnel::DisconnectedTarget;
use crate::tcp_tunnel::tunnel_message::send_view;
use crate::tcp_tunnel::tunnel_message::TunnelMessage;
use crate::tcp_tunnel::tunnel_message::TunnelMessageView;
use crate::tcp_tunnel::tunnel_message::TunnelSend;
use crate::tcp_tunnel::tunnel_message::TunnelSendView;
use crate::tcp_tunnel::tunnel_tcp_connection::is_disposal_of;
use crate::tcp_tunnel::tunnel_tcp_connection::DisconnectReason;
use crate::tcp_tunnel::tunnel_tcp_connection::TunnelTcpConnection;
use crate::tcp_tunnel::tunnel_tcp_connection::TunnelTcpConnectionView;
use std::collections::HashMap;
use vstd::prelude::*;

verus! {

/// What the transport reports.
#[derive(Debug, PartialEq, Eq)]
pub enum ConnectionEvent {
    /// The transport connection with this number stands.
    Connected(i32),
    /// The transport connection with this number is gone.
    Disconnected(i32),
    /// A message arrived on the transport connection.
    Payload { connection: i32, payload: TunnelMessage },
}

/// An event as plain values.
pub ghost enum ConnectionEventView {
    Connected(i32),
    Disconnected(i32),
    Payload { connection: i32, payload: TunnelMessageView },
}

impl View for ConnectionEvent {
    type V = ConnectionEventView;

    open spec fn view(&self) -> ConnectionEventView {
        match *self {
            ConnectionEvent::Connected(connection) => ConnectionEventView::Connected(connection),
            ConnectionEvent::Disconnected(connection) => ConnectionEventView::Disconnected(
                connection,
            ),
            ConnectionEvent::Payload { connection, payload } => ConnectionEventView::Payload {
                connection,
                payload: payload@,
            },
        }
    }
}

/// What handling an event came to: what the caller has to do now, and what the
/// event has closed.
#[derive(Debug)]
pub enum Handled {
    /// A new session is up. `greeting` is to be sent on its transport
    /// connection. `disposed` holds the target connections of the session that
    /// it replaced, if one was up, each disconnected.
    SessionStarted { greeting: TunnelSend, disposed: Option<HashMap<u32, TargetTcpClient>> },
    /// No session is up any more. `disposed` holds the target connections of
    /// the session that was, if one was up, each disconnected.
    SessionEnded { disposed: Option<HashMap<u32, TargetTcpClient>> },
    /// The tunnel server asks for a connection. The caller dials
    /// `remote_host_port` in a task of its own, so that further messages are
    /// not held up, and reports how the dial ended.
    ConnectRequested { id: u32, remote_host_port: String },
    /// The tunnel server has closed a connection. If it was registered, it is
    /// enclosed, disconnected; the tunnel server is not told what it knows.
    TargetDisconnected(Option<DisconnectedTarget>),
    /// Bytes for a target connection; `accepted` says whether a write queue
    /// took them.
    PayloadRouted { accepted: bool },
    /// A message that calls for nothing on this side.
    Ignored,
}

/// Whether `handled` and the holder `after` are what a message `payload` from
/// the tunnel server makes of the holder `before`.
///
/// `ConnectTo` asks the caller for a dial and leaves the session as it is until
/// the dial has ended. `Disconnected` takes the target connection out and
/// disconnects it, and owes the tunnel server nothing. `Payload` goes to the
/// write queue of its target connection, or nowhere if the identifier is not
/// registered. All other messages call for nothing.
pub open spec fn payload_handled(
    before: TunnelTcpConnectionView,
    payload: TunnelMessageView,
    after: TunnelTcpConnectionView,
    handled: Handled,
) -> bool {
    match payload {
        TunnelMessageView::ConnectTo { id, remote_host_port } => {
            &&& after == before
            &&& handled matches Handled::ConnectRequested { id: asked_id, remote_host_port: asked }
            &&& asked_id == id
            &&& asked@ == remote_host_port
        },
        TunnelMessageView::Disconnected(id) => {
            &&& after == before.without_target(id)
            &&& handled matches Handled::TargetDisconnected(disconnected)
            &&& disconnected is Some <==> before.has_target(id)
            &&& disconnected matches Some(target) ==> {
                &&& target.connection@.is_disconnection_of(before.target_connections()[id])
                &&& target.notification is None
            }
        },
        TunnelMessageView::Payload { id, payload } => {
            &&& handled matches Handled::PayloadRouted { accepted }
            &&& after == before.with_payload(id, payload, accepted)
            &&& accepted ==> before.has_target(id)
        },
        _ => after == before && handled is Ignored,
    }
}

/// Whether `handled` and the holder `after` are what an event of the transport
/// makes of the holder `before`, where `hand_shake_phrase` is the phrase from
/// the settings.
///
/// A new transport connection becomes the session, in place of the one that
/// was up, and is greeted with the handshake phrase. A lost transport
/// connection ends the session. A message is handled as `payload_handled`
/// says.
pub open spec fn event_handled(
    hand_shake_phrase: Seq<char>,
    before: TunnelTcpConnectionView,
    event: ConnectionEventView,
    after: TunnelTcpConnectionView,
    handled: Handled,
) -> bool {
    match event {
        ConnectionEventView::Connected(connection) => {
            &&& after == TunnelTcpConnectionView::established(connection)
            &&& handled matches Handled::SessionStarted { greeting, disposed }
            &&& greeting@ == TunnelSendView {
                tunnel_connection: connection,
                message: TunnelMessageView::Greeting(hand_shake_phrase),
            }
            &&& is_disposal_of(disposed, before)
        },
        ConnectionEventView::Disconnected(_) => {
            &&& after == TunnelTcpConnectionView::idle()
            &&& handled matches Handled::SessionEnded { disposed }
            &&& is_disposal_of(disposed, before)
        },
        ConnectionEventView::Payload { connection, payload } => payload_handled(
            before,
            payload,
            after,
            handled,
        ),
    }
}

/// How a dial that the tunnel server asked for has ended, once the session
/// has been told.
#[derive(Debug)]
pub struct ConnectCompleted {
    /// What to send upstream: that the connection stands, or why there is none.
    pub send: Option<TunnelSend>,
    /// The connection that was opened while no session was up: it has been
    /// disconnected and is registered nowhere.
    pub abandoned: Option<TargetTcpClient>,
}

/// Handles the events of the tunnel's transport.
pub struct TunnelTcpEvents {
    settings: SettingsModel,
}

impl TunnelTcpEvents {
    /// A handler that greets the tunnel server with the phrase of `settings`.
    pub fn new(settings: SettingsModel) -> (events: Self)
        ensures
            events.hand_shake_phrase() == settings.tunnel_hand_shake_phrase@,
    {
        Self { settings }
    }

    /// The phrase that every new transport connection is greeted with.
    pub closed spec fn hand_shake_phrase(&self) -> Seq<char> {
        self.settings.tunnel_hand_shake_phrase@
    }

    /// Handles one message from the tunnel server, as `payload_handled` says.
    pub fn handle_payload(&self, tunnel: &mut TunnelTcpConnection, payload: TunnelMessage) -> (handled:
        Handled)
        ensures
            payload_handled(old(tunnel)@, payload@, final(tunnel)@, handled),
    {
        match payload {
            TunnelMessage::Ping => Handled::Ignored,
            TunnelMessage::Pong => Handled::Ignored,
            TunnelMessage::ConnectTo { id, remote_host_port } => Handled::ConnectRequested {
                id,
                remote_host_port,
            },
            TunnelMessage::Connected(_) => Handled::Ignored,
            TunnelMessage::CanNotConnect { id: _, reason: _ } => Handled::Ignored,
            TunnelMessage::Disconnected(id) => Handled::TargetDisconnected(
                tunnel.disconnect_target_tcp_connection(
                    id,
                    DisconnectReason::DisconnectedFromSideA,
                ),
            ),
            TunnelMessage::Payload { id, payload } => Handled::PayloadRouted {
                accepted: tunnel.send_payload_to_target(id, payload),
            },
            TunnelMessage::Greeting(_) => Handled::Ignored,
        }
    }

    /// Tells the session how the dial for `id` to `host_port` ended; `dialed` is
    /// what `TargetTcpClient::new` takes. A connection that was opened is
    /// registered and announced upstream as connected. If no session is up any
    /// more, it is disconnected at once instead, since nothing will ever route
    /// its data. A failed dial is reported upstream with its reason and
    /// changes nothing.
    pub fn target_connect_completed(
        tunnel: &mut TunnelTcpConnection,
        id: u32,
        host_port: String,
        dialed: Result<tokio::sync::mpsc::UnboundedSender<Option<Vec<u8>>>, String>,
    ) -> (completed: ConnectCompleted)
        ensures
            match dialed {
                Ok(sender) => {
                    let opened = TargetTcpClientView {
                        id,
                        disconnected: false,
                        queued: accepted_entries(sender),
                    };
                    &&& final(tunnel)@ == old(tunnel)@.with_target(opened)
                    &&& send_view(completed.send) == old(tunnel)@.send(
                        TunnelMessageView::Connected(id),
                    )
                    &&& completed.abandoned is Some <==> !old(tunnel)@.is_connected()
                    &&& completed.abandoned matches Some(connection)
                        ==> connection@.is_disconnection_of(opened)
                },
                Err(cause) => {
                    &&& final(tunnel)@ == old(tunnel)@
                    &&& send_view(completed.send) == old(tunnel)@.send(
                        TunnelMessageView::CanNotConnect {
                            id,
                            reason: can_not_connect_reason(host_port@, cause@),
                        },
                    )
                    &&& completed.abandoned is None
                },
            },
    {
        match TargetTcpClient::new(id, host_port, dialed) {
            Ok(connection) => {
                match tunnel.new_target_connection_established(connection) {
                    Ok(send) => ConnectCompleted { send: Some(send), abandoned: None },
                    Err(mut connection) => {
                        let _ = connection.disconnect();
                        ConnectCompleted { send: None, abandoned: Some(connection) }
                    },
                }
            },
            Err(err) => {
                let send = tunnel.send_can_not_establish_target_connection_to_tunnel(id, err);
                ConnectCompleted { send, abandoned: None }
            },
        }
    }

    /// Handles one event of the transport, as `event_handled` says.
    pub fn handle(&self, tunnel: &mut TunnelTcpConnection, connection_event: ConnectionEvent) -> (handled:
        Handled)
        ensures
            event_handled(
                self.hand_shake_phrase(),
                old(tunnel)@,
                connection_event@,
                final(tunnel)@,
                handled,
            ),
    {
        match connection_event {
            ConnectionEvent::Connected(connection) => {
                let disposed = tunnel.tunnel_is_connected(connection);
                Handled::SessionStarted {
                    greeting: TunnelSend {
                        tunnel_connection: connection,
                        message: TunnelMessage::Greeting(
                            self.settings.tunnel_hand_shake_phrase.clone(),
                        ),
                    },
                    disposed,
                }
            },
            ConnectionEvent::Disconnected(_connection) => Handled::SessionEnded {
                disposed: tunnel.tunnel_is_disconnected(),
            },
            ConnectionEvent::Payload { connection: _, payload } => self.handle_payload(
                tunnel,
                payload,
            ),
        }
    }
}

} // verus!
