//! The messages of the tunnel protocol, and the order to send one.

use vstd::prelude::*;

verus! {

/// A message of the tunnel protocol. How it is laid out in bytes is the
/// transport's concern.
#[derive(Debug, PartialEq, Eq)]
pub enum TunnelMessage {
    /// Keep-alive request.
    Ping,
    /// Keep-alive answer.
    Pong,
    /// Sent once after the transport connected; carries the handshake phrase.
    Greeting(String),
    /// The tunnel server asks for a connection to `remote_host_port`.
    ConnectTo { id: u32, remote_host_port: String },
    /// The connection to the target stands.
    Connected(u32),
    /// No connection to the target could be opened.
    CanNotConnect { id: u32, reason: String },
    /// The connection has closed on the sender's side.
    Disconnected(u32),
    /// Bytes of the connection, in either direction.
    Payload { id: u32, payload: Vec<u8> },
}

/// A message as plain values.
pub ghost enum TunnelMessageView {
    Ping,
    Pong,
    Greeting(Seq<char>),
    ConnectTo { id: u32, remote_host_port: Seq<char> },
    Connected(u32),
    CanNotConnect { id: u32, reason: Seq<char> },
    Disconnected(u32),
    Payload { id: u32, payload: Seq<u8> },
}

impl View for TunnelMessage {
    type V = TunnelMessageView;

    open spec fn view(&self) -> TunnelMessageView {
        match *self {
            TunnelMessage::Ping => TunnelMessageView::Ping,
            TunnelMessage::Pong => TunnelMessageView::Pong,
            TunnelMessage::Greeting(phrase) => TunnelMessageView::Greeting(phrase@),
            TunnelMessage::ConnectTo { id, remote_host_port } => TunnelMessageView::ConnectTo {
                id,
                remote_host_port: remote_host_port@,
            },
            TunnelMessage::Connected(id) => TunnelMessageView::Connected(id),
            TunnelMessage::CanNotConnect { id, reason } => TunnelMessageView::CanNotConnect {
                id,
                reason: reason@,
            },
            TunnelMessage::Disconnected(id) => TunnelMessageView::Disconnected(id),
            TunnelMessage::Payload { id, payload } => TunnelMessageView::Payload {
                id,
                payload: payload@,
            },
        }
    }
}

/// The order to send `message` upstream on the transport connection
/// `tunnel_connection`. The library decides it; the caller performs it once the
/// tunnel's state is no longer held.
#[derive(Debug, PartialEq, Eq)]
pub struct TunnelSend {
    pub tunnel_connection: i32,
    pub message: TunnelMessage,
}

/// An order to send, as plain values.
pub ghost struct TunnelSendView {
    pub tunnel_connection: i32,
    pub message: TunnelMessageView,
}

impl View for TunnelSend {
    type V = TunnelSendView;

    open spec fn view(&self) -> TunnelSendView {
        TunnelSendView { tunnel_connection: self.tunnel_connection, message: self.message@ }
    }
}

/// An order to send that may be absent, as plain values.
pub open spec fn send_view(send: Option<TunnelSend>) -> Option<TunnelSendView> {
    match send {
        Some(send) => Some(send@),
        None => None,
    }
}

} // verus!
