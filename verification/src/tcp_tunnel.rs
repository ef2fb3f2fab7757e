//! The tunnel: its messages, one session of it, the holder of the current
//! session, and the handling of what the transport reports.

pub mod tcp_tunnel;
pub mod tunnel_message;
pub mod tunnel_tcp_connection;
pub mod tunnel_tcp_events;

pub use tcp_tunnel::DisconnectedTarget;
pub use tcp_tunnel::TcpTunnel;
pub use tcp_tunnel::TcpTunnelView;
pub use tunnel_message::TunnelMessage;
pub use tunnel_message::TunnelMessageView;
pub use tunnel_message::TunnelSend;
pub use tunnel_message::TunnelSendView;
pub use tunnel_tcp_connection::DisconnectReason;
pub use tunnel_tcp_connection::TunnelTcpConnection;
pub use tunnel_tcp_connection::TunnelTcpConnectionView;
pub use tunnel_tcp_events::ConnectCompleted;
pub use tunnel_tcp_events::ConnectionEvent;
pub use tunnel_tcp_events::Handled;
pub use tunnel_tcp_events::TunnelTcpEvents;
