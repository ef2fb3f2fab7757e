//! A connection to a target host: its write queue, its read and write paths,
//! and the registry of the connections that a tunnel session owns.

pub mod target_tcp_callbacks;
pub mod target_tcp_client;
pub mod target_tcp_connections;
pub mod write_queue;

pub use target_tcp_client::TargetTcpClient;
pub use target_tcp_client::TargetTcpClientView;
pub use target_tcp_connections::TargetTcpConnections;
pub use target_tcp_callbacks::TargetTcpCallbacks;
