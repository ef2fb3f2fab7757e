//! The far side of a TCP tunnel: one multiplexed control connection to the tunnel
//! server, and on its behalf real TCP connections to target hosts, keyed by a
//! connection identifier.
//!
//! The library holds the decisions: which target connections a tunnel session
//! owns, what is queued for each of them, what is sent upstream and when a
//! connection or a whole session is torn down. Sockets, timers and tasks belong
//! to the program around it, which feeds the library what happened and performs
//! what the library answers.

pub mod settings_model;
pub mod target_tcp_client;
pub mod tcp_tunnel;
