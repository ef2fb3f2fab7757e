use tokio::sync::mpsc::error::TryRecvError;
use tokio::sync::mpsc::unbounded_channel;
use tokio::sync::mpsc::UnboundedReceiver;
use traffic_forwarder_b::target_tcp_client::TargetTcpClient;
use traffic_forwarder_b::tcp_tunnel::DisconnectReason;
use traffic_forwarder_b::tcp_tunnel::TcpTunnel;
use traffic_forwarder_b::tcp_tunnel::TunnelMessage;
use traffic_forwarder_b::tcp_tunnel::TunnelSend;
use traffic_forwarder_b::tcp_tunnel::TunnelTcpConnection;

fn target(id: u32) -> (TargetTcpClient, UnboundedReceiver<Option<Vec<u8>>>) {
    let (sender, receiver) = unbounded_channel();
    let client = TargetTcpClient::new(id, "10.0.0.1:80".to_string(), Ok(sender)).unwrap();
    (client, receiver)
}

fn send(tunnel_connection: i32, message: TunnelMessage) -> TunnelSend {
    TunnelSend { tunnel_connection, message }
}

#[test]
fn session_sends_on_its_transport_connection() {
    let tunnel = TcpTunnel::new(11);
    assert_eq!(tunnel.get_tunnel_connection(), 11);
    assert_eq!(
        tunnel.send_payload_to_tunnel(4, vec![1, 2, 3]),
        send(11, TunnelMessage::Payload { id: 4, payload: vec![1, 2, 3] })
    );
}

#[test]
fn session_routes_payload_to_registered_target_only() {
    let mut tunnel = TcpTunnel::new(1);
    let (client, mut receiver) = target(8);
    tunnel.add_target_connection(client);
    assert!(tunnel.send_payload_to_target(8, vec![5]));
    assert!(!tunnel.send_payload_to_target(9, vec![6]));
    assert_eq!(receiver.try_recv(), Ok(Some(vec![5])));
    assert_eq!(receiver.try_recv(), Err(TryRecvError::Empty));
}

#[test]
fn session_disconnects_target_and_owes_notification() {
    let mut tunnel = TcpTunnel::new(-2);
    let (client, mut receiver) = target(8);
    tunnel.add_target_connection(client);
    let disconnected = tunnel.disconnect_target_connection(8).unwrap();
    assert_eq!(disconnected.connection.id(), 8);
    assert!(disconnected.connection.is_disconnected());
    assert_eq!(disconnected.notification, Some(send(-2, TunnelMessage::Disconnected(8))));
    assert_eq!(receiver.try_recv(), Ok(None));
    assert!(tunnel.disconnect_target_connection(8).is_none());
    assert!(!tunnel.send_payload_to_target(8, vec![1]));
}

#[test]
fn dispose_disconnects_every_target() {
    let mut tunnel = TcpTunnel::new(1);
    let (first, mut first_receiver) = target(1);
    let (second, mut second_receiver) = target(2);
    let (mut third, mut third_receiver) = target(3);
    assert!(third.disconnect());
    tunnel.add_target_connection(first);
    tunnel.add_target_connection(second);
    tunnel.add_target_connection(third);
    assert!(tunnel.send_payload_to_target(2, vec![2]));
    let disposed = tunnel.dispose();
    assert_eq!(disposed.len(), 3);
    assert!(disposed[&1].is_disconnected());
    assert!(disposed[&2].is_disconnected());
    assert!(disposed[&3].is_disconnected());
    assert_eq!(first_receiver.try_recv(), Ok(None));
    assert_eq!(second_receiver.try_recv(), Ok(Some(vec![2])));
    assert_eq!(second_receiver.try_recv(), Ok(None));
    assert_eq!(third_receiver.try_recv(), Ok(None));
    assert_eq!(third_receiver.try_recv(), Err(TryRecvError::Empty));
}

#[test]
fn dispose_of_empty_session_hands_out_nothing() {
    assert!(TcpTunnel::new(1).dispose().is_empty());
}

#[test]
fn nothing_goes_upstream_without_session() {
    let connection = TunnelTcpConnection::new();
    assert_eq!(connection.send_payload_to_tunnel(1, vec![1]), None);
    assert_eq!(
        connection.send_can_not_establish_target_connection_to_tunnel(1, "refused".to_string()),
        None
    );
}

#[test]
fn target_is_not_registered_without_session() {
    let mut connection = TunnelTcpConnection::new();
    let (client, mut receiver) = target(3);
    let returned = connection.new_target_connection_established(client).unwrap_err();
    assert_eq!(returned.id(), 3);
    assert!(!returned.is_disconnected());
    assert_eq!(receiver.try_recv(), Err(TryRecvError::Empty));
    assert!(!connection.send_payload_to_target(3, vec![1]));
    assert!(connection
        .disconnect_target_tcp_connection(3, DisconnectReason::DisconnectedFromSideB)
        .is_none());
    assert!(connection.tunnel_is_disconnected().is_none());
}

#[test]
fn established_target_is_announced_and_routed() {
    let mut connection = TunnelTcpConnection::new();
    assert!(connection.tunnel_is_connected(21).is_none());
    let (client, mut receiver) = target(3);
    assert_eq!(
        connection.new_target_connection_established(client).unwrap(),
        send(21, TunnelMessage::Connected(3))
    );
    assert!(connection.send_payload_to_target(3, vec![0x01, 0x02]));
    assert_eq!(receiver.try_recv(), Ok(Some(vec![0x01, 0x02])));
    assert_eq!(
        connection.send_payload_to_tunnel(3, vec![0xff]),
        Some(send(21, TunnelMessage::Payload { id: 3, payload: vec![0xff] }))
    );
    assert_eq!(
        connection.send_can_not_establish_target_connection_to_tunnel(4, "no route".to_string()),
        Some(send(21, TunnelMessage::CanNotConnect { id: 4, reason: "no route".to_string() }))
    );
}

#[test]
fn disconnecting_twice_notifies_and_removes_once() {
    let mut connection = TunnelTcpConnection::new();
    connection.tunnel_is_connected(1);
    let (client, mut receiver) = target(3);
    connection.new_target_connection_established(client).unwrap();
    let first = connection
        .disconnect_target_tcp_connection(3, DisconnectReason::DisconnectedFromSideB)
        .unwrap();
    assert_eq!(first.notification, Some(send(1, TunnelMessage::Disconnected(3))));
    assert!(first.connection.is_disconnected());
    assert!(connection
        .disconnect_target_tcp_connection(3, DisconnectReason::DisconnectedFromSideB)
        .is_none());
    assert_eq!(receiver.try_recv(), Ok(None));
    assert_eq!(receiver.try_recv(), Err(TryRecvError::Empty));
}

#[test]
fn disconnect_from_side_a_owes_no_notification() {
    let mut connection = TunnelTcpConnection::new();
    connection.tunnel_is_connected(1);
    let (client, mut receiver) = target(3);
    connection.new_target_connection_established(client).unwrap();
    let disconnected = connection
        .disconnect_target_tcp_connection(3, DisconnectReason::DisconnectedFromSideA)
        .unwrap();
    assert_eq!(disconnected.notification, None);
    assert!(disconnected.connection.is_disconnected());
    assert_eq!(receiver.try_recv(), Ok(None));
}

#[test]
fn disconnect_of_unknown_target_does_nothing() {
    let mut connection = TunnelTcpConnection::new();
    connection.tunnel_is_connected(1);
    let (client, mut receiver) = target(3);
    connection.new_target_connection_established(client).unwrap();
    assert!(connection
        .disconnect_target_tcp_connection(4, DisconnectReason::DisconnectedFromSideB)
        .is_none());
    assert!(connection.send_payload_to_target(3, vec![1]));
    assert_eq!(receiver.try_recv(), Ok(Some(vec![1])));
}

#[test]
fn new_session_disposes_the_one_before() {
    let mut connection = TunnelTcpConnection::new();
    assert!(connection.tunnel_is_connected(1).is_none());
    let (client, mut receiver) = target(3);
    connection.new_target_connection_established(client).unwrap();
    let disposed = connection.tunnel_is_connected(2).unwrap();
    assert_eq!(disposed.len(), 1);
    assert!(disposed[&3].is_disconnected());
    assert_eq!(receiver.try_recv(), Ok(None));
    assert!(!connection.send_payload_to_target(3, vec![1]));
    assert_eq!(
        connection.send_payload_to_tunnel(3, vec![]),
        Some(send(2, TunnelMessage::Payload { id: 3, payload: vec![] }))
    );
    let disposed = connection.tunnel_is_connected(3).unwrap();
    assert!(disposed.is_empty());
}

#[test]
fn lost_session_disconnects_target_and_sends_nothing() {
    let mut connection = TunnelTcpConnection::new();
    connection.tunnel_is_connected(1);
    let (client, mut receiver) = target(3);
    connection.new_target_connection_established(client).unwrap();
    let disposed = connection.tunnel_is_disconnected().unwrap();
    assert_eq!(disposed.len(), 1);
    assert!(disposed[&3].is_disconnected());
    assert_eq!(receiver.try_recv(), Ok(None));
    assert_eq!(connection.send_payload_to_tunnel(3, vec![1]), None);
    assert!(connection.tunnel_is_disconnected().is_none());
}

#[test]
fn payload_for_unregistered_target_has_no_effect() {
    let mut connection = TunnelTcpConnection::new();
    connection.tunnel_is_connected(1);
    let (client, mut receiver) = target(3);
    connection.new_target_connection_established(client).unwrap();
    assert!(!connection.send_payload_to_target(5, vec![0x01, 0x02]));
    assert_eq!(receiver.try_recv(), Err(TryRecvError::Empty));
    assert!(connection
        .disconnect_target_tcp_connection(5, DisconnectReason::DisconnectedFromSideA)
        .is_none());
}
